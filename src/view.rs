use vstd::prelude::*;

use crate::catalog::Job;
use crate::class::{all_classes, Class};
use crate::index::ClassIndex;
use crate::theme::Theme;

verus! {

/// The path of the image named `src`.
pub open spec fn image_path(src: Seq<char>) -> Seq<char> {
    "assets/jobs/"@ + src + ".png"@
}

/// What the view shows of a theme.
pub struct ThemeModel {
    pub theme: Theme,
    pub value: Seq<char>,
    pub label: Seq<char>,
}

/// What the view shows of a class filter button.
pub struct ButtonModel {
    pub class: Class,
    pub label: Seq<char>,
    pub style: Seq<char>,
    pub active: bool,
}

/// What the view shows of a job card.
pub struct CardModel {
    pub name: Seq<char>,
    pub image: Seq<char>,
}

/// What the whole view shows.
pub struct ScreenModel {
    pub theme: ThemeModel,
    pub buttons: Seq<ButtonModel>,
    pub cards: Seq<CardModel>,
}

/// The theme attributes of `t`.
pub open spec fn theme_model(t: Theme) -> ThemeModel {
    ThemeModel { theme: t, value: t.token(), label: t.label() }
}

/// The filter button of class `c` while `selected` is the active filter.
pub open spec fn button_model(c: Class, selected: Class) -> ButtonModel {
    ButtonModel { class: c, label: c.label(), style: c.style(), active: c == selected }
}

/// The card of job `j`.
pub open spec fn card_model(j: Job) -> CardModel {
    CardModel { name: j.name@, image: image_path(j.src@) }
}

/// The view for the jobs `jobs` of the selected class, that class and the theme.
pub open spec fn screen_model(jobs: Seq<Job>, selected: Class, theme: Theme) -> ScreenModel {
    ScreenModel {
        theme: theme_model(theme),
        buttons: all_classes().map_values(|c: Class| button_model(c, selected)),
        cards: jobs.map_values(|j: Job| card_model(j)),
    }
}

/// The active theme's attributes.
pub struct ThemeAttributes {
    pub theme: Theme,
    /// The theme's token, used as the style attribute.
    pub value: String,
    pub label: String,
}

impl View for ThemeAttributes {
    type V = ThemeModel;

    open spec fn view(&self) -> ThemeModel {
        ThemeModel { theme: self.theme, value: self.value@, label: self.label@ }
    }
}

/// A class filter button.
pub struct ClassButton {
    pub class: Class,
    pub label: String,
    pub style: String,
    /// Whether this class is the active filter.
    pub active: bool,
}

impl View for ClassButton {
    type V = ButtonModel;

    open spec fn view(&self) -> ButtonModel {
        ButtonModel { class: self.class, label: self.label@, style: self.style@, active: self.active }
    }
}

/// A job card: the job's name and its image.
pub struct CardView {
    pub name: String,
    pub image: String,
}

impl View for CardView {
    type V = CardModel;

    open spec fn view(&self) -> CardModel {
        CardModel { name: self.name@, image: self.image@ }
    }
}

/// Everything that is rendered: theme, filter buttons and job cards.
pub struct ViewModel {
    pub theme: ThemeAttributes,
    pub buttons: Vec<ClassButton>,
    pub cards: Vec<CardView>,
}

impl View for ViewModel {
    type V = ScreenModel;

    open spec fn view(&self) -> ScreenModel {
        ScreenModel {
            theme: self.theme@,
            buttons: self.buttons@.map_values(|b: ClassButton| b@),
            cards: self.cards@.map_values(|c: CardView| c@),
        }
    }
}

/// The image path of the job image named `src`.
pub fn image_of(src: &str) -> (r: String)
    ensures
        r@ == image_path(src@),
{
    String::from_str("assets/jobs/").concat(src).concat(".png")
}

pub fn theme_attributes(theme: Theme) -> (r: ThemeAttributes)
    ensures
        r@ == theme_model(theme),
{
    ThemeAttributes { theme, value: theme.value(), label: theme.name() }
}

/// One button for each class, in display order, with `selected` active.
pub fn class_buttons(selected: Class) -> (r: Vec<ClassButton>)
    ensures
        r@.map_values(|b: ClassButton| b@) == all_classes().map_values(
            |c: Class| button_model(c, selected),
        ),
{
    let classes = Class::all();
    let mut r: Vec<ClassButton> = Vec::new();
    let mut i: usize = 0;
    while i < classes.len()
        invariant
            classes@ == all_classes(),
            i <= classes@.len(),
            r@.len() == i,
            forall|k: int| 0 <= k < i ==> (#[trigger] r@[k])@ == button_model(classes@[k], selected),
        decreases classes.len() - i,
    {
        let c = classes[i];
        r.push(ClassButton { class: c, label: c.as_string(), style: c.button_style(), active: c == selected });
        i = i + 1;
    }
    assert(r@.map_values(|b: ClassButton| b@) =~= all_classes().map_values(
        |c: Class| button_model(c, selected),
    ));
    r
}

pub fn card_of(job: &Job) -> (r: CardView)
    ensures
        r@ == card_model(*job),
{
    CardView { name: job.name.clone(), image: image_of(job.src.as_str()) }
}

/// The cards of the jobs of class `class`, in catalog order.
pub fn cards_of(index: &ClassIndex, class: Class) -> (r: Vec<CardView>)
    requires
        index.wf(),
    ensures
        r@.map_values(|c: CardView| c@) == index.bucket(class).map_values(|j: Job| card_model(j)),
{
    let n = index.count(class);
    let mut r: Vec<CardView> = Vec::new();
    let mut i: usize = 0;
    while i < n
        invariant
            index.wf(),
            n == index.bucket(class).len(),
            i <= n,
            r@.len() == i,
            forall|k: int| 0 <= k < i ==> (#[trigger] r@[k])@ == card_model(index.bucket(class)[k]),
        decreases n - i,
    {
        r.push(card_of(index.job_at(class, i)));
        i = i + 1;
    }
    assert(r@.map_values(|c: CardView| c@) =~= index.bucket(class).map_values(|j: Job| card_model(j)));
    r
}

/// Derives what is rendered from the index, the selected class and the theme.
pub fn project(index: &ClassIndex, class: Class, theme: Theme) -> (r: ViewModel)
    requires
        index.wf(),
    ensures
        r@ == screen_model(index.bucket(class), class, theme),
{
    ViewModel {
        theme: theme_attributes(theme),
        buttons: class_buttons(class),
        cards: cards_of(index, class),
    }
}

/// Two projections of the same index, class and theme show the same thing.
pub proof fn lemma_projection_deterministic(
    index: ClassIndex,
    class: Class,
    theme: Theme,
    a: ViewModel,
    b: ViewModel,
)
    requires
        a@ == screen_model(index.bucket(class), class, theme),
        b@ == screen_model(index.bucket(class), class, theme),
    ensures
        a@ == b@,
{
}

} // verus!
