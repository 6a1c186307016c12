use job_cards::catalog::{load, Job, SchemaError};
use job_cards::class::Class;
use job_cards::index::ClassIndex;
use job_cards::state::{ThemeStore, UiState};
use job_cards::theme::Theme;
use job_cards::view::project;

fn job(name: &str, src: &str, class: Class) -> Job {
    Job {
        name: name.to_string(),
        src: src.to_string(),
        class,
        branch: String::new(),
        skills: None,
    }
}

fn sample_catalog() -> Vec<Job> {
    vec![
        job("히어로", "hero", Class::Warrior),
        job("아란", "aran", Class::Warrior),
        job("배틀메이지", "battle_mage", Class::Magician),
    ]
}

fn names(index: &ClassIndex, class: Class) -> Vec<String> {
    (0..index.count(class)).map(|k| index.job_at(class, k).name.clone()).collect()
}

#[test]
fn build_groups_sample_catalog() {
    let index = ClassIndex::build(sample_catalog());
    assert_eq!(names(&index, Class::Warrior), vec!["히어로", "아란"]);
    assert_eq!(names(&index, Class::Magician), vec!["배틀메이지"]);
    assert!(names(&index, Class::Bowman).is_empty());
    assert!(names(&index, Class::Thief).is_empty());
    assert!(names(&index, Class::Pirate).is_empty());
}

#[test]
fn project_sample_warrior_cards() {
    let index = ClassIndex::build(sample_catalog());
    let view = project(&index, Class::Warrior, Theme::Default);
    let cards: Vec<(String, String)> = view.cards.iter().map(|c| (c.name.clone(), c.image.clone())).collect();
    assert_eq!(
        cards,
        vec![
            ("히어로".to_string(), "assets/jobs/hero.png".to_string()),
            ("아란".to_string(), "assets/jobs/aran.png".to_string()),
        ]
    );
}

#[test]
fn absent_theme_starts_default() {
    let state = UiState::new(None);
    assert_eq!(state.theme.current(), Theme::Default);
    let index = ClassIndex::build(sample_catalog());
    let view = project(&index, state.selection.current(), state.theme.current());
    assert_eq!(view.theme.value, "default");
    assert_eq!(view.theme.theme, Theme::Default);
}

#[test]
fn select_dark_persists_and_projects_dark() {
    let mut state = UiState::new(None);
    let token = state.select_theme(Theme::Dark);
    assert_eq!(token, "dark");
    let index = ClassIndex::build(sample_catalog());
    let view = project(&index, state.selection.current(), state.theme.current());
    assert_eq!(view.theme.value, "dark");
    assert_eq!(view.theme.label, "Dark");
    assert_eq!(view.theme.theme, Theme::Dark);
}

#[test]
fn load_reads_yaml_catalog() {
    let text = "- name: 히어로\n  src: hero\n  class: Warrior\n  branch: 모험가\n  skills:\n    - name: 레이징 블로우\n      src: raging_blow\n      modifier: 데미지 증가\n      tag: [공격, 버프]\n    - name: 콤보 어택\n      src: combo\n      modifier: 콤보\n- name: 배틀메이지\n  src: battle_mage\n  class: Magician\n  branch: 레지스탕스\n";
    let jobs = load(text).unwrap();
    assert_eq!(jobs.len(), 2);
    assert_eq!(jobs[0].name, "히어로");
    assert_eq!(jobs[0].src, "hero");
    assert_eq!(jobs[0].class, Class::Warrior);
    assert_eq!(jobs[0].branch, "모험가");
    let skills = jobs[0].skills.as_ref().unwrap();
    assert_eq!(skills.len(), 2);
    assert_eq!(skills[0].name, "레이징 블로우");
    assert_eq!(skills[0].modifier, "데미지 증가");
    assert_eq!(skills[0].tag, Some(vec!["공격".to_string(), "버프".to_string()]));
    assert_eq!(skills[1].tag, None);
    assert_eq!(jobs[1].class, Class::Magician);
    assert!(jobs[1].skills.is_none());
}

#[test]
fn load_rejects_unknown_class() {
    let text = "- name: a\n  src: a\n  class: Warrior\n  branch: b\n- name: c\n  src: c\n  class: Knight\n  branch: b\n";
    assert_eq!(load(text).err(), Some(SchemaError::BadRecord(1)));
}

#[test]
fn load_rejects_missing_field() {
    let text = "- name: a\n  class: Warrior\n  branch: b\n";
    assert_eq!(load(text).err(), Some(SchemaError::BadRecord(0)));
}

#[test]
fn load_rejects_non_string_tags() {
    let text = "- name: a\n  src: a\n  class: Pirate\n  branch: b\n  skills:\n    - name: s\n      src: s\n      modifier: m\n      tag: [[x]]\n";
    assert_eq!(load(text).err(), Some(SchemaError::BadRecord(0)));
}

#[test]
fn load_rejects_non_list_document() {
    assert_eq!(load("name: a\n").err(), Some(SchemaError::NotAList));
}

#[test]
fn load_rejects_broken_yaml() {
    assert_eq!(load("- [unclosed\n").err(), Some(SchemaError::NotYaml));
}

#[test]
fn load_accepts_empty_list() {
    assert_eq!(load("[]").unwrap().len(), 0);
}

#[test]
fn theme_store_round_trip() {
    for theme in Theme::all() {
        let mut store = ThemeStore::new(None);
        let token = store.select(theme);
        assert_eq!(store.current(), theme);
        let restarted = ThemeStore::new(Some(token.as_str()));
        assert_eq!(restarted.current(), theme);
    }
}

#[test]
fn theme_store_garbage_falls_back() {
    assert_eq!(ThemeStore::new(Some("neon")).current(), Theme::Default);
    assert_eq!(ThemeStore::new(Some("")).current(), Theme::Default);
    assert_eq!(ThemeStore::new(Some("Dark")).current(), Theme::Default);
    assert_eq!(ThemeStore::new(None).current(), Theme::Default);
    assert_eq!(ThemeStore::new(Some("synthwave")).current(), Theme::Synthwave);
}

#[test]
fn selections_are_isolated() {
    let mut state = UiState::new(Some("aqua"));
    assert_eq!(state.selection.current(), Class::Warrior);
    state.select_class(Class::Thief);
    assert_eq!(state.theme.current(), Theme::Aqua);
    assert_eq!(state.selection.current(), Class::Thief);
    state.select_theme(Theme::Valentine);
    assert_eq!(state.selection.current(), Class::Thief);
    assert_eq!(state.theme.current(), Theme::Valentine);
}

#[test]
fn projection_is_deterministic() {
    let index = ClassIndex::build(sample_catalog());
    let a = project(&index, Class::Magician, Theme::Caramellatte);
    let b = project(&index, Class::Magician, Theme::Caramellatte);
    assert_eq!(a.theme.value, b.theme.value);
    assert_eq!(a.theme.label, b.theme.label);
    assert_eq!(a.buttons.len(), b.buttons.len());
    for (x, y) in a.buttons.iter().zip(b.buttons.iter()) {
        assert_eq!((x.class, &x.label, &x.style, x.active), (y.class, &y.label, &y.style, y.active));
    }
    assert_eq!(a.cards.len(), b.cards.len());
    for (x, y) in a.cards.iter().zip(b.cards.iter()) {
        assert_eq!((&x.name, &x.image), (&y.name, &y.image));
    }
}

#[test]
fn buttons_mark_selected_class() {
    let index = ClassIndex::build(sample_catalog());
    let view = project(&index, Class::Bowman, Theme::Light);
    let got: Vec<(Class, String, String, bool)> =
        view.buttons.iter().map(|b| (b.class, b.label.clone(), b.style.clone(), b.active)).collect();
    assert_eq!(
        got,
        vec![
            (Class::Warrior, "전사".to_string(), "btn-secondary".to_string(), false),
            (Class::Magician, "마법사".to_string(), "btn-info".to_string(), false),
            (Class::Bowman, "궁수".to_string(), "btn-accent".to_string(), true),
            (Class::Thief, "도적".to_string(), "btn-primary".to_string(), false),
            (Class::Pirate, "해적".to_string(), "btn-neutral".to_string(), false),
        ]
    );
    assert!(view.cards.is_empty());
}

#[test]
fn index_keeps_every_job_once() {
    let catalog = vec![
        job("a", "a", Class::Pirate),
        job("b", "b", Class::Thief),
        job("c", "c", Class::Pirate),
        job("d", "d", Class::Warrior),
        job("e", "e", Class::Pirate),
    ];
    let index = ClassIndex::build(catalog);
    let total: usize = Class::all().into_iter().map(|c| index.count(c)).sum();
    assert_eq!(total, 5);
    assert_eq!(names(&index, Class::Pirate), vec!["a", "c", "e"]);
    assert_eq!(names(&index, Class::Thief), vec!["b"]);
    assert_eq!(names(&index, Class::Warrior), vec!["d"]);
}

#[test]
fn empty_catalog_has_empty_buckets() {
    let index = ClassIndex::build(Vec::new());
    for c in Class::all() {
        assert_eq!(index.count(c), 0);
    }
}

#[test]
fn class_names_parse() {
    assert_eq!(Class::from_name("Warrior"), Some(Class::Warrior));
    assert_eq!(Class::from_name("Pirate"), Some(Class::Pirate));
    assert_eq!(Class::from_name("pirate"), None);
    assert_eq!(Class::Thief.as_string(), "도적");
    assert_eq!(Class::Magician.button_style(), "btn-info");
}

#[test]
fn image_path_format() {
    assert_eq!(job_cards::view::image_of("battle_mage"), "assets/jobs/battle_mage.png");
}
