use vstd::prelude::*;

use crate::class::Class;
use crate::theme::{lemma_token_parses, theme_of_token, Theme};

verus! {

/// The storage key under which the theme token is persisted.
pub const THEME_STORAGE_KEY: &'static str = "theme";

/// The characters of an optional text.
pub open spec fn opt_text(s: Option<&str>) -> Option<Seq<char>> {
    match s {
        Some(s) => Some(s@),
        None => None,
    }
}

/// The theme that a persisted value selects: the theme whose token it is, and
/// the default theme where the value is absent or names no theme.
pub open spec fn initial_theme(persisted: Option<Seq<char>>) -> Theme {
    match persisted {
        Some(s) => match theme_of_token(s) {
            Some(t) => t,
            None => Theme::Default,
        },
        None => Theme::Default,
    }
}

/// The active theme.
pub struct ThemeStore {
    current: Theme,
}

impl View for ThemeStore {
    type V = Theme;

    closed spec fn view(&self) -> Theme {
        self.current
    }
}

impl ThemeStore {
    /// Starts from the persisted value, if there is one.
    pub fn new(persisted: Option<&str>) -> (r: ThemeStore)
        ensures
            r@ == initial_theme(opt_text(persisted)),
    {
        let current = match persisted {
            Some(s) => match Theme::from_token(s) {
                Some(t) => t,
                None => Theme::Default,
            },
            None => Theme::Default,
        };
        ThemeStore { current }
    }

    pub fn current(&self) -> (r: Theme)
        ensures
            r == self@,
    {
        self.current
    }

    /// Makes `theme` the active theme. Returns the token to persist under
    /// the storage key.
    pub fn select(&mut self, theme: Theme) -> (token: String)
        ensures
            final(self)@ == theme,
            token@ == theme.token(),
    {
        self.current = theme;
        theme.value()
    }
}

/// The class whose jobs are shown.
pub struct Selection {
    current: Class,
}

impl View for Selection {
    type V = Class;

    closed spec fn view(&self) -> Class {
        self.current
    }
}

impl Selection {
    /// Starts on the warrior class.
    pub fn new() -> (r: Selection)
        ensures
            r@ == Class::Warrior,
    {
        Selection { current: Class::Warrior }
    }

    pub fn current(&self) -> (r: Class)
        ensures
            r == self@,
    {
        self.current
    }

    pub fn select(&mut self, class: Class)
        ensures
            final(self)@ == class,
    {
        self.current = class;
    }
}

/// The two cells that the view reads: the active theme and the selected class.
pub struct UiState {
    pub theme: ThemeStore,
    pub selection: Selection,
}

impl UiState {
    pub fn new(persisted: Option<&str>) -> (r: UiState)
        ensures
            r.theme@ == initial_theme(opt_text(persisted)),
            r.selection@ == Class::Warrior,
    {
        UiState { theme: ThemeStore::new(persisted), selection: Selection::new() }
    }

    /// Selects a class; the theme stays as it was.
    pub fn select_class(&mut self, class: Class)
        ensures
            final(self).selection@ == class,
            final(self).theme@ == old(self).theme@,
    {
        self.selection.select(class);
    }

    /// Selects a theme and returns the token to persist; the selected class
    /// stays as it was.
    pub fn select_theme(&mut self, theme: Theme) -> (token: String)
        ensures
            final(self).theme@ == theme,
            final(self).selection@ == old(self).selection@,
            token@ == theme.token(),
    {
        self.theme.select(theme)
    }
}

/// A theme's persisted token brings that same theme back at the next start.
pub proof fn lemma_theme_round_trip(theme: Theme)
    ensures
        initial_theme(Some(theme.token())) == theme,
{
    lemma_token_parses();
}

/// An absent persisted value, or one that is no theme's token, starts on the
/// default theme.
pub proof fn lemma_default_fallback(persisted: Option<Seq<char>>)
    requires
        persisted is None || theme_of_token(persisted->0) is None,
    ensures
        initial_theme(persisted) == Theme::Default,
{
}

} // verus!
