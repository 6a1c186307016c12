use vstd::prelude::*;

use crate::text::same_text;

verus! {

/// A character archetype: the grouping key of the catalog and the filter of the view.
#[derive(Clone, Copy, Debug, PartialEq, Eq, Structural, Hash)]
pub enum Class {
    Warrior,
    Magician,
    Bowman,
    Thief,
    Pirate,
}

/// The five classes in display order.
pub open spec fn all_classes() -> Seq<Class> {
    seq![Class::Warrior, Class::Magician, Class::Bowman, Class::Thief, Class::Pirate]
}

/// The class whose identifier is `name`, if any.
pub open spec fn class_named(name: Seq<char>) -> Option<Class> {
    if name == "Warrior"@ {
        Some(Class::Warrior)
    } else if name == "Magician"@ {
        Some(Class::Magician)
    } else if name == "Bowman"@ {
        Some(Class::Bowman)
    } else if name == "Thief"@ {
        Some(Class::Thief)
    } else if name == "Pirate"@ {
        Some(Class::Pirate)
    } else {
        None
    }
}

impl Class {
    /// The label shown on the class's filter button.
    pub open spec fn label(self) -> Seq<char> {
        match self {
            Class::Warrior => "전사"@,
            Class::Magician => "마법사"@,
            Class::Bowman => "궁수"@,
            Class::Thief => "도적"@,
            Class::Pirate => "해적"@,
        }
    }

    /// The style token that colours the class's filter button.
    pub open spec fn style(self) -> Seq<char> {
        match self {
            Class::Warrior => "btn-secondary"@,
            Class::Magician => "btn-info"@,
            Class::Bowman => "btn-accent"@,
            Class::Thief => "btn-primary"@,
            Class::Pirate => "btn-neutral"@,
        }
    }

    pub fn as_string(&self) -> (r: String)
        ensures
            r@ == self.label(),
    {
        let s = match self {
            Class::Warrior => "전사",
            Class::Magician => "마법사",
            Class::Bowman => "궁수",
            Class::Thief => "도적",
            Class::Pirate => "해적",
        };
        String::from_str(s)
    }

    pub fn button_style(&self) -> (r: String)
        ensures
            r@ == self.style(),
    {
        let s = match self {
            Class::Warrior => "btn-secondary",
            Class::Magician => "btn-info",
            Class::Bowman => "btn-accent",
            Class::Thief => "btn-primary",
            Class::Pirate => "btn-neutral",
        };
        String::from_str(s)
    }

    /// Every class, in display order.
    pub fn all() -> (r: Vec<Class>)
        ensures
            r@ == all_classes(),
    {
        let r = vec![Class::Warrior, Class::Magician, Class::Bowman, Class::Thief, Class::Pirate];
        assert(r@ =~= all_classes());
        r
    }

    /// The class whose identifier is `name` (`"Warrior"`, `"Magician"`, ...).
    pub fn from_name(name: &str) -> (r: Option<Class>)
        ensures
            r == class_named(name@),
    {
        if same_text(name, "Warrior") {
            Some(Class::Warrior)
        } else if same_text(name, "Magician") {
            Some(Class::Magician)
        } else if same_text(name, "Bowman") {
            Some(Class::Bowman)
        } else if same_text(name, "Thief") {
            Some(Class::Thief)
        } else if same_text(name, "Pirate") {
            Some(Class::Pirate)
        } else {
            None
        }
    }
}

} // verus!
