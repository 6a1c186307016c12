use vstd::prelude::*;

use crate::text::same_text;

verus! {

/// A visual theme.
#[derive(Clone, Copy, Debug, PartialEq, Eq, Structural, Hash)]
pub enum Theme {
    Default,
    Light,
    Dark,
    Caramellatte,
    Valentine,
    Aqua,
    Synthwave,
}

/// The seven themes in menu order.
pub open spec fn all_themes() -> Seq<Theme> {
    seq![
        Theme::Default,
        Theme::Light,
        Theme::Dark,
        Theme::Caramellatte,
        Theme::Valentine,
        Theme::Aqua,
        Theme::Synthwave,
    ]
}

/// The theme whose token is `token`, if any.
pub open spec fn theme_of_token(token: Seq<char>) -> Option<Theme> {
    if token == "default"@ {
        Some(Theme::Default)
    } else if token == "light"@ {
        Some(Theme::Light)
    } else if token == "dark"@ {
        Some(Theme::Dark)
    } else if token == "caramellatte"@ {
        Some(Theme::Caramellatte)
    } else if token == "valentine"@ {
        Some(Theme::Valentine)
    } else if token == "aqua"@ {
        Some(Theme::Aqua)
    } else if token == "synthwave"@ {
        Some(Theme::Synthwave)
    } else {
        None
    }
}

impl Theme {
    /// The machine-readable token: the persisted value and the style attribute.
    pub open spec fn token(self) -> Seq<char> {
        match self {
            Theme::Default => "default"@,
            Theme::Light => "light"@,
            Theme::Dark => "dark"@,
            Theme::Caramellatte => "caramellatte"@,
            Theme::Valentine => "valentine"@,
            Theme::Aqua => "aqua"@,
            Theme::Synthwave => "synthwave"@,
        }
    }

    /// The label shown in the theme menu.
    pub open spec fn label(self) -> Seq<char> {
        match self {
            Theme::Default => "Default"@,
            Theme::Light => "Light"@,
            Theme::Dark => "Dark"@,
            Theme::Caramellatte => "Caramellatte"@,
            Theme::Valentine => "Valentine"@,
            Theme::Aqua => "Aqua"@,
            Theme::Synthwave => "Synthwave"@,
        }
    }

    fn token_str(&self) -> (r: &'static str)
        ensures
            r@ == self.token(),
    {
        match self {
            Theme::Default => "default",
            Theme::Light => "light",
            Theme::Dark => "dark",
            Theme::Caramellatte => "caramellatte",
            Theme::Valentine => "valentine",
            Theme::Aqua => "aqua",
            Theme::Synthwave => "synthwave",
        }
    }

    pub fn value(&self) -> (r: String)
        ensures
            r@ == self.token(),
    {
        String::from_str(self.token_str())
    }

    pub fn name(&self) -> (r: String)
        ensures
            r@ == self.label(),
    {
        let s = match self {
            Theme::Default => "Default",
            Theme::Light => "Light",
            Theme::Dark => "Dark",
            Theme::Caramellatte => "Caramellatte",
            Theme::Valentine => "Valentine",
            Theme::Aqua => "Aqua",
            Theme::Synthwave => "Synthwave",
        };
        String::from_str(s)
    }

    /// Every theme, in menu order.
    pub fn all() -> (r: Vec<Theme>)
        ensures
            r@ == all_themes(),
    {
        let r = vec![
            Theme::Default,
            Theme::Light,
            Theme::Dark,
            Theme::Caramellatte,
            Theme::Valentine,
            Theme::Aqua,
            Theme::Synthwave,
        ];
        assert(r@ =~= all_themes());
        r
    }

    /// The theme whose token is `token`; `None` for any other text.
    pub fn from_token(token: &str) -> (r: Option<Theme>)
        ensures
            r == theme_of_token(token@),
    {
        let themes = Theme::all();
        let mut i: usize = 0;
        while i < themes.len()
            invariant
                themes@ == all_themes(),
                i <= themes.len(),
                forall|j: int| 0 <= j < i ==> token@ != #[trigger] themes@[j].token(),
            decreases themes.len() - i,
        {
            let t = themes[i];
            if same_text(token, t.token_str()) {
                proof { lemma_token_parses(); }
                return Some(t);
            }
            i = i + 1;
        }
        proof {
            assert(token@ != themes@[0].token());
            assert(token@ != themes@[1].token());
            assert(token@ != themes@[2].token());
            assert(token@ != themes@[3].token());
            assert(token@ != themes@[4].token());
            assert(token@ != themes@[5].token());
            assert(token@ != themes@[6].token());
        }
        None
    }
}

/// Every theme is the theme of its own token: no two themes share one.
pub proof fn lemma_token_parses()
    ensures
        forall|t: Theme| theme_of_token(#[trigger] t.token()) == Some(t),
{
    reveal_strlit("default");
    reveal_strlit("light");
    reveal_strlit("dark");
    reveal_strlit("caramellatte");
    reveal_strlit("valentine");
    reveal_strlit("aqua");
    reveal_strlit("synthwave");
    let toks = seq!["default"@, "light"@, "dark"@, "caramellatte"@, "valentine"@, "aqua"@, "synthwave"@];
    assert forall|i: int, j: int| 0 <= i < j < 7 implies toks[i] != toks[j] by {
        assert(toks[i].len() != toks[j].len() || toks[i][0] != toks[j][0]);
    }
    assert forall|t: Theme| theme_of_token(#[trigger] t.token()) == Some(t) by {
        match t {
            Theme::Default => { assert(t.token() == toks[0]); },
            Theme::Light => { assert(t.token() == toks[1]); },
            Theme::Dark => { assert(t.token() == toks[2]); },
            Theme::Caramellatte => { assert(t.token() == toks[3]); },
            Theme::Valentine => { assert(t.token() == toks[4]); },
            Theme::Aqua => { assert(t.token() == toks[5]); },
            Theme::Synthwave => { assert(t.token() == toks[6]); },
        }
    }
}

} // verus!
