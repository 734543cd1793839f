use vstd::prelude::*;

verus! {

/// The syntax theme of a light terminal, where none is configured.
pub const DEFAULT_CLI_LIGHT_THEME: &'static str = "GitHub";

/// The syntax theme of a dark terminal, where none is configured.
pub const DEFAULT_CLI_DARK_THEME: &'static str = "zenburn";

/// The colour scheme of the terminal.
#[derive(Debug, Clone, Copy, PartialEq, Eq, Structural)]
pub enum Theme {
    Light,
    Dark,
    Ansi,
}

/// The code of `c`, with an ASCII capital letter taken as its small letter.
pub open spec fn lowered(c: char) -> u32 {
    if 'A' <= c <= 'Z' {
        (c as u32 + 32) as u32
    } else {
        c as u32
    }
}

/// Two texts are the same but for the case of their ASCII letters.
pub open spec fn same_ignoring_ascii_case(a: Seq<char>, b: Seq<char>) -> bool {
    a.len() == b.len() && forall|i: int| 0 <= i < a.len() ==> lowered(a[i]) == lowered(b[i])
}

/// The theme that a configured value names: `light` and `ansi` name
/// themselves, in any case of their letters, and every other value names
/// the dark theme.
pub open spec fn theme_of(value: Seq<char>) -> Theme {
    if same_ignoring_ascii_case(value, "light"@) {
        Theme::Light
    } else if same_ignoring_ascii_case(value, "ansi"@) {
        Theme::Ansi
    } else {
        Theme::Dark
    }
}

/// The value that stands for a theme in the configuration.
pub open spec fn config_text(theme: Theme) -> Seq<char> {
    match theme {
        Theme::Light => "light"@,
        Theme::Dark => "dark"@,
        Theme::Ansi => "ansi"@,
    }
}

/// The name of the syntax theme that goes with a theme: for the light and
/// the dark theme the configured name, or the default where none is
/// configured; for the ANSI theme always `base16`.
pub open spec fn syntax_theme(
    theme: Theme,
    light_theme: Option<Seq<char>>,
    dark_theme: Option<Seq<char>>,
) -> Seq<char> {
    match theme {
        Theme::Light => match light_theme {
            Some(name) => name,
            None => "GitHub"@,
        },
        Theme::Dark => match dark_theme {
            Some(name) => name,
            None => "zenburn"@,
        },
        Theme::Ansi => "base16"@,
    }
}

fn lowered_code(c: char) -> (out: u32)
    ensures
        out == lowered(c),
{
    let code = c as u32;
    if 'A' <= c && c <= 'Z' {
        code + 32
    } else {
        code
    }
}

/// Whether two texts are the same but for the case of their ASCII letters.
pub fn eq_ignore_ascii_case(a: &str, b: &str) -> (out: bool)
    ensures
        out == same_ignoring_ascii_case(a@, b@),
{
    let length = a.unicode_len();
    if length != b.unicode_len() {
        return false;
    }
    let mut index: usize = 0;
    while index < length
        invariant
            index <= length,
            length == a@.len(),
            length == b@.len(),
            forall|i: int| 0 <= i < index ==> lowered(a@[i]) == lowered(b@[i]),
        decreases length - index,
    {
        if lowered_code(a.get_char(index)) != lowered_code(b.get_char(index)) {
            return false;
        }
        index = index + 1;
    }
    true
}

impl Theme {
    /// The name of the syntax theme that goes with this theme, given the
    /// names that are configured for the light and for the dark theme.
    pub fn as_str(&self, light_theme: Option<&str>, dark_theme: Option<&str>) -> (out: String)
        ensures
            out@ == syntax_theme(*self, light_theme.deep_view(), dark_theme.deep_view()),
    {
        match self {
            Theme::Light => match light_theme {
                Some(name) => name.to_owned(),
                None => DEFAULT_CLI_LIGHT_THEME.to_owned(),
            },
            Theme::Dark => match dark_theme {
                Some(name) => name.to_owned(),
                None => DEFAULT_CLI_DARK_THEME.to_owned(),
            },
            Theme::Ansi => "base16".to_owned(),
        }
    }

    /// The theme that a configured value names.
    pub fn from_config_str(val: &str) -> (out: Theme)
        ensures
            out == theme_of(val@),
    {
        if eq_ignore_ascii_case(val, "light") {
            Theme::Light
        } else if eq_ignore_ascii_case(val, "ansi") {
            Theme::Ansi
        } else {
            Theme::Dark
        }
    }

    /// The value that stands for this theme in the configuration.
    pub fn as_config_string(&self) -> (out: String)
        ensures
            out@ == config_text(*self),
    {
        match self {
            Theme::Light => "light".to_owned(),
            Theme::Dark => "dark".to_owned(),
            Theme::Ansi => "ansi".to_owned(),
        }
    }
}

/// A theme is named by the value that stands for it in the configuration.
pub proof fn law_theme_round_trip(theme: Theme)
    ensures
        theme_of(config_text(theme)) == theme,
{
    reveal_strlit("light");
    reveal_strlit("dark");
    reveal_strlit("ansi");
    if theme == Theme::Dark {
        assert(!same_ignoring_ascii_case("dark"@, "light"@)) by {
            assert("dark"@.len() != "light"@.len());
        }
        assert(!same_ignoring_ascii_case("dark"@, "ansi"@)) by {
            assert(lowered("dark"@[0]) != lowered("ansi"@[0]));
        }
    }
    if theme == Theme::Ansi {
        assert(!same_ignoring_ascii_case("ansi"@, "light"@)) by {
            assert("ansi"@.len() != "light"@.len());
        }
    }
}

} // verus!
