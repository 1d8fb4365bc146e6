//! Tri-state configuration choices for color and pagination, and the
//! resolution of a color choice to a concrete on/off decision.

use vstd::prelude::*;

verus! {

/// Configuration choice for colored output.
#[derive(Clone, Copy, Debug, Eq, PartialEq, Structural)]
pub enum ColorChoice {
    Always,
    Never,
    Auto,
}

/// Configuration choice for routing output through a pager.
#[derive(Clone, Copy, Debug, Eq, PartialEq, Structural)]
pub enum PaginationChoice {
    Never,
    Auto,
    Always,
}

impl Default for ColorChoice {
    fn default() -> (r: Self)
        ensures
            r == ColorChoice::Auto,
    {
        ColorChoice::Auto
    }
}

impl Default for PaginationChoice {
    fn default() -> (r: Self)
        ensures
            r == PaginationChoice::Auto,
    {
        PaginationChoice::Auto
    }
}

/// The three choice spellings are pairwise distinct strings.
pub proof fn lemma_choice_strings_distinct()
    ensures
        "always"@ != "never"@,
        "always"@ != "auto"@,
        "never"@ != "auto"@,
{
    reveal_strlit("always");
    reveal_strlit("never");
    reveal_strlit("auto");
    assert("always"@ != "never"@) by {
        assert("always"@.len() != "never"@.len());
    }
    assert("always"@ != "auto"@) by {
        assert("always"@.len() != "auto"@.len());
    }
    assert("never"@ != "auto"@) by {
        assert("never"@.len() != "auto"@.len());
    }
}

impl ColorChoice {
    /// Parses a configuration string; only `always`, `never` and `auto` are
    /// recognized.
    pub fn from_str(s: &str) -> (r: Result<ColorChoice, &'static str>)
        ensures
            s@ == "always"@ ==> r == Result::<ColorChoice, &'static str>::Ok(ColorChoice::Always),
            s@ == "never"@ ==> r == Result::<ColorChoice, &'static str>::Ok(ColorChoice::Never),
            s@ == "auto"@ ==> r == Result::<ColorChoice, &'static str>::Ok(ColorChoice::Auto),
            s@ != "always"@ && s@ != "never"@ && s@ != "auto"@ ==> r is Err,
    {
        proof {
            lemma_choice_strings_distinct();
        }
        let owned = s.to_owned();
        if owned == "always".to_owned() {
            Ok(ColorChoice::Always)
        } else if owned == "never".to_owned() {
            Ok(ColorChoice::Never)
        } else if owned == "auto".to_owned() {
            Ok(ColorChoice::Auto)
        } else {
            Err("must be one of always, never, or auto")
        }
    }

    /// The configuration spelling of this choice.
    pub fn as_str(&self) -> (r: &'static str)
        ensures
            *self == ColorChoice::Always ==> r@ == "always"@,
            *self == ColorChoice::Never ==> r@ == "never"@,
            *self == ColorChoice::Auto ==> r@ == "auto"@,
    {
        match self {
            ColorChoice::Always => "always",
            ColorChoice::Never => "never",
            ColorChoice::Auto => "auto",
        }
    }
}

impl PaginationChoice {
    /// Parses a configuration string; only `always`, `never` and `auto` are
    /// recognized.
    pub fn from_str(s: &str) -> (r: Result<PaginationChoice, &'static str>)
        ensures
            s@ == "always"@ ==> r == Result::<PaginationChoice, &'static str>::Ok(
                PaginationChoice::Always,
            ),
            s@ == "never"@ ==> r == Result::<PaginationChoice, &'static str>::Ok(
                PaginationChoice::Never,
            ),
            s@ == "auto"@ ==> r == Result::<PaginationChoice, &'static str>::Ok(
                PaginationChoice::Auto,
            ),
            s@ != "always"@ && s@ != "never"@ && s@ != "auto"@ ==> r is Err,
    {
        proof {
            lemma_choice_strings_distinct();
        }
        let owned = s.to_owned();
        if owned == "always".to_owned() {
            Ok(PaginationChoice::Always)
        } else if owned == "never".to_owned() {
            Ok(PaginationChoice::Never)
        } else if owned == "auto".to_owned() {
            Ok(PaginationChoice::Auto)
        } else {
            Err("must be one of always, never, or auto")
        }
    }

    /// The configuration spelling of this choice.
    pub fn as_str(&self) -> (r: &'static str)
        ensures
            *self == PaginationChoice::Always ==> r@ == "always"@,
            *self == PaginationChoice::Never ==> r@ == "never"@,
            *self == PaginationChoice::Auto ==> r@ == "auto"@,
    {
        match self {
            PaginationChoice::Always => "always",
            PaginationChoice::Never => "never",
            PaginationChoice::Auto => "auto",
        }
    }
}

/// What a color choice resolves to, given whether the out-stream is attached
/// to a real terminal: an explicit choice wins, `auto` follows the terminal.
pub open spec fn color_enabled(choice: ColorChoice, stdout_is_tty: bool) -> bool {
    match choice {
        ColorChoice::Always => true,
        ColorChoice::Never => false,
        ColorChoice::Auto => stdout_is_tty,
    }
}

/// Resolves a color choice to a concrete decision.
pub fn use_color(choice: ColorChoice, stdout_is_tty: bool) -> (r: bool)
    ensures
        r == color_enabled(choice, stdout_is_tty),
{
    match choice {
        ColorChoice::Always => true,
        ColorChoice::Never => false,
        ColorChoice::Auto => stdout_is_tty,
    }
}

} // verus!
