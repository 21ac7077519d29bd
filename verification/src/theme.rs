//! UI themes: dark, light, and high-contrast variants of each, with stable
//! keys for persisting the choice. Colors are chosen by the painting code.

use vstd::prelude::*;
use crate::text::str_eq;

verus! {

#[derive(Clone, Copy, Debug, PartialEq, Eq, Structural)]
pub enum Theme {
    Dark,
    Light,
    DarkContrast,
    LightContrast,
}

/// Display label of each theme.
pub open spec fn spec_label(t: Theme) -> Seq<char> {
    match t {
        Theme::Dark => "Dark"@,
        Theme::Light => "Light"@,
        Theme::DarkContrast => "Dark (high contrast)"@,
        Theme::LightContrast => "Light (high contrast)"@,
    }
}

/// Persistence key of each theme.
pub open spec fn spec_key(t: Theme) -> Seq<char> {
    match t {
        Theme::Dark => "dark"@,
        Theme::Light => "light"@,
        Theme::DarkContrast => "dark-hc"@,
        Theme::LightContrast => "light-hc"@,
    }
}

/// Theme stored under a key; unknown keys fall back to dark.
pub open spec fn spec_from_key(s: Seq<char>) -> Theme {
    if s == "light"@ {
        Theme::Light
    } else if s == "dark-hc"@ {
        Theme::DarkContrast
    } else if s == "light-hc"@ {
        Theme::LightContrast
    } else {
        Theme::Dark
    }
}

impl Theme {
    /// Every theme, in menu order.
    pub fn all() -> (r: Vec<Theme>)
        ensures
            r@ == seq![Theme::Dark, Theme::Light, Theme::DarkContrast, Theme::LightContrast],
    {
        let r = vec![Theme::Dark, Theme::Light, Theme::DarkContrast, Theme::LightContrast];
        assert(r@ =~= seq![Theme::Dark, Theme::Light, Theme::DarkContrast, Theme::LightContrast]);
        r
    }

    pub fn label(self) -> (r: &'static str)
        ensures
            r@ == spec_label(self),
    {
        match self {
            Theme::Dark => "Dark",
            Theme::Light => "Light",
            Theme::DarkContrast => "Dark (high contrast)",
            Theme::LightContrast => "Light (high contrast)",
        }
    }

    /// Stable key for persistence.
    pub fn key(self) -> (r: &'static str)
        ensures
            r@ == spec_key(self),
    {
        match self {
            Theme::Dark => "dark",
            Theme::Light => "light",
            Theme::DarkContrast => "dark-hc",
            Theme::LightContrast => "light-hc",
        }
    }

    /// The theme stored under `s`; unknown keys give the dark theme.
    pub fn from_key(s: &str) -> (r: Theme)
        ensures
            r == spec_from_key(s@),
    {
        if str_eq(s, "light") {
            Theme::Light
        } else if str_eq(s, "dark-hc") {
            Theme::DarkContrast
        } else if str_eq(s, "light-hc") {
            Theme::LightContrast
        } else {
            Theme::Dark
        }
    }

    pub fn is_dark(self) -> (r: bool)
        ensures
            r == (self == Theme::Dark || self == Theme::DarkContrast),
    {
        match self {
            Theme::Dark => true,
            Theme::DarkContrast => true,
            _ => false,
        }
    }
}

/// A persisted theme is restored: every theme reads back from its key.
pub proof fn lemma_key_roundtrip(t: Theme)
    ensures
        spec_from_key(spec_key(t)) == t,
{
    reveal_strlit("dark");
    reveal_strlit("light");
    reveal_strlit("dark-hc");
    reveal_strlit("light-hc");
    assert("dark"@.len() == 4);
    assert("light"@.len() == 5);
    assert("dark-hc"@.len() == 7);
    assert("light-hc"@.len() == 8);
}

} // verus!
