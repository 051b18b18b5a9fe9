//! Design tokens kept per color theme, and the choice of the set for a theme.
use vstd::prelude::*;

verus! {

/// A color theme: dark or light.
#[derive(Clone, Copy, Debug, PartialEq, Eq, Structural, Hash)]
pub enum Theme {
    Dark,
    Light,
}

/// One set of design tokens for each theme.
#[derive(Debug)]
pub struct DesignTokensPerTheme<T> {
    pub dark: T,
    pub light: T,
}

impl<T> DesignTokensPerTheme<T> {
    /// The token set of `theme`.
    pub open spec fn spec_of(&self, theme: Theme) -> T {
        match theme {
            Theme::Dark => self.dark,
            Theme::Light => self.light,
        }
    }

    pub fn new(dark: T, light: T) -> (r: DesignTokensPerTheme<T>)
        ensures
            r.dark == dark,
            r.light == light,
    {
        DesignTokensPerTheme { dark, light }
    }

    /// The design tokens of a theme.
    pub fn design_tokens_of(&self, theme: Theme) -> (r: &T)
        ensures
            *r == self.spec_of(theme),
    {
        match theme {
            Theme::Dark => &self.dark,
            Theme::Light => &self.light,
        }
    }
}

} // verus!
