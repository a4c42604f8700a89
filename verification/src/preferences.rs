//! The snapshot of system-level UI preferences and the enumerated values it holds.

use bevy_color::Color;
use core::time::Duration;
use vstd::prelude::*;

verus! {

/// `bevy_color::Color`. Its components are floating-point numbers, so a value
/// is only carried through, never looked into.
#[verifier::external_type_specification]
#[verifier::external_body]
pub struct ExColor(bevy_color::Color);

/// The user's preference for either light or dark mode.
/// This corresponds to the `prefers-color-scheme` CSS media feature.
#[derive(Debug, Clone, Copy, PartialEq, Eq, Structural)]
pub enum ColorScheme {
    /// Indicates that the user has not expressed an active preference,
    /// that the current platform doesn't support a color scheme preference
    /// or that an error occurred while trying to retrieve the preference.
    NoPreference,
    /// Indicates that the user prefers an interface with a light appearance.
    Light,
    /// Indicates that the user prefers an interface with a dark appearance.
    Dark,
}

impl Default for ColorScheme {
    fn default() -> (res: Self)
        ensures
            res == ColorScheme::NoPreference,
    {
        ColorScheme::NoPreference
    }
}

impl ColorScheme {
    pub fn is_no_preference(self) -> (res: bool)
        ensures
            res <==> self == ColorScheme::NoPreference,
    {
        matches!(self, ColorScheme::NoPreference)
    }

    pub fn is_dark(self) -> (res: bool)
        ensures
            res <==> self == ColorScheme::Dark,
    {
        matches!(self, ColorScheme::Dark)
    }

    pub fn is_light(self) -> (res: bool)
        ensures
            res <==> self == ColorScheme::Light,
    {
        matches!(self, ColorScheme::Light)
    }
}

/// The user's preferred contrast level.
/// This corresponds to the `prefers-contrast` CSS media feature.
#[derive(Debug, Clone, Copy, PartialEq, Eq, Structural)]
pub enum Contrast {
    /// Indicates that the user has not expressed an active preference,
    /// that the current platform doesn't support a contrast preference
    /// or that an error occurred while trying to retrieve the preference.
    NoPreference,
    /// Indicates that the user prefers an interface with a higher level of contrast.
    More,
    /// Indicates that the user prefers an interface with a lower level of contrast.
    Less,
    /// Indicates that the user has configured a specific set of colors (forced color mode)
    /// and the contrast from these colors neither matches [`Contrast::More`] or [`Contrast::Less`].
    Custom,
}

impl Default for Contrast {
    fn default() -> (res: Self)
        ensures
            res == Contrast::NoPreference,
    {
        Contrast::NoPreference
    }
}

impl Contrast {
    pub fn is_no_preference(self) -> (res: bool)
        ensures
            res <==> self == Contrast::NoPreference,
    {
        matches!(self, Contrast::NoPreference)
    }

    pub fn is_more(self) -> (res: bool)
        ensures
            res <==> self == Contrast::More,
    {
        matches!(self, Contrast::More)
    }

    pub fn is_less(self) -> (res: bool)
        ensures
            res <==> self == Contrast::Less,
    {
        matches!(self, Contrast::Less)
    }

    pub fn is_custom(self) -> (res: bool)
        ensures
            res <==> self == Contrast::Custom,
    {
        matches!(self, Contrast::Custom)
    }
}

/// The user prefers to have a minimal amount of motion. Especially motion that
/// simulates the third dimension.
/// This corresponds to the `prefers-reduced-motion` CSS media feature.
///
/// Such motion can cause discomfort to people with vestibular disorders.
#[derive(Debug, Clone, Copy, PartialEq, Eq, Structural)]
pub enum ReducedMotion {
    /// Indicates that the user has not expressed an active preference,
    /// that the current platform doesn't support a reduced motion preference
    /// or that an error occurred while trying to retrieve the preference.
    NoPreference,
    /// Indicates that the user prefers a minimal amount of motion.
    Reduce,
}

impl Default for ReducedMotion {
    fn default() -> (res: Self)
        ensures
            res == ReducedMotion::NoPreference,
    {
        ReducedMotion::NoPreference
    }
}

impl ReducedMotion {
    pub fn is_no_preference(self) -> (res: bool)
        ensures
            res <==> self == ReducedMotion::NoPreference,
    {
        matches!(self, ReducedMotion::NoPreference)
    }

    pub fn is_reduce(self) -> (res: bool)
        ensures
            res <==> self == ReducedMotion::Reduce,
    {
        matches!(self, ReducedMotion::Reduce)
    }
}

/// Indicates that applications should not use transparent or semitransparent backgrounds.
/// This corresponds to the `prefers-reduced-transparency` CSS media feature.
#[derive(Debug, Clone, Copy, PartialEq, Eq, Structural)]
pub enum ReducedTransparency {
    /// Indicates that the user has not expressed an active preference,
    /// that the current platform doesn't support a reduced transparency preference
    /// or that an error occurred while trying to retrieve the preference.
    NoPreference,
    /// Indicates that the user prefers an interface with no transparent
    /// or semitransparent backgrounds.
    Reduce,
}

impl Default for ReducedTransparency {
    fn default() -> (res: Self)
        ensures
            res == ReducedTransparency::NoPreference,
    {
        ReducedTransparency::NoPreference
    }
}

impl ReducedTransparency {
    pub fn is_no_preference(self) -> (res: bool)
        ensures
            res <==> self == ReducedTransparency::NoPreference,
    {
        matches!(self, ReducedTransparency::NoPreference)
    }

    pub fn is_reduce(self) -> (res: bool)
        ensures
            res <==> self == ReducedTransparency::Reduce,
    {
        matches!(self, ReducedTransparency::Reduce)
    }
}

/// A collection of system-level UI preferences.
///
/// Every preference is always present; one that is unknown reads as its
/// "no preference" value.
#[derive(Debug, Clone, Copy, PartialEq)]
#[non_exhaustive]
pub struct UiPreferences {
    /// The user's preference for either light or dark mode.
    pub color_scheme: ColorScheme,
    /// The user's preferred contrast level.
    pub contrast: Contrast,
    /// The user's reduced motion preference.
    pub reduced_motion: ReducedMotion,
    /// The user's reduced transparency preference.
    pub reduced_transparency: ReducedTransparency,
    /// The user's current system wide accent color preference.
    pub accent_color: Option<Color>,
    /// The maximum amount of time that may occur between the first and second click
    /// event for it to count as double click.
    pub double_click_interval: Option<Duration>,
}

impl UiPreferences {
    /// The snapshot in which nothing is known: every field is at its
    /// "no preference" value.
    pub open spec fn no_preference() -> UiPreferences {
        UiPreferences {
            color_scheme: ColorScheme::NoPreference,
            contrast: Contrast::NoPreference,
            reduced_motion: ReducedMotion::NoPreference,
            reduced_transparency: ReducedTransparency::NoPreference,
            accent_color: None,
            double_click_interval: None,
        }
    }
}

impl Default for UiPreferences {
    fn default() -> (res: Self)
        ensures
            res == UiPreferences::no_preference(),
    {
        UiPreferences {
            color_scheme: ColorScheme::NoPreference,
            contrast: Contrast::NoPreference,
            reduced_motion: ReducedMotion::NoPreference,
            reduced_transparency: ReducedTransparency::NoPreference,
            accent_color: None,
            double_click_interval: None,
        }
    }
}

} // verus!
