//! How the preference bundles of `mundy` become this crate's own values.

use crate::preferences::{ColorScheme, Contrast, ReducedMotion, ReducedTransparency, UiPreferences};
use bevy_color::{Color, ColorToComponents, Srgba};
use bevy_math::DVec4;
use mundy::ColorScheme as MundyColorScheme;
use mundy::Contrast as MundyContrast;
use mundy::ReducedMotion as MundyReducedMotion;
use mundy::ReducedTransparency as MundyReducedTransparency;
use mundy::{AccentColor, Preferences};
use vstd::prelude::*;
use vstd::std_specs::convert::FromSpec;

verus! {

/// `mundy::ColorScheme`, with its three variants. The import gives it a name
/// apart from this crate's own `ColorScheme`.
#[verifier::external_type_specification]
pub struct ExMundyColorScheme(MundyColorScheme);

/// `mundy::Contrast`, with its four variants.
#[verifier::external_type_specification]
pub struct ExMundyContrast(MundyContrast);

/// `mundy::ReducedMotion`, with its two variants.
#[verifier::external_type_specification]
pub struct ExMundyReducedMotion(MundyReducedMotion);

/// `mundy::ReducedTransparency`, with its two variants.
#[verifier::external_type_specification]
pub struct ExMundyReducedTransparency(MundyReducedTransparency);

/// `mundy::ScrollbarVisibility`, a preference that a bundle holds and this
/// crate does not read.
#[verifier::external_type_specification]
#[verifier::external_body]
pub struct ExMundyScrollbarVisibility(mundy::ScrollbarVisibility);

/// `mundy::Srgba`, a color of four floating-point components, carried through
/// unopened.
#[verifier::external_type_specification]
#[verifier::external_body]
pub struct ExMundySrgba(mundy::Srgba);

/// `mundy::AccentColor`, a wrapper around an optional `mundy::Srgba`.
#[verifier::external_type_specification]
pub struct ExMundyAccentColor(mundy::AccentColor);

/// `mundy::DoubleClickInterval`, a wrapper around an optional duration.
#[verifier::external_type_specification]
pub struct ExMundyDoubleClickInterval(mundy::DoubleClickInterval);

/// `mundy::Preferences`, one complete bundle with its public fields.
#[verifier::external_type_specification]
pub struct ExMundyPreferences(mundy::Preferences);

impl From<MundyColorScheme> for ColorScheme {
    fn from(value: MundyColorScheme) -> (res: Self) {
        match value {
            MundyColorScheme::NoPreference => ColorScheme::NoPreference,
            MundyColorScheme::Light => ColorScheme::Light,
            MundyColorScheme::Dark => ColorScheme::Dark,
        }
    }
}

impl vstd::std_specs::convert::FromSpecImpl<MundyColorScheme> for ColorScheme {
    open spec fn obeys_from_spec() -> bool {
        true
    }

    open spec fn from_spec(value: MundyColorScheme) -> Self {
        match value {
            MundyColorScheme::NoPreference => ColorScheme::NoPreference,
            MundyColorScheme::Light => ColorScheme::Light,
            MundyColorScheme::Dark => ColorScheme::Dark,
        }
    }
}

impl From<MundyContrast> for Contrast {
    fn from(value: MundyContrast) -> (res: Self) {
        match value {
            MundyContrast::NoPreference => Contrast::NoPreference,
            MundyContrast::More => Contrast::More,
            MundyContrast::Less => Contrast::Less,
            MundyContrast::Custom => Contrast::Custom,
        }
    }
}

impl vstd::std_specs::convert::FromSpecImpl<MundyContrast> for Contrast {
    open spec fn obeys_from_spec() -> bool {
        true
    }

    open spec fn from_spec(value: MundyContrast) -> Self {
        match value {
            MundyContrast::NoPreference => Contrast::NoPreference,
            MundyContrast::More => Contrast::More,
            MundyContrast::Less => Contrast::Less,
            MundyContrast::Custom => Contrast::Custom,
        }
    }
}

impl From<MundyReducedMotion> for ReducedMotion {
    fn from(value: MundyReducedMotion) -> (res: Self) {
        match value {
            MundyReducedMotion::NoPreference => ReducedMotion::NoPreference,
            MundyReducedMotion::Reduce => ReducedMotion::Reduce,
        }
    }
}

impl vstd::std_specs::convert::FromSpecImpl<MundyReducedMotion> for ReducedMotion {
    open spec fn obeys_from_spec() -> bool {
        true
    }

    open spec fn from_spec(value: MundyReducedMotion) -> Self {
        match value {
            MundyReducedMotion::NoPreference => ReducedMotion::NoPreference,
            MundyReducedMotion::Reduce => ReducedMotion::Reduce,
        }
    }
}

impl From<MundyReducedTransparency> for ReducedTransparency {
    fn from(value: MundyReducedTransparency) -> (res: Self) {
        match value {
            MundyReducedTransparency::NoPreference => ReducedTransparency::NoPreference,
            MundyReducedTransparency::Reduce => ReducedTransparency::Reduce,
        }
    }
}

impl vstd::std_specs::convert::FromSpecImpl<MundyReducedTransparency> for ReducedTransparency {
    open spec fn obeys_from_spec() -> bool {
        true
    }

    open spec fn from_spec(value: MundyReducedTransparency) -> Self {
        match value {
            MundyReducedTransparency::NoPreference => ReducedTransparency::NoPreference,
            MundyReducedTransparency::Reduce => ReducedTransparency::Reduce,
        }
    }
}

/// The color of the engine that a color of `mundy` converts to: the same
/// four components in the sRGB color space, each narrowed to single precision.
pub uninterp spec fn converted_color(color: mundy::Srgba) -> Color;

/// Turns one color of `mundy` into a color of the engine: it calls
/// `mundy::Srgba::to_f64_array`, narrows the four components with
/// `DVec4::as_vec4`, and hands them to `Srgba::from_f32_array` and `Color::from`.
/// The result depends on the four components alone. `mundy` documents each of
/// them as a number between 0 and 1; for a component that is not a number the
/// narrowing does not fix every bit of the result.
#[verifier::external_body]
fn srgba_to_color(color: mundy::Srgba) -> (res: Color)
    ensures
        res == converted_color(color),
{
    let components = DVec4::from_array(color.to_f64_array()).as_vec4().to_array();
    Color::from(Srgba::from_f32_array(components))
}

/// The accent color of a snapshot, given the accent color of a bundle: an
/// absent color stays absent, a present one is converted.
pub open spec fn accent_color_of(color: AccentColor) -> Option<Color> {
    match color.0 {
        None => None,
        Some(srgba) => Some(converted_color(srgba)),
    }
}

/// Converts the accent color of a bundle: an absent color stays absent, a
/// present one becomes a color of the engine in the sRGB color space.
pub fn to_bevy_color(color: AccentColor) -> (res: Option<Color>)
    ensures
        res == accent_color_of(color),
        color.0 is None ==> res is None,
        color.0 matches Some(srgba) ==> res == Some(converted_color(srgba)),
{
    match color.0 {
        None => None,
        Some(srgba) => Some(srgba_to_color(srgba)),
    }
}

/// The snapshot of a bundle, field by field. The bundle's scrollbar visibility
/// has no place in a snapshot.
pub open spec fn snapshot_of(value: Preferences) -> UiPreferences {
    UiPreferences {
        color_scheme: ColorScheme::from_spec(value.color_scheme),
        contrast: Contrast::from_spec(value.contrast),
        reduced_motion: ReducedMotion::from_spec(value.reduced_motion),
        reduced_transparency: ReducedTransparency::from_spec(value.reduced_transparency),
        accent_color: accent_color_of(value.accent_color),
        double_click_interval: value.double_click_interval.0,
    }
}

impl From<Preferences> for UiPreferences {
    fn from(value: Preferences) -> (res: Self)
        ensures
            res == snapshot_of(value),
    {
        UiPreferences {
            color_scheme: value.color_scheme.into(),
            contrast: value.contrast.into(),
            reduced_motion: value.reduced_motion.into(),
            reduced_transparency: value.reduced_transparency.into(),
            accent_color: to_bevy_color(value.accent_color),
            double_click_interval: value.double_click_interval.0,
        }
    }
}

impl vstd::std_specs::convert::FromSpecImpl<Preferences> for UiPreferences {
    open spec fn obeys_from_spec() -> bool {
        true
    }

    open spec fn from_spec(value: Preferences) -> Self {
        snapshot_of(value)
    }
}

/// Mapping fidelity for color schemes: two values of `mundy` that map to the same
/// value here are the same value, every value here is the image of one of
/// them, and "no preference" maps to "no preference", the default.
pub proof fn lemma_color_scheme_mapping(first: MundyColorScheme, second: MundyColorScheme, target: ColorScheme)
    ensures
        ColorScheme::from_spec(first) == ColorScheme::from_spec(second) ==> first == second,
        exists|source: MundyColorScheme| #[trigger] ColorScheme::from_spec(source) == target,
        ColorScheme::from_spec(MundyColorScheme::NoPreference) == ColorScheme::NoPreference,
{
    let source = match target {
        ColorScheme::NoPreference => MundyColorScheme::NoPreference,
        ColorScheme::Light => MundyColorScheme::Light,
        ColorScheme::Dark => MundyColorScheme::Dark,
    };
    assert(ColorScheme::from_spec(source) == target);
}

/// Mapping fidelity for contrast levels: two values of `mundy` that map to the same
/// value here are the same value, every value here is the image of one of
/// them, and "no preference" maps to "no preference", the default.
pub proof fn lemma_contrast_mapping(first: MundyContrast, second: MundyContrast, target: Contrast)
    ensures
        Contrast::from_spec(first) == Contrast::from_spec(second) ==> first == second,
        exists|source: MundyContrast| #[trigger] Contrast::from_spec(source) == target,
        Contrast::from_spec(MundyContrast::NoPreference) == Contrast::NoPreference,
{
    let source = match target {
        Contrast::NoPreference => MundyContrast::NoPreference,
        Contrast::More => MundyContrast::More,
        Contrast::Less => MundyContrast::Less,
        Contrast::Custom => MundyContrast::Custom,
    };
    assert(Contrast::from_spec(source) == target);
}

/// Mapping fidelity for reduced motion: two values of `mundy` that map to the same
/// value here are the same value, every value here is the image of one of
/// them, and "no preference" maps to "no preference", the default.
pub proof fn lemma_reduced_motion_mapping(first: MundyReducedMotion, second: MundyReducedMotion, target: ReducedMotion)
    ensures
        ReducedMotion::from_spec(first) == ReducedMotion::from_spec(second) ==> first == second,
        exists|source: MundyReducedMotion| #[trigger] ReducedMotion::from_spec(source) == target,
        ReducedMotion::from_spec(MundyReducedMotion::NoPreference) == ReducedMotion::NoPreference,
{
    let source = match target {
        ReducedMotion::NoPreference => MundyReducedMotion::NoPreference,
        ReducedMotion::Reduce => MundyReducedMotion::Reduce,
    };
    assert(ReducedMotion::from_spec(source) == target);
}

/// Mapping fidelity for reduced transparency: two values of `mundy` that map to the same
/// value here are the same value, every value here is the image of one of
/// them, and "no preference" maps to "no preference", the default.
pub proof fn lemma_reduced_transparency_mapping(first: MundyReducedTransparency, second: MundyReducedTransparency, target: ReducedTransparency)
    ensures
        ReducedTransparency::from_spec(first) == ReducedTransparency::from_spec(second) ==> first == second,
        exists|source: MundyReducedTransparency| #[trigger] ReducedTransparency::from_spec(source) == target,
        ReducedTransparency::from_spec(MundyReducedTransparency::NoPreference) == ReducedTransparency::NoPreference,
{
    let source = match target {
        ReducedTransparency::NoPreference => MundyReducedTransparency::NoPreference,
        ReducedTransparency::Reduce => MundyReducedTransparency::Reduce,
    };
    assert(ReducedTransparency::from_spec(source) == target);
}

/// A bundle in which nothing is known converts to the default snapshot.
pub proof fn lemma_no_preference_bundle(value: Preferences)
    requires
        value.color_scheme == MundyColorScheme::NoPreference,
        value.contrast == MundyContrast::NoPreference,
        value.reduced_motion == MundyReducedMotion::NoPreference,
        value.reduced_transparency == MundyReducedTransparency::NoPreference,
        value.accent_color.0 is None,
        value.double_click_interval.0 is None,
    ensures
        snapshot_of(value) == UiPreferences::no_preference(),
{
}

} // verus!
