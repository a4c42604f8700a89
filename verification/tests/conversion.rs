use bevy_color::{Color, Srgba};
use bevy_ui_preferences::conversion::to_bevy_color;
use bevy_ui_preferences::{ColorScheme, Contrast, ReducedMotion, ReducedTransparency, UiPreferences};
use std::time::Duration;

#[test]
fn every_color_scheme_maps_to_its_namesake() {
    assert_eq!(ColorScheme::from(mundy::ColorScheme::NoPreference), ColorScheme::NoPreference);
    assert_eq!(ColorScheme::from(mundy::ColorScheme::Light), ColorScheme::Light);
    assert_eq!(ColorScheme::from(mundy::ColorScheme::Dark), ColorScheme::Dark);
}

#[test]
fn every_contrast_maps_to_its_namesake() {
    assert_eq!(Contrast::from(mundy::Contrast::NoPreference), Contrast::NoPreference);
    assert_eq!(Contrast::from(mundy::Contrast::More), Contrast::More);
    assert_eq!(Contrast::from(mundy::Contrast::Less), Contrast::Less);
    assert_eq!(Contrast::from(mundy::Contrast::Custom), Contrast::Custom);
}

#[test]
fn every_reduced_motion_maps_to_its_namesake() {
    assert_eq!(
        ReducedMotion::from(mundy::ReducedMotion::NoPreference),
        ReducedMotion::NoPreference
    );
    assert_eq!(ReducedMotion::from(mundy::ReducedMotion::Reduce), ReducedMotion::Reduce);
}

#[test]
fn every_reduced_transparency_maps_to_its_namesake() {
    assert_eq!(
        ReducedTransparency::from(mundy::ReducedTransparency::NoPreference),
        ReducedTransparency::NoPreference
    );
    assert_eq!(
        ReducedTransparency::from(mundy::ReducedTransparency::Reduce),
        ReducedTransparency::Reduce
    );
}

#[test]
fn source_defaults_map_to_defaults() {
    assert_eq!(ColorScheme::from(mundy::ColorScheme::default()), ColorScheme::default());
    assert_eq!(Contrast::from(mundy::Contrast::default()), Contrast::default());
    assert_eq!(ReducedMotion::from(mundy::ReducedMotion::default()), ReducedMotion::default());
    assert_eq!(
        ReducedTransparency::from(mundy::ReducedTransparency::default()),
        ReducedTransparency::default()
    );
}

#[test]
fn absent_accent_color_stays_absent() {
    assert_eq!(to_bevy_color(mundy::AccentColor(None)), None);
}

#[test]
fn accent_color_keeps_exactly_representable_components() {
    let source = mundy::Srgba { red: 0.25, green: 0.5, blue: 0.75, alpha: 1.0 };
    let converted = to_bevy_color(mundy::AccentColor(Some(source)));
    assert_eq!(converted, Some(Color::Srgba(Srgba::new(0.25, 0.5, 0.75, 1.0))));
}

#[test]
fn accent_color_components_are_rounded_to_single_precision() {
    let source = mundy::Srgba { red: 0.1, green: 0.2, blue: 0.7, alpha: 0.9 };
    let converted = to_bevy_color(mundy::AccentColor(Some(source)));
    let expected = Srgba::new(0.1f64 as f32, 0.2f64 as f32, 0.7f64 as f32, 0.9f64 as f32);
    assert_eq!(converted, Some(Color::Srgba(expected)));
    match converted {
        Some(Color::Srgba(color)) => {
            assert!((f64::from(color.red) - 0.1).abs() < 1e-7);
            assert!((f64::from(color.green) - 0.2).abs() < 1e-7);
            assert!((f64::from(color.blue) - 0.7).abs() < 1e-7);
            assert!((f64::from(color.alpha) - 0.9).abs() < 1e-7);
        }
        _ => panic!("an sRGB color was expected"),
    }
}

#[test]
fn accent_color_is_in_the_srgb_color_space() {
    let source = mundy::Srgba { red: 1.0, green: 0.0, blue: 0.0, alpha: 1.0 };
    let converted = to_bevy_color(mundy::AccentColor(Some(source)));
    assert!(matches!(converted, Some(Color::Srgba(_))));
    assert_eq!(converted, Some(Color::srgba(1.0, 0.0, 0.0, 1.0)));
}

#[test]
fn default_bundle_converts_to_default_snapshot() {
    assert_eq!(UiPreferences::from(mundy::Preferences::default()), UiPreferences::default());
}

#[test]
fn bundle_converts_field_by_field() {
    let mut bundle = mundy::Preferences::default();
    bundle.color_scheme = mundy::ColorScheme::Dark;
    bundle.contrast = mundy::Contrast::More;
    bundle.reduced_motion = mundy::ReducedMotion::Reduce;
    bundle.reduced_transparency = mundy::ReducedTransparency::Reduce;
    bundle.accent_color =
        mundy::AccentColor(Some(mundy::Srgba { red: 0.5, green: 0.25, blue: 0.125, alpha: 1.0 }));
    bundle.double_click_interval = mundy::DoubleClickInterval(Some(Duration::from_millis(500)));
    bundle.scrollbar_visibility = mundy::ScrollbarVisibility::Always;

    let snapshot = UiPreferences::from(bundle);
    assert_eq!(snapshot.color_scheme, ColorScheme::Dark);
    assert_eq!(snapshot.contrast, Contrast::More);
    assert_eq!(snapshot.reduced_motion, ReducedMotion::Reduce);
    assert_eq!(snapshot.reduced_transparency, ReducedTransparency::Reduce);
    assert_eq!(snapshot.accent_color, Some(Color::srgba(0.5, 0.25, 0.125, 1.0)));
    assert_eq!(snapshot.double_click_interval, Some(Duration::from_millis(500)));
}

#[test]
fn bundle_fields_convert_independently() {
    let mut bundle = mundy::Preferences::default();
    bundle.contrast = mundy::Contrast::Custom;
    let snapshot: UiPreferences = bundle.into();
    assert_eq!(snapshot.color_scheme, ColorScheme::NoPreference);
    assert_eq!(snapshot.contrast, Contrast::Custom);
    assert_eq!(snapshot.reduced_motion, ReducedMotion::NoPreference);
    assert_eq!(snapshot.reduced_transparency, ReducedTransparency::NoPreference);
    assert_eq!(snapshot.accent_color, None);
    assert_eq!(snapshot.double_click_interval, None);
}
