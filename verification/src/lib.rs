//! A way to read various system-level UI and accessibility preferences.
//!
//! It supports the following preferences:
//! * [`UiPreferences::accent_color`]: the user's current system wide accent color preference.
//! * [`ColorScheme`]: the user's preference for either light or dark mode.
//! * [`Contrast`]: the user's preferred contrast level.
//! * [`UiPreferences::double_click_interval`]: the maximum amount of time allowed between
//!   the first and second click.
//! * [`ReducedMotion`]: the user's reduced motion preference.
//! * [`ReducedTransparency`]: the user's reduced transparency preference.

pub mod conversion;
pub mod preferences;
pub mod pump;

pub use preferences::{ColorScheme, Contrast, ReducedMotion, ReducedTransparency, UiPreferences};
