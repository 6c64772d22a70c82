//! Activation planning.
//!
//! When the windowing layer activates, the immutable runtime
//! configuration is merged with the loaded settings into one plan for the
//! window about to be built: its size, icon, title and stylesheet. A
//! settings file without a `[Settings]` section yields no plan, and that
//! activation alone is aborted.

use vstd::prelude::*;

use crate::config::RuntimeConfig;
use crate::config::app_title;
use crate::config::opt_string_view;
use crate::settings::SettingsOutcome;
use crate::settings::default_style;
use crate::settings::default_style_text;
use crate::size::resolve_window_size;
use crate::size::resolved_dimension;

verus! {

/// Where the window's stylesheet comes from.
pub enum StylesSource {
    /// Load the stylesheet file the settings name.
    File(String),
    /// Use this built-in stylesheet text.
    BuiltIn(String),
}

/// Everything the windowing layer needs to build the session's window.
pub struct ActivationPlan {
    /// Resolved window width in pixels.
    pub width: u32,
    /// Resolved window height in pixels.
    pub height: u32,
    /// Icon name from the settings, if any.
    pub icon_name: Option<String>,
    /// The window title.
    pub title: String,
    /// Where the stylesheet comes from.
    pub styles: StylesSource,
}

/// The width the command line asked for; `0` means unset.
pub open spec fn override_width(o: Option<(u32, u32)>) -> u32 {
    match o {
        Some(p) => p.0,
        None => 0,
    }
}

/// The height the command line asked for; `0` means unset.
pub open spec fn override_height(o: Option<(u32, u32)>) -> u32 {
    match o {
        Some(p) => p.1,
        None => 0,
    }
}

/// Merges the runtime configuration with the loaded settings into the
/// window plan; `None` exactly when the settings lack their section, in
/// which case this activation is abandoned.
pub fn plan_activation(config: &RuntimeConfig, outcome: SettingsOutcome) -> (r: Option<
    ActivationPlan,
>)
    ensures
        r is None <==> outcome is MissingSection,
        outcome matches SettingsOutcome::Available(s) ==> (r matches Some(p) && {
            &&& p.width == resolved_dimension(
                override_width(config.window_size_override),
                opt_string_view(s.default_width),
                crate::DEFAULT_WIDTH,
            )
            &&& p.height == resolved_dimension(
                override_height(config.window_size_override),
                opt_string_view(s.default_height),
                crate::DEFAULT_HEIGHT,
            )
            &&& opt_string_view(p.icon_name) == opt_string_view(s.icon_name)
            &&& p.title@ == app_title()
            &&& match s.styles_file {
                Some(f) => p.styles matches StylesSource::File(g) && g@ == f@,
                None => p.styles matches StylesSource::BuiltIn(t) && t@ == default_style_text(),
            }
        }),
{
    match outcome {
        SettingsOutcome::MissingSection => None,
        SettingsOutcome::Available(s) => {
            let size = resolve_window_size(
                config.window_size_override,
                s.default_width.as_ref(),
                s.default_height.as_ref(),
            );
            let styles = match s.styles_file {
                Some(f) => StylesSource::File(f),
                None => StylesSource::BuiltIn(default_style()),
            };
            Some(
                ActivationPlan {
                    width: size.0,
                    height: size.1,
                    icon_name: s.icon_name,
                    title: String::from_str("Termint"),
                    styles,
                },
            )
        },
    }
}

} // verus!
