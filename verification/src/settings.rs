//! Settings kept on disk between runs: the Dock meter, launch at login, the
//! refresh interval and the Dock meter's geometry. No usage data, no tokens.

use vstd::prelude::*;
use vstd::string::*;
use crate::paths::{join_path, joined_path};
use crate::state::{default_app_settings, opt_view, AppSettings, DockMeterGeometry};

verus! {

/// Persisted application settings.
#[derive(Debug, Clone, Copy, PartialEq, Eq)]
pub struct PersistedSettings {
    pub dock_meter_visible: bool,
    pub launch_at_login: bool,
    pub refresh_interval_seconds: u64,
    pub dock_meter_geometry: Option<DockMeterGeometry>,
}

/// The refresh interval used when the settings file names none.
pub fn default_refresh_interval() -> (r: u64)
    ensures
        r == 60,
{
    60
}

/// The persisted settings when nothing was saved.
pub open spec fn default_persisted_settings() -> PersistedSettings {
    PersistedSettings {
        dock_meter_visible: true,
        launch_at_login: true,
        refresh_interval_seconds: 60,
        dock_meter_geometry: None,
    }
}

impl Default for PersistedSettings {
    fn default() -> (s: PersistedSettings)
        ensures
            s == default_persisted_settings(),
    {
        PersistedSettings {
            dock_meter_visible: true,
            launch_at_login: true,
            refresh_interval_seconds: 60,
            dock_meter_geometry: None,
        }
    }
}

/// The settings in force, as persisted ones dictate.
pub open spec fn app_settings_of(p: PersistedSettings) -> AppSettings {
    AppSettings {
        dock_meter_visible: p.dock_meter_visible,
        launch_at_login: p.launch_at_login,
        refresh_interval_seconds: p.refresh_interval_seconds,
        dock_meter_geometry: p.dock_meter_geometry,
    }
}

/// The settings to persist for the ones in force.
pub open spec fn persisted_settings_of(a: AppSettings) -> PersistedSettings {
    PersistedSettings {
        dock_meter_visible: a.dock_meter_visible,
        launch_at_login: a.launch_at_login,
        refresh_interval_seconds: a.refresh_interval_seconds,
        dock_meter_geometry: a.dock_meter_geometry,
    }
}

impl From<PersistedSettings> for AppSettings {
    fn from(value: PersistedSettings) -> (r: AppSettings) {
        AppSettings {
            dock_meter_visible: value.dock_meter_visible,
            launch_at_login: value.launch_at_login,
            refresh_interval_seconds: value.refresh_interval_seconds,
            dock_meter_geometry: value.dock_meter_geometry,
        }
    }
}

impl vstd::std_specs::convert::FromSpecImpl<PersistedSettings> for AppSettings {
    open spec fn obeys_from_spec() -> bool {
        true
    }

    open spec fn from_spec(value: PersistedSettings) -> AppSettings {
        app_settings_of(value)
    }
}

impl<'a> From<&'a AppSettings> for PersistedSettings {
    fn from(value: &'a AppSettings) -> (r: PersistedSettings) {
        PersistedSettings {
            dock_meter_visible: value.dock_meter_visible,
            launch_at_login: value.launch_at_login,
            refresh_interval_seconds: value.refresh_interval_seconds,
            dock_meter_geometry: value.dock_meter_geometry,
        }
    }
}

impl<'a> vstd::std_specs::convert::FromSpecImpl<&'a AppSettings> for PersistedSettings {
    open spec fn obeys_from_spec() -> bool {
        true
    }

    open spec fn from_spec(value: &'a AppSettings) -> PersistedSettings {
        persisted_settings_of(*value)
    }
}

/// Where the settings file lies below the base directory.
pub open spec fn settings_file_suffix() -> Seq<char> {
    "Library/Application Support/Codex Token Meter/settings.json"@
}

/// The settings file: below `HOME`, else below the working directory (an
/// empty path when that is unknown too).
pub open spec fn settings_path_for(home: Option<Seq<char>>, current_dir: Option<Seq<char>>) -> Seq<char> {
    let base = match home {
        Some(h) => h,
        None => match current_dir {
            Some(d) => d,
            None => Seq::empty(),
        },
    };
    joined_path(base, settings_file_suffix())
}

/// Chooses the settings file from the values of `HOME` and the working
/// directory.
pub fn settings_file_path(home: Option<String>, current_dir: Option<String>) -> (r: String)
    ensures
        r@ == settings_path_for(opt_view(home), opt_view(current_dir)),
{
    let base = match home {
        Some(h) => h,
        None => match current_dir {
            Some(d) => d,
            None => String::new(),
        },
    };
    join_path(base, "Library/Application Support/Codex Token Meter/settings.json")
}

/// The default persisted settings put the default settings in force.
pub proof fn law_defaults_agree()
    ensures
        app_settings_of(default_persisted_settings()) == default_app_settings(),
{
}

/// Persisting the settings in force and reading them back gives the same
/// settings.
pub proof fn law_settings_round_trip(a: AppSettings)
    ensures
        app_settings_of(persisted_settings_of(a)) == a,
{
}

/// Putting persisted settings in force and persisting them again gives the
/// same persisted settings.
pub proof fn law_persisted_round_trip(p: PersistedSettings)
    ensures
        persisted_settings_of(app_settings_of(p)) == p,
{
}

} // verus!
