//! What the user interface's commands decide, apart from locking, saving and
//! window handling.

use vstd::prelude::*;
use crate::error::{app_error, AppError, AppErrorView};
use crate::state::{opt_snapshot_view, AppSettings, DockMeterGeometry, UsageSnapshot};
use crate::usage::refresh_view;

verus! {

/// Answer to a request for the current usage snapshot.
#[derive(Debug)]
pub struct SnapshotResponse {
    pub snapshot: Option<UsageSnapshot>,
    pub error: Option<AppError>,
}

/// The error given when no snapshot exists yet.
pub open spec fn no_snapshot_error() -> AppErrorView {
    app_error("usage_unavailable"@, "No snapshot available yet"@)
}

impl SnapshotResponse {
    /// The answer for the snapshot on display: the snapshot itself, and an
    /// unavailable-usage error exactly when there is none yet.
    pub fn from_current(current: Option<UsageSnapshot>) -> (r: SnapshotResponse)
        ensures
            opt_snapshot_view(r.snapshot) == opt_snapshot_view(current),
            current is None ==> (r.error matches Some(e) && e@ == no_snapshot_error()),
            current is Some ==> r.error is None,
    {
        let error = if current.is_none() {
            Some(AppError::usage_unavailable("No snapshot available yet"))
        } else {
            None
        };
        SnapshotResponse { snapshot: current, error }
    }
}

/// Answer to a refresh request.
#[derive(Debug)]
pub struct RefreshResponse {
    pub snapshot: UsageSnapshot,
    /// The refresh failed (the snapshot is stale or unavailable).
    pub error: bool,
}

impl RefreshResponse {
    /// The answer for the outcome of a refresh: its snapshot, and whether it
    /// failed.
    pub fn from_refresh(outcome: Result<UsageSnapshot, UsageSnapshot>) -> (r: RefreshResponse)
        ensures
            match refresh_view(outcome) {
                Ok(s) => r.snapshot@ == s && !r.error,
                Err(s) => r.snapshot@ == s && r.error,
            },
    {
        match outcome {
            Ok(snapshot) => RefreshResponse { snapshot, error: false },
            Err(snapshot) => RefreshResponse { snapshot, error: true },
        }
    }
}

/// The Dock meter sizes the application supports.
pub open spec fn geometry_in_range(width: u32, height: u32) -> bool {
    160 <= width <= 520 && 48 <= height <= 180
}

/// The refresh intervals the application supports, in seconds.
pub open spec fn interval_supported(seconds: u64) -> bool {
    seconds == 10 || seconds == 30 || seconds == 60
}

/// The error for a Dock meter size outside the supported range.
pub open spec fn geometry_error() -> AppErrorView {
    app_error("settings_error"@, "Dock meter geometry is outside the supported range"@)
}

/// The error for an unsupported refresh interval.
pub open spec fn interval_error() -> AppErrorView {
    app_error("settings_error"@, "Refresh interval must be 10, 30, or 60 seconds"@)
}

/// Shows or hides the Dock meter; gives the settings now in force.
pub fn set_dock_meter_visible(settings: &mut AppSettings, visible: bool) -> (r: AppSettings)
    ensures
        *final(settings) == (AppSettings { dock_meter_visible: visible, ..*old(settings) }),
        r == *final(settings),
{
    settings.dock_meter_visible = visible;
    *settings
}

/// Records the Dock meter's position and size, when the size is within
/// `160 ..= 520` by `48 ..= 180`; otherwise changes nothing and fails.
pub fn set_dock_meter_geometry(
    settings: &mut AppSettings,
    x: i32,
    y: i32,
    width: u32,
    height: u32,
) -> (r: Result<AppSettings, AppError>)
    ensures
        geometry_in_range(width, height) ==> {
            &&& *final(settings) == (AppSettings {
                dock_meter_geometry: Some(DockMeterGeometry { x, y, width, height }),
                ..*old(settings)
            })
            &&& r == Ok::<AppSettings, AppError>(*final(settings))
        },
        !geometry_in_range(width, height) ==> {
            &&& *final(settings) == *old(settings)
            &&& r matches Err(e) && e@ == geometry_error()
        },
{
    if !(160 <= width && width <= 520) || !(48 <= height && height <= 180) {
        return Err(AppError::settings_error("Dock meter geometry is outside the supported range"));
    }
    settings.dock_meter_geometry = Some(DockMeterGeometry { x, y, width, height });
    Ok(*settings)
}

/// Turns launch at login on or off once the login item's registration has been
/// attempted: when registration failed, the settings stay as they were and its
/// error text is returned as a settings error; otherwise the setting changes
/// and the settings now in force are returned.
pub fn set_launch_at_login(
    settings: &mut AppSettings,
    enabled: bool,
    registration: Result<(), String>,
) -> (r: Result<AppSettings, AppError>)
    ensures
        match registration {
            Ok(()) => {
                &&& *final(settings) == (AppSettings { launch_at_login: enabled, ..*old(settings) })
                &&& r == Ok::<AppSettings, AppError>(*final(settings))
            },
            Err(message) => {
                &&& *final(settings) == *old(settings)
                &&& r matches Err(e) && e@ == app_error("settings_error"@, message@)
            },
        },
{
    match registration {
        Err(message) => Err(AppError::settings_error(message.as_str())),
        Ok(()) => {
            settings.launch_at_login = enabled;
            Ok(*settings)
        },
    }
}

/// Sets the refresh interval, when it is 10, 30 or 60 seconds; otherwise
/// changes nothing and fails.
pub fn set_refresh_interval(settings: &mut AppSettings, seconds: u64) -> (r: Result<AppSettings, AppError>)
    ensures
        interval_supported(seconds) ==> {
            &&& *final(settings) == (AppSettings { refresh_interval_seconds: seconds, ..*old(settings) })
            &&& r == Ok::<AppSettings, AppError>(*final(settings))
        },
        !interval_supported(seconds) ==> {
            &&& *final(settings) == *old(settings)
            &&& r matches Err(e) && e@ == interval_error()
        },
{
    if !(seconds == 10 || seconds == 30 || seconds == 60) {
        return Err(AppError::settings_error("Refresh interval must be 10, 30, or 60 seconds"));
    }
    settings.refresh_interval_seconds = seconds;
    Ok(*settings)
}

/// Where the Dock meter goes.
#[derive(Debug, Clone, Copy, PartialEq, Eq)]
pub enum DockMeterPlacement {
    /// The meter is hidden.
    Hidden,
    /// The meter is shown with the size and position the user left it at.
    Saved(DockMeterGeometry),
    /// The meter is shown centred on the primary monitor.
    Centered,
}

/// Where the Dock meter goes under the given settings.
pub open spec fn placement_for(settings: AppSettings) -> DockMeterPlacement {
    if !settings.dock_meter_visible {
        DockMeterPlacement::Hidden
    } else {
        match settings.dock_meter_geometry {
            Some(g) => DockMeterPlacement::Saved(g),
            None => DockMeterPlacement::Centered,
        }
    }
}

/// Where the Dock meter goes: hidden when it is turned off, else at its saved
/// geometry, else centred on the primary monitor.
pub fn dock_meter_placement(settings: &AppSettings) -> (p: DockMeterPlacement)
    ensures
        p == placement_for(*settings),
{
    if !settings.dock_meter_visible {
        DockMeterPlacement::Hidden
    } else {
        match settings.dock_meter_geometry {
            Some(g) => DockMeterPlacement::Saved(g),
            None => DockMeterPlacement::Centered,
        }
    }
}

/// A meter that is turned off is hidden, whatever geometry is saved, and only
/// such a meter is hidden; a meter that is on goes to its saved geometry when
/// there is one, else to the centre of the primary monitor.
pub proof fn law_dock_meter_placement(settings: AppSettings)
    ensures
        (placement_for(settings) == DockMeterPlacement::Hidden) <==> !settings.dock_meter_visible,
        settings.dock_meter_visible ==> match settings.dock_meter_geometry {
            Some(g) => placement_for(settings) == DockMeterPlacement::Saved(g),
            None => placement_for(settings) == DockMeterPlacement::Centered,
        },
{
}

} // verus!
