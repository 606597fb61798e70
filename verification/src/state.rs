//! The usage model shared with the user interface, and the application settings.

use vstd::prelude::*;
use vstd::string::*;

verus! {

/// What a usage window holds: its name, the bit pattern of its remaining
/// percentage, and its reset time when known.
pub struct WindowView {
    pub window: Seq<char>,
    pub remaining_percent: u32,
    pub reset_at: Option<Seq<char>>,
}

/// The view of an optional string.
pub open spec fn opt_view(s: Option<String>) -> Option<Seq<char>> {
    match s {
        Some(t) => Some(t@),
        None => None,
    }
}

/// A copy of an optional string.
pub fn copy_opt_string(s: &Option<String>) -> (r: Option<String>)
    ensures
        opt_view(r) == opt_view(*s),
{
    match s {
        Some(t) => Some(t.clone()),
        None => None,
    }
}

/// A single usage window.
#[derive(Debug, Clone, PartialEq)]
pub struct UsageWindow {
    pub window: String,
    /// Bit pattern of the remaining percentage as a single-precision number.
    pub remaining_percent: u32,
    pub reset_at: Option<String>,
}

impl View for UsageWindow {
    type V = WindowView;

    open spec fn view(&self) -> WindowView {
        WindowView {
            window: self.window@,
            remaining_percent: self.remaining_percent,
            reset_at: opt_view(self.reset_at),
        }
    }
}

impl UsageWindow {
    /// A copy of this window.
    pub fn duplicate(&self) -> (r: UsageWindow)
        ensures
            r@ == self@,
    {
        UsageWindow {
            window: self.window.clone(),
            remaining_percent: self.remaining_percent,
            reset_at: copy_opt_string(&self.reset_at),
        }
    }
}

/// The views of a list of windows.
pub open spec fn windows_view(ws: Seq<UsageWindow>) -> Seq<WindowView> {
    ws.map_values(|w: UsageWindow| w@)
}

/// A copy of a list of windows.
pub fn copy_windows(ws: &Vec<UsageWindow>) -> (r: Vec<UsageWindow>)
    ensures
        windows_view(r@) == windows_view(ws@),
{
    let mut r: Vec<UsageWindow> = Vec::new();
    let n = ws.len();
    for i in 0..n
        invariant
            n == ws.len(),
            r.len() == i,
            forall|k: int| 0 <= k < i ==> #[trigger] r@[k]@ == ws@[k]@,
    {
        r.push(ws[i].duplicate());
    }
    assert(windows_view(r@) =~= windows_view(ws@));
    r
}

/// Status of the latest usage data.
#[derive(Debug, Clone, PartialEq)]
pub enum UsageStatus {
    Fresh { fetched_at: String },
    Stale { fetched_at: String, failed_at: String, message: String },
    Unavailable { message: String },
}

/// What a status holds.
pub enum StatusView {
    Fresh { fetched_at: Seq<char> },
    Stale { fetched_at: Seq<char>, failed_at: Seq<char>, message: Seq<char> },
    Unavailable { message: Seq<char> },
}

impl View for UsageStatus {
    type V = StatusView;

    open spec fn view(&self) -> StatusView {
        match self {
            UsageStatus::Fresh { fetched_at } => StatusView::Fresh { fetched_at: fetched_at@ },
            UsageStatus::Stale { fetched_at, failed_at, message } => StatusView::Stale {
                fetched_at: fetched_at@,
                failed_at: failed_at@,
                message: message@,
            },
            UsageStatus::Unavailable { message } => StatusView::Unavailable { message: message@ },
        }
    }
}

impl UsageStatus {
    /// A copy of this status.
    pub fn duplicate(&self) -> (r: UsageStatus)
        ensures
            r@ == self@,
    {
        match self {
            UsageStatus::Fresh { fetched_at } => UsageStatus::Fresh { fetched_at: fetched_at.clone() },
            UsageStatus::Stale { fetched_at, failed_at, message } => UsageStatus::Stale {
                fetched_at: fetched_at.clone(),
                failed_at: failed_at.clone(),
                message: message.clone(),
            },
            UsageStatus::Unavailable { message } => UsageStatus::Unavailable {
                message: message.clone(),
            },
        }
    }
}

/// The usage windows on display and the status of the data behind them.
#[derive(Debug, Clone, PartialEq)]
pub struct UsageSnapshot {
    pub windows: Vec<UsageWindow>,
    pub status: UsageStatus,
}

/// What a snapshot holds.
pub struct SnapshotView {
    pub windows: Seq<WindowView>,
    pub status: StatusView,
}

impl View for UsageSnapshot {
    type V = SnapshotView;

    open spec fn view(&self) -> SnapshotView {
        SnapshotView { windows: windows_view(self.windows@), status: self.status@ }
    }
}

/// The view of an optional snapshot.
pub open spec fn opt_snapshot_view(s: Option<UsageSnapshot>) -> Option<SnapshotView> {
    match s {
        Some(t) => Some(t@),
        None => None,
    }
}

impl UsageSnapshot {
    /// A copy of this snapshot.
    pub fn duplicate(&self) -> (r: UsageSnapshot)
        ensures
            r@ == self@,
    {
        UsageSnapshot { windows: copy_windows(&self.windows), status: self.status.duplicate() }
    }
}

/// Size and position of the Dock meter, as the user left it.
#[derive(Debug, Clone, Copy, PartialEq, Eq)]
pub struct DockMeterGeometry {
    pub x: i32,
    pub y: i32,
    pub width: u32,
    pub height: u32,
}

/// Application settings.
#[derive(Debug, Clone, Copy, PartialEq, Eq)]
pub struct AppSettings {
    pub dock_meter_visible: bool,
    pub launch_at_login: bool,
    pub refresh_interval_seconds: u64,
    pub dock_meter_geometry: Option<DockMeterGeometry>,
}

/// The settings in force before any were saved.
pub open spec fn default_app_settings() -> AppSettings {
    AppSettings {
        dock_meter_visible: true,
        launch_at_login: true,
        refresh_interval_seconds: 60,
        dock_meter_geometry: None,
    }
}

impl Default for AppSettings {
    fn default() -> (s: AppSettings)
        ensures
            s == default_app_settings(),
    {
        AppSettings {
            dock_meter_visible: true,
            launch_at_login: true,
            refresh_interval_seconds: 60,
            dock_meter_geometry: None,
        }
    }
}

} // verus!
