use codex_token_meter_lib::commands::{
    dock_meter_placement, set_dock_meter_geometry, set_dock_meter_visible, set_launch_at_login,
    set_refresh_interval, DockMeterPlacement, RefreshResponse, SnapshotResponse,
};
use codex_token_meter_lib::percent::{clamp_percent, whole_percent, PERCENT_HUNDRED};
use codex_token_meter_lib::provider::{ProviderError, ProviderSnapshot, ProviderWindow};
use codex_token_meter_lib::clock::{now_rfc3339, rfc3339_from_unix_time, rfc3339_of_reading};
use codex_token_meter_lib::refresh::{
    loop_wait_seconds, next_loop_step, round_snapshot, usage_source, LoopStep, RefreshLoopHandle, UsageSource,
    WaitOutcome,
};
use codex_token_meter_lib::settings::{default_refresh_interval, settings_file_path, PersistedSettings};
use codex_token_meter_lib::state::{AppSettings, DockMeterGeometry, UsageStatus};
use codex_token_meter_lib::usage::{mock_snapshot, UsageCache};

#[test]
fn clamp_matches_f32_clamp() {
    let mut samples: Vec<f32> = vec![
        0.0, -0.0, 100.0, 99.999, 100.001, -1e-30, 1e-30, 50.5, 72.5, 18.3, -5.0, 120.0,
        f32::INFINITY, f32::NEG_INFINITY, f32::MAX, f32::MIN, f32::MIN_POSITIVE, f32::NAN,
    ];
    let mut x: u32 = 0x1234_5678;
    for _ in 0..20000 {
        x = x.wrapping_mul(1_664_525).wrapping_add(1_013_904_223);
        samples.push(f32::from_bits(x));
    }
    for v in samples {
        let expected = v.clamp(0.0, 100.0);
        let got = f32::from_bits(clamp_percent(v.to_bits()));
        if expected.is_nan() {
            assert!(got.is_nan());
        } else {
            assert_eq!(got.to_bits(), expected.to_bits(), "clamp of {v}");
        }
    }
    assert_eq!(clamp_percent(150.0f32.to_bits()), PERCENT_HUNDRED);
}

#[test]
fn whole_percentages_are_exact() {
    for n in 0..=100u32 {
        assert_eq!(f32::from_bits(whole_percent(n)), n as f32);
        assert_eq!(whole_percent(n), (100.0f32 - (100 - n) as f32).to_bits());
    }
}

#[test]
fn default_settings() {
    let s = AppSettings::default();
    assert!(s.dock_meter_visible);
    assert!(s.launch_at_login);
    assert_eq!(s.refresh_interval_seconds, 60);
    assert_eq!(s.dock_meter_geometry, None);
    let p = PersistedSettings::default();
    assert_eq!(AppSettings::from(p), s);
    assert_eq!(default_refresh_interval(), 60);
}

#[test]
fn settings_round_trip() {
    let s = AppSettings {
        dock_meter_visible: false,
        launch_at_login: true,
        refresh_interval_seconds: 30,
        dock_meter_geometry: Some(DockMeterGeometry { x: -4, y: 900, width: 400, height: 64 }),
    };
    let p = PersistedSettings::from(&s);
    assert_eq!(p.refresh_interval_seconds, 30);
    assert_eq!(AppSettings::from(p), s);
    assert_eq!(PersistedSettings::from(&AppSettings::from(p)), p);
}

#[test]
fn geometry_bounds() {
    let mut s = AppSettings::default();
    assert!(set_dock_meter_geometry(&mut s, 1, 2, 159, 64).is_err());
    assert!(set_dock_meter_geometry(&mut s, 1, 2, 521, 64).is_err());
    assert!(set_dock_meter_geometry(&mut s, 1, 2, 400, 47).is_err());
    let err = set_dock_meter_geometry(&mut s, 1, 2, 400, 181).unwrap_err();
    assert_eq!(err.code, "settings_error");
    assert_eq!(err.message, "Dock meter geometry is outside the supported range");
    assert_eq!(s, AppSettings::default());
    let r = set_dock_meter_geometry(&mut s, -10, 20, 160, 48).unwrap();
    assert_eq!(r.dock_meter_geometry, Some(DockMeterGeometry { x: -10, y: 20, width: 160, height: 48 }));
    assert_eq!(r, s);
    let r = set_dock_meter_geometry(&mut s, 0, 0, 520, 180).unwrap();
    assert_eq!(r.dock_meter_geometry, Some(DockMeterGeometry { x: 0, y: 0, width: 520, height: 180 }));
}

#[test]
fn refresh_interval_choices() {
    let mut s = AppSettings::default();
    for bad in [0u64, 5, 11, 45, 61, 3600] {
        let err = set_refresh_interval(&mut s, bad).unwrap_err();
        assert_eq!(err.message, "Refresh interval must be 10, 30, or 60 seconds");
        assert_eq!(s.refresh_interval_seconds, 60);
    }
    for good in [10u64, 30, 60] {
        assert_eq!(set_refresh_interval(&mut s, good).unwrap().refresh_interval_seconds, good);
        assert_eq!(s.refresh_interval_seconds, good);
    }
}

#[test]
fn toggles_and_placement() {
    let mut s = AppSettings::default();
    assert_eq!(dock_meter_placement(&s), DockMeterPlacement::Centered);
    let r = set_dock_meter_visible(&mut s, false);
    assert!(!r.dock_meter_visible);
    assert_eq!(dock_meter_placement(&s), DockMeterPlacement::Hidden);
    set_dock_meter_visible(&mut s, true);
    set_dock_meter_geometry(&mut s, 5, 6, 300, 100).unwrap();
    assert_eq!(
        dock_meter_placement(&s),
        DockMeterPlacement::Saved(DockMeterGeometry { x: 5, y: 6, width: 300, height: 100 })
    );
    let before = s;
    let err = set_launch_at_login(&mut s, false, Err("Could not enable launch at login: denied".to_string()))
        .unwrap_err();
    assert_eq!(err.code, "settings_error");
    assert_eq!(err.message, "Could not enable launch at login: denied");
    assert_eq!(s, before);
    let r = set_launch_at_login(&mut s, false, Ok(())).unwrap();
    assert!(!r.launch_at_login);
    assert!(r.dock_meter_visible);
    assert_eq!(r, s);
}

fn one_window() -> ProviderSnapshot {
    ProviderSnapshot {
        windows: vec![ProviderWindow {
            window: "7d".to_string(),
            remaining_percent: 45.0f32.to_bits(),
            reset_at: None,
        }],
    }
}

fn failure() -> ProviderError {
    ProviderError::ParseError { source: "x".to_string(), detail: "y".to_string() }
}

#[test]
fn cache_records_outcomes() {
    let mut cache = UsageCache::new();
    assert!(cache.current_snapshot().is_none());
    let fresh = cache.record_refresh(Ok(one_window()), "T1".to_string()).unwrap();
    assert_eq!(fresh.status, UsageStatus::Fresh { fetched_at: "T1".to_string() });
    assert_eq!(fresh.windows.len(), 1);
    let stale = cache.record_refresh(Err(failure()), "T2".to_string()).unwrap_err();
    assert_eq!(
        stale.status,
        UsageStatus::Stale {
            fetched_at: "T1".to_string(),
            failed_at: "T2".to_string(),
            message: "Usage refresh failed; showing cached data".to_string(),
        }
    );
    assert_eq!(stale.windows, fresh.windows);
    assert_eq!(cache.current_snapshot().unwrap(), stale);
}

#[test]
fn responses() {
    let none = SnapshotResponse::from_current(None);
    assert!(none.snapshot.is_none());
    let err = none.error.unwrap();
    assert_eq!(err.code, "usage_unavailable");
    assert_eq!(err.message, "No snapshot available yet");
    let snap = mock_snapshot();
    let some = SnapshotResponse::from_current(Some(snap.clone()));
    assert!(some.error.is_none());
    assert_eq!(some.snapshot.unwrap(), snap);
    assert!(!RefreshResponse::from_refresh(Ok(snap.clone())).error);
    assert!(RefreshResponse::from_refresh(Err(snap)).error);
}

#[test]
fn mock_snapshot_values() {
    let s = mock_snapshot();
    assert_eq!(s.windows.len(), 2);
    assert_eq!(s.windows[0].window, "5h");
    assert_eq!(f32::from_bits(s.windows[0].remaining_percent), 72.0);
    assert_eq!(s.windows[0].reset_at.as_deref(), Some("2026-07-16T19:00:00Z"));
    assert_eq!(s.windows[1].window, "7d");
    assert_eq!(f32::from_bits(s.windows[1].remaining_percent), 79.0);
    assert!(matches!(s.status, UsageStatus::Fresh { .. }));
}

#[test]
fn wake_signals_the_loop_once() {
    let (sender, receiver) = std::sync::mpsc::sync_channel::<()>(1);
    let handle = RefreshLoopHandle::new(sender);
    handle.wake();
    handle.wake();
    assert!(receiver.try_recv().is_ok());
    assert!(receiver.try_recv().is_err());
    drop(receiver);
    handle.wake();
}

#[test]
fn settings_file_location() {
    assert_eq!(
        settings_file_path(Some("/Users/me".to_string()), Some("/tmp".to_string())),
        "/Users/me/Library/Application Support/Codex Token Meter/settings.json"
    );
    assert_eq!(
        settings_file_path(None, Some("/tmp/".to_string())),
        "/tmp/Library/Application Support/Codex Token Meter/settings.json"
    );
    assert_eq!(
        settings_file_path(None, None),
        "Library/Application Support/Codex Token Meter/settings.json"
    );
}

#[test]
fn loop_steps() {
    assert_eq!(next_loop_step(false, None), LoopStep::RefreshLive);
    assert_eq!(next_loop_step(true, None), LoopStep::ShowMock);
    assert_eq!(next_loop_step(false, Some(WaitOutcome::Woken)), LoopStep::RefreshLive);
    assert_eq!(next_loop_step(true, Some(WaitOutcome::TimedOut)), LoopStep::ShowMock);
    assert_eq!(next_loop_step(false, Some(WaitOutcome::Disconnected)), LoopStep::Stop);
    assert_eq!(next_loop_step(true, Some(WaitOutcome::Disconnected)), LoopStep::Stop);
    let mut s = AppSettings::default();
    assert_eq!(loop_wait_seconds(&s), 60);
    set_refresh_interval(&mut s, 10).unwrap();
    assert_eq!(loop_wait_seconds(&s), 10);
    let snap = mock_snapshot();
    assert_eq!(round_snapshot(Ok(snap.clone())), snap);
    assert_eq!(round_snapshot(Err(snap.clone())), snap);
}

#[test]
fn clock_rendering() {
    assert_eq!(rfc3339_from_unix_time(1784188800, 0).as_deref(), Some("2026-07-16T08:00:00+00:00"));
    assert_eq!(rfc3339_from_unix_time(0, 500_000_000).as_deref(), Some("1970-01-01T00:00:00.500+00:00"));
    assert_eq!(rfc3339_from_unix_time(i64::MAX, 0), None);
    let now = now_rfc3339();
    assert!(chrono::DateTime::parse_from_rfc3339(&now).is_ok());
}

#[test]
fn clock_reading_rendering() {
    assert_eq!(rfc3339_of_reading(Some((1784188800, 0))), "2026-07-16T08:00:00+00:00");
    assert_eq!(rfc3339_of_reading(Some((0, 250_000_000))), "1970-01-01T00:00:00.250+00:00");
    assert_eq!(rfc3339_of_reading(Some((u64::MAX, 0))), "");
    assert_eq!(rfc3339_of_reading(Some((i64::MAX as u64, 0))), "");
    assert_eq!(rfc3339_of_reading(None), "");
}

#[test]
fn usage_sources() {
    assert_eq!(usage_source(true), UsageSource::Mock);
    assert_eq!(usage_source(false), UsageSource::Live);
}
