//! The usage service: the snapshot on display and the last successful one.

use vstd::prelude::*;
use vstd::string::*;
use crate::clock::{is_read_from_clock, now_rfc3339, reading_text};
use crate::percent::whole_percent;
use crate::provider::{
    outcome_view, provider_windows_view, CodexUsageProvider, ProviderError, ProviderErrorView,
    ProviderSnapshot, ProviderWindow,
};
use crate::state::{
    copy_opt_string, copy_windows, opt_snapshot_view, windows_view, SnapshotView, StatusView,
    UsageSnapshot, UsageStatus, UsageWindow, WindowView,
};

verus! {

/// What the cache holds: the snapshot on display (none before the first
/// refresh) and the last snapshot that came from a successful refresh.
pub struct CacheView {
    pub current: Option<SnapshotView>,
    pub last_successful: Option<SnapshotView>,
}

/// The cache before any refresh.
pub open spec fn empty_cache() -> CacheView {
    CacheView { current: None, last_successful: None }
}

/// The last successful snapshot, when there is one, is fresh.
pub open spec fn cache_valid(c: CacheView) -> bool {
    match c.last_successful {
        Some(s) => s.status is Fresh,
        None => true,
    }
}

/// The time at which the data of a status was fetched.
pub open spec fn fetched_at_of(s: StatusView) -> Seq<char> {
    match s {
        StatusView::Fresh { fetched_at } => fetched_at,
        StatusView::Stale { fetched_at, .. } => fetched_at,
        StatusView::Unavailable { .. } => Seq::empty(),
    }
}

/// The message of a stale snapshot.
pub open spec fn stale_message() -> Seq<char> {
    "Usage refresh failed; showing cached data"@
}

/// The message of an unavailable snapshot.
pub open spec fn unavailable_message() -> Seq<char> {
    "Usage data is currently unavailable"@
}

/// The snapshot of a successful refresh at time `now`.
pub open spec fn fresh_snapshot(windows: Seq<WindowView>, now: Seq<char>) -> SnapshotView {
    SnapshotView { windows, status: StatusView::Fresh { fetched_at: now } }
}

/// The snapshot of a failed refresh at time `now`: the windows and fetch time
/// of the last successful snapshot marked stale, or, when no refresh has
/// succeeded yet, no windows and an unavailable status.
pub open spec fn failed_snapshot(last: Option<SnapshotView>, now: Seq<char>) -> SnapshotView {
    match last {
        Some(s) => SnapshotView {
            windows: s.windows,
            status: StatusView::Stale {
                fetched_at: fetched_at_of(s.status),
                failed_at: now,
                message: stale_message(),
            },
        },
        None => SnapshotView {
            windows: Seq::empty(),
            status: StatusView::Unavailable { message: unavailable_message() },
        },
    }
}

/// What a refresh returns, given what the provider gave and the time.
pub open spec fn refresh_result(
    cache: CacheView,
    outcome: Result<Seq<WindowView>, ProviderErrorView>,
    now: Seq<char>,
) -> Result<SnapshotView, SnapshotView> {
    match outcome {
        Ok(windows) => Ok(fresh_snapshot(windows, now)),
        Err(_) => Err(failed_snapshot(cache.last_successful, now)),
    }
}

/// The cache after a refresh: the returned snapshot is on display, and it
/// becomes the last successful one when the refresh succeeded.
pub open spec fn refreshed_cache(
    cache: CacheView,
    outcome: Result<Seq<WindowView>, ProviderErrorView>,
    now: Seq<char>,
) -> CacheView {
    match refresh_result(cache, outcome, now) {
        Ok(s) => CacheView { current: Some(s), last_successful: Some(s) },
        Err(s) => CacheView { current: Some(s), last_successful: cache.last_successful },
    }
}

/// The view of a refresh result.
pub open spec fn refresh_view(r: Result<UsageSnapshot, UsageSnapshot>) -> Result<SnapshotView, SnapshotView> {
    match r {
        Ok(s) => Ok(s@),
        Err(s) => Err(s@),
    }
}

/// The snapshot on display and the last successful one.
pub struct UsageCache {
    current_snapshot: Option<UsageSnapshot>,
    last_successful_snapshot: Option<UsageSnapshot>,
}

impl View for UsageCache {
    type V = CacheView;

    closed spec fn view(&self) -> CacheView {
        CacheView {
            current: opt_snapshot_view(self.current_snapshot),
            last_successful: opt_snapshot_view(self.last_successful_snapshot),
        }
    }
}

/// The usage windows of a provider snapshot.
fn usage_windows(windows: &Vec<ProviderWindow>) -> (r: Vec<UsageWindow>)
    ensures
        windows_view(r@) == provider_windows_view(windows@),
{
    let mut r: Vec<UsageWindow> = Vec::new();
    let n = windows.len();
    for i in 0..n
        invariant
            n == windows.len(),
            r.len() == i,
            forall|k: int| 0 <= k < i ==> #[trigger] r@[k]@ == windows@[k]@,
    {
        let pw = &windows[i];
        r.push(
            UsageWindow {
                window: pw.window.clone(),
                remaining_percent: pw.remaining_percent,
                reset_at: copy_opt_string(&pw.reset_at),
            },
        );
    }
    assert(windows_view(r@) =~= provider_windows_view(windows@));
    r
}

impl UsageCache {
    #[verifier::type_invariant]
    closed spec fn wf(self) -> bool {
        cache_valid(self@)
    }

    /// The cache before any refresh.
    pub fn new() -> (c: UsageCache)
        ensures
            c@ == empty_cache(),
    {
        UsageCache { current_snapshot: None, last_successful_snapshot: None }
    }

    /// The snapshot on display, `None` before the first refresh.
    pub fn current_snapshot(&self) -> (s: Option<UsageSnapshot>)
        ensures
            opt_snapshot_view(s) == self@.current,
    {
        match &self.current_snapshot {
            Some(s) => Some(s.duplicate()),
            None => None,
        }
    }

    /// Records the outcome of a refresh that started at time `now`: a success
    /// is fresh and becomes the last successful snapshot; a failure is stale
    /// (the last successful windows and fetch time) or, before any success,
    /// unavailable. Either way the result is what is now on display.
    pub fn record_refresh(
        &mut self,
        outcome: Result<ProviderSnapshot, ProviderError>,
        now: String,
    ) -> (r: Result<UsageSnapshot, UsageSnapshot>)
        ensures
            refresh_view(r) == refresh_result(old(self)@, outcome_view(outcome), now@),
            final(self)@ == refreshed_cache(old(self)@, outcome_view(outcome), now@),
            cache_valid(old(self)@),
            cache_valid(final(self)@),
    {
        proof {
            use_type_invariant(&*self);
        }
        match outcome {
            Ok(raw) => {
                let fresh = UsageSnapshot {
                    windows: usage_windows(&raw.windows),
                    status: UsageStatus::Fresh { fetched_at: now },
                };
                self.last_successful_snapshot = Some(fresh.duplicate());
                self.current_snapshot = Some(fresh.duplicate());
                Ok(fresh)
            },
            Err(_) => {
                let failure = match &self.last_successful_snapshot {
                    Some(success) => {
                        let fetched_at = match &success.status {
                            UsageStatus::Fresh { fetched_at } => fetched_at.clone(),
                            _ => {
                                proof {
                                    assert(false);
                                }
                                String::new()
                            },
                        };
                        UsageSnapshot {
                            windows: copy_windows(&success.windows),
                            status: UsageStatus::Stale {
                                fetched_at,
                                failed_at: now,
                                message: String::from_str("Usage refresh failed; showing cached data"),
                            },
                        }
                    },
                    None => UsageSnapshot {
                        windows: Vec::new(),
                        status: UsageStatus::Unavailable {
                            message: String::from_str("Usage data is currently unavailable"),
                        },
                    },
                };
                assert(failure@.windows =~= failed_snapshot(old(self)@.last_successful, now@).windows);
                self.current_snapshot = Some(failure.duplicate());
                Err(failure)
            },
        }
    }
}

/// An in-memory service over a usage provider that keeps the snapshot on
/// display and the last successful one. It never stores credentials or usage
/// history.
pub struct UsageService<P: CodexUsageProvider> {
    provider: P,
    cache: UsageCache,
}

impl<P: CodexUsageProvider> View for UsageService<P> {
    type V = CacheView;

    closed spec fn view(&self) -> CacheView {
        self.cache@
    }
}

impl<P: CodexUsageProvider> UsageService<P> {
    /// The provider this service reads.
    pub closed spec fn held_provider(&self) -> P {
        self.provider
    }

    /// A service over `provider` that has not refreshed yet.
    pub fn new(provider: P) -> (s: UsageService<P>)
        ensures
            s.held_provider() == provider,
            s@ == empty_cache(),
    {
        UsageService { provider, cache: UsageCache::new() }
    }

    /// The provider this service reads.
    pub fn provider(&self) -> (p: &P)
        ensures
            *p == self.held_provider(),
    {
        &self.provider
    }

    /// The provider this service reads, for changing it.
    pub fn provider_mut(&mut self) -> (p: &mut P)
        ensures
            *p == old(self).held_provider(),
            final(self).held_provider() == *final(p),
            final(self)@ == old(self)@,
    {
        &mut self.provider
    }

    /// The snapshot on display, `None` before the first refresh.
    pub fn get_usage_snapshot(&self) -> (s: Option<UsageSnapshot>)
        ensures
            opt_snapshot_view(s) == self@.current,
    {
        self.cache.current_snapshot()
    }

    /// Refreshes usage data from the provider: `Ok` with a fresh snapshot on
    /// success; on failure `Err` with the last successful windows marked stale,
    /// or an unavailable snapshot when nothing has succeeded yet. The result is
    /// what `get_usage_snapshot` gives afterwards.
    pub fn refresh(&mut self) -> (r: Result<UsageSnapshot, UsageSnapshot>)
        ensures
            final(self).held_provider() == old(self).held_provider(),
            exists|outcome: Result<ProviderSnapshot, ProviderError>, now: Seq<char>|
                call_ensures(P::fetch_and_parse, (&old(self).held_provider(),), outcome)
                    && (exists|reading: Option<(u64, u32)>| is_read_from_clock(reading) && now == reading_text(reading))
                    && refresh_view(r) == #[trigger] refresh_result(old(self)@, outcome_view(outcome), now)
                    && final(self)@ == refreshed_cache(old(self)@, outcome_view(outcome), now),
    {
        let now = now_rfc3339();
        let outcome = self.provider.fetch_and_parse();
        let ghost o = outcome;
        let ghost n = now@;
        let r = self.cache.record_refresh(outcome, now);
        assert(refresh_view(r) == refresh_result(old(self)@, outcome_view(o), n));
        r
    }
}

/// The windows of the demonstration snapshot.
pub open spec fn mock_windows() -> Seq<WindowView> {
    seq![
        WindowView {
            window: "5h"@,
            remaining_percent: crate::percent::whole_bits(72) as u32,
            reset_at: Some("2026-07-16T19:00:00Z"@),
        },
        WindowView {
            window: "7d"@,
            remaining_percent: crate::percent::whole_bits(79) as u32,
            reset_at: Some("2026-07-22T09:28:00Z"@),
        },
    ]
}

/// A demonstration snapshot, fresh as of now: `5h` at 72% and `7d` at 79%.
pub fn mock_snapshot() -> (s: UsageSnapshot)
    ensures
        s@.windows == mock_windows(),
        s@.status is Fresh,
        exists|reading: Option<(u64, u32)>|
            is_read_from_clock(reading) && s@.status->Fresh_fetched_at == #[trigger] reading_text(reading),
{
    let mut windows: Vec<UsageWindow> = Vec::new();
    windows.push(
        UsageWindow {
            window: String::from_str("5h"),
            remaining_percent: whole_percent(72),
            reset_at: Some(String::from_str("2026-07-16T19:00:00Z")),
        },
    );
    windows.push(
        UsageWindow {
            window: String::from_str("7d"),
            remaining_percent: whole_percent(79),
            reset_at: Some(String::from_str("2026-07-22T09:28:00Z")),
        },
    );
    let s = UsageSnapshot { windows, status: UsageStatus::Fresh { fetched_at: now_rfc3339() } };
    assert(s@.windows =~= mock_windows());
    s
}

// ---------------------------------------------------------------------------
// Laws of the refresh cycle

/// After a refresh, the snapshot on display is the one the refresh returned.
pub proof fn law_refresh_result_is_displayed(
    cache: CacheView,
    outcome: Result<Seq<WindowView>, ProviderErrorView>,
    now: Seq<char>,
)
    ensures
        refreshed_cache(cache, outcome, now).current == Some(
            match refresh_result(cache, outcome, now) {
                Ok(s) => s,
                Err(s) => s,
            },
        ),
{
}

/// A successful refresh is fresh as of its start, shows exactly the windows
/// the provider gave, and becomes the last successful snapshot.
pub proof fn law_success_is_fresh(cache: CacheView, windows: Seq<WindowView>, now: Seq<char>)
    ensures
        refresh_result(cache, Ok(windows), now) == Ok::<SnapshotView, SnapshotView>(
            fresh_snapshot(windows, now),
        ),
        refreshed_cache(cache, Ok(windows), now).last_successful == Some(fresh_snapshot(windows, now)),
{
}

/// A failed refresh after a success keeps the windows and the fetch time of
/// the last successful snapshot, marked stale as of the failure.
pub proof fn law_failure_after_success_is_stale(
    cache: CacheView,
    error: ProviderErrorView,
    now: Seq<char>,
)
    requires
        cache_valid(cache),
        cache.last_successful is Some,
    ensures
        ({
            let last = cache.last_successful.unwrap();
            refresh_result(cache, Err(error), now) matches Err(s) && s.windows == last.windows
                && s.status == (StatusView::Stale {
                fetched_at: last.status->Fresh_fetched_at,
                failed_at: now,
                message: stale_message(),
            })
        }),
{
}

/// A failed refresh before any success shows no windows and the unavailable
/// status, never invented values.
pub proof fn law_failure_before_success_is_unavailable(
    cache: CacheView,
    error: ProviderErrorView,
    now: Seq<char>,
)
    requires
        cache.last_successful is None,
    ensures
        refresh_result(cache, Err(error), now) matches Err(s) && s.windows.len() == 0
            && s.status == (StatusView::Unavailable { message: unavailable_message() }),
        refreshed_cache(cache, Err(error), now).last_successful is None,
{
}

/// A failed refresh is unavailable exactly when no refresh has succeeded yet.
pub proof fn law_unavailable_iff_never_succeeded(
    cache: CacheView,
    error: ProviderErrorView,
    now: Seq<char>,
)
    requires
        cache_valid(cache),
    ensures
        refresh_result(cache, Err(error), now) matches Err(s) && (s.status is Unavailable
            <==> cache.last_successful is None),
{
}

/// Failures never change the last successful snapshot, so a second failure
/// shows the same windows and fetch time as the first.
pub proof fn law_repeated_failures_keep_data(
    cache: CacheView,
    first: ProviderErrorView,
    first_time: Seq<char>,
    second: ProviderErrorView,
    second_time: Seq<char>,
)
    ensures
        ({
            let after_first = refreshed_cache(cache, Err(first), first_time);
            &&& after_first.last_successful == cache.last_successful
            &&& refresh_result(cache, Err(first), first_time) matches Err(a)
                && refresh_result(after_first, Err(second), second_time) matches Err(b)
                && a.windows == b.windows && fetched_at_of(a.status) == fetched_at_of(b.status)
        }),
{
}

/// After two successes, a failure falls back to the later one.
pub proof fn law_failure_falls_back_to_latest_success(
    cache: CacheView,
    first: Seq<WindowView>,
    first_time: Seq<char>,
    second: Seq<WindowView>,
    second_time: Seq<char>,
    error: ProviderErrorView,
    now: Seq<char>,
)
    ensures
        ({
            let after_first = refreshed_cache(cache, Ok(first), first_time);
            let after_second = refreshed_cache(after_first, Ok(second), second_time);
            refresh_result(after_second, Err(error), now) matches Err(s) && s.windows == second
                && s.status == (StatusView::Stale {
                fetched_at: second_time,
                failed_at: now,
                message: stale_message(),
            })
        }),
{
}

/// Every refresh keeps the last successful snapshot fresh.
pub proof fn law_refresh_keeps_cache_valid(
    cache: CacheView,
    outcome: Result<Seq<WindowView>, ProviderErrorView>,
    now: Seq<char>,
)
    requires
        cache_valid(cache),
    ensures
        cache_valid(refreshed_cache(cache, outcome, now)),
{
}

// ---------------------------------------------------------------------------
// Laws over whole histories of refreshes

/// One refresh as recorded: what the provider gave and the time it started.
pub type RefreshEvent = (Result<Seq<WindowView>, ProviderErrorView>, Seq<char>);

/// The cache after a history of refreshes, starting from a new service.
pub open spec fn cache_after(history: Seq<RefreshEvent>) -> CacheView
    decreases history.len(),
{
    if history.len() == 0 {
        empty_cache()
    } else {
        refreshed_cache(cache_after(history.drop_last()), history.last().0, history.last().1)
    }
}

/// The most recent refresh of a history that succeeded, if any.
pub open spec fn last_success(history: Seq<RefreshEvent>) -> Option<int>
    decreases history.len(),
{
    if history.len() == 0 {
        None
    } else if history.last().0 is Ok {
        Some(history.len() - 1)
    } else {
        last_success(history.drop_last())
    }
}

proof fn lemma_last_success_in_range(history: Seq<RefreshEvent>)
    ensures
        last_success(history) matches Some(k) ==> 0 <= k < history.len() && history[k].0 is Ok,
        last_success(history) matches Some(k) ==> forall|j: int| k < j < history.len() ==> #[trigger] history[j].0 is Err,
        last_success(history) is None ==> forall|j: int| 0 <= j < history.len() ==> #[trigger] history[j].0 is Err,
    decreases history.len(),
{
    if history.len() > 0 {
        let pre = history.drop_last();
        lemma_last_success_in_range(pre);
        assert forall|j: int| 0 <= j < pre.len() implies pre[j] == history[j] by {}
    }
}

/// After any history, the last successful snapshot is the fresh snapshot of
/// the most recent successful refresh, and there is none when no refresh has
/// succeeded.
pub proof fn law_history_last_success(history: Seq<RefreshEvent>)
    ensures
        cache_after(history).last_successful == match last_success(history) {
            Some(k) => Some(fresh_snapshot(history[k].0->Ok_0, history[k].1)),
            None => None,
        },
        cache_valid(cache_after(history)),
    decreases history.len(),
{
    if history.len() > 0 {
        let pre = history.drop_last();
        law_history_last_success(pre);
        lemma_last_success_in_range(pre);
        if let Some(k) = last_success(pre) {
            assert(pre[k] == history[k]);
        }
    }
}

/// After any history, a failed refresh shows the windows and fetch time of the
/// most recent successful refresh, marked stale as of the failure; when no
/// refresh has succeeded it shows no windows and the unavailable status.
pub proof fn law_history_failure(history: Seq<RefreshEvent>, error: ProviderErrorView, now: Seq<char>)
    ensures
        refresh_result(cache_after(history), Err(error), now) == Err::<SnapshotView, SnapshotView>(
            match last_success(history) {
                Some(k) => SnapshotView {
                    windows: history[k].0->Ok_0,
                    status: StatusView::Stale {
                        fetched_at: history[k].1,
                        failed_at: now,
                        message: stale_message(),
                    },
                },
                None => SnapshotView {
                    windows: Seq::empty(),
                    status: StatusView::Unavailable { message: unavailable_message() },
                },
            },
        ),
{
    law_history_last_success(history);
}

/// After any history, the snapshot on display is none exactly when no refresh
/// has happened, and otherwise the result of the latest refresh.
pub proof fn law_history_display(history: Seq<RefreshEvent>)
    ensures
        history.len() == 0 ==> cache_after(history).current is None,
        history.len() > 0 ==> cache_after(history).current == Some(
            match refresh_result(cache_after(history.drop_last()), history.last().0, history.last().1) {
                Ok(s) => s,
                Err(s) => s,
            },
        ),
{
}

/// A new service holds the cache of the empty history, and each refresh
/// extends the history by one event: so a service's cache is always
/// `cache_after` of the refreshes made on it.
pub proof fn law_history_step(history: Seq<RefreshEvent>, event: RefreshEvent)
    ensures
        cache_after(Seq::empty()) == empty_cache(),
        cache_after(history.push(event)) == refreshed_cache(cache_after(history), event.0, event.1),
{
    assert(history.push(event).drop_last() =~= history);
}

} // verus!
