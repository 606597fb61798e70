//! The handle that wakes the background refresh loop early.

use vstd::prelude::*;
use std::sync::mpsc::SyncSender;
use crate::state::{AppSettings, UsageSnapshot};
use crate::usage::refresh_view;

verus! {

/// `std::sync::mpsc::SyncSender`, carried through opaquely.
#[verifier::external_type_specification]
#[verifier::external_body]
#[verifier::reject_recursive_types(T)]
pub struct ExSyncSender<T>(SyncSender<T>);

/// Offers one wake-up signal through `SyncSender::try_send`, never blocking.
/// Trusted; nothing is stated: whether the signal fits in the channel, or the
/// loop still listens, depends on the loop.
#[verifier::external_body]
fn offer_wake_signal(sender: &SyncSender<()>) {
    let _ = sender.try_send(());
}

/// Wakes the usage polling loop, for instance when its interval changes.
pub struct RefreshLoopHandle {
    wake_sender: SyncSender<()>,
}

impl RefreshLoopHandle {
    /// A handle that signals the loop listening on the other end of
    /// `wake_sender`.
    pub fn new(wake_sender: SyncSender<()>) -> (h: RefreshLoopHandle)
        ensures
            h.wake_channel() == wake_sender,
    {
        RefreshLoopHandle { wake_sender }
    }

    /// The sending end through which this handle wakes the loop.
    pub closed spec fn wake_channel(&self) -> SyncSender<()> {
        self.wake_sender
    }

    /// Asks the loop to refresh now, unless a request is already pending.
    pub fn wake(&self) {
        offer_wake_signal(&self.wake_sender);
    }
}

/// How the loop's last wait for the next round ended.
#[derive(Debug, Clone, Copy, PartialEq, Eq)]
pub enum WaitOutcome {
    /// A wake-up signal arrived.
    Woken,
    /// The refresh interval passed.
    TimedOut,
    /// Every handle is gone; nobody can wake the loop any more.
    Disconnected,
}

/// What the loop does next.
#[derive(Debug, Clone, Copy, PartialEq, Eq)]
pub enum LoopStep {
    /// Refresh from the live provider and show the result.
    RefreshLive,
    /// Show the demonstration snapshot, without asking the live provider.
    ShowMock,
    /// Leave the loop.
    Stop,
}

/// Where shown usage comes from.
#[derive(Debug, Clone, Copy, PartialEq, Eq)]
pub enum UsageSource {
    /// The demonstration snapshot; the live provider is never asked.
    Mock,
    /// The live provider.
    Live,
}

/// Where shown usage comes from: the demonstration snapshot in mock mode, the
/// live provider otherwise.
pub fn usage_source(mock_usage: bool) -> (u: UsageSource)
    ensures
        (u == UsageSource::Mock) <==> mock_usage,
{
    if mock_usage {
        UsageSource::Mock
    } else {
        UsageSource::Live
    }
}

/// What the loop does next, as a function of mock mode and how its last wait
/// ended (`None` before the first round).
pub open spec fn loop_step_for(mock_usage: bool, last_wait: Option<WaitOutcome>) -> LoopStep {
    if last_wait == Some(WaitOutcome::Disconnected) {
        LoopStep::Stop
    } else if mock_usage {
        LoopStep::ShowMock
    } else {
        LoopStep::RefreshLive
    }
}

/// The steps of a run of the loop whose waits ended as `waits`: the first
/// round, then one round after each wait.
pub open spec fn loop_steps(mock_usage: bool, waits: Seq<WaitOutcome>) -> Seq<LoopStep> {
    Seq::new(
        waits.len() + 1,
        |i: int| loop_step_for(mock_usage, if i == 0 { None } else { Some(waits[i - 1]) }),
    )
}

/// Over a whole run of the loop: a round stops the loop exactly when the wait
/// before it found the wake channel gone; in mock mode no round asks the live
/// provider, and otherwise every round that does not stop refreshes from it.
pub proof fn law_loop_rounds(mock_usage: bool, waits: Seq<WaitOutcome>)
    ensures
        forall|i: int|
            0 <= i <= waits.len() ==> ((#[trigger] loop_steps(mock_usage, waits)[i] == LoopStep::Stop) <==> (
            i > 0 && waits[i - 1] == WaitOutcome::Disconnected)),
        mock_usage ==> forall|i: int|
            0 <= i <= waits.len() ==> #[trigger] loop_steps(mock_usage, waits)[i] != LoopStep::RefreshLive,
        !mock_usage ==> forall|i: int|
            0 <= i <= waits.len() ==> #[trigger] loop_steps(mock_usage, waits)[i] != LoopStep::ShowMock,
{
}

/// What the loop does next: it stops once its wake channel is gone; otherwise
/// it shows the demonstration snapshot in mock mode, and refreshes from the
/// live provider in all other cases. `last_wait` is `None` for the first round.
pub fn next_loop_step(mock_usage: bool, last_wait: Option<WaitOutcome>) -> (s: LoopStep)
    ensures
        (s == LoopStep::Stop) <==> (last_wait == Some(WaitOutcome::Disconnected)),
        (s == LoopStep::ShowMock) <==> (mock_usage && last_wait != Some(WaitOutcome::Disconnected)),
        (s == LoopStep::RefreshLive) <==> (!mock_usage && last_wait != Some(WaitOutcome::Disconnected)),
        s == loop_step_for(mock_usage, last_wait),
{
    match last_wait {
        Some(WaitOutcome::Disconnected) => LoopStep::Stop,
        _ => match usage_source(mock_usage) {
            UsageSource::Mock => LoopStep::ShowMock,
            UsageSource::Live => LoopStep::RefreshLive,
        },
    }
}

/// How long the loop waits between rounds, in seconds: the refresh interval
/// in force.
pub fn loop_wait_seconds(settings: &AppSettings) -> (n: u64)
    ensures
        n == settings.refresh_interval_seconds,
{
    settings.refresh_interval_seconds
}

/// The snapshot a round shows: the refresh's result, whether it succeeded or
/// not.
pub fn round_snapshot(r: Result<UsageSnapshot, UsageSnapshot>) -> (s: UsageSnapshot)
    ensures
        s@ == match refresh_view(r) {
            Ok(x) => x,
            Err(x) => x,
        },
{
    match r {
        Ok(s) => s,
        Err(s) => s,
    }
}

} // verus!
