//! Normalisation of what the Codex usage source reports.

use vstd::prelude::*;
use vstd::string::*;
use crate::clock::{rfc3339_from_unix_time, rfc3339_of_unix_time};
use crate::percent::{clamp_percent, clamped, is_nan, is_percent, whole_bits, whole_percent, PERCENT_ZERO};
use crate::paths::{join_path, joined_path};
use crate::state::{copy_opt_string, opt_view, WindowView};

verus! {

/// A single usage window from the provider.
#[derive(Debug, Clone, PartialEq)]
pub struct ProviderWindow {
    /// Window identifier (`5h` or `7d`).
    pub window: String,
    /// Bit pattern of the remaining percentage as a single-precision number.
    pub remaining_percent: u32,
    /// ISO-8601 reset timestamp, or `None` if unavailable.
    pub reset_at: Option<String>,
}

impl View for ProviderWindow {
    type V = WindowView;

    open spec fn view(&self) -> WindowView {
        WindowView {
            window: self.window@,
            remaining_percent: self.remaining_percent,
            reset_at: opt_view(self.reset_at),
        }
    }
}

/// A parsed usage snapshot from the provider.
#[derive(Debug, Clone)]
pub struct ProviderSnapshot {
    /// Filtered, clamped, deduplicated windows.
    pub windows: Vec<ProviderWindow>,
}

/// The views of a list of provider windows.
pub open spec fn provider_windows_view(ws: Seq<ProviderWindow>) -> Seq<WindowView> {
    ws.map_values(|w: ProviderWindow| w@)
}

impl View for ProviderSnapshot {
    type V = Seq<WindowView>;

    open spec fn view(&self) -> Seq<WindowView> {
        provider_windows_view(self.windows@)
    }
}

/// Errors that can occur when fetching or parsing usage data.
#[derive(Debug, Clone)]
pub enum ProviderError {
    /// The usage source could not be read or is unavailable.
    SourceUnavailable { source: String, detail: String },
    /// The response could not be parsed or has an invalid structure.
    ParseError { source: String, detail: String },
    /// A window identifier occurred twice in the response.
    DuplicateWindow { window: String },
}

/// What an error holds.
pub enum ProviderErrorView {
    SourceUnavailable { source: Seq<char>, detail: Seq<char> },
    ParseError { source: Seq<char>, detail: Seq<char> },
    DuplicateWindow { window: Seq<char> },
}

impl View for ProviderError {
    type V = ProviderErrorView;

    open spec fn view(&self) -> ProviderErrorView {
        match self {
            ProviderError::SourceUnavailable { source, detail } => ProviderErrorView::SourceUnavailable {
                source: source@,
                detail: detail@,
            },
            ProviderError::ParseError { source, detail } => ProviderErrorView::ParseError {
                source: source@,
                detail: detail@,
            },
            ProviderError::DuplicateWindow { window } => ProviderErrorView::DuplicateWindow {
                window: window@,
            },
        }
    }
}

/// The text shown for a provider error.
pub open spec fn provider_error_text(e: ProviderErrorView) -> Seq<char> {
    match e {
        ProviderErrorView::SourceUnavailable { source, detail } =>
            "Source unavailable ["@ + source + "]: "@ + detail,
        ProviderErrorView::ParseError { source, detail } =>
            "Parse error ["@ + source + "]: "@ + detail,
        ProviderErrorView::DuplicateWindow { window } => "Duplicate window: "@ + window,
    }
}

impl ProviderError {
    /// The text shown for this error.
    pub fn to_display_string(&self) -> (s: String)
        ensures
            s@ == provider_error_text(self@),
    {
        match self {
            ProviderError::SourceUnavailable { source, detail } => {
                let mut s = String::from_str("Source unavailable [");
                s.append(source.as_str());
                s.append("]: ");
                s.append(detail.as_str());
                s
            },
            ProviderError::ParseError { source, detail } => {
                let mut s = String::from_str("Parse error [");
                s.append(source.as_str());
                s.append("]: ");
                s.append(detail.as_str());
                s
            },
            ProviderError::DuplicateWindow { window } => {
                let mut s = String::from_str("Duplicate window: ");
                s.append(window.as_str());
                s
            },
        }
    }
}

/// The view of a snapshot-or-error outcome.
pub open spec fn outcome_view(r: Result<ProviderSnapshot, ProviderError>) -> Result<
    Seq<WindowView>,
    ProviderErrorView,
> {
    match r {
        Ok(s) => Ok(s@),
        Err(e) => Err(e@),
    }
}

// ---------------------------------------------------------------------------
// The normalised usage document

/// One window as the usage document states it.
#[derive(Debug, Clone)]
pub struct RawWindow {
    pub window: String,
    /// Bit pattern of the stated remaining percentage, when one is stated.
    pub remaining_percent: Option<u32>,
    pub reset_at: Option<String>,
}

/// What a stated window holds.
pub struct RawWindowView {
    pub window: Seq<char>,
    pub remaining_percent: Option<u32>,
    pub reset_at: Option<Seq<char>>,
}

impl View for RawWindow {
    type V = RawWindowView;

    open spec fn view(&self) -> RawWindowView {
        RawWindowView {
            window: self.window@,
            remaining_percent: self.remaining_percent,
            reset_at: opt_view(self.reset_at),
        }
    }
}

/// The usage document: its windows, or the error that the source reported.
#[derive(Debug, Clone)]
pub struct RawResponse {
    pub windows: Option<Vec<RawWindow>>,
    pub error: Option<String>,
}

/// The views of a list of stated windows.
pub open spec fn raw_windows_view(ws: Seq<RawWindow>) -> Seq<RawWindowView> {
    ws.map_values(|w: RawWindow| w@)
}

/// What a usage document holds; a missing window list reads as an empty one.
pub struct RawResponseView {
    pub windows: Seq<RawWindowView>,
    pub error: Option<Seq<char>>,
}

impl View for RawResponse {
    type V = RawResponseView;

    open spec fn view(&self) -> RawResponseView {
        RawResponseView {
            windows: match self.windows {
                Some(ws) => raw_windows_view(ws@),
                None => Seq::empty(),
            },
            error: opt_view(self.error),
        }
    }
}

/// The windows that the meter shows: `5h` and `7d`.
pub open spec fn is_supported_window(name: Seq<char>) -> bool {
    name == "5h"@ || name == "7d"@
}

/// Window `j` repeats the name of an earlier window.
pub open spec fn repeats_earlier(ws: Seq<RawWindowView>, j: int) -> bool {
    exists|i: int| 0 <= i < j && #[trigger] ws[i].window == ws[j].window
}

/// The first window that repeats the name of an earlier one, if any.
pub open spec fn first_repeat(ws: Seq<RawWindowView>) -> Option<int>
    decreases ws.len(),
{
    if ws.len() == 0 {
        None
    } else {
        match first_repeat(ws.drop_last()) {
            Some(j) => Some(j),
            None => if repeats_earlier(ws, ws.len() - 1) {
                Some(ws.len() - 1)
            } else {
                None
            },
        }
    }
}

/// A stated window is shown: its name is supported and it states a
/// percentage. A window without a percentage is unavailable, never a 0% bar.
pub open spec fn is_shown_window(w: RawWindowView) -> bool {
    is_supported_window(w.window) && w.remaining_percent is Some
}

/// A shown window: its stated percentage clamped to `0.0 ..= 100.0`.
pub open spec fn normalized_window(w: RawWindowView) -> WindowView {
    WindowView {
        window: w.window,
        remaining_percent: clamped(
            match w.remaining_percent {
                Some(p) => p,
                None => PERCENT_ZERO,
            },
        ),
        reset_at: w.reset_at,
    }
}

/// The shown windows (supported, with a stated percentage), in order,
/// normalised.
pub open spec fn normalized_windows(ws: Seq<RawWindowView>) -> Seq<WindowView>
    decreases ws.len(),
{
    if ws.len() == 0 {
        Seq::empty()
    } else {
        let rest = normalized_windows(ws.drop_last());
        if is_shown_window(ws.last()) {
            rest.push(normalized_window(ws.last()))
        } else {
            rest
        }
    }
}

/// What normalising a usage document gives: the reported error as an
/// unavailable source, else a duplicate window (the first name that repeats,
/// unsupported names included), else the supported windows that state a
/// percentage, normalised.
pub open spec fn normalized_response(r: RawResponseView) -> Result<Seq<WindowView>, ProviderErrorView> {
    match r.error {
        Some(e) => Err(ProviderErrorView::SourceUnavailable { source: "codex_response"@, detail: e }),
        None => match first_repeat(r.windows) {
            Some(j) => Err(ProviderErrorView::DuplicateWindow { window: r.windows[j].window }),
            None => Ok(normalized_windows(r.windows)),
        },
    }
}

/// What parsing usage JSON gives, from the outcome of reading the JSON into a
/// usage document (the reader's error text when it failed).
pub open spec fn parsed_response(parsed: Result<RawResponseView, Seq<char>>) -> Result<
    Seq<WindowView>,
    ProviderErrorView,
> {
    match parsed {
        Err(detail) => Err(ProviderErrorView::ParseError { source: "json"@, detail }),
        Ok(r) => normalized_response(r),
    }
}

/// The view of the outcome of reading usage JSON.
pub open spec fn parsed_view(parsed: Result<RawResponse, String>) -> Result<RawResponseView, Seq<char>> {
    match parsed {
        Ok(r) => Ok(r@),
        Err(d) => Err(d@),
    }
}

/// A name is one of the supported windows.
pub fn is_supported(name: &String) -> (b: bool)
    ensures
        b == is_supported_window(name@),
{
    let five_hours = String::from_str("5h");
    let seven_days = String::from_str("7d");
    *name == five_hours || *name == seven_days
}

/// Once a prefix holds a repeat, every longer prefix has the same first repeat.
proof fn lemma_first_repeat_extends(s: Seq<RawWindowView>, m: int, k: int)
    requires
        0 <= m <= k <= s.len(),
        first_repeat(s.take(m)) is Some,
    ensures
        first_repeat(s.take(k)) == first_repeat(s.take(m)),
    decreases k - m,
{
    if k > m {
        lemma_first_repeat_extends(s, m, k - 1);
        assert(s.take(k).drop_last() =~= s.take(k - 1));
    }
}

/// The first index whose window repeats an earlier one.
fn find_first_repeat(ws: &Vec<RawWindow>) -> (r: Option<usize>)
    ensures
        match r {
            Some(j) => j < ws.len() && first_repeat(raw_windows_view(ws@)) == Some(j as int),
            None => first_repeat(raw_windows_view(ws@)) is None,
        },
{
    let ghost all = raw_windows_view(ws@);
    let n = ws.len();
    let mut j: usize = 0;
    while j < n
        invariant
            n == ws.len(),
            all == raw_windows_view(ws@),
            j <= n,
            first_repeat(all.take(j as int)) is None,
        decreases n - j,
    {
        let mut i: usize = 0;
        let mut found = false;
        while i < j
            invariant
                n == ws.len(),
                all == raw_windows_view(ws@),
                i <= j < n,
                found == (exists|k: int| 0 <= k < i && #[trigger] all[k].window == all[j as int].window),
            decreases j - i,
        {
            assert(all[i as int] == ws@[i as int]@);
            assert(all[j as int] == ws@[j as int]@);
            if ws[i].window == ws[j].window {
                found = true;
            }
            assert(found == (exists|k: int| 0 <= k < i + 1 && #[trigger] all[k].window == all[j as int].window)) by {
                if ws[i as int].window@ == ws[j as int].window@ {
                    assert(all[i as int].window == all[j as int].window);
                }
            }
            i = i + 1;
        }
        let ghost pre = all.take(j as int + 1);
        assert(pre.drop_last() =~= all.take(j as int));
        assert(repeats_earlier(pre, j as int) == found) by {
            if found {
                let k = choose|k: int| 0 <= k < j && #[trigger] all[k].window == all[j as int].window;
                assert(pre[k].window == pre[j as int].window);
            }
            if repeats_earlier(pre, j as int) {
                let k = choose|k: int| 0 <= k < j && #[trigger] pre[k].window == pre[j as int].window;
                assert(all[k].window == all[j as int].window);
            }
        }
        if found {
            proof {
                lemma_first_repeat_extends(all, j as int + 1, n as int);
                assert(all.take(n as int) =~= all);
            }
            return Some(j);
        }
        j = j + 1;
    }
    assert(all.take(n as int) =~= all);
    None
}

/// The supported windows of `ws`, normalised.
fn normalize_windows(ws: &Vec<RawWindow>) -> (r: Vec<ProviderWindow>)
    ensures
        provider_windows_view(r@) == normalized_windows(raw_windows_view(ws@)),
{
    let ghost all = raw_windows_view(ws@);
    let mut out: Vec<ProviderWindow> = Vec::new();
    let n = ws.len();
    for i in 0..n
        invariant
            n == ws.len(),
            all == raw_windows_view(ws@),
            provider_windows_view(out@) == normalized_windows(all.take(i as int)),
    {
        let ghost pre = all.take(i as int + 1);
        assert(pre.drop_last() =~= all.take(i as int));
        assert(pre.last() == all[i as int]);
        let rw = &ws[i];
        if is_supported(&rw.window) && rw.remaining_percent.is_some() {
            let stated = match rw.remaining_percent {
                Some(p) => p,
                None => PERCENT_ZERO,
            };
            let w = ProviderWindow {
                window: rw.window.clone(),
                remaining_percent: clamp_percent(stated),
                reset_at: copy_opt_string(&rw.reset_at),
            };
            let ghost before = out@;
            out.push(w);
            assert(provider_windows_view(out@) =~= provider_windows_view(before).push(w@));
        }
    }
    assert(all.take(n as int) =~= all);
    out
}

/// Normalises a usage document: a reported error makes the source unavailable,
/// a repeated window name is rejected, unsupported windows and windows that
/// state no percentage are dropped, and percentages are clamped to
/// `0.0 ..= 100.0`.
///
/// `parsed` is the outcome of reading the JSON text into a usage document; when
/// that failed it holds the reader's error text.
pub fn parse_provider_response(parsed: Result<RawResponse, String>) -> (r: Result<
    ProviderSnapshot,
    ProviderError,
>)
    ensures
        outcome_view(r) == parsed_response(parsed_view(parsed)),
{
    let response = match parsed {
        Err(detail) => {
            return Err(ProviderError::ParseError { source: String::from_str("json"), detail });
        },
        Ok(response) => response,
    };
    if let Some(err) = &response.error {
        return Err(
            ProviderError::SourceUnavailable {
                source: String::from_str("codex_response"),
                detail: err.clone(),
            },
        );
    }
    let raw_windows = match response.windows {
        Some(ws) => ws,
        None => Vec::new(),
    };
    assert(raw_windows_view(raw_windows@) == response@.windows);
    if let Some(j) = find_first_repeat(&raw_windows) {
        return Err(ProviderError::DuplicateWindow { window: raw_windows[j].window.clone() });
    }
    Ok(ProviderSnapshot { windows: normalize_windows(&raw_windows) })
}

// ---------------------------------------------------------------------------
// The Codex app-server rate-limit reply

/// One rate-limit window as the app-server reports it.
#[derive(Debug, Clone, Copy, PartialEq, Eq)]
pub struct RateLimitWindow {
    pub used_percent: i32,
    /// Unix time in seconds at which the window resets.
    pub resets_at: Option<i64>,
    pub window_duration_mins: Option<i64>,
}

/// The primary and secondary windows of one rate limit.
#[derive(Debug, Clone, Copy, PartialEq, Eq)]
pub struct RateLimitSnapshot {
    pub primary: Option<RateLimitWindow>,
    pub secondary: Option<RateLimitWindow>,
}

/// One entry of the rate limits keyed by limit id.
#[derive(Debug, Clone)]
pub struct LimitEntry {
    pub limit_id: String,
    pub snapshot: RateLimitSnapshot,
}

/// The result of the rate-limit request.
#[derive(Debug, Clone)]
pub struct RateLimitResult {
    pub rate_limits: Option<RateLimitSnapshot>,
    /// The rate limits keyed by limit id, one entry per id (see
    /// `limit_ids_distinct`).
    pub rate_limits_by_limit_id: Option<Vec<LimitEntry>>,
}

/// No two entries share a limit id, as in the JSON object they come from.
pub open spec fn limit_ids_distinct(entries: Seq<LimitEntry>) -> bool {
    forall|i: int, j: int|
        0 <= i < j < entries.len() ==> #[trigger] entries[i].limit_id@ != #[trigger] entries[j].limit_id@
}

/// A message's rate limits keyed by id hold one entry per id.
pub open spec fn message_keyed_once(m: Option<AppServerEnvelope>) -> bool {
    match m {
        Some(e) => match e.result {
            Some(r) => match r.rate_limits_by_limit_id {
                Some(v) => limit_ids_distinct(v@),
                None => true,
            },
            None => true,
        },
        None => true,
    }
}

/// Every message's rate limits keyed by id hold one entry per id.
pub open spec fn messages_keyed_once(messages: Seq<Option<AppServerEnvelope>>) -> bool {
    forall|k: int| 0 <= k < messages.len() ==> message_keyed_once(#[trigger] messages[k])
}

/// The `id` of a JSON-RPC message: a non-negative integer, or anything else.
#[derive(Debug, Clone, Copy, PartialEq, Eq)]
pub enum ReplyId {
    Integer(u64),
    Other,
}

/// The `error` member of a JSON-RPC reply: its `message` when that is a string.
#[derive(Debug, Clone)]
pub struct AppServerError {
    pub message: Option<String>,
}

/// One JSON-RPC message from the app-server.
#[derive(Debug, Clone)]
pub struct AppServerEnvelope {
    pub id: Option<ReplyId>,
    pub result: Option<RateLimitResult>,
    pub error: Option<AppServerError>,
}

/// The window name for a window length in minutes.
pub open spec fn window_name_of(duration_minutes: Option<i64>) -> Option<Seq<char>> {
    match duration_minutes {
        Some(m) => if m == 300 {
            Some("5h"@)
        } else if m == 10080 {
            Some("7d"@)
        } else {
            None
        },
        None => None,
    }
}

/// Maps a window length in minutes to a supported window name.
pub fn window_name(duration_minutes: Option<i64>) -> (r: Option<&'static str>)
    ensures
        match r {
            Some(name) => window_name_of(duration_minutes) == Some(name@),
            None => window_name_of(duration_minutes) is None,
        },
{
    match duration_minutes {
        Some(m) => if m == 300 {
            Some("5h")
        } else if m == 10080 {
            Some("7d")
        } else {
            None
        },
        None => None,
    }
}

/// A used percentage limited to `0 ..= 100`.
pub open spec fn clamped_used(used: i32) -> int {
    if used < 0 {
        0
    } else if used > 100 {
        100
    } else {
        used as int
    }
}

/// The reset time of a window, rendered when the app-server gives one.
pub open spec fn reset_text(resets_at: Option<i64>) -> Option<Seq<char>> {
    match resets_at {
        Some(secs) => rfc3339_of_unix_time(secs as int, 0),
        None => None,
    }
}

/// A reported window as shown, when its length maps to a supported window:
/// the remaining percentage is one hundred less the used one.
pub open spec fn shown_window(w: RateLimitWindow) -> Option<WindowView> {
    match window_name_of(w.window_duration_mins) {
        Some(name) => Some(
            WindowView {
                window: name,
                remaining_percent: whole_bits(100 - clamped_used(w.used_percent)) as u32,
                reset_at: reset_text(w.resets_at),
            },
        ),
        None => None,
    }
}

/// A window slot of a rate limit as shown.
pub open spec fn shown_slot(w: Option<RateLimitWindow>) -> Option<WindowView> {
    match w {
        Some(x) => shown_window(x),
        None => None,
    }
}

/// The windows of a rate limit: primary first, then secondary; two windows
/// with the same name are rejected.
pub open spec fn snapshot_windows(s: RateLimitSnapshot) -> Result<Seq<WindowView>, ProviderErrorView> {
    match (shown_slot(s.primary), shown_slot(s.secondary)) {
        (Some(a), Some(b)) => if a.window == b.window {
            Err(ProviderErrorView::DuplicateWindow { window: b.window })
        } else {
            Ok(seq![a, b])
        },
        (Some(a), None) => Ok(seq![a]),
        (None, Some(b)) => Ok(seq![b]),
        (None, None) => Ok(Seq::empty()),
    }
}

/// The first entry keyed `codex`.
pub open spec fn codex_limit(entries: Seq<LimitEntry>) -> Option<RateLimitSnapshot>
    decreases entries.len(),
{
    if entries.len() == 0 {
        None
    } else if entries[0].limit_id@ == "codex"@ {
        Some(entries[0].snapshot)
    } else {
        codex_limit(entries.drop_first())
    }
}

/// The rate limit to show: the one keyed `codex`, else the default one.
pub open spec fn chosen_limit(r: RateLimitResult) -> Option<RateLimitSnapshot> {
    match r.rate_limits_by_limit_id {
        Some(v) => match codex_limit(v@) {
            Some(s) => Some(s),
            None => r.rate_limits,
        },
        None => r.rate_limits,
    }
}

/// What the reply to the rate-limit request gives.
pub open spec fn reply_outcome(e: AppServerEnvelope) -> Result<Seq<WindowView>, ProviderErrorView> {
    match e.error {
        Some(err) => Err(
            ProviderErrorView::SourceUnavailable {
                source: "codex_app_server"@,
                detail: match err.message {
                    Some(m) => m@,
                    None => "Codex app-server returned an error"@,
                },
            },
        ),
        None => match e.result {
            None => Err(
                ProviderErrorView::ParseError {
                    source: "codex_app_server"@,
                    detail: "Rate-limit response did not contain a result"@,
                },
            ),
            Some(r) => match chosen_limit(r) {
                None => Err(
                    ProviderErrorView::SourceUnavailable {
                        source: "codex_app_server"@,
                        detail: "Codex did not provide rate-limit data"@,
                    },
                ),
                Some(s) => snapshot_windows(s),
            },
        },
    }
}

/// A message is the reply to the rate-limit request (its id is `2`).
pub open spec fn is_rate_limit_reply(m: Option<AppServerEnvelope>) -> bool {
    match m {
        Some(e) => e.id == Some(ReplyId::Integer(2)),
        None => false,
    }
}

/// Whether a message id is that of the reply to the rate-limit request.
pub fn is_rate_limit_reply_id(id: Option<ReplyId>) -> (b: bool)
    ensures
        b == (id == Some(ReplyId::Integer(2))),
{
    match id {
        Some(ReplyId::Integer(k)) => k == 2,
        _ => false,
    }
}

/// What the app-server output gives: the first reply to the rate-limit
/// request decides; without one, no response was received.
pub open spec fn app_server_outcome(messages: Seq<Option<AppServerEnvelope>>) -> Result<
    Seq<WindowView>,
    ProviderErrorView,
>
    decreases messages.len(),
{
    if messages.len() == 0 {
        Err(
            ProviderErrorView::ParseError {
                source: "codex_app_server"@,
                detail: "No rate-limit response was received"@,
            },
        )
    } else if is_rate_limit_reply(messages[0]) {
        reply_outcome(messages[0].unwrap())
    } else {
        app_server_outcome(messages.drop_first())
    }
}

/// A reported window as shown, when it maps to a supported window.
fn show_window(w: &Option<RateLimitWindow>) -> (r: Option<ProviderWindow>)
    ensures
        match r {
            Some(pw) => shown_slot(*w) == Some(pw@),
            None => shown_slot(*w) is None,
        },
{
    let w = match w {
        Some(x) => x,
        None => return None,
    };
    let name = match window_name(w.window_duration_mins) {
        Some(n) => n,
        None => return None,
    };
    let used: u32 = if w.used_percent < 0 {
        0
    } else if w.used_percent > 100 {
        100
    } else {
        w.used_percent as u32
    };
    let reset_at = match w.resets_at {
        Some(secs) => rfc3339_from_unix_time(secs, 0),
        None => None,
    };
    Some(
        ProviderWindow {
            window: String::from_str(name),
            remaining_percent: whole_percent(100 - used),
            reset_at,
        },
    )
}

/// The rate limit keyed `codex` among the entries.
fn find_codex_limit(entries: &Vec<LimitEntry>) -> (r: Option<RateLimitSnapshot>)
    ensures
        r == codex_limit(entries@),
{
    let codex = String::from_str("codex");
    let n = entries.len();
    let mut i: usize = 0;
    assert(entries@.skip(0) =~= entries@);
    while i < n
        invariant
            n == entries.len(),
            i <= n,
            codex@ == "codex"@,
            codex_limit(entries@) == codex_limit(entries@.skip(i as int)),
        decreases n - i,
    {
        assert(entries@.skip(i as int)[0] == entries@[i as int]);
        assert(entries@.skip(i as int).drop_first() =~= entries@.skip(i as int + 1));
        if entries[i].limit_id == codex {
            return Some(entries[i].snapshot);
        }
        i = i + 1;
    }
    None
}

/// The windows of the reply to the rate-limit request.
fn reply_windows(e: &AppServerEnvelope) -> (r: Result<ProviderSnapshot, ProviderError>)
    ensures
        outcome_view(r) == reply_outcome(*e),
{
    if let Some(err) = &e.error {
        let detail = match &err.message {
            Some(m) => m.clone(),
            None => String::from_str("Codex app-server returned an error"),
        };
        return Err(ProviderError::SourceUnavailable { source: String::from_str("codex_app_server"), detail });
    }
    let result = match &e.result {
        Some(r) => r,
        None => {
            return Err(
                ProviderError::ParseError {
                    source: String::from_str("codex_app_server"),
                    detail: String::from_str("Rate-limit response did not contain a result"),
                },
            );
        },
    };
    let by_id = match &result.rate_limits_by_limit_id {
        Some(entries) => find_codex_limit(entries),
        None => None,
    };
    let snapshot = match by_id {
        Some(s) => s,
        None => match result.rate_limits {
            Some(s) => s,
            None => {
                return Err(
                    ProviderError::SourceUnavailable {
                        source: String::from_str("codex_app_server"),
                        detail: String::from_str("Codex did not provide rate-limit data"),
                    },
                );
            },
        },
    };
    let mut windows: Vec<ProviderWindow> = Vec::new();
    let first = show_window(&snapshot.primary);
    let second = show_window(&snapshot.secondary);
    match first {
        Some(a) => {
            windows.push(a);
        },
        None => {},
    }
    match second {
        Some(b) => {
            if windows.len() == 1 && windows[0].window == b.window {
                return Err(ProviderError::DuplicateWindow { window: b.window });
            }
            windows.push(b);
        },
        None => {},
    }
    assert(snapshot_windows(snapshot) matches Ok(ws) && provider_windows_view(windows@) =~= ws);
    Ok(ProviderSnapshot { windows })
}

/// Reads the Codex app-server output, one message per line (`None` for a
/// line that is not such a message): the first reply to the rate-limit
/// request (id `2`) gives its error as an unavailable source, or the `codex`
/// rate limit (else the default one) with windows of 300 and 10080 minutes
/// named `5h` and `7d`, remaining percentage one hundred less the used one
/// (limited to `0 ..= 100`) and reset times rendered in RFC 3339.
pub fn parse_app_server_response(messages: &Vec<Option<AppServerEnvelope>>) -> (r: Result<
    ProviderSnapshot,
    ProviderError,
>)
    requires
        messages_keyed_once(messages@),
    ensures
        outcome_view(r) == app_server_outcome(messages@),
{
    let n = messages.len();
    let mut i: usize = 0;
    assert(messages@.skip(0) =~= messages@);
    while i < n
        invariant
            n == messages.len(),
            i <= n,
            app_server_outcome(messages@) == app_server_outcome(messages@.skip(i as int)),
        decreases n - i,
    {
        assert(messages@.skip(i as int)[0] == messages@[i as int]);
        assert(messages@.skip(i as int).drop_first() =~= messages@.skip(i as int + 1));
        if let Some(e) = &messages[i] {
            if is_rate_limit_reply_id(e.id) {
                return reply_windows(e);
            }
        }
        i = i + 1;
    }
    Err(
        ProviderError::ParseError {
            source: String::from_str("codex_app_server"),
            detail: String::from_str("No rate-limit response was received"),
        },
    )
}

// ---------------------------------------------------------------------------
// Usage sources

/// A source of usage snapshots.
///
/// Implementations read a concrete source (a file, the Codex app-server, ...)
/// and normalise what it reports.
pub trait CodexUsageProvider {
    /// Fetches usage data from the source and parses it.
    fn fetch_and_parse(&self) -> Result<ProviderSnapshot, ProviderError>;
}

/// A source that reads the usage document from a file.
pub struct FileBackedProvider {
    source_path: String,
    source_name: String,
}

impl FileBackedProvider {
    /// A source reading the file at `source_path`, reported as `source_name`.
    pub fn new(source_path: &str, source_name: &str) -> (p: FileBackedProvider)
        ensures
            p.source_path() == source_path@,
            p.source_name() == source_name@,
    {
        FileBackedProvider {
            source_path: String::from_str(source_path),
            source_name: String::from_str(source_name),
        }
    }

    /// The path of the file this source reads.
    pub closed spec fn source_path(&self) -> Seq<char> {
        self.source_path@
    }

    /// The name under which this source reports failures.
    pub closed spec fn source_name(&self) -> Seq<char> {
        self.source_name@
    }

    /// The path of the file this source reads.
    pub fn path(&self) -> (p: &str)
        ensures
            p@ == self.source_path(),
    {
        self.source_path.as_str()
    }

    /// The outcome of fetching from this source, given the outcome of reading
    /// its file (the read error's text when reading failed): the text read, or
    /// an unavailable source named after this one.
    pub fn fetch_from(&self, read: Result<String, String>) -> (r: Result<String, ProviderError>)
        ensures
            match read {
                Ok(text) => r matches Ok(t) && t@ == text@,
                Err(detail) => r matches Err(e) && e@ == (ProviderErrorView::SourceUnavailable {
                    source: self.source_name(),
                    detail: detail@,
                }),
            },
    {
        match read {
            Ok(text) => Ok(text),
            Err(detail) => Err(
                ProviderError::SourceUnavailable { source: self.source_name.clone(), detail },
            ),
        }
    }
}

/// A source used when the local Codex source cannot be identified or
/// accessed: it always reports the source as unavailable, so that the rest of
/// the application can show that state.
pub struct SourceUnavailableAdapter;

/// The error that `SourceUnavailableAdapter` always reports.
pub open spec fn local_source_unavailable() -> ProviderErrorView {
    ProviderErrorView::SourceUnavailable {
        source: "local_codex_session"@,
        detail: "Local Codex session source could not be identified or accessed. See docs/compatibility/codex-usage-source.md for details."@,
    }
}

impl SourceUnavailableAdapter {
    /// Fetches the raw usage data: always the unavailable-source error.
    pub fn fetch(&self) -> (r: Result<String, ProviderError>)
        ensures
            r matches Err(e) && e@ == local_source_unavailable(),
    {
        Err(
            ProviderError::SourceUnavailable {
                source: String::from_str("local_codex_session"),
                detail: String::from_str(
                    "Local Codex session source could not be identified or accessed. See docs/compatibility/codex-usage-source.md for details.",
                ),
            },
        )
    }
}

impl CodexUsageProvider for SourceUnavailableAdapter {
    /// Always the unavailable-source error: there is nothing to parse.
    fn fetch_and_parse(&self) -> (r: Result<ProviderSnapshot, ProviderError>)
        ensures
            r matches Err(e) && e@ == local_source_unavailable(),
    {
        match self.fetch() {
            Err(e) => Err(e),
            Ok(_) => Ok(ProviderSnapshot { windows: Vec::new() }),
        }
    }
}

/// Reads subscription limits through the installed Codex app-server protocol.
/// The Codex process owns authentication; this application only sends
/// protocol requests and receives the rate-limit response.
pub struct CodexAppServerProvider {
    codex_path: String,
    timeout_seconds: u64,
}

/// Where the bundled Codex executable lies below the home directory.
pub open spec fn bundled_codex_suffix() -> Seq<char> {
    "Applications/ChatGPT.app/Contents/Resources/codex"@
}

/// The bundled Codex executable below a home directory.
pub fn bundled_codex_path(home: String) -> (r: String)
    ensures
        r@ == joined_path(home@, bundled_codex_suffix()),
{
    join_path(home, "Applications/ChatGPT.app/Contents/Resources/codex")
}

/// The Codex executable to run: `CODEX_CLI_PATH` when set, else the bundled
/// executable below `HOME` when it exists, else `codex` looked up on the
/// search path.
pub open spec fn codex_path_for(
    cli_path: Option<Seq<char>>,
    home: Option<Seq<char>>,
    bundled_available: bool,
) -> Seq<char> {
    match cli_path {
        Some(p) => p,
        None => match home {
            Some(h) => if bundled_available {
                joined_path(h, bundled_codex_suffix())
            } else {
                "codex"@
            },
            None => "codex"@,
        },
    }
}

/// Chooses the Codex executable from the values of `CODEX_CLI_PATH` and
/// `HOME`; `bundled_available` tells whether the bundled executable below
/// `HOME` exists.
pub fn resolve_codex_path(cli_path: Option<String>, home: Option<String>, bundled_available: bool) -> (r:
    String)
    ensures
        r@ == codex_path_for(opt_view(cli_path), opt_view(home), bundled_available),
{
    match cli_path {
        Some(p) => p,
        None => match home {
            Some(h) => if bundled_available {
                bundled_codex_path(h)
            } else {
                String::from_str("codex")
            },
            None => String::from_str("codex"),
        },
    }
}

/// How long the app-server source waits for the reply, in seconds.
pub const REPLY_TIMEOUT_SECONDS: u64 = 10;

impl CodexAppServerProvider {
    /// A source running the Codex executable at `codex_path`, waiting at most
    /// `timeout_seconds` seconds for its reply.
    pub fn new(codex_path: String, timeout_seconds: u64) -> (p: CodexAppServerProvider)
        ensures
            p.codex_path() == codex_path@,
            p.timeout_seconds() == timeout_seconds,
    {
        CodexAppServerProvider { codex_path, timeout_seconds }
    }

    /// The source that the environment selects: the executable chosen by
    /// `resolve_codex_path` from `CODEX_CLI_PATH`, `HOME` and whether the
    /// bundled executable exists, waiting ten seconds for the reply.
    pub fn from_environment_values(
        cli_path: Option<String>,
        home: Option<String>,
        bundled_available: bool,
    ) -> (p: CodexAppServerProvider)
        ensures
            p.codex_path() == codex_path_for(opt_view(cli_path), opt_view(home), bundled_available),
            p.timeout_seconds() == 10,
    {
        Self::new(resolve_codex_path(cli_path, home, bundled_available), REPLY_TIMEOUT_SECONDS)
    }

    /// A copy of this source.
    pub fn duplicate(&self) -> (p: CodexAppServerProvider)
        ensures
            p.codex_path() == self.codex_path(),
            p.timeout_seconds() == self.timeout_seconds(),
    {
        CodexAppServerProvider { codex_path: self.codex_path.clone(), timeout_seconds: self.timeout_seconds }
    }

    /// The Codex executable this source runs.
    pub closed spec fn codex_path(&self) -> Seq<char> {
        self.codex_path@
    }

    /// How long this source waits for the reply, in seconds.
    pub closed spec fn timeout_seconds(&self) -> u64 {
        self.timeout_seconds
    }

    /// The Codex executable this source runs.
    pub fn executable(&self) -> (p: &str)
        ensures
            p@ == self.codex_path(),
    {
        self.codex_path.as_str()
    }

    /// How long this source waits for the reply, in seconds.
    pub fn reply_timeout_seconds(&self) -> (t: u64)
        ensures
            t == self.timeout_seconds(),
    {
        self.timeout_seconds
    }
}

// ---------------------------------------------------------------------------
// Laws of normalisation

/// Every window is a supported one, and no two share a name.
pub open spec fn windows_distinct_supported(ws: Seq<WindowView>) -> bool {
    &&& forall|k: int| 0 <= k < ws.len() ==> is_supported_window(#[trigger] ws[k].window)
    &&& forall|i: int, j: int| 0 <= i < j < ws.len() ==> #[trigger] ws[i].window != #[trigger] ws[j].window
}

/// Clamping leaves every percentage as it is.
pub open spec fn windows_clamped(ws: Seq<WindowView>) -> bool {
    forall|k: int| 0 <= k < ws.len() ==> clamped(#[trigger] ws[k].remaining_percent) == ws[k].remaining_percent
}

/// The usage document that states exactly the given windows.
pub open spec fn document_of(ws: Seq<WindowView>) -> RawResponseView {
    RawResponseView {
        windows: ws.map_values(
            |w: WindowView|
                RawWindowView {
                    window: w.window,
                    remaining_percent: Some(w.remaining_percent),
                    reset_at: w.reset_at,
                },
        ),
        error: None,
    }
}

/// Names of a list of stated windows are pairwise different.
pub open spec fn raw_names_distinct(ws: Seq<RawWindowView>) -> bool {
    forall|i: int, j: int| 0 <= i < j < ws.len() ==> #[trigger] ws[i].window != #[trigger] ws[j].window
}

proof fn lemma_no_repeat_iff_distinct(ws: Seq<RawWindowView>)
    ensures
        first_repeat(ws) is None <==> raw_names_distinct(ws),
    decreases ws.len(),
{
    if ws.len() > 0 {
        let pre = ws.drop_last();
        lemma_no_repeat_iff_distinct(pre);
        if raw_names_distinct(ws) {
            assert(raw_names_distinct(pre)) by {
                assert forall|i: int, j: int| 0 <= i < j < pre.len() implies #[trigger] pre[i].window
                    != #[trigger] pre[j].window by {
                    assert(pre[i] == ws[i] && pre[j] == ws[j]);
                }
            }
            assert(!repeats_earlier(ws, ws.len() - 1));
        }
        if first_repeat(ws) is None {
            assert forall|i: int, j: int| 0 <= i < j < ws.len() implies #[trigger] ws[i].window
                != #[trigger] ws[j].window by {
                if j < ws.len() - 1 {
                    assert(pre[i] == ws[i] && pre[j] == ws[j]);
                } else {
                    assert(!repeats_earlier(ws, ws.len() - 1));
                }
            }
        }
    }
}

proof fn lemma_normalized_names_come_from_input(ws: Seq<RawWindowView>)
    ensures
        forall|k: int| 0 <= k < normalized_windows(ws).len() ==> exists|i: int| 0 <= i < ws.len()
            && #[trigger] ws[i].window == #[trigger] normalized_windows(ws)[k].window,
        forall|k: int| 0 <= k < normalized_windows(ws).len() ==> is_supported_window(
            #[trigger] normalized_windows(ws)[k].window,
        ),
        normalized_windows(ws).len() <= ws.len(),
    decreases ws.len(),
{
    if ws.len() > 0 {
        let pre = ws.drop_last();
        lemma_normalized_names_come_from_input(pre);
        let out = normalized_windows(ws);
        let rest = normalized_windows(pre);
        assert forall|k: int| 0 <= k < out.len() implies exists|i: int| 0 <= i < ws.len()
            && #[trigger] ws[i].window == #[trigger] out[k].window by {
            if k < rest.len() {
                assert(out[k] == rest[k]);
                let i = choose|i: int| 0 <= i < pre.len() && #[trigger] pre[i].window == rest[k].window;
                assert(ws[i] == pre[i]);
            } else {
                assert(ws[ws.len() - 1].window == out[k].window);
            }
        }
        assert forall|k: int| 0 <= k < out.len() implies is_supported_window(#[trigger] out[k].window) by {
            if k < rest.len() {
                assert(out[k] == rest[k]);
            }
        }
    }
}

proof fn lemma_normalized_distinct_clamped(ws: Seq<RawWindowView>)
    requires
        raw_names_distinct(ws),
    ensures
        windows_distinct_supported(normalized_windows(ws)),
        windows_clamped(normalized_windows(ws)),
    decreases ws.len(),
{
    lemma_normalized_names_come_from_input(ws);
    if ws.len() > 0 {
        let pre = ws.drop_last();
        assert(raw_names_distinct(pre)) by {
            assert forall|i: int, j: int| 0 <= i < j < pre.len() implies #[trigger] pre[i].window
                != #[trigger] pre[j].window by {
                assert(pre[i] == ws[i] && pre[j] == ws[j]);
            }
        }
        lemma_normalized_distinct_clamped(pre);
        lemma_normalized_names_come_from_input(pre);
        let out = normalized_windows(ws);
        let rest = normalized_windows(pre);
        assert forall|i: int, j: int| 0 <= i < j < out.len() implies #[trigger] out[i].window
            != #[trigger] out[j].window by {
            if j < rest.len() {
                assert(out[i] == rest[i] && out[j] == rest[j]);
            } else {
                assert(out[i] == rest[i]);
                let m = choose|m: int| 0 <= m < pre.len() && #[trigger] pre[m].window == rest[i].window;
                assert(ws[m] == pre[m]);
            }
        }
        assert forall|k: int| 0 <= k < out.len() implies clamped(#[trigger] out[k].remaining_percent)
            == out[k].remaining_percent by {
            if k < rest.len() {
                assert(out[k] == rest[k]);
            }
        }
    }
}

proof fn lemma_at_most_two(ws: Seq<WindowView>)
    requires
        windows_distinct_supported(ws),
    ensures
        ws.len() <= 2,
{
    if ws.len() > 2 {
        assert(is_supported_window(ws[0].window));
        assert(is_supported_window(ws[1].window));
        assert(is_supported_window(ws[2].window));
        assert(ws[0].window != ws[1].window);
        assert(ws[0].window != ws[2].window);
        assert(ws[1].window != ws[2].window);
    }
}

/// A successful normalisation gives at most two windows, each `5h` or `7d`,
/// no two with the same name, each percentage already clamped.
pub proof fn law_normalized_windows_well_formed(r: RawResponseView)
    requires
        normalized_response(r) is Ok,
    ensures
        ({
            let ws = normalized_response(r)->Ok_0;
            &&& windows_distinct_supported(ws)
            &&& windows_clamped(ws)
            &&& ws.len() <= 2
        }),
{
    lemma_no_repeat_iff_distinct(r.windows);
    lemma_normalized_distinct_clamped(r.windows);
    lemma_at_most_two(normalized_windows(r.windows));
}

/// An error reported by the source makes it unavailable, whatever windows the
/// document also holds.
pub proof fn law_reported_error_wins(r: RawResponseView)
    requires
        r.error is Some,
    ensures
        normalized_response(r) == Err::<Seq<WindowView>, ProviderErrorView>(
            ProviderErrorView::SourceUnavailable { source: "codex_response"@, detail: r.error->0 },
        ),
{
}

/// A rejected duplicate names a window that the document states twice.
pub proof fn law_duplicate_is_repeated(r: RawResponseView)
    requires
        normalized_response(r) matches Err(ProviderErrorView::DuplicateWindow { .. }),
    ensures
        ({
            let name = normalized_response(r)->Err_0->DuplicateWindow_window;
            exists|i: int, j: int|
                0 <= i < j < r.windows.len() && #[trigger] r.windows[i].window == name
                    && #[trigger] r.windows[j].window == name
        }),
{
    lemma_first_repeat_in_range(r.windows);
    let j = first_repeat(r.windows)->0;
    let i = choose|i: int| 0 <= i < j && #[trigger] r.windows[i].window == r.windows[j].window;
    assert(r.windows[i].window == r.windows[j].window);
}

proof fn lemma_first_repeat_in_range(ws: Seq<RawWindowView>)
    ensures
        first_repeat(ws) matches Some(j) ==> 0 <= j < ws.len() && repeats_earlier(ws, j),
    decreases ws.len(),
{
    if ws.len() > 0 {
        let pre = ws.drop_last();
        lemma_first_repeat_in_range(pre);
        if let Some(j) = first_repeat(pre) {
            let i = choose|i: int| 0 <= i < j && #[trigger] pre[i].window == pre[j].window;
            assert(ws[i] == pre[i] && ws[j] == pre[j]);
        }
    }
}

proof fn lemma_document_normalizes_to_itself(ws: Seq<WindowView>)
    requires
        windows_distinct_supported(ws),
        windows_clamped(ws),
    ensures
        normalized_windows(document_of(ws).windows) == ws,
        raw_names_distinct(document_of(ws).windows),
    decreases ws.len(),
{
    let doc = document_of(ws).windows;
    if ws.len() > 0 {
        let pre = ws.drop_last();
        assert(windows_distinct_supported(pre)) by {
            assert forall|k: int| 0 <= k < pre.len() implies is_supported_window(#[trigger] pre[k].window) by {
                assert(pre[k] == ws[k]);
            }
            assert forall|i: int, j: int| 0 <= i < j < pre.len() implies #[trigger] pre[i].window
                != #[trigger] pre[j].window by {
                assert(pre[i] == ws[i] && pre[j] == ws[j]);
            }
        }
        assert(windows_clamped(pre)) by {
            assert forall|k: int| 0 <= k < pre.len() implies clamped(#[trigger] pre[k].remaining_percent)
                == pre[k].remaining_percent by {
                assert(pre[k] == ws[k]);
            }
        }
        lemma_document_normalizes_to_itself(pre);
        assert(doc.drop_last() =~= document_of(pre).windows);
        assert(is_supported_window(ws[ws.len() - 1].window));
        assert(clamped(ws[ws.len() - 1].remaining_percent) == ws[ws.len() - 1].remaining_percent);
        assert(normalized_windows(doc) =~= ws);
    }
    assert forall|i: int, j: int| 0 <= i < j < doc.len() implies #[trigger] doc[i].window
        != #[trigger] doc[j].window by {
        assert(doc[i].window == ws[i].window && doc[j].window == ws[j].window);
    }
}

/// Normalising the document that states well-formed windows gives those
/// windows back unchanged: normalisation is idempotent.
pub proof fn law_normalization_idempotent(ws: Seq<WindowView>)
    requires
        windows_distinct_supported(ws),
        windows_clamped(ws),
    ensures
        normalized_response(document_of(ws)) == Ok::<Seq<WindowView>, ProviderErrorView>(ws),
{
    lemma_document_normalizes_to_itself(ws);
    lemma_no_repeat_iff_distinct(document_of(ws).windows);
}

proof fn lemma_whole_bits_percent(n: int)
    requires
        0 <= n <= 100,
    ensures
        is_percent(whole_bits(n) as u32),
        0 <= whole_bits(n) < 0x8000_0000,
{
}

/// The app-server windows are well formed: at most two, each `5h` or `7d`, no
/// two with the same name, each percentage a whole number in `0 ..= 100`.
pub proof fn law_app_server_windows_well_formed(messages: Seq<Option<AppServerEnvelope>>)
    requires
        app_server_outcome(messages) is Ok,
    ensures
        ({
            let ws = app_server_outcome(messages)->Ok_0;
            &&& windows_distinct_supported(ws)
            &&& windows_clamped(ws)
            &&& forall|k: int| 0 <= k < ws.len() ==> is_percent(#[trigger] ws[k].remaining_percent)
            &&& ws.len() <= 2
        }),
    decreases messages.len(),
{
    if messages.len() > 0 && !is_rate_limit_reply(messages[0]) {
        law_app_server_windows_well_formed(messages.drop_first());
    } else if messages.len() > 0 {
        let e = messages[0].unwrap();
        let r = e.result.unwrap();
        let s = chosen_limit(r).unwrap();
        if let Some(w) = s.primary {
            lemma_whole_bits_percent(100 - clamped_used(w.used_percent));
        }
        if let Some(w) = s.secondary {
            lemma_whole_bits_percent(100 - clamped_used(w.used_percent));
        }
        let ws = app_server_outcome(messages)->Ok_0;
        assert(windows_distinct_supported(ws));
        lemma_at_most_two(ws);
    }
}

/// The app-server windows, written out as a usage document and normalised
/// again, come back unchanged; this is how the app-server source hands its
/// windows on.
pub proof fn law_app_server_windows_survive_normalization(messages: Seq<Option<AppServerEnvelope>>)
    requires
        app_server_outcome(messages) is Ok,
    ensures
        normalized_response(document_of(app_server_outcome(messages)->Ok_0)) == Ok::<
            Seq<WindowView>,
            ProviderErrorView,
        >(app_server_outcome(messages)->Ok_0),
{
    law_app_server_windows_well_formed(messages);
    law_normalization_idempotent(app_server_outcome(messages)->Ok_0);
}

/// No stated percentage is a NaN (JSON numbers never are).
pub open spec fn stated_percentages_are_numbers(ws: Seq<RawWindowView>) -> bool {
    forall|k: int| 0 <= k < ws.len() ==> (#[trigger] ws[k].remaining_percent matches Some(p) ==> !is_nan(p))
}

proof fn lemma_normalized_percentages(ws: Seq<RawWindowView>)
    requires
        stated_percentages_are_numbers(ws),
    ensures
        forall|k: int| 0 <= k < normalized_windows(ws).len() ==> is_percent(
            #[trigger] normalized_windows(ws)[k].remaining_percent,
        ),
    decreases ws.len(),
{
    if ws.len() > 0 {
        let pre = ws.drop_last();
        assert(stated_percentages_are_numbers(pre)) by {
            assert forall|k: int| 0 <= k < pre.len() implies (#[trigger] pre[k].remaining_percent matches Some(
                p,
            ) ==> !is_nan(p)) by {
                assert(pre[k] == ws[k]);
            }
        }
        lemma_normalized_percentages(pre);
        let out = normalized_windows(ws);
        let rest = normalized_windows(pre);
        assert(ws.last() == ws[ws.len() - 1]);
        assert forall|k: int| 0 <= k < out.len() implies is_percent(#[trigger] out[k].remaining_percent) by {
            if k < rest.len() {
                assert(out[k] == rest[k]);
            }
        }
    }
}

/// When no stated percentage is a NaN, every shown percentage lies in
/// `0.0 ..= 100.0`.
pub proof fn law_normalized_percentages_in_range(r: RawResponseView)
    requires
        stated_percentages_are_numbers(r.windows),
        normalized_response(r) is Ok,
    ensures
        forall|k: int| 0 <= k < normalized_response(r)->Ok_0.len() ==> is_percent(
            #[trigger] normalized_response(r)->Ok_0[k].remaining_percent,
        ),
{
    lemma_normalized_percentages(r.windows);
}

/// With one entry per id, the rate limit keyed `codex` is that of the one
/// entry whose id is `codex`, and there is none when no entry has that id.
pub proof fn law_codex_limit_is_the_codex_entry(entries: Seq<LimitEntry>)
    requires
        limit_ids_distinct(entries),
    ensures
        match codex_limit(entries) {
            Some(s) => exists|i: int|
                0 <= i < entries.len() && #[trigger] entries[i].limit_id@ == "codex"@ && entries[i].snapshot == s,
            None => forall|i: int| 0 <= i < entries.len() ==> #[trigger] entries[i].limit_id@ != "codex"@,
        },
    decreases entries.len(),
{
    if entries.len() > 0 {
        let rest = entries.drop_first();
        assert(limit_ids_distinct(rest)) by {
            assert forall|i: int, j: int| 0 <= i < j < rest.len() implies #[trigger] rest[i].limit_id@
                != #[trigger] rest[j].limit_id@ by {
                assert(rest[i] == entries[i + 1] && rest[j] == entries[j + 1]);
            }
        }
        law_codex_limit_is_the_codex_entry(rest);
        if entries[0].limit_id@ == "codex"@ {
            assert(entries[0].snapshot == codex_limit(entries)->0);
        } else {
            match codex_limit(rest) {
                Some(s) => {
                    let i = choose|i: int|
                        0 <= i < rest.len() && #[trigger] rest[i].limit_id@ == "codex"@ && rest[i].snapshot == s;
                    assert(entries[i + 1] == rest[i]);
                },
                None => {
                    assert forall|i: int| 0 <= i < entries.len() implies #[trigger] entries[i].limit_id@
                        != "codex"@ by {
                        if i > 0 {
                            assert(entries[i] == rest[i - 1]);
                        }
                    }
                },
            }
        }
    }
}

// ---------------------------------------------------------------------------
// Laws on what the shown windows carry

/// The window `v` is the one built from the app-server slot `w`: its name is
/// what the slot's length maps to, its remaining percentage is one hundred less
/// the slot's used one (limited to `0 ..= 100`), and its reset time is the RFC
/// 3339 rendering of the slot's own `resetsAt`.
pub open spec fn built_from_slot(v: WindowView, w: Option<RateLimitWindow>) -> bool {
    match w {
        Some(x) => {
            &&& ((x.window_duration_mins == Some(300i64) && v.window == "5h"@) || (x.window_duration_mins
                == Some(10080i64) && v.window == "7d"@))
            &&& v.remaining_percent as int == whole_bits(
                100 - (if x.used_percent < 0 {
                    0
                } else if x.used_percent > 100 {
                    100
                } else {
                    x.used_percent as int
                }),
            )
            &&& v.reset_at == match x.resets_at {
                Some(t) => rfc3339_of_unix_time(t as int, 0),
                None => None,
            }
        },
        None => false,
    }
}

/// A slot maps to a shown window: its length is 300 or 10080 minutes.
pub open spec fn slot_is_shown(w: Option<RateLimitWindow>) -> bool {
    w matches Some(x) && (x.window_duration_mins == Some(300i64) || x.window_duration_mins == Some(10080i64))
}

proof fn lemma_snapshot_windows_from_slots(s: RateLimitSnapshot)
    ensures
        snapshot_windows(s) matches Ok(ws) ==> {
            &&& ws.len() == (if slot_is_shown(s.primary) { 1int } else { 0 }) + (if slot_is_shown(
                s.secondary,
            ) { 1int } else { 0 })
            &&& slot_is_shown(s.primary) ==> built_from_slot(ws[0], s.primary)
            &&& slot_is_shown(s.secondary) ==> built_from_slot(ws[ws.len() - 1], s.secondary)
        },
{
}

/// Every window of a successful app-server outcome is built from a slot of the
/// rate limit in the first reply to the rate-limit request: the primary slot's
/// window comes first, the secondary slot's last, and each carries its own
/// slot's name, percentage and reset time. Slots of other lengths give no
/// window.
pub proof fn law_app_server_windows_from_their_slots(messages: Seq<Option<AppServerEnvelope>>)
    requires
        app_server_outcome(messages) is Ok,
    ensures
        exists|i: int|
            0 <= i < messages.len() && is_rate_limit_reply(#[trigger] messages[i]) && (forall|j: int|
                0 <= j < i ==> !is_rate_limit_reply(#[trigger] messages[j])) && ({
                let ws = app_server_outcome(messages)->Ok_0;
                let s = chosen_limit(messages[i].unwrap().result.unwrap()).unwrap();
                &&& ws.len() == (if slot_is_shown(s.primary) { 1int } else { 0 }) + (if slot_is_shown(
                    s.secondary,
                ) { 1int } else { 0 })
                &&& slot_is_shown(s.primary) ==> built_from_slot(ws[0], s.primary)
                &&& slot_is_shown(s.secondary) ==> built_from_slot(ws[ws.len() - 1], s.secondary)
            }),
    decreases messages.len(),
{
    if is_rate_limit_reply(messages[0]) {
        let e = messages[0].unwrap();
        lemma_snapshot_windows_from_slots(chosen_limit(e.result.unwrap()).unwrap());
        assert(is_rate_limit_reply(messages[0]));
    } else {
        let rest = messages.drop_first();
        law_app_server_windows_from_their_slots(rest);
        let i = choose|i: int|
            0 <= i < rest.len() && is_rate_limit_reply(#[trigger] rest[i]) && (forall|j: int|
                0 <= j < i ==> !is_rate_limit_reply(#[trigger] rest[j])) && ({
                let ws = app_server_outcome(rest)->Ok_0;
                let s = chosen_limit(rest[i].unwrap().result.unwrap()).unwrap();
                &&& ws.len() == (if slot_is_shown(s.primary) { 1int } else { 0 }) + (if slot_is_shown(
                    s.secondary,
                ) { 1int } else { 0 })
                &&& slot_is_shown(s.primary) ==> built_from_slot(ws[0], s.primary)
                &&& slot_is_shown(s.secondary) ==> built_from_slot(ws[ws.len() - 1], s.secondary)
            });
        assert(messages[i + 1] == rest[i]);
        assert forall|j: int| 0 <= j < i + 1 implies !is_rate_limit_reply(#[trigger] messages[j]) by {
            if j > 0 {
                assert(messages[j] == rest[j - 1]);
            }
        }
    }
}

/// A stated window is shown: `5h` or `7d`, with a stated percentage.
pub open spec fn stated_and_supported(w: RawWindowView) -> bool {
    (w.window == "5h"@ || w.window == "7d"@) && w.remaining_percent is Some
}

proof fn lemma_normalized_is_filtered(ws: Seq<RawWindowView>)
    ensures
        normalized_windows(ws).len() == ws.filter(|w: RawWindowView| stated_and_supported(w)).len(),
        forall|k: int|
            0 <= k < normalized_windows(ws).len() ==> {
                let v = #[trigger] normalized_windows(ws)[k];
                let w = ws.filter(|w: RawWindowView| stated_and_supported(w))[k];
                &&& v.window == w.window
                &&& v.reset_at == w.reset_at
                &&& v.remaining_percent == clamped(w.remaining_percent->0)
            },
    decreases ws.len(),
{
    reveal_with_fuel(Seq::filter, 1);
    if ws.len() > 0 {
        lemma_normalized_is_filtered(ws.drop_last());
    }
}

/// A successful normalisation shows exactly the stated windows that are `5h`
/// or `7d` and state a percentage, in the order stated; each keeps its name
/// and its reset time unchanged, whatever its percentage, and shows its stated
/// percentage clamped to `0.0 ..= 100.0`.
pub proof fn law_normalization_keeps_shown_windows(r: RawResponseView)
    requires
        normalized_response(r) is Ok,
    ensures
        ({
            let ws = normalized_response(r)->Ok_0;
            let shown = r.windows.filter(|w: RawWindowView| stated_and_supported(w));
            &&& ws.len() == shown.len()
            &&& forall|k: int|
                0 <= k < ws.len() ==> {
                    &&& (#[trigger] ws[k]).window == shown[k].window
                    &&& ws[k].reset_at == shown[k].reset_at
                    &&& ws[k].remaining_percent == clamped(shown[k].remaining_percent->0)
                }
        }),
{
    lemma_normalized_is_filtered(r.windows);
}

/// `CODEX_CLI_PATH`, when set, is the executable, whatever `HOME` is and
/// whether the bundled executable exists; without it the bundled executable
/// below `HOME` is chosen exactly when it exists, else `codex`.
pub proof fn law_codex_path_choice(
    cli_path: Option<Seq<char>>,
    home: Option<Seq<char>>,
    bundled_available: bool,
)
    ensures
        cli_path matches Some(p) ==> codex_path_for(cli_path, home, bundled_available) == p,
        cli_path is None && home is Some && bundled_available ==> codex_path_for(
            cli_path,
            home,
            bundled_available,
        ) == joined_path(home->0, "Applications/ChatGPT.app/Contents/Resources/codex"@),
        cli_path is None && (home is None || !bundled_available) ==> codex_path_for(
            cli_path,
            home,
            bundled_available,
        ) == "codex"@,
{
}

} // verus!
