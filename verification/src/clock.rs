//! The current time, and rendering Unix times as RFC 3339 text through
//! `chrono`.

use vstd::prelude::*;
use crate::state::opt_view;

verus! {

/// What `chrono::DateTime::<Utc>::from_timestamp(seconds, nanos)` followed by
/// `to_rfc3339()` gives for a Unix time: `None` where `chrono` has no date
/// for it.
pub uninterp spec fn rfc3339_of_unix_time(seconds: int, nanos: int) -> Option<Seq<char>>;

/// Renders a Unix time as an RFC 3339 UTC timestamp through
/// `chrono::DateTime::from_timestamp` and `DateTime::to_rfc3339`. Trusted: the
/// result is what `rfc3339_of_unix_time` names for the same arguments, `None`
/// exactly when `from_timestamp` finds them out of range.
#[verifier::external_body]
pub fn rfc3339_from_unix_time(seconds: i64, nanos: u32) -> (r: Option<String>)
    ensures
        opt_view(r) == rfc3339_of_unix_time(seconds as int, nanos as int),
{
    match chrono::DateTime::from_timestamp(seconds, nanos) {
        Some(t) => Some(t.to_rfc3339()),
        None => None,
    }
}

/// Reads the system clock through `std::time::SystemTime::now` and
/// `SystemTime::duration_since(UNIX_EPOCH)`, giving the whole seconds and the
/// nanoseconds of the `Duration`; `None` when the clock reads before 1970.
/// Trusted: the nanoseconds are below one second, as `Duration::subsec_nanos`
/// documents; the time itself depends on the clock and is not stated.
#[verifier::external_body]
fn read_system_clock() -> (r: Option<(u64, u32)>)
    ensures
        r matches Some((_, nanos)) ==> nanos < 1_000_000_000,
{
    match std::time::SystemTime::now().duration_since(std::time::UNIX_EPOCH) {
        Ok(d) => Some((d.as_secs(), d.subsec_nanos())),
        Err(_) => None,
    }
}

/// A possible reading of the system clock: whole seconds since 1970 and the
/// nanoseconds below one second, or `None` when the clock reads before 1970.
pub open spec fn is_clock_reading(reading: Option<(u64, u32)>) -> bool {
    reading matches Some((_, nanos)) ==> nanos < 1_000_000_000
}

/// The text for a clock reading: the RFC 3339 rendering of that Unix time when
/// the seconds fit in `i64` and `chrono` renders it; empty otherwise.
pub open spec fn reading_text(reading: Option<(u64, u32)>) -> Seq<char> {
    match reading {
        Some((seconds, nanos)) => if seconds <= i64::MAX {
            match rfc3339_of_unix_time(seconds as int, nanos as int) {
                Some(text) => text,
                None => Seq::empty(),
            }
        } else {
            Seq::empty()
        },
        None => Seq::empty(),
    }
}

/// Renders a clock reading as RFC 3339 text (empty when there is no date for
/// it).
pub fn rfc3339_of_reading(reading: Option<(u64, u32)>) -> (r: String)
    ensures
        r@ == reading_text(reading),
{
    match reading {
        Some((seconds, nanos)) => {
            if seconds > i64::MAX as u64 {
                return String::new();
            }
            match rfc3339_from_unix_time(seconds as i64, nanos) {
                Some(text) => text,
                None => String::new(),
            }
        },
        None => String::new(),
    }
}

/// The reading was given by a read of the system clock (and so is a possible
/// reading).
pub closed spec fn is_read_from_clock(reading: Option<(u64, u32)>) -> bool {
    call_ensures(read_system_clock, (), reading)
}

/// A reading given by the system clock is a possible clock reading.
pub proof fn lemma_read_is_reading(reading: Option<(u64, u32)>)
    requires
        is_read_from_clock(reading),
    ensures
        is_clock_reading(reading),
{
}

/// The current time as an RFC 3339 UTC timestamp: the rendering of what the
/// system clock read during this call; empty when it reads before 1970 or
/// beyond what `chrono` renders.
pub fn now_rfc3339() -> (r: String)
    ensures
        exists|reading: Option<(u64, u32)>| is_read_from_clock(reading) && r@ == #[trigger] reading_text(reading),
{
    let reading = read_system_clock();
    let r = rfc3339_of_reading(reading);
    assert(is_read_from_clock(reading) && r@ == reading_text(reading));
    r
}

} // verus!
