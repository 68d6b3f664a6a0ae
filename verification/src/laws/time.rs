//! Laws of the spans of time.
use vstd::prelude::*;

use crate::time::{clock_millis, shown_by_clock, unix_millis, Duration};

verus! {

/// A span gives back the milliseconds and the seconds that it was made of, and is empty exactly if
/// they are none.
pub proof fn spans_keep_what_they_are_made_of(count: u64, span: Duration)
    ensures
        call_ensures(Duration::from_millis, (count,), span) ==> {
            &&& span@ == count * 1_000_000
            &&& forall|millis: u128| #[trigger]
                call_ensures(Duration::as_millis, (&span,), millis) ==> millis == count
            &&& forall|secs: u64| #[trigger]
                call_ensures(Duration::as_secs, (&span,), secs) ==> secs == count / 1000
            &&& forall|nanos: u32| #[trigger]
                call_ensures(Duration::subsec_nanos, (&span,), nanos) ==> nanos == (count % 1000)
                    * 1_000_000
            &&& forall|zero: bool| #[trigger]
                call_ensures(Duration::is_zero, (&span,), zero) ==> zero == (count == 0)
        },
        call_ensures(Duration::from_secs, (count,), span) ==> {
            &&& span@ == count * 1_000_000_000
            &&& forall|millis: u128| #[trigger]
                call_ensures(Duration::as_millis, (&span,), millis) ==> millis == count * 1000
            &&& forall|secs: u64| #[trigger]
                call_ensures(Duration::as_secs, (&span,), secs) ==> secs == count
            &&& forall|nanos: u32| #[trigger]
                call_ensures(Duration::subsec_nanos, (&span,), nanos) ==> nanos == 0
            &&& forall|zero: bool| #[trigger]
                call_ensures(Duration::is_zero, (&span,), zero) ==> zero == (count == 0)
        },
{
}

/// A span of seconds and nanoseconds gives both back.
pub proof fn spans_keep_their_nanoseconds(secs: u64, nanos: u32, span: Duration)
    requires
        nanos < 1_000_000_000,
        call_ensures(Duration::new, (secs, nanos), span),
    ensures
        span@ == secs * 1_000_000_000 + nanos,
        forall|kept: u64| #[trigger]
            call_ensures(Duration::as_secs, (&span,), kept) ==> kept == secs,
        forall|kept: u32| #[trigger]
            call_ensures(Duration::subsec_nanos, (&span,), kept) ==> kept == nanos,
        forall|millis: u128| #[trigger]
            call_ensures(Duration::as_millis, (&span,), millis) ==> millis == secs * 1000 + nanos
                / 1_000_000,
{
}

/// The clock counts the whole milliseconds of a span, if they can be counted, and none without one.
pub proof fn clock_counts_whole_milliseconds(span: Option<Duration>, millis: u64)
    requires
        call_ensures(clock_millis, (span,), millis),
    ensures
        span is None ==> millis == 0,
        span matches Some(span) ==> (span@ / 1_000_000 <= u64::MAX ==> millis == span@ / 1_000_000),
{
}

/// The time now is a reading of the clock, in whole milliseconds.
pub proof fn time_is_read_off_the_clock(millis: u64)
    requires
        call_ensures(unix_millis, (), millis),
    ensures
        exists|span: Option<Duration>| #[trigger]
            shown_by_clock(span) && match span {
                Some(span) => span@ / 1_000_000 <= u64::MAX ==> millis == span@ / 1_000_000,
                None => millis == 0,
            },
{
}

} // verus!
