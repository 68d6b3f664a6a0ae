//! Spans of time.
use vstd::prelude::*;

verus! {

/// Nanoseconds in a second.
pub const NANOS_PER_SEC: u32 = 1_000_000_000;

/// Nanoseconds in a millisecond.
pub const NANOS_PER_MILLI: u32 = 1_000_000;

/// Milliseconds in a second.
pub const MILLIS_PER_SEC: u64 = 1_000;

/// The nanoseconds of so many seconds.
pub open spec fn seconds(count: nat) -> nat {
    count * NANOS_PER_SEC as nat
}

/// The nanoseconds of so many milliseconds.
pub open spec fn milliseconds(count: nat) -> nat {
    count * NANOS_PER_MILLI as nat
}

/// A span of time, kept as whole seconds and the nanoseconds beyond them.
#[derive(Debug, Clone, Copy, PartialEq, Eq, Structural)]
pub struct Duration {
    secs: u64,
    nanos: u32,
}

impl View for Duration {
    type V = nat;

    /// The span in nanoseconds.
    closed spec fn view(&self) -> nat {
        (self.secs * NANOS_PER_SEC + self.nanos) as nat
    }
}

impl Duration {
    #[verifier::type_invariant]
    spec fn well_formed(self) -> bool {
        self.nanos < NANOS_PER_SEC
    }

    /// The span of `secs` seconds and `nanos` nanoseconds. The nanoseconds stay below a second.
    pub fn new(secs: u64, nanos: u32) -> (span: Self)
        requires
            nanos < NANOS_PER_SEC,
        ensures
            span@ == seconds(secs as nat) + nanos,
    {
        Duration { secs, nanos }
    }

    /// The span of `secs` seconds.
    pub fn from_secs(secs: u64) -> (span: Self)
        ensures
            span@ == seconds(secs as nat),
    {
        Duration { secs, nanos: 0 }
    }

    /// The span of `millis` milliseconds.
    pub fn from_millis(millis: u64) -> (span: Self)
        ensures
            span@ == milliseconds(millis as nat),
    {
        let secs: u64 = millis / MILLIS_PER_SEC;
        let nanos: u32 = (millis % MILLIS_PER_SEC) as u32 * NANOS_PER_MILLI;
        Duration { secs, nanos }
    }

    /// The whole seconds of the span.
    pub fn as_secs(&self) -> (secs: u64)
        ensures
            secs == self@ / NANOS_PER_SEC as nat,
    {
        proof {
            use_type_invariant(self);
        }
        self.secs
    }

    /// The nanoseconds beyond the whole seconds.
    pub fn subsec_nanos(&self) -> (nanos: u32)
        ensures
            nanos == self@ % NANOS_PER_SEC as nat,
    {
        proof {
            use_type_invariant(self);
        }
        self.nanos
    }

    /// The whole milliseconds of the span.
    pub fn as_millis(&self) -> (millis: u128)
        ensures
            millis == self@ / NANOS_PER_MILLI as nat,
    {
        proof {
            use_type_invariant(self);
        }
        let secs: u128 = self.secs as u128;
        let millis: u128 = (self.nanos / NANOS_PER_MILLI) as u128;
        assert(secs <= u64::MAX && millis <= u32::MAX);
        secs * 1_000 + millis
    }

    /// Tells whether the span is empty.
    pub fn is_zero(&self) -> (zero: bool)
        ensures
            zero == (self@ == 0),
    {
        self.secs == 0 && self.nanos == 0
    }
}

/// How `std::time::Duration` writes a span of so many seconds and nanoseconds for debugging.
pub uninterp spec fn duration_debug(secs: u64, nanos: u32) -> Seq<char>;

/// How a span is written for debugging.
pub open spec fn shown(span: Duration) -> Seq<char> {
    duration_debug(
        (span@ / NANOS_PER_SEC as nat) as u64,
        (span@ % NANOS_PER_SEC as nat) as u32,
    )
}

/// The `Debug` rendering of `std::time::Duration`.
#[verifier::external_body]
fn debug_duration(secs: u64, nanos: u32) -> (text: String)
    requires
        nanos < NANOS_PER_SEC,
    ensures
        text@ == duration_debug(secs, nanos),
{
    format!("{:?}", std::time::Duration::new(secs, nanos))
}

/// Writes a span for debugging.
pub fn duration_text(span: Duration) -> (text: String)
    ensures
        text@ == shown(span),
{
    debug_duration(span.as_secs(), span.subsec_nanos())
}

/// `chrono::Utc::now`, read by `timestamp_millis`: the milliseconds since the Unix epoch. The
/// clock decides which. It is never before the epoch: `Utc::now` panics on a clock that is.
#[verifier::external_body]
fn utc_now() -> (millis: i64)
    ensures
        millis >= 0,
{
    chrono::Utc::now().timestamp_millis()
}

/// `millis` is what the clock can show as the milliseconds since the Unix epoch: an answer of
/// `chrono::Utc::now`, read by `timestamp_millis`.
pub closed spec fn shown_by_utc_clock(millis: i64) -> bool {
    call_ensures(utc_now, (), millis)
}

/// The milliseconds since the Unix epoch, as messages are stamped with them.
pub(crate) fn utc_millis() -> (millis: i64)
    ensures
        shown_by_utc_clock(millis),
        millis >= 0,
{
    utc_now()
}

/// `std::time::SystemTime::elapsed`, on the Unix epoch: the span since then by the system's clock,
/// unless the clock is before it. The clock decides which, so that nothing is claimed of the span
/// but that its nanoseconds stay below a second, as those of every `std::time::Duration` do.
#[verifier::external_body]
fn since_epoch() -> (span: Option<Duration>) {
    match std::time::UNIX_EPOCH.elapsed() {
        Ok(span) => Some(Duration { secs: span.as_secs(), nanos: span.subsec_nanos() }),
        Err(_) => None,
    }
}

/// A span in whole milliseconds, cut to sixty-four bits; none if the span is absent.
pub open spec fn whole_millis(span: Option<Duration>) -> u64 {
    match span {
        Some(span) => (span@ / NANOS_PER_MILLI as nat) as u64,
        None => 0,
    }
}

/// `span` is what the system's clock can show as the span since the Unix epoch, absent if the clock
/// is before it: an answer of `std::time::SystemTime::elapsed` on the epoch.
pub closed spec fn shown_by_clock(span: Option<Duration>) -> bool {
    call_ensures(since_epoch, (), span)
}

/// A span in whole milliseconds, cut to sixty-four bits; none if the span is absent.
pub fn clock_millis(span: Option<Duration>) -> (millis: u64)
    ensures
        millis == whole_millis(span),
{
    match span {
        Some(span) => span.as_millis() as u64,
        None => 0,
    }
}

/// The milliseconds since the Unix epoch, by the system's clock; none if the clock is before it.
pub fn unix_millis() -> (millis: u64)
    ensures
        exists|span: Option<Duration>| #[trigger]
            shown_by_clock(span) && millis == whole_millis(span),
{
    let span = since_epoch();
    assert(shown_by_clock(span));
    clock_millis(span)
}

/// A span of milliseconds holds that many whole milliseconds, and a second a thousand of them.
pub proof fn milliseconds_add_up(count: nat)
    ensures
        milliseconds(count) / NANOS_PER_MILLI as nat == count,
        seconds(count) == milliseconds(count * MILLIS_PER_SEC as nat),
{
}

} // verus!
