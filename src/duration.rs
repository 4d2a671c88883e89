//! Instants as plain values, whole-second spans between them, and the text
//! that the dashboard shows for a span.

use vstd::prelude::*;

verus! {

/// Nanoseconds in one second.
pub const NANOS_PER_SEC: u32 = 1_000_000_000;

/// Largest distance, in seconds, of a supported instant from the Unix epoch
/// (about 317 000 years, wider than any calendar date the cluster reports).
pub const MAX_EPOCH_SECS: i64 = 10_000_000_000_000;

/// An instant in UTC: whole seconds since the Unix epoch and the nanoseconds
/// past that second.
#[derive(Clone, Copy, Debug, PartialEq, Eq)]
pub struct Timestamp {
    pub secs: i64,
    pub nanos: u32,
}

impl Timestamp {
    /// The instant lies in the supported range and its nanoseconds are below
    /// one second.
    pub open spec fn wf(self) -> bool {
        &&& -MAX_EPOCH_SECS <= self.secs <= MAX_EPOCH_SECS
        &&& self.nanos < NANOS_PER_SEC
    }

    /// Nanoseconds since the Unix epoch.
    pub open spec fn total_nanos(self) -> int {
        self.secs * NANOS_PER_SEC + self.nanos
    }

    /// Builds an instant from its parts, or `None` where they lie outside the
    /// supported range.
    pub fn from_parts(secs: i64, nanos: u32) -> (r: Option<Timestamp>)
        ensures
            r matches Some(t) ==> t.wf() && t.secs == secs && t.nanos == nanos,
            r is None <==> !(Timestamp { secs, nanos }).wf(),
    {
        if -MAX_EPOCH_SECS <= secs && secs <= MAX_EPOCH_SECS && nanos < NANOS_PER_SEC {
            Some(Timestamp { secs, nanos })
        } else {
            None
        }
    }
}

/// Whole seconds from `from` to `to`, truncated toward zero: negative when
/// `to` comes first.
pub open spec fn whole_seconds_between(from: Timestamp, to: Timestamp) -> int {
    let d = to.total_nanos() - from.total_nanos();
    if d >= 0 {
        d / (NANOS_PER_SEC as int)
    } else {
        -((-d) / (NANOS_PER_SEC as int))
    }
}

/// Whole seconds from `from` to `to`, truncated toward zero.
pub fn elapsed_seconds(from: &Timestamp, to: &Timestamp) -> (r: i64)
    requires
        from.wf(),
        to.wf(),
    ensures
        r == whole_seconds_between(*from, *to),
        -2 * MAX_EPOCH_SECS - 1 <= r <= 2 * MAX_EPOCH_SECS + 1,
{
    let ds: i128 = to.secs as i128 - from.secs as i128;
    let d: i128 = ds * 1_000_000_000 + (to.nanos as i128 - from.nanos as i128);
    let r: i128 = if d >= 0 {
        d / 1_000_000_000
    } else {
        -((-d) / 1_000_000_000)
    };
    assert(-2 * MAX_EPOCH_SECS - 1 <= r <= 2 * MAX_EPOCH_SECS + 1) by (nonlinear_arith)
        requires
            -2 * MAX_EPOCH_SECS * 1_000_000_000 - 1_000_000_000 <= d <= 2 * MAX_EPOCH_SECS
                * 1_000_000_000 + 1_000_000_000,
            d >= 0 ==> r == d / 1_000_000_000,
            d < 0 ==> r == -((-d) / 1_000_000_000),
    ;
    r as i64
}

/// The text that humantime renders for a span of `secs` whole seconds.
pub uninterp spec fn duration_text(secs: nat) -> Seq<char>;

/// Relies on humantime::format_duration: its text depends on the span alone,
/// and a zero span reads "0s".
#[verifier::external_body]
fn human_duration(secs: u64) -> (r: String)
    ensures
        r@ == duration_text(secs as nat),
        secs == 0 ==> r@ == seq!['0', 's'],
{
    humantime::format_duration(std::time::Duration::from_secs(secs)).to_string()
}

/// What the dashboard shows for a span: "Unknown" when it is negative (the
/// clocks disagree), else the humantime text.
pub open spec fn span_text(secs: int) -> Seq<char> {
    if secs < 0 {
        "Unknown"@
    } else {
        duration_text(secs as nat)
    }
}

/// Renders a span of whole seconds.
pub fn format_span(secs: i64) -> (r: String)
    ensures
        r@ == span_text(secs as int),
{
    if secs < 0 {
        String::from_str("Unknown")
    } else {
        human_duration(secs as u64)
    }
}

/// Whether `a` comes strictly before `b`.
pub fn is_before(a: &Timestamp, b: &Timestamp) -> (r: bool)
    ensures
        r == (a.total_nanos() < b.total_nanos()),
{
    (a.secs as i128) * 1_000_000_000 + (a.nanos as i128) < (b.secs as i128) * 1_000_000_000 + (
    b.nanos as i128)
}

/// What the dashboard shows for the time from `from` to `to`: "Unknown"
/// when `to` comes first (the clocks disagree), however little, else the
/// humantime text of the whole seconds between them.
pub open spec fn elapsed_text(from: Timestamp, to: Timestamp) -> Seq<char> {
    if to.total_nanos() < from.total_nanos() {
        "Unknown"@
    } else {
        span_text(whole_seconds_between(from, to))
    }
}

/// Renders the time from `from` to `to`.
fn format_elapsed(from: &Timestamp, to: &Timestamp) -> (r: String)
    requires
        from.wf(),
        to.wf(),
    ensures
        r@ == elapsed_text(*from, *to),
{
    if is_before(to, from) {
        String::from_str("Unknown")
    } else {
        format_span(elapsed_seconds(from, to))
    }
}

/// Age of a workload: the time from its creation to `now`.
pub fn format_age(created: &Timestamp, now: &Timestamp) -> (r: String)
    requires
        created.wf(),
        now.wf(),
    ensures
        r@ == elapsed_text(*created, *now),
{
    format_elapsed(created, now)
}

/// Run time of a workload: the time from its start to its end (or to now,
/// while it runs).
pub fn format_run_time(started: &Timestamp, finished: &Timestamp) -> (r: String)
    requires
        started.wf(),
        finished.wf(),
    ensures
        r@ == elapsed_text(*started, *finished),
{
    format_elapsed(started, finished)
}

} // verus!
