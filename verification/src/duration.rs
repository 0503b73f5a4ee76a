use vstd::prelude::*;

verus! {

/// Declares `std::time::Instant`, the monotonic clock anchor that a
/// connection records when it starts handling a request.
#[verifier::external_type_specification]
#[verifier::external_body]
pub struct ExInstant(std::time::Instant);

/// Relies on `std::time::Instant::elapsed`: the span from the anchor to now
/// on a monotonic clock. Nothing further is assumed, since the result depends
/// on when the call runs.
pub assume_specification[ std::time::Instant::elapsed ](start: &std::time::Instant)
    -> core::time::Duration;

/// Relies on `core::time::Duration::as_secs`: the whole-second part of the span.
pub assume_specification[ core::time::Duration::as_secs ](d: &core::time::Duration) -> u64;

/// Relies on `core::time::Duration::subsec_nanos`: the fractional part of the
/// span in nanoseconds, which its documentation bounds below one billion.
pub assume_specification[ core::time::Duration::subsec_nanos ](d: &core::time::Duration)
    -> (r: u32)
    ensures
        r < 1_000_000_000,
;

/// The elapsed span of one request: whole seconds plus a nanosecond remainder,
/// as a monotonic clock reports it.
#[derive(Clone, Copy, Debug, PartialEq, Eq, Structural)]
pub struct ElapsedTime {
    pub secs: u64,
    pub nanos: u32,
}

impl ElapsedTime {
    /// A well-formed span keeps its nanosecond remainder below one second.
    pub open spec fn wf(self) -> bool {
        self.nanos < 1_000_000_000
    }

    /// The span in whole milliseconds, rounded down.
    pub open spec fn spec_total_millis(self) -> int {
        self.secs * 1000 + self.nanos / 1_000_000
    }

    /// The millisecond count as the recorded measurement carries it: spans too
    /// long for the measurement's width wrap, as a narrowing conversion does.
    pub open spec fn spec_millis_u64(self) -> int {
        self.spec_total_millis() % 0x1_0000_0000_0000_0000
    }

    /// Whole milliseconds of the span, rounded down; exact whenever the span
    /// fits the width of the recorded measurement.
    pub fn as_millis_u64(&self) -> (r: u64)
        ensures
            r == self.spec_millis_u64(),
            self.spec_total_millis() <= u64::MAX ==> r == self.spec_total_millis(),
    {
        let ms: u128 = (self.secs as u128) * 1000 + ((self.nanos / 1_000_000) as u128);
        let wrapped: u128 = ms % 0x1_0000_0000_0000_0000u128;
        wrapped as u64
    }
}

/// Reads the monotonic clock and returns the span since `start`.
pub fn elapsed_since(start: &std::time::Instant) -> (r: ElapsedTime)
    ensures
        r.wf(),
{
    let d = start.elapsed();
    ElapsedTime { secs: d.as_secs(), nanos: d.subsec_nanos() }
}

} // verus!
