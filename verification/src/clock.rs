//! The wall clock, modelled as plain values.
//!
//! A reading is the pair (whole seconds since the epoch, sub-second
//! nanoseconds); when the clock lies before the epoch, the read fails and
//! reports by how much. The one call into the system clock stands behind a
//! trusted wrapper; everything downstream works on these plain values.

use vstd::prelude::*;

verus! {

/// A wall-clock reading: whole seconds since the epoch and the sub-second
/// nanosecond count.
#[derive(Clone, Copy, Debug, PartialEq, Eq, Structural)]
pub struct ClockReading {
    pub secs: u64,
    pub nanos: u32,
}

/// How far before the epoch the clock was reported to lie: whole seconds and
/// sub-second nanoseconds of the (positive) skew.
#[derive(Clone, Copy, Debug, PartialEq, Eq, Structural)]
pub struct ClockSkew {
    pub secs: u64,
    pub nanos: u32,
}

/// A reading is well formed when its nanosecond part is a valid sub-second
/// count.
pub open spec fn reading_valid(c: ClockReading) -> bool {
    c.nanos < 1_000_000_000
}

/// A skew is well formed when its nanosecond part is a valid sub-second
/// count.
pub open spec fn skew_valid(sk: ClockSkew) -> bool {
    sk.nanos < 1_000_000_000
}

/// Relies on `std::time::SystemTime::now` and
/// `SystemTime::duration_since(UNIX_EPOCH)`: `Ok` carries the duration since
/// the epoch, `Err` the amount by which the clock lies before it (through
/// `SystemTimeError::duration`). `Duration::subsec_nanos` is documented to be
/// below one billion. The reading itself depends on the moment of the call,
/// so nothing more is promised of the values.
#[verifier::external_body]
pub(crate) fn clock_since_epoch() -> (r: Result<ClockReading, ClockSkew>)
    ensures
        r matches Ok(c) ==> reading_valid(c),
        r matches Err(sk) ==> skew_valid(sk),
{
    match std::time::SystemTime::now().duration_since(std::time::UNIX_EPOCH) {
        Ok(d) => Ok(ClockReading { secs: d.as_secs(), nanos: d.subsec_nanos() }),
        Err(e) => {
            let d = e.duration();
            Err(ClockSkew { secs: d.as_secs(), nanos: d.subsec_nanos() })
        },
    }
}

} // verus!
