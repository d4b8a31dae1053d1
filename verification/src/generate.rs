//! Identifier generation from the live clock and a caller-supplied
//! randomness source.
//!
//! The deterministic step — turning a clock reading (or its failure) and a
//! random word into a result — is a verified function with an exact
//! contract; `gen` and `gen_timeid` feed it the live reading and state what
//! holds of every outcome.

use vstd::prelude::*;

use crate::clock::ClockReading;
use crate::clock::ClockSkew;
use crate::clock::clock_since_epoch;
use crate::clock::skew_valid;
use crate::encode::combid_from_parts;
use crate::encode::combid_of;
use crate::encode::timeid_from_parts;
use crate::encode::timeid_of;
use crate::errors::IdError;

verus! {

/// Relies on `rand::Rng::gen::<u32>`: one uniformly distributed 32-bit word
/// drawn from the caller's generator. Nothing can be promised of a random
/// value.
#[verifier::external_body]
fn draw_u32<R: rand::Rng>(rng: &mut R) -> u32 {
    rng.gen::<u32>()
}

/// What every outcome of combined-identifier generation satisfies: a success
/// is the combined encoding of some valid clock reading and some random
/// word, and a failure is always the clock kind, carrying a valid skew.
pub open spec fn combid_outcome(r: Result<i64, IdError>) -> bool {
    match r {
        Ok(id) => exists|s: u64, n: u32, w: u32|
            n < 1_000_000_000 && id == #[trigger] combid_of(s, n, w),
        Err(e) => e matches IdError::Time(sk) && skew_valid(sk),
    }
}

/// What every outcome of time-only-identifier generation satisfies: a
/// success is the time-only encoding of some valid clock reading, and a
/// failure is always the clock kind, carrying a valid skew.
pub open spec fn timeid_outcome(r: Result<i64, IdError>) -> bool {
    match r {
        Ok(id) => exists|s: u64, n: u32| n < 1_000_000_000 && id == #[trigger] timeid_of(s, n),
        Err(e) => e matches IdError::Time(sk) && skew_valid(sk),
    }
}

/// The deterministic step of `gen`: a successful clock reading yields exactly
/// the combined encoding of that reading and the given random word; a failed
/// one yields exactly the clock error carrying the reported skew.
pub fn combid_from_reading(reading: Result<ClockReading, ClockSkew>, rand_word: u32) -> (r: Result<
    i64,
    IdError,
>)
    ensures
        reading matches Ok(c) ==> r == Ok::<i64, IdError>(combid_of(c.secs, c.nanos, rand_word)),
        reading matches Err(sk) ==> r == Err::<i64, IdError>(IdError::Time(sk)),
{
    match reading {
        Ok(c) => Ok(combid_from_parts(c.secs, c.nanos, rand_word)),
        Err(sk) => Err(IdError::Time(sk)),
    }
}

/// The deterministic step of `gen_timeid`: a successful clock reading yields
/// exactly the time-only encoding of that reading; a failed one yields
/// exactly the clock error carrying the reported skew.
pub fn timeid_from_reading(reading: Result<ClockReading, ClockSkew>) -> (r: Result<i64, IdError>)
    ensures
        reading matches Ok(c) ==> r == Ok::<i64, IdError>(timeid_of(c.secs, c.nanos)),
        reading matches Err(sk) ==> r == Err::<i64, IdError>(IdError::Time(sk)),
{
    match reading {
        Ok(c) => Ok(timeid_from_parts(c.secs, c.nanos)),
        Err(sk) => Err(IdError::Time(sk)),
    }
}

/// Generates a combid (combined identifier): the current clock reading packed
/// with one fresh random word from `rng`. The leading bytes carry
/// whole-second then sub-second order; the trailing random bytes make
/// same-instant collisions unlikely without coordination.
pub fn gen<R: rand::Rng>(rng: &mut R) -> (r: Result<i64, IdError>)
    ensures
        combid_outcome(r),
{
    let reading = clock_since_epoch();
    let word = draw_u32(rng);
    combid_from_reading(reading, word)
}

/// Generates an identifier from the current time alone: the clock reading
/// packed with its full nanosecond count in place of randomness. Collision
/// risk under high call rates is higher than with `gen`; that tradeoff is
/// part of the layout.
pub fn gen_timeid() -> (r: Result<i64, IdError>)
    ensures
        timeid_outcome(r),
{
    let reading = clock_since_epoch();
    timeid_from_reading(reading)
}

} // verus!
