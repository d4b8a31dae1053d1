//! Sequence adapters: lazy, infinite producers that repeatedly invoke the
//! encoders. Each `next` call is independently computed from the live clock
//! (and, for `Generator`, the held randomness source); the sequences never
//! signal exhaustion.

use vstd::prelude::*;

use crate::errors::IdError;
use crate::generate::combid_outcome;
use crate::generate::gen;
use crate::generate::gen_timeid;
use crate::generate::timeid_outcome;

verus! {

/// Produces combined identifiers on demand, using a randomness source it
/// owns for its whole lifetime.
pub struct Generator<T> {
    rng: T,
}

impl<T> Generator<T> {
    /// The randomness source the adapter holds.
    pub closed spec fn source(self) -> T {
        self.rng
    }
}

impl<T: rand::Rng> Generator<T> {
    /// Wraps `rng` as an identifier producer; the adapter holds exactly that
    /// source and nothing else.
    pub fn new(rng: T) -> (r: Generator<T>)
        ensures
            r.source() == rng,
    {
        Generator { rng }
    }

    /// Produces the next combined identifier or error. The sequence never
    /// ends: the result is always present, a clock failure is handed to the
    /// caller per call and does not stop later calls from succeeding.
    pub fn next(&mut self) -> (r: Option<Result<i64, IdError>>)
        ensures
            r is Some,
            combid_outcome(r->Some_0),
    {
        match gen(&mut self.rng) {
            Ok(v) => Some(Ok(v)),
            Err(e) => Some(Err(e)),
        }
    }
}

/// Produces time-only identifiers on demand; holds no state.
pub struct TimeGenerator {}

impl TimeGenerator {
    /// Produces the next time-only identifier or error. The sequence never
    /// ends: the result is always present, a clock failure is handed to the
    /// caller per call and does not stop later calls from succeeding.
    pub fn next(&mut self) -> (r: Option<Result<i64, IdError>>)
        ensures
            r is Some,
            timeid_outcome(r->Some_0),
            *final(self) == *old(self),
    {
        match gen_timeid() {
            Ok(v) => Some(Ok(v)),
            Err(e) => Some(Err(e)),
        }
    }
}

} // verus!
