//! The error taxonomy: one kind per failure source, unified under a single
//! result channel for every operation.

use vstd::prelude::*;

use crate::clock::ClockSkew;

verus! {

/// Why identifier generation failed.
#[derive(Clone, Copy, Debug, PartialEq, Eq, Structural)]
pub enum IdError {
    /// The byte-serialization step could not write. With the fixed-width
    /// in-memory buffers used here this is unreachable, but the kind stays
    /// representable so that such a failure would travel the same channel as
    /// a clock failure.
    Io,
    /// The system clock reported a time before the epoch; carries the skew.
    Time(ClockSkew),
}

} // verus!
