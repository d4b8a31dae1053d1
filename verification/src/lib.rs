//! Numeric identifier generation.
//!
//! A combined identifier ("combid") packs a coarse wall-clock timestamp
//! together with random bits (or, in the time-only variant, with the full
//! sub-second nanosecond count) into a single big-endian signed 64-bit
//! integer, so that identifiers generated later sort numerically after
//! identifiers generated earlier while remaining practically unique.

use vstd::prelude::*;

mod adapters;
mod bytes;
mod clock;
mod encode;
mod errors;
mod generate;

verus! {

pub use adapters::Generator;
pub use adapters::TimeGenerator;
pub use bytes::be_bytes_u32;
pub use bytes::be_bytes_u64;
pub use bytes::be_u32_bytes;
pub use bytes::be_u64_bytes;
pub use bytes::be_u64_of;
pub use bytes::i64_from_be_bytes;
pub use clock::ClockReading;
pub use clock::ClockSkew;
pub use clock::reading_valid;
pub use clock::skew_valid;
pub use encode::combid_bytes;
pub use encode::combid_from_parts;
pub use encode::combid_of;
pub use encode::combid_u64;
pub use encode::lemma_combid_compact;
pub use encode::lemma_combid_slices;
pub use encode::lemma_timeid_compact;
pub use encode::lemma_timeid_order;
pub use encode::lemma_timeid_slices;
pub use encode::timeid_bytes;
pub use encode::timeid_from_parts;
pub use encode::timeid_of;
pub use encode::timeid_u64;
pub use errors::IdError;
pub use generate::combid_from_reading;
pub use generate::combid_outcome;
pub use generate::gen;
pub use generate::gen_timeid;
pub use generate::timeid_from_reading;
pub use generate::timeid_outcome;

} // verus!
