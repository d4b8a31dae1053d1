//! The identifier encoders: the fixed byte layouts and the functions that
//! produce an identifier from a clock reading and (in the random variant) a
//! random word.
//!
//! Both layouts start with the low 32 bits of the second count, so the
//! ordering window of the scheme repeats every 2^32 seconds and the top bit
//! of the second window doubles as the sign bit of the identifier; ordering
//! across such a rollover or sign flip is a documented limitation of the
//! layout, not corrected here.

use vstd::prelude::*;

use crate::bytes::be_bytes_u32;
use crate::bytes::be_bytes_u64;
use crate::bytes::be_u32_bytes;
use crate::bytes::be_u64_bytes;
use crate::bytes::be_u64_of;
use crate::bytes::i64_from_be_bytes;

verus! {

/// The eight bytes of a combined identifier: the last four big-endian bytes
/// of the second count, the most significant nanosecond byte, and the three
/// most significant bytes of the random word.
pub open spec fn combid_bytes(secs: u64, nanos: u32, rand_word: u32) -> Seq<u8> {
    seq![
        ((secs >> 24) & 0xff) as u8,
        ((secs >> 16) & 0xff) as u8,
        ((secs >> 8) & 0xff) as u8,
        (secs & 0xff) as u8,
        ((nanos >> 24) & 0xff) as u8,
        ((rand_word >> 24) & 0xff) as u8,
        ((rand_word >> 16) & 0xff) as u8,
        ((rand_word >> 8) & 0xff) as u8,
    ]
}

/// The eight bytes of a time-only identifier: the last four big-endian bytes
/// of the second count followed by the four big-endian nanosecond bytes.
pub open spec fn timeid_bytes(secs: u64, nanos: u32) -> Seq<u8> {
    seq![
        ((secs >> 24) & 0xff) as u8,
        ((secs >> 16) & 0xff) as u8,
        ((secs >> 8) & 0xff) as u8,
        (secs & 0xff) as u8,
        ((nanos >> 24) & 0xff) as u8,
        ((nanos >> 16) & 0xff) as u8,
        ((nanos >> 8) & 0xff) as u8,
        (nanos & 0xff) as u8,
    ]
}

/// A combined identifier, as the big-endian signed read of its bytes.
pub open spec fn combid_of(secs: u64, nanos: u32, rand_word: u32) -> i64 {
    be_u64_of(combid_bytes(secs, nanos, rand_word)) as i64
}

/// A time-only identifier, as the big-endian signed read of its bytes.
pub open spec fn timeid_of(secs: u64, nanos: u32) -> i64 {
    be_u64_of(timeid_bytes(secs, nanos)) as i64
}

/// The combined-identifier bytes, read as one unsigned word: the low 32 bits
/// of the second count in the upper half, the top nanosecond byte, then the
/// top three bytes of the random word.
pub open spec fn combid_u64(secs: u64, nanos: u32, rand_word: u32) -> u64 {
    ((secs & 0xffff_ffff) << 32) | (((nanos >> 24) as u64) << 24) | ((rand_word >> 8) as u64)
}

/// The time-only-identifier bytes, read as one unsigned word: the low 32 bits
/// of the second count in the upper half, the nanosecond count in the lower.
pub open spec fn timeid_u64(secs: u64, nanos: u32) -> u64 {
    ((secs & 0xffff_ffff) << 32) | (nanos as u64)
}

/// The byte-by-byte combined layout and its compact word form agree.
pub proof fn lemma_combid_compact(secs: u64, nanos: u32, rand_word: u32)
    ensures
        be_u64_of(combid_bytes(secs, nanos, rand_word)) == combid_u64(secs, nanos, rand_word),
{
    assert((((((secs >> 24) & 0xff) as u8) as u64) << 56) | (((((secs >> 16) & 0xff) as u8)
        as u64) << 48) | (((((secs >> 8) & 0xff) as u8) as u64) << 40) | ((((secs & 0xff) as u8)
        as u64) << 32) | (((((nanos >> 24) & 0xff) as u8) as u64) << 24) | (((((rand_word >> 24)
        & 0xff) as u8) as u64) << 16) | (((((rand_word >> 16) & 0xff) as u8) as u64) << 8) | ((((
    rand_word >> 8) & 0xff) as u8) as u64) == (((secs & 0xffff_ffff) << 32) | (((nanos >> 24)
        as u64) << 24) | ((rand_word >> 8) as u64))) by (bit_vector);
}

/// The byte-by-byte time-only layout and its compact word form agree.
pub proof fn lemma_timeid_compact(secs: u64, nanos: u32)
    ensures
        be_u64_of(timeid_bytes(secs, nanos)) == timeid_u64(secs, nanos),
{
    assert((((((secs >> 24) & 0xff) as u8) as u64) << 56) | (((((secs >> 16) & 0xff) as u8)
        as u64) << 48) | (((((secs >> 8) & 0xff) as u8) as u64) << 40) | ((((secs & 0xff) as u8)
        as u64) << 32) | (((((nanos >> 24) & 0xff) as u8) as u64) << 24) | (((((nanos >> 16)
        & 0xff) as u8) as u64) << 16) | (((((nanos >> 8) & 0xff) as u8) as u64) << 8) | ((((nanos
        & 0xff) as u8) as u64)) == (((secs & 0xffff_ffff) << 32) | (nanos as u64))) by (
    bit_vector);
}

/// The combined-identifier bytes are exactly the documented slices: the last
/// four big-endian bytes of the second count, then the first big-endian byte
/// of the nanosecond count, then the first three big-endian bytes of the
/// random word.
pub proof fn lemma_combid_slices(secs: u64, nanos: u32, rand_word: u32)
    ensures
        combid_bytes(secs, nanos, rand_word) =~= be_u64_bytes(secs).subrange(4, 8) + be_u32_bytes(
            nanos,
        ).subrange(0, 1) + be_u32_bytes(rand_word).subrange(0, 3),
{
}

/// The time-only-identifier bytes are exactly the documented slices: the last
/// four big-endian bytes of the second count followed by all four big-endian
/// bytes of the nanosecond count.
pub proof fn lemma_timeid_slices(secs: u64, nanos: u32)
    ensures
        timeid_bytes(secs, nanos) =~= be_u64_bytes(secs).subrange(4, 8) + be_u32_bytes(nanos),
{
}

/// Best-effort ordering of time-only identifiers: an identifier from a later
/// second sorts strictly after one from an earlier second whenever the low
/// 32 bits of the two second counts are themselves in order and agree on
/// their top bit (which becomes the identifier's sign bit). Across a 32-bit
/// rollover of the second count, or a flip of that top bit, ordering can
/// break; that limitation is inherent in the layout and left as documented.
pub proof fn lemma_timeid_order(s1: u64, n1: u32, s2: u64, n2: u32)
    requires
        s1 & 0xffff_ffff < s2 & 0xffff_ffff,
        s1 & 0x8000_0000 == s2 & 0x8000_0000,
    ensures
        timeid_of(s1, n1) < timeid_of(s2, n2),
{
    lemma_timeid_compact(s1, n1);
    lemma_timeid_compact(s2, n2);
    assert(((((s1 & 0xffff_ffff) << 32) | (n1 as u64)) as i64) < ((((s2 & 0xffff_ffff) << 32) | (
    n2 as u64)) as i64)) by (bit_vector)
        requires
            s1 & 0xffff_ffff < s2 & 0xffff_ffff,
            s1 & 0x8000_0000 == s2 & 0x8000_0000,
    ;
}

/// Packs one combined identifier from its parts: the low four big-endian
/// bytes of the second count, the top nanosecond byte, and the top three
/// bytes of the random word, read back as a big-endian signed integer.
pub fn combid_from_parts(secs: u64, nanos: u32, rand_word: u32) -> (r: i64)
    ensures
        r == combid_of(secs, nanos, rand_word),
{
    let v_time_sec = be_bytes_u64(secs);
    let v_time_nsec = be_bytes_u32(nanos);
    let v_rand = be_bytes_u32(rand_word);
    let mut buf: Vec<u8> = Vec::new();
    buf.push(v_time_sec[4]);
    buf.push(v_time_sec[5]);
    buf.push(v_time_sec[6]);
    buf.push(v_time_sec[7]);
    buf.push(v_time_nsec[0]);
    buf.push(v_rand[0]);
    buf.push(v_rand[1]);
    buf.push(v_rand[2]);
    proof {
        assert(buf@ =~= combid_bytes(secs, nanos, rand_word));
    }
    i64_from_be_bytes(&buf)
}

/// Packs one time-only identifier from its parts: the low four big-endian
/// bytes of the second count followed by the four big-endian nanosecond
/// bytes, read back as a big-endian signed integer.
pub fn timeid_from_parts(secs: u64, nanos: u32) -> (r: i64)
    ensures
        r == timeid_of(secs, nanos),
{
    let v_time_sec = be_bytes_u64(secs);
    let v_time_nsec = be_bytes_u32(nanos);
    let mut buf: Vec<u8> = Vec::new();
    buf.push(v_time_sec[4]);
    buf.push(v_time_sec[5]);
    buf.push(v_time_sec[6]);
    buf.push(v_time_sec[7]);
    buf.push(v_time_nsec[0]);
    buf.push(v_time_nsec[1]);
    buf.push(v_time_nsec[2]);
    buf.push(v_time_nsec[3]);
    proof {
        assert(buf@ =~= timeid_bytes(secs, nanos));
    }
    i64_from_be_bytes(&buf)
}

} // verus!
