//! Big-endian views of fixed-width integers.
//!
//! The identifier layout is defined byte by byte, so the library carries its
//! own verified big-endian serialization: a spec-level byte view of `u64` and
//! `u32` values, executable functions that produce those bytes, and the
//! big-endian read of eight bytes as a signed 64-bit integer.

use vstd::prelude::*;

verus! {

/// The eight bytes of `v` in big-endian order (most significant first).
pub open spec fn be_u64_bytes(v: u64) -> Seq<u8> {
    seq![
        ((v >> 56) & 0xff) as u8,
        ((v >> 48) & 0xff) as u8,
        ((v >> 40) & 0xff) as u8,
        ((v >> 32) & 0xff) as u8,
        ((v >> 24) & 0xff) as u8,
        ((v >> 16) & 0xff) as u8,
        ((v >> 8) & 0xff) as u8,
        (v & 0xff) as u8,
    ]
}

/// The four bytes of `v` in big-endian order (most significant first).
pub open spec fn be_u32_bytes(v: u32) -> Seq<u8> {
    seq![
        ((v >> 24) & 0xff) as u8,
        ((v >> 16) & 0xff) as u8,
        ((v >> 8) & 0xff) as u8,
        (v & 0xff) as u8,
    ]
}

/// The unsigned 64-bit value read from eight bytes in big-endian order.
pub open spec fn be_u64_of(b: Seq<u8>) -> u64
    recommends
        b.len() == 8,
{
    ((b[0] as u64) << 56) | ((b[1] as u64) << 48) | ((b[2] as u64) << 40) | ((b[3] as u64) << 32)
        | ((b[4] as u64) << 24) | ((b[5] as u64) << 16) | ((b[6] as u64) << 8) | (b[7] as u64)
}

/// Serializes `v` as eight big-endian bytes.
pub fn be_bytes_u64(v: u64) -> (r: Vec<u8>)
    ensures
        r@ == be_u64_bytes(v),
{
    let mut r: Vec<u8> = Vec::new();
    r.push(((v >> 56) & 0xff) as u8);
    r.push(((v >> 48) & 0xff) as u8);
    r.push(((v >> 40) & 0xff) as u8);
    r.push(((v >> 32) & 0xff) as u8);
    r.push(((v >> 24) & 0xff) as u8);
    r.push(((v >> 16) & 0xff) as u8);
    r.push(((v >> 8) & 0xff) as u8);
    r.push((v & 0xff) as u8);
    proof {
        assert(r@ =~= be_u64_bytes(v));
    }
    r
}

/// Serializes `v` as four big-endian bytes.
pub fn be_bytes_u32(v: u32) -> (r: Vec<u8>)
    ensures
        r@ == be_u32_bytes(v),
{
    let mut r: Vec<u8> = Vec::new();
    r.push(((v >> 24) & 0xff) as u8);
    r.push(((v >> 16) & 0xff) as u8);
    r.push(((v >> 8) & 0xff) as u8);
    r.push((v & 0xff) as u8);
    proof {
        assert(r@ =~= be_u32_bytes(v));
    }
    r
}

/// Reads eight bytes as a big-endian signed 64-bit integer
/// (the unsigned big-endian value reinterpreted in two's complement).
pub fn i64_from_be_bytes(b: &Vec<u8>) -> (r: i64)
    requires
        b@.len() == 8,
    ensures
        r == be_u64_of(b@) as i64,
{
    let u: u64 = ((b[0] as u64) << 56) | ((b[1] as u64) << 48) | ((b[2] as u64) << 40) | ((b[3]
        as u64) << 32) | ((b[4] as u64) << 24) | ((b[5] as u64) << 16) | ((b[6] as u64) << 8) | (
    b[7] as u64);
    #[verifier::truncate]
    (u as i64)
}

} // verus!
