use vstd::prelude::*;
use vstd::bytes::{
    spec_u64_from_le_bytes, spec_u64_to_le_bytes, u64_from_le_bytes, u64_to_le_bytes,
};
use vstd::slice::slice_subrange;
use crate::keys::Pubkey;

verus! {

/// The unsigned 64-bit pattern that stores a signed value in two's complement.
pub open spec fn spec_i64_bits(x: i64) -> u64 {
    if x >= 0 {
        x as u64
    } else {
        (x + 0x1_0000_0000_0000_0000) as u64
    }
}

/// The signed value stored by an unsigned 64-bit two's-complement pattern.
pub open spec fn spec_i64_of_bits(u: u64) -> i64 {
    if u < 0x8000_0000_0000_0000 {
        u as i64
    } else {
        (u - 0x1_0000_0000_0000_0000) as i64
    }
}

pub proof fn lemma_i64_bits_roundtrip(x: i64)
    ensures
        spec_i64_of_bits(spec_i64_bits(x)) == x,
{
}

pub proof fn lemma_i64_of_bits_roundtrip(u: u64)
    ensures
        spec_i64_bits(spec_i64_of_bits(u)) == u,
{
}

/// A signed 64-bit field on the wire: its two's-complement pattern,
/// little-endian.
pub open spec fn spec_i64_to_le_bytes(x: i64) -> Seq<u8> {
    spec_u64_to_le_bytes(spec_i64_bits(x))
}

pub open spec fn spec_i64_from_le_bytes(s: Seq<u8>) -> i64 {
    spec_i64_of_bits(spec_u64_from_le_bytes(s))
}

pub fn i64_bits(x: i64) -> (r: u64)
    ensures
        r == spec_i64_bits(x),
{
    if x >= 0 {
        x as u64
    } else {
        // x + 2^63, computed without leaving the i64 range, then
        // shifted up by 2^63 again: together x + 2^64.
        let shifted: i64 = (x + i64::MAX) + 1;
        (shifted as u64) + 0x8000_0000_0000_0000u64
    }
}

pub fn i64_of_bits(u: u64) -> (r: i64)
    ensures
        r == spec_i64_of_bits(u),
{
    if u < 0x8000_0000_0000_0000 {
        u as i64
    } else {
        // u - 2^63 fits in i64; subtracting 2^63 once more gives u - 2^64.
        let v: u64 = u - 0x8000_0000_0000_0000u64;
        ((v as i64) - i64::MAX) - 1
    }
}

/// Appends the 8-byte little-endian encoding of `x`.
pub fn push_u64_le(out: &mut Vec<u8>, x: u64)
    ensures
        final(out)@ == old(out)@ + spec_u64_to_le_bytes(x),
{
    let mut b = u64_to_le_bytes(x);
    out.append(&mut b);
}

/// Appends the 8-byte little-endian two's-complement encoding of `x`.
pub fn push_i64_le(out: &mut Vec<u8>, x: i64)
    ensures
        final(out)@ == old(out)@ + spec_i64_to_le_bytes(x),
{
    push_u64_le(out, i64_bits(x));
}

/// Appends the 32 bytes of an address.
pub fn push_key(out: &mut Vec<u8>, k: &Pubkey)
    ensures
        final(out)@ == old(out)@ + k@,
{
    let mut i: usize = 0;
    while i < 32
        invariant
            i <= 32,
            out@ == old(out)@ + k@.subrange(0, i as int),
        decreases 32 - i,
    {
        proof {
            assert(k@.subrange(0, i + 1) =~= k@.subrange(0, i as int) + seq![k@[i as int]]);
        }
        out.push(k[i]);
        i += 1;
    }
    proof {
        assert(k@.subrange(0, 32) =~= k@);
    }
}

/// Reads the unsigned 64-bit field stored little-endian at `off`.
pub fn read_u64_le(data: &Vec<u8>, off: usize) -> (r: u64)
    requires
        off + 8 <= data@.len(),
    ensures
        r == spec_u64_from_le_bytes(data@.subrange(off as int, off + 8)),
{
    let n: usize = data.len();
    assert(off + 8 <= n);
    let s = slice_subrange(data.as_slice(), off, off + 8);
    u64_from_le_bytes(s)
}

/// Reads the signed 64-bit field stored little-endian at `off`.
pub fn read_i64_le(data: &Vec<u8>, off: usize) -> (r: i64)
    requires
        off + 8 <= data@.len(),
    ensures
        r == spec_i64_from_le_bytes(data@.subrange(off as int, off + 8)),
{
    i64_of_bits(read_u64_le(data, off))
}

/// Reads the 32-byte address stored at `off`.
pub fn read_key(data: &Vec<u8>, off: usize) -> (r: Pubkey)
    requires
        off + 32 <= data@.len(),
    ensures
        r@ == data@.subrange(off as int, off + 32),
{
    let mut out: Pubkey = [0u8; 32];
    let n: usize = data.len();
    assert(off + 32 <= n);
    let mut i: usize = 0;
    while i < 32
        invariant
            i <= 32,
            off + 32 <= n && n == data@.len(),
            forall|k: int| 0 <= k < i ==> out@[k] == data@[off + k],
        decreases 32 - i,
    {
        out[i] = data[off + i];
        i += 1;
    }
    proof {
        assert(out@ =~= data@.subrange(off as int, off as int + 32));
    }
    out
}

/// Everything after the first byte.
pub open spec fn spec_tail(s: Seq<u8>) -> Seq<u8> {
    s.subrange(1, s.len() as int)
}

/// Copies everything after the first byte.
pub fn tail_vec(data: &Vec<u8>) -> (r: Vec<u8>)
    requires
        data@.len() >= 1,
    ensures
        r@ == spec_tail(data@),
{
    let n: usize = data.len();
    let mut out: Vec<u8> = Vec::new();
    let mut i: usize = 1;
    while i < n
        invariant
            1 <= i <= n,
            n == data@.len(),
            out@ =~= data@.subrange(1, i as int),
        decreases n - i,
    {
        proof {
            assert(data@.subrange(1, i + 1) =~= data@.subrange(1, i as int) + seq![data@[i as int]]);
        }
        out.push(data[i]);
        i += 1;
    }
    out
}

/// A vector of `len` zero bytes.
pub fn zero_vec(len: usize) -> (r: Vec<u8>)
    ensures
        r@.len() == len,
        forall|i: int| 0 <= i < len ==> r@[i] == 0u8,
{
    let mut out: Vec<u8> = Vec::new();
    let mut i: usize = 0;
    while i < len
        invariant
            i <= len,
            out@.len() == i,
            forall|k: int| 0 <= k < i ==> out@[k] == 0u8,
        decreases len - i,
    {
        out.push(0u8);
        i += 1;
    }
    out
}

} // verus!
