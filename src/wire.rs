//! Reading the fixed binary encodings that the decoders are built from: little
//! endian integers, one-byte booleans and tags, 32-byte keys and length
//! prefixed strings. Each reader starts at a position and returns the value
//! with the position just after it, or nothing when the bytes do not hold one.

use crate::pubkey::Pubkey;
use vstd::prelude::*;
use vstd::utf8::{decode_utf8, valid_utf8};

verus! {

/// A reader's result with its end position as an integer.
pub open spec fn lift<T>(r: Option<(T, usize)>) -> Option<(T, int)> {
    match r {
        Some((v, q)) => Some((v, q as int)),
        None => None,
    }
}

/// An optional value seen through its view.
pub open spec fn opt_v<T: View>(o: Option<T>) -> Option<T::V> {
    match o {
        Some(v) => Some(v@),
        None => None,
    }
}

/// At least `n` bytes of `s` remain from `p`.
pub open spec fn has(s: Seq<u8>, p: int, n: int) -> bool {
    0 <= p && p + n <= s.len()
}

pub open spec fn spec_u8(s: Seq<u8>, p: int) -> Option<(u8, int)> {
    if has(s, p, 1) {
        Some((s[p], p + 1))
    } else {
        None
    }
}

/// A boolean is the byte 0 or 1; any other byte is no boolean. Optional
/// values carry the same byte as their presence tag.
pub open spec fn spec_bool(s: Seq<u8>, p: int) -> Option<(bool, int)> {
    if has(s, p, 1) && s[p] <= 1 {
        Some((s[p] == 1, p + 1))
    } else {
        None
    }
}

pub open spec fn le2(s: Seq<u8>, p: int) -> int {
    s[p] + s[p + 1] * 0x100
}

pub open spec fn le4(s: Seq<u8>, p: int) -> int {
    le2(s, p) + s[p + 2] * 0x1_0000 + s[p + 3] * 0x100_0000
}

pub open spec fn le8(s: Seq<u8>, p: int) -> int {
    le4(s, p) + s[p + 4] * 0x1_0000_0000 + s[p + 5] * 0x100_0000_0000 + s[p + 6]
        * 0x1_0000_0000_0000 + s[p + 7] * 0x100_0000_0000_0000
}

pub open spec fn spec_u16(s: Seq<u8>, p: int) -> Option<(u16, int)> {
    if has(s, p, 2) {
        Some((le2(s, p) as u16, p + 2))
    } else {
        None
    }
}

pub open spec fn spec_u32(s: Seq<u8>, p: int) -> Option<(u32, int)> {
    if has(s, p, 4) {
        Some((le4(s, p) as u32, p + 4))
    } else {
        None
    }
}

pub open spec fn spec_u64(s: Seq<u8>, p: int) -> Option<(u64, int)> {
    if has(s, p, 8) {
        Some((le8(s, p) as u64, p + 8))
    } else {
        None
    }
}

/// A signed integer is the two's complement reading of the same eight bytes.
pub open spec fn spec_i64(s: Seq<u8>, p: int) -> Option<(i64, int)> {
    if has(s, p, 8) {
        Some((le8(s, p) as u64 as i64, p + 8))
    } else {
        None
    }
}

pub open spec fn spec_bytes32(s: Seq<u8>, p: int) -> Option<(Seq<u8>, int)> {
    if has(s, p, 32) {
        Some((s.subrange(p, p + 32), p + 32))
    } else {
        None
    }
}

pub open spec fn spec_pubkey(s: Seq<u8>, p: int) -> Option<(Seq<u8>, int)> {
    spec_bytes32(s, p)
}

/// A string is a four-byte length, then that many bytes of valid UTF-8.
pub open spec fn spec_string(s: Seq<u8>, p: int) -> Option<(Seq<char>, int)> {
    match spec_u32(s, p) {
        Some((n, q)) => {
            if has(s, q, n as int) && valid_utf8(s.subrange(q, q + n)) {
                Some((decode_utf8(s.subrange(q, q + n)), q + n))
            } else {
                None
            }
        },
        None => None,
    }
}

pub fn read_u8(d: &[u8], p: usize) -> (r: Option<(u8, usize)>)
    ensures
        lift(r) == spec_u8(d@, p as int),
{
    if p < d.len() {
        Some((d[p], p + 1))
    } else {
        None
    }
}

pub fn read_bool(d: &[u8], p: usize) -> (r: Option<(bool, usize)>)
    ensures
        lift(r) == spec_bool(d@, p as int),
{
    if p < d.len() && d[p] <= 1 {
        Some((d[p] == 1, p + 1))
    } else {
        None
    }
}

pub fn read_u16(d: &[u8], p: usize) -> (r: Option<(u16, usize)>)
    ensures
        lift(r) == spec_u16(d@, p as int),
{
    if p <= d.len() && d.len() - p >= 2 {
        let v: u16 = d[p] as u16 + (d[p + 1] as u16) * 0x100;
        Some((v, p + 2))
    } else {
        None
    }
}

pub fn read_u32(d: &[u8], p: usize) -> (r: Option<(u32, usize)>)
    ensures
        lift(r) == spec_u32(d@, p as int),
{
    if p <= d.len() && d.len() - p >= 4 {
        let v: u32 = d[p] as u32 + (d[p + 1] as u32) * 0x100 + (d[p + 2] as u32) * 0x1_0000 + (d[p
            + 3] as u32) * 0x100_0000;
        Some((v, p + 4))
    } else {
        None
    }
}

pub fn read_u64(d: &[u8], p: usize) -> (r: Option<(u64, usize)>)
    ensures
        lift(r) == spec_u64(d@, p as int),
{
    if p <= d.len() && d.len() - p >= 8 {
        let v: u64 = d[p] as u64 + (d[p + 1] as u64) * 0x100 + (d[p + 2] as u64) * 0x1_0000 + (d[p
            + 3] as u64) * 0x100_0000 + (d[p + 4] as u64) * 0x1_0000_0000 + (d[p + 5] as u64)
            * 0x100_0000_0000 + (d[p + 6] as u64) * 0x1_0000_0000_0000 + (d[p + 7] as u64)
            * 0x100_0000_0000_0000;
        Some((v, p + 8))
    } else {
        None
    }
}

pub fn read_i64(d: &[u8], p: usize) -> (r: Option<(i64, usize)>)
    ensures
        lift(r) == spec_i64(d@, p as int),
{
    match read_u64(d, p) {
        Some((v, q)) => Some((v as i64, q)),
        None => None,
    }
}

pub fn read_bytes32(d: &[u8], p: usize) -> (r: Option<([u8; 32], usize)>)
    ensures
        match r {
            Some((a, q)) => spec_bytes32(d@, p as int) == Some((a@, q as int)),
            None => spec_bytes32(d@, p as int) is None,
        },
{
    if p <= d.len() && d.len() - p >= 32 {
        let mut a = [0u8; 32];
        let mut i: usize = 0;
        while i < 32
            invariant
                0 <= i <= 32,
                p + 32 <= d.len(),
                forall|k: int| 0 <= k < i ==> a@[k] == d@[p + k],
            decreases 32 - i,
        {
            a[i] = d[p + i];
            i = i + 1;
        }
        assert(a@ =~= d@.subrange(p as int, p + 32));
        Some((a, p + 32))
    } else {
        None
    }
}

pub fn read_pubkey(d: &[u8], p: usize) -> (r: Option<(Pubkey, usize)>)
    ensures
        match r {
            Some((k, q)) => spec_pubkey(d@, p as int) == Some((k.0@, q as int)),
            None => spec_pubkey(d@, p as int) is None,
        },
{
    match read_bytes32(d, p) {
        Some((a, q)) => Some((Pubkey(a), q)),
        None => None,
    }
}

/// Relies on `String::from_utf8`: it accepts exactly the byte sequences that
/// are valid UTF-8, and the string it returns holds the characters they
/// encode.
#[verifier::external_body]
fn string_from_utf8(bytes: Vec<u8>) -> (r: Option<String>)
    ensures
        r is Some <==> valid_utf8(bytes@),
        r matches Some(s) ==> s@ == decode_utf8(bytes@),
{
    String::from_utf8(bytes).ok()
}

/// The bytes of `d` from `p` up to `q`.
pub fn copy_range(d: &[u8], p: usize, q: usize) -> (r: Vec<u8>)
    requires
        p <= q <= d@.len(),
    ensures
        r@ == d@.subrange(p as int, q as int),
{
    let mut out: Vec<u8> = Vec::new();
    let mut i: usize = p;
    while i < q
        invariant
            p <= i <= q <= d@.len(),
            out@ =~= d@.subrange(p as int, i as int),
        decreases q - i,
    {
        out.push(d[i]);
        i = i + 1;
    }
    out
}

pub fn read_string(d: &[u8], p: usize) -> (r: Option<(String, usize)>)
    ensures
        match r {
            Some((v, q)) => spec_string(d@, p as int) == Some((v@, q as int)),
            None => spec_string(d@, p as int) is None,
        },
{
    let (n, q) = match read_u32(d, p) {
        Some(x) => x,
        None => {
            return None;
        },
    };
    if d.len() - q < n as usize {
        return None;
    }
    let end = q + n as usize;
    let bytes = copy_range(d, q, end);
    match string_from_utf8(bytes) {
        Some(v) => Some((v, end)),
        None => None,
    }
}

} // verus!
