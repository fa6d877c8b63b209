//! Little-endian encoding of 64-bit integers.

use vstd::prelude::*;

verus! {

/// The number that the eight bytes of `b` starting at `at` spell, least
/// significant byte first.
pub open spec fn le_u64(b: Seq<u8>, at: int) -> int {
    b[at] as int
        + b[at + 1] as int * 0x100
        + b[at + 2] as int * 0x1_0000
        + b[at + 3] as int * 0x100_0000
        + b[at + 4] as int * 0x1_0000_0000
        + b[at + 5] as int * 0x100_0000_0000
        + b[at + 6] as int * 0x1_0000_0000_0000
        + b[at + 7] as int * 0x100_0000_0000_0000
}

/// Byte `k` (0 is the least significant) of `v`.
pub open spec fn le_byte(v: u64, k: int) -> u8 {
    if k == 0 {
        (v as int % 0x100) as u8
    } else if k == 1 {
        (v as int / 0x100 % 0x100) as u8
    } else if k == 2 {
        (v as int / 0x1_0000 % 0x100) as u8
    } else if k == 3 {
        (v as int / 0x100_0000 % 0x100) as u8
    } else if k == 4 {
        (v as int / 0x1_0000_0000 % 0x100) as u8
    } else if k == 5 {
        (v as int / 0x100_0000_0000 % 0x100) as u8
    } else if k == 6 {
        (v as int / 0x1_0000_0000_0000 % 0x100) as u8
    } else {
        (v as int / 0x100_0000_0000_0000 % 0x100) as u8
    }
}

/// The eight bytes that spell `v`, least significant first.
pub open spec fn le_bytes(v: u64) -> Seq<u8> {
    Seq::new(8, |k: int| le_byte(v, k))
}

/// Decoding what was encoded gives the number back.
pub proof fn lemma_le_round_trip(v: u64)
    ensures
        le_u64(le_bytes(v), 0) == v,
{
    assert(v == v % 0x100 + (v / 0x100 % 0x100) * 0x100 + (v / 0x1_0000 % 0x100) * 0x1_0000 + (v
        / 0x100_0000 % 0x100) * 0x100_0000 + (v / 0x1_0000_0000 % 0x100) * 0x1_0000_0000 + (v
        / 0x100_0000_0000 % 0x100) * 0x100_0000_0000 + (v / 0x1_0000_0000_0000 % 0x100)
        * 0x1_0000_0000_0000 + (v / 0x100_0000_0000_0000 % 0x100) * 0x100_0000_0000_0000)
        by (bit_vector);
}

/// Eight bytes are the encoding of the number they spell, and that number
/// fits in 64 bits.
pub proof fn lemma_le_bytes_of_le_u64(b: Seq<u8>, at: int)
    requires
        0 <= at,
        at + 8 <= b.len(),
    ensures
        0 <= le_u64(b, at) <= u64::MAX,
        le_bytes(le_u64(b, at) as u64) =~= b.subrange(at, at + 8),
{
    let b0: u64 = b[at] as u64;
    let b1: u64 = b[at + 1] as u64;
    let b2: u64 = b[at + 2] as u64;
    let b3: u64 = b[at + 3] as u64;
    let b4: u64 = b[at + 4] as u64;
    let b5: u64 = b[at + 5] as u64;
    let b6: u64 = b[at + 6] as u64;
    let b7: u64 = b[at + 7] as u64;
    let v: u64 = le_u64(b, at) as u64;
    assert(v == b0 + b1 * 0x100 + b2 * 0x1_0000 + b3 * 0x100_0000 + b4 * 0x1_0000_0000 + b5
        * 0x100_0000_0000 + b6 * 0x1_0000_0000_0000 + b7 * 0x100_0000_0000_0000);
    assert(v % 0x100 == b0 && v / 0x100 % 0x100 == b1 && v / 0x1_0000 % 0x100 == b2 && v
        / 0x100_0000 % 0x100 == b3 && v / 0x1_0000_0000 % 0x100 == b4 && v / 0x100_0000_0000
        % 0x100 == b5 && v / 0x1_0000_0000_0000 % 0x100 == b6 && v / 0x100_0000_0000_0000 % 0x100
        == b7) by (bit_vector)
        requires
            b0 < 0x100 && b1 < 0x100 && b2 < 0x100 && b3 < 0x100 && b4 < 0x100 && b5 < 0x100 && b6
                < 0x100 && b7 < 0x100,
            v == b0 + b1 * 0x100 + b2 * 0x1_0000 + b3 * 0x100_0000 + b4 * 0x1_0000_0000 + b5
                * 0x100_0000_0000 + b6 * 0x1_0000_0000_0000 + b7 * 0x100_0000_0000_0000,
    ;
    assert forall|k: int| 0 <= k < 8 implies le_bytes(v)[k] == b.subrange(at, at + 8)[k] by {}
}

/// Reads the 64-bit little-endian integer at `at`.
pub fn read_u64_le(bytes: &[u8], at: usize) -> (v: u64)
    requires
        at + 8 <= bytes@.len(),
    ensures
        v == le_u64(bytes@, at as int),
{
    let b0: u64 = bytes[at] as u64;
    let b1: u64 = bytes[at + 1] as u64;
    let b2: u64 = bytes[at + 2] as u64;
    let b3: u64 = bytes[at + 3] as u64;
    let b4: u64 = bytes[at + 4] as u64;
    let b5: u64 = bytes[at + 5] as u64;
    let b6: u64 = bytes[at + 6] as u64;
    let b7: u64 = bytes[at + 7] as u64;
    b0 + b1 * 0x100 + b2 * 0x1_0000 + b3 * 0x100_0000 + b4 * 0x1_0000_0000
        + b5 * 0x100_0000_0000 + b6 * 0x1_0000_0000_0000 + b7 * 0x100_0000_0000_0000
}

/// Writes `v` as eight little-endian bytes at `at`, leaving every other byte
/// as it was.
pub fn write_u64_le(buf: &mut Vec<u8>, at: usize, v: u64)
    requires
        at + 8 <= old(buf).len(),
    ensures
        final(buf)@.len() == old(buf)@.len(),
        forall|i: int| 0 <= i < 8 ==> #[trigger] final(buf)@[at + i] == le_byte(v, i),
        forall|i: int|
            0 <= i < old(buf)@.len() && !(at <= i < at + 8) ==> #[trigger] final(buf)@[i] == old(
                buf,
            )@[i],
{
    buf.set(at, (v % 0x100) as u8);
    buf.set(at + 1, (v / 0x100 % 0x100) as u8);
    buf.set(at + 2, (v / 0x1_0000 % 0x100) as u8);
    buf.set(at + 3, (v / 0x100_0000 % 0x100) as u8);
    buf.set(at + 4, (v / 0x1_0000_0000 % 0x100) as u8);
    buf.set(at + 5, (v / 0x100_0000_0000 % 0x100) as u8);
    buf.set(at + 6, (v / 0x1_0000_0000_0000 % 0x100) as u8);
    buf.set(at + 7, (v / 0x100_0000_0000_0000 % 0x100) as u8);
}

} // verus!
