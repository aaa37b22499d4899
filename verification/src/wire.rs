//! Little-endian integers and fixed-width byte fields inside account payloads.

use crate::error::AmmError;
use vstd::prelude::*;

verus! {

/// The number that `bytes` spell in little-endian order.
pub open spec fn le_value(bytes: Seq<u8>) -> nat
    decreases bytes.len(),
{
    if bytes.len() == 0 {
        0
    } else {
        bytes[0] as nat + 256 * le_value(bytes.skip(1))
    }
}

/// The `n` low-order bytes of `x`, least significant first.
pub open spec fn le_bytes(x: nat, n: nat) -> Seq<u8>
    decreases n,
{
    if n == 0 {
        Seq::empty()
    } else {
        seq![(x % 256) as u8] + le_bytes(x / 256, (n - 1) as nat)
    }
}

/// `256^n`.
pub open spec fn pow256(n: nat) -> nat
    decreases n,
{
    if n == 0 {
        1
    } else {
        256 * pow256((n - 1) as nat)
    }
}

/// The unsigned 64-bit field that starts at `offset`.
pub open spec fn u64_at(data: Seq<u8>, offset: int) -> nat {
    le_value(data.subrange(offset, offset + 8))
}

/// The unsigned 32-bit field that starts at `offset`.
pub open spec fn u32_at(data: Seq<u8>, offset: int) -> nat {
    le_value(data.subrange(offset, offset + 4))
}

/// `le_bytes` yields exactly as many bytes as asked for.
pub proof fn lemma_le_bytes_len(x: nat, n: nat)
    ensures
        le_bytes(x, n).len() == n,
    decreases n,
{
    if n > 0 {
        lemma_le_bytes_len(x / 256, (n - 1) as nat);
    }
}

/// A little-endian number of `n` bytes is below `256^n`.
pub proof fn lemma_le_value_bound(bytes: Seq<u8>)
    ensures
        le_value(bytes) < pow256(bytes.len()),
    decreases bytes.len(),
{
    if bytes.len() > 0 {
        lemma_le_value_bound(bytes.skip(1));
    }
}

/// Eight bytes spell a number in the 64-bit range, four bytes one in the 32-bit range.
pub proof fn lemma_le_value_fits(bytes: Seq<u8>)
    ensures
        bytes.len() == 8 ==> le_value(bytes) <= u64::MAX,
        bytes.len() == 4 ==> le_value(bytes) <= u32::MAX,
{
    lemma_le_value_bound(bytes);
    reveal_with_fuel(pow256, 9);
}

/// Decoding what was encoded gives the number back, as far as it fits.
pub proof fn lemma_le_value_of_le_bytes(x: nat, n: nat)
    requires
        x < pow256(n),
    ensures
        le_value(le_bytes(x, n)) == x,
    decreases n,
{
    if n > 0 {
        let rest = le_bytes(x / 256, (n - 1) as nat);
        let all = le_bytes(x, n);
        assert(all.skip(1) =~= rest);
        assert(all[0] == (x % 256) as u8);
        lemma_le_value_of_le_bytes(x / 256, (n - 1) as nat);
    }
}

/// Encoding what was decoded gives the bytes back.
pub proof fn lemma_le_bytes_of_le_value(bytes: Seq<u8>)
    ensures
        le_bytes(le_value(bytes), bytes.len()) == bytes,
    decreases bytes.len(),
{
    if bytes.len() > 0 {
        let v = le_value(bytes);
        let rest = bytes.skip(1);
        lemma_le_bytes_of_le_value(rest);
        assert(v % 256 == bytes[0] as nat);
        assert(v / 256 == le_value(rest));
        assert(le_bytes(v, bytes.len()) =~= bytes);
    } else {
        assert(le_bytes(le_value(bytes), bytes.len()) =~= bytes);
    }
}

/// Two byte strings of one length that spell the same number are the same string.
pub proof fn lemma_le_value_injective(a: Seq<u8>, b: Seq<u8>)
    requires
        a.len() == b.len(),
        le_value(a) == le_value(b),
    ensures
        a == b,
{
    lemma_le_bytes_of_le_value(a);
    lemma_le_bytes_of_le_value(b);
}

/// Changing one byte inside a 64-bit field changes the number that is read from it.
pub proof fn lemma_perturbed_field_differs(d1: Seq<u8>, d2: Seq<u8>, offset: int, at: int)
    requires
        d1.len() == d2.len(),
        0 <= offset,
        offset + 8 <= d1.len(),
        offset <= at < offset + 8,
        d1[at] != d2[at],
    ensures
        u64_at(d1, offset) != u64_at(d2, offset),
{
    let a = d1.subrange(offset, offset + 8);
    let b = d2.subrange(offset, offset + 8);
    assert(a[at - offset] != b[at - offset]);
    if le_value(a) == le_value(b) {
        lemma_le_value_injective(a, b);
    }
}

/// Changing one byte inside a 32-bit field changes the number that is read from it.
pub proof fn lemma_perturbed_u32_differs(d1: Seq<u8>, d2: Seq<u8>, offset: int, at: int)
    requires
        d1.len() == d2.len(),
        0 <= offset,
        offset + 4 <= d1.len(),
        offset <= at < offset + 4,
        d1[at] != d2[at],
    ensures
        u32_at(d1, offset) != u32_at(d2, offset),
{
    let a = d1.subrange(offset, offset + 4);
    let b = d2.subrange(offset, offset + 4);
    assert(a[at - offset] != b[at - offset]);
    if le_value(a) == le_value(b) {
        lemma_le_value_injective(a, b);
    }
}

/// A field written at `offset` is read back unchanged from there.
pub proof fn lemma_field_round_trip(data: Seq<u8>, offset: int, x: u64)
    requires
        0 <= offset,
        offset + 8 <= data.len(),
        data.subrange(offset, offset + 8) == le_bytes(x as nat, 8),
    ensures
        u64_at(data, offset) == x,
{
    reveal_with_fuel(pow256, 9);
    lemma_le_value_of_le_bytes(x as nat, 8);
}

/// Reads the unsigned 64-bit little-endian field at `offset`.
pub fn read_u64(data: &Vec<u8>, offset: usize) -> (r: Result<u64, AmmError>)
    ensures
        match r {
            Ok(x) => offset + 8 <= data.len() && x == u64_at(data@, offset as int),
            Err(e) => offset + 8 > data.len() && e == AmmError::BlobTooShort,
        },
{
    if data.len() < 8 || offset > data.len() - 8 {
        return Err(AmmError::BlobTooShort);
    }
    let ghost field = data@.subrange(offset as int, offset + 8);
    let mut acc: u64 = 0;
    let mut i: usize = 8;
    while i > 0
        invariant
            i <= 8,
            offset + 8 <= data.len(),
            field == data@.subrange(offset as int, offset + 8),
            acc == le_value(field.skip(i as int)),
        decreases i,
    {
        i -= 1;
        proof {
            let tail = field.skip(i as int);
            assert(tail.skip(1) =~= field.skip(i + 1));
            assert(tail[0] == data@[offset + i]);
            lemma_le_value_bound(tail.skip(1));
            lemma_le_value_fits(tail);
            lemma_le_value_bound(tail);
            reveal_with_fuel(pow256, 9);
        }
        acc = acc * 256 + data[offset + i] as u64;
    }
    assert(field.skip(0) =~= field);
    Ok(acc)
}

/// Reads the unsigned 32-bit little-endian field at `offset`.
pub fn read_u32(data: &Vec<u8>, offset: usize) -> (r: Result<u32, AmmError>)
    ensures
        match r {
            Ok(x) => offset + 4 <= data.len() && x == u32_at(data@, offset as int),
            Err(e) => offset + 4 > data.len() && e == AmmError::BlobTooShort,
        },
{
    if data.len() < 4 || offset > data.len() - 4 {
        return Err(AmmError::BlobTooShort);
    }
    let ghost field = data@.subrange(offset as int, offset + 4);
    let mut acc: u32 = 0;
    let mut i: usize = 4;
    while i > 0
        invariant
            i <= 4,
            offset + 4 <= data.len(),
            field == data@.subrange(offset as int, offset + 4),
            acc == le_value(field.skip(i as int)),
        decreases i,
    {
        i -= 1;
        proof {
            let tail = field.skip(i as int);
            assert(tail.skip(1) =~= field.skip(i + 1));
            assert(tail[0] == data@[offset + i]);
            lemma_le_value_bound(tail.skip(1));
            lemma_le_value_bound(tail);
            reveal_with_fuel(pow256, 5);
        }
        acc = acc * 256 + data[offset + i] as u32;
    }
    assert(field.skip(0) =~= field);
    Ok(acc)
}

/// Reads the byte at `offset`.
pub fn read_u8(data: &Vec<u8>, offset: usize) -> (r: Result<u8, AmmError>)
    ensures
        match r {
            Ok(x) => offset < data.len() && x == data@[offset as int],
            Err(e) => offset >= data.len() && e == AmmError::BlobTooShort,
        },
{
    if offset >= data.len() {
        return Err(AmmError::BlobTooShort);
    }
    Ok(data[offset])
}

/// Appends the eight little-endian bytes of `x` to `out`.
pub fn push_u64(out: &mut Vec<u8>, x: u64)
    ensures
        final(out)@ == old(out)@ + le_bytes(x as nat, 8),
{
    let mut rest: u64 = x;
    let mut i: usize = 0;
    while i < 8
        invariant
            i <= 8,
            old(out)@ + le_bytes(x as nat, 8) == out@ + le_bytes(rest as nat, (8 - i) as nat),
        decreases 8 - i,
    {
        let ghost before = out@;
        out.push((rest % 256) as u8);
        proof {
            let tail = le_bytes((rest / 256) as nat, (8 - i - 1) as nat);
            assert(before + le_bytes(rest as nat, (8 - i) as nat) =~= out@ + tail);
        }
        rest = rest / 256;
        i += 1;
    }
    assert(out@ + le_bytes(rest as nat, 0) =~= out@);
}

} // verus!
