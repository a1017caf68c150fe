//! Unsigned integers spread over consecutive bytes of a buffer.

use vstd::prelude::*;

verus! {

/// The number that a run of bytes denotes when its first byte is the most
/// significant one.
pub open spec fn be_value(bytes: Seq<u8>) -> nat
    decreases bytes.len(),
{
    if bytes.len() == 0 {
        0
    } else {
        256 * be_value(bytes.drop_last()) + bytes.last() as nat
    }
}

/// The number that a run of bytes denotes when its first byte is the least
/// significant one.
pub open spec fn le_value(bytes: Seq<u8>) -> nat
    decreases bytes.len(),
{
    if bytes.len() == 0 {
        0
    } else {
        bytes.first() as nat + 256 * le_value(bytes.drop_first())
    }
}

/// The number of values that `n` bytes can tell apart: 256 to the power `n`.
pub open spec fn byte_range(n: nat) -> nat
    decreases n,
{
    if n == 0 {
        1
    } else {
        256 * byte_range((n - 1) as nat)
    }
}

/// A run of bytes read most significant byte first stays below the range of
/// its length.
pub proof fn lemma_be_value_bound(bytes: Seq<u8>)
    ensures
        be_value(bytes) < byte_range(bytes.len()),
    decreases bytes.len(),
{
    if bytes.len() > 0 {
        lemma_be_value_bound(bytes.drop_last());
    }
}

/// A run of bytes read least significant byte first stays below the range of
/// its length.
pub proof fn lemma_le_value_bound(bytes: Seq<u8>)
    ensures
        le_value(bytes) < byte_range(bytes.len()),
    decreases bytes.len(),
{
    if bytes.len() > 0 {
        lemma_le_value_bound(bytes.drop_first());
    }
}

/// More bytes tell more values apart.
pub proof fn lemma_byte_range_step(few: nat, many: nat)
    requires
        few <= many,
    ensures
        byte_range(few) <= byte_range(many),
    decreases many,
{
    if few < many {
        lemma_byte_range_step(few, (many - 1) as nat);
    }
}

/// `byte_range` for the widths that fit a `u64`.
pub proof fn lemma_byte_range_values()
    ensures
        byte_range(0) == 1,
        byte_range(1) == 0x100,
        byte_range(2) == 0x1_0000,
        byte_range(3) == 0x100_0000,
        byte_range(4) == 0x1_0000_0000,
        byte_range(5) == 0x100_0000_0000,
        byte_range(6) == 0x1_0000_0000_0000,
        byte_range(7) == 0x100_0000_0000_0000,
        byte_range(8) == 0x1_0000_0000_0000_0000,
{
    reveal_with_fuel(byte_range, 9);
}

/// The two-byte big-endian value written out.
pub proof fn lemma_be_value_2(bytes: Seq<u8>)
    requires
        bytes.len() == 2,
    ensures
        be_value(bytes) == 256 * bytes[0] + bytes[1],
{
    reveal_with_fuel(be_value, 3);
    assert(bytes.drop_last().drop_last().len() == 0);
}

/// The five-byte big-endian value written out.
pub proof fn lemma_be_value_5(bytes: Seq<u8>)
    requires
        bytes.len() == 5,
    ensures
        be_value(bytes) == 0x1_0000_0000 * bytes[0] + 0x100_0000 * bytes[1] + 0x1_0000 * bytes[2]
            + 0x100 * bytes[3] + bytes[4],
{
    let b4 = bytes.drop_last();
    let b3 = b4.drop_last();
    let b2 = b3.drop_last();
    let b1 = b2.drop_last();
    assert(be_value(b1.drop_last()) == 0);
    assert(be_value(b1) == bytes[0]);
    assert(be_value(b2) == 256 * be_value(b1) + bytes[1]);
    assert(be_value(b3) == 256 * be_value(b2) + bytes[2]);
    assert(be_value(b4) == 256 * be_value(b3) + bytes[3]);
    assert(be_value(bytes) == 256 * be_value(b4) + bytes[4]);
}

/// The four-byte little-endian value written out.
pub proof fn lemma_le_value_4(bytes: Seq<u8>)
    requires
        bytes.len() == 4,
    ensures
        le_value(bytes) == bytes[0] + 0x100 * bytes[1] + 0x1_0000 * bytes[2] + 0x100_0000
            * bytes[3],
{
    let t1 = bytes.drop_first();
    let t2 = t1.drop_first();
    let t3 = t2.drop_first();
    assert(le_value(t3.drop_first()) == 0);
    assert(le_value(t3) == bytes[3]);
    assert(le_value(t2) == bytes[2] + 256 * le_value(t3));
    assert(le_value(t1) == bytes[1] + 256 * le_value(t2));
    assert(le_value(bytes) == bytes[0] + 256 * le_value(t1));
}

/// Reads `len` bytes of `data` from offset `start`, most significant first.
pub fn read_be<const N: usize>(data: &[u8; N], start: usize, len: usize) -> (value: u64)
    requires
        len <= 8,
        start + len <= N,
    ensures
        value as nat == be_value(data@.subrange(start as int, start + len)),
{
    let mut value: u64 = 0;
    let mut i: usize = 0;
    while i < len
        invariant
            i <= len <= 8,
            start + len <= N,
            value as nat == be_value(data@.subrange(start as int, start + i)),
        decreases len - i,
    {
        let byte: u8 = data[start + i];
        proof {
            let seen = data@.subrange(start as int, start + i);
            let next = data@.subrange(start as int, start + i + 1);
            assert(next.drop_last() =~= seen);
            assert(next.last() == byte);
            lemma_be_value_bound(seen);
            lemma_byte_range_step(i as nat, 7);
            lemma_byte_range_values();
            assert(value < 0x100_0000_0000_0000);
            assert((value << 8 | byte as u64) == value * 256 + byte as u64) by (bit_vector)
                requires
                    value < 0x100_0000_0000_0000u64,
            ;
        }
        value = value << 8 | byte as u64;
        i = i + 1;
    }
    value
}

/// Reads `len` bytes of `data` from offset `start`, least significant first.
pub fn read_le<const N: usize>(data: &[u8; N], start: usize, len: usize) -> (value: u64)
    requires
        len <= 8,
        start + len <= N,
    ensures
        value as nat == le_value(data@.subrange(start as int, start + len)),
{
    let mut value: u64 = 0;
    let mut i: usize = len;
    while i > 0
        invariant
            i <= len <= 8,
            start + len <= N,
            value as nat == le_value(data@.subrange(start + i, start + len)),
        decreases i,
    {
        i = i - 1;
        let byte: u8 = data[start + i];
        proof {
            let seen = data@.subrange(start + i + 1, start + len);
            let next = data@.subrange(start + i, start + len);
            assert(next.drop_first() =~= seen);
            assert(next.first() == byte);
            lemma_le_value_bound(seen);
            lemma_byte_range_step(seen.len(), 7);
            lemma_byte_range_values();
            assert(value < 0x100_0000_0000_0000);
            assert((value << 8 | byte as u64) == byte as u64 + 256 * value) by (bit_vector)
                requires
                    value < 0x100_0000_0000_0000u64,
            ;
        }
        value = value << 8 | byte as u64;
    }
    value
}

} // verus!
