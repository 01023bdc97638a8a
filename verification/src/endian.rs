//! Little-endian fixed-width integers.

use vstd::prelude::*;

verus! {

/// The number of values that `width` bytes can tell apart: 256 to the power `width`.
pub open spec fn capacity(width: nat) -> nat
    decreases width,
{
    if width == 0 {
        1
    } else {
        256 * capacity((width - 1) as nat)
    }
}

/// The `width` low bytes of `v`, least significant first.
pub open spec fn le_bytes(v: nat, width: nat) -> Seq<u8>
    decreases width,
{
    if width == 0 {
        Seq::empty()
    } else {
        seq![(v % 256) as u8] + le_bytes(v / 256, (width - 1) as nat)
    }
}

/// The number that the bytes `b` spell, least significant first.
pub open spec fn le_value(b: Seq<u8>) -> nat
    decreases b.len(),
{
    if b.len() == 0 {
        0
    } else {
        b[0] as nat + 256 * le_value(b.skip(1))
    }
}

/// The unsigned number with the same 64 bits as `x` in two's complement.
pub open spec fn to_unsigned(x: i64) -> u64 {
    if x >= 0 {
        x as u64
    } else {
        (x + 0x1_0000_0000_0000_0000) as u64
    }
}

/// The signed number with the same 64 bits as `u` in two's complement.
pub open spec fn to_signed(u: u64) -> i64 {
    if u < 0x8000_0000_0000_0000 {
        u as i64
    } else {
        (u - 0x1_0000_0000_0000_0000) as i64
    }
}

/// The eight bytes of `x`, least significant first.
pub open spec fn u64_le(x: u64) -> Seq<u8> {
    le_bytes(x as nat, 8)
}

/// The number that the first eight bytes of `b` spell.
pub open spec fn u64_from_le(b: Seq<u8>) -> u64
    recommends
        b.len() >= 8,
{
    le_value(b.take(8)) as u64
}

/// The eight bytes of `x` in two's complement, least significant first.
pub open spec fn i64_le(x: i64) -> Seq<u8> {
    u64_le(to_unsigned(x))
}

/// The signed number that the first eight bytes of `b` spell in two's complement.
pub open spec fn i64_from_le(b: Seq<u8>) -> i64
    recommends
        b.len() >= 8,
{
    to_signed(u64_from_le(b))
}

/// `le_bytes` gives exactly `width` bytes.
pub proof fn lemma_le_bytes_len(v: nat, width: nat)
    ensures
        le_bytes(v, width).len() == width,
    decreases width,
{
    if width > 0 {
        lemma_le_bytes_len(v / 256, (width - 1) as nat);
    }
}

/// Bytes spell a number below the capacity of their count.
pub proof fn lemma_le_value_bound(b: Seq<u8>)
    ensures
        le_value(b) < capacity(b.len()),
    decreases b.len(),
{
    if b.len() > 0 {
        lemma_le_value_bound(b.skip(1));
    }
}

/// A number that fits in `width` bytes is read back from them.
pub proof fn lemma_le_value_of_bytes(v: nat, width: nat)
    requires
        v < capacity(width),
    ensures
        le_value(le_bytes(v, width)) == v,
    decreases width,
{
    if width > 0 {
        let rest = le_bytes(v / 256, (width - 1) as nat);
        let all = le_bytes(v, width);
        lemma_le_bytes_len(v / 256, (width - 1) as nat);
        lemma_le_value_of_bytes(v / 256, (width - 1) as nat);
        assert(all.skip(1) =~= rest);
        assert(all[0] == (v % 256) as u8);
    }
}

/// Bytes are written back from the number they spell.
pub proof fn lemma_le_bytes_of_value(b: Seq<u8>)
    ensures
        le_bytes(le_value(b), b.len()) == b,
    decreases b.len(),
{
    if b.len() > 0 {
        let v = le_value(b);
        lemma_le_bytes_of_value(b.skip(1));
        assert(v / 256 == le_value(b.skip(1)));
        assert(v % 256 == b[0]);
        assert(le_bytes(v, b.len()) =~= b);
    } else {
        assert(le_bytes(le_value(b), b.len()) =~= b);
    }
}

/// Eight bytes hold exactly the range of `u64`.
pub proof fn lemma_capacity_of_eight()
    ensures
        capacity(8) == 0x1_0000_0000_0000_0000,
{
    reveal_with_fuel(capacity, 9);
}

/// The two's complement reading is one-to-one in both directions.
pub proof fn lemma_twos_complement_inverse(x: i64, u: u64)
    ensures
        to_signed(to_unsigned(x)) == x,
        to_unsigned(to_signed(u)) == u,
{
}

/// Reading back the bytes of a number gives the number.
pub proof fn lemma_u64_le_inverse(x: u64)
    ensures
        u64_le(x).len() == 8,
        u64_from_le(u64_le(x)) == x,
{
    lemma_capacity_of_eight();
    lemma_le_bytes_len(x as nat, 8);
    lemma_le_value_of_bytes(x as nat, 8);
    assert(u64_le(x).take(8) =~= u64_le(x));
}

/// Writing out the number read from eight bytes gives those bytes.
pub proof fn lemma_u64_from_le_inverse(b: Seq<u8>)
    requires
        b.len() == 8,
    ensures
        u64_le(u64_from_le(b)) == b,
{
    lemma_capacity_of_eight();
    lemma_le_value_bound(b);
    lemma_le_bytes_of_value(b);
    assert(b.take(8) =~= b);
}

/// Bytes that are all zero spell zero.
pub proof fn lemma_le_value_of_zeros(b: Seq<u8>)
    requires
        forall|i: int| 0 <= i < b.len() ==> b[i] == 0,
    ensures
        le_value(b) == 0,
    decreases b.len(),
{
    if b.len() > 0 {
        lemma_le_value_of_zeros(b.skip(1));
    }
}

/// A number above zero has a byte that is not zero.
pub proof fn lemma_u64_le_of_positive(x: u64)
    requires
        x > 0,
    ensures
        exists|i: int| 0 <= i < 8 && u64_le(x)[i] != 0,
{
    lemma_u64_le_inverse(x);
    if forall|i: int| 0 <= i < 8 ==> u64_le(x)[i] == 0 {
        assert(u64_le(x).take(8) =~= u64_le(x));
        lemma_le_value_of_zeros(u64_le(x));
    }
}

/// Reading back the bytes of a signed number gives the number.
pub proof fn lemma_i64_le_inverse(x: i64)
    ensures
        i64_le(x).len() == 8,
        i64_from_le(i64_le(x)) == x,
{
    lemma_u64_le_inverse(to_unsigned(x));
    lemma_twos_complement_inverse(x, 0);
}

/// Writing out the signed number read from eight bytes gives those bytes.
pub proof fn lemma_i64_from_le_inverse(b: Seq<u8>)
    requires
        b.len() == 8,
    ensures
        i64_le(i64_from_le(b)) == b,
{
    lemma_u64_from_le_inverse(b);
    lemma_twos_complement_inverse(0, u64_from_le(b));
}

/// Reads the `u64` stored in the eight bytes of `src` from `at` on.
pub(crate) fn read_u64(src: &[u8], at: usize) -> (x: u64)
    requires
        at + 8 <= src.len(),
    ensures
        x == u64_from_le(src@.skip(at as int)),
{
    let ghost b = src@.skip(at as int).take(8);
    let mut x: u64 = 0;
    let mut i: usize = 8;
    proof {
        assert(b.skip(8) =~= Seq::<u8>::empty());
    }
    while i > 0
        invariant
            i <= 8,
            at + 8 <= src.len(),
            b == src@.skip(at as int).take(8),
            x == le_value(b.skip(i as int)),
        decreases i,
    {
        proof {
            reveal_with_fuel(capacity, 9);
            lemma_le_value_bound(b.skip(i as int));
            assert(b.skip(i - 1).skip(1) =~= b.skip(i as int));
        }
        i = i - 1;
        x = x * 256 + src[at + i] as u64;
    }
    proof {
        assert(b.skip(0) =~= b);
    }
    x
}

/// Writes the eight bytes of `x` into `dst` from `at` on.
pub(crate) fn write_u64(dst: &mut [u8], at: usize, x: u64)
    requires
        at + 8 <= old(dst).len(),
    ensures
        final(dst)@.len() == old(dst)@.len(),
        final(dst)@ == old(dst)@.take(at as int) + u64_le(x) + old(dst)@.skip(at + 8),
{
    let ghost bytes = u64_le(x);
    let mut q: u64 = x;
    let mut i: usize = 0;
    proof {
        lemma_le_bytes_len(x as nat, 8);
        assert(bytes.skip(0) =~= bytes);
    }
    while i < 8
        invariant
            i <= 8,
            at + 8 <= old(dst).len(),
            dst.len() == old(dst).len(),
            bytes == u64_le(x),
            bytes.len() == 8,
            bytes.skip(i as int) == le_bytes(q as nat, (8 - i) as nat),
            dst@ == old(dst)@.take(at as int) + bytes.take(i as int) + old(dst)@.skip(at + i),
        decreases 8 - i,
    {
        let ghost before = dst@;
        dst[at + i] = (q % 256) as u8;
        proof {
            lemma_le_bytes_len(q as nat / 256, (7 - i) as nat);
            assert(bytes[i as int] == bytes.skip(i as int)[0]);
            assert(bytes.skip(i + 1) =~= bytes.skip(i as int).skip(1));
            assert(bytes.skip(i as int).skip(1) =~= le_bytes(q as nat / 256, (7 - i) as nat));
            assert(dst@ =~= old(dst)@.take(at as int) + bytes.take(i + 1) + old(dst)@.skip(
                at + i + 1,
            ));
        }
        q = q / 256;
        i = i + 1;
    }
    proof {
        assert(bytes.take(8) =~= bytes);
    }
}

/// Reads the `i64` stored in two's complement in the eight bytes of `src` from `at` on.
pub(crate) fn read_i64(src: &[u8], at: usize) -> (x: i64)
    requires
        at + 8 <= src.len(),
    ensures
        x == i64_from_le(src@.skip(at as int)),
{
    let u: u64 = read_u64(src, at);
    if u < 0x8000_0000_0000_0000 {
        u as i64
    } else {
        (u - 0x8000_0000_0000_0000) as i64 + i64::MIN
    }
}

/// Writes the eight bytes of `x` in two's complement into `dst` from `at` on.
pub(crate) fn write_i64(dst: &mut [u8], at: usize, x: i64)
    requires
        at + 8 <= old(dst).len(),
    ensures
        final(dst)@.len() == old(dst)@.len(),
        final(dst)@ == old(dst)@.take(at as int) + i64_le(x) + old(dst)@.skip(at + 8),
{
    let u: u64 = if x >= 0 {
        x as u64
    } else {
        (x - i64::MIN) as u64 + 0x8000_0000_0000_0000
    };
    write_u64(dst, at, u);
}

} // verus!
