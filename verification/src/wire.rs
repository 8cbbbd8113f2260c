//! Fixed-width integers as they travel on the wire.
//!
//! The streaming protocol mixes byte orders: packet types are little endian,
//! everything else is big endian.

use vstd::prelude::*;

verus! {

/// How many values `width` bytes can tell apart.
pub open spec fn byte_span(width: nat) -> nat
    decreases width,
{
    if width == 0 {
        1
    } else {
        256 * byte_span((width - 1) as nat)
    }
}

/// The `width` low bytes of `n`, most significant byte first.
pub open spec fn be_bytes(n: nat, width: nat) -> Seq<u8>
    decreases width,
{
    if width == 0 {
        Seq::empty()
    } else {
        be_bytes(n / 256, (width - 1) as nat).push((n % 256) as u8)
    }
}

/// The `width` low bytes of `n`, least significant byte first.
pub open spec fn le_bytes(n: nat, width: nat) -> Seq<u8> {
    be_bytes(n, width).reverse()
}

/// The number that a big-endian byte string denotes.
pub open spec fn be_value(s: Seq<u8>) -> nat
    decreases s.len(),
{
    if s.len() == 0 {
        0
    } else {
        be_value(s.drop_last()) * 256 + s.last() as nat
    }
}

/// The two's complement pattern of a signed 16-bit number.
pub open spec fn twos_complement(n: i16) -> nat {
    if n >= 0 {
        n as nat
    } else {
        (n + 0x1_0000) as nat
    }
}

pub proof fn lemma_be_bytes_len(n: nat, width: nat)
    ensures
        be_bytes(n, width).len() == width,
    decreases width,
{
    if width > 0 {
        lemma_be_bytes_len(n / 256, (width - 1) as nat);
    }
}

/// Reading big-endian bytes gives back the number that was written, as long as
/// it fits into the width.
pub proof fn be_round_trip(n: nat, width: nat)
    requires
        n < byte_span(width),
    ensures
        be_bytes(n, width).len() == width,
        be_value(be_bytes(n, width)) == n,
    decreases width,
{
    if width > 0 {
        let head = be_bytes(n / 256, (width - 1) as nat);
        be_round_trip(n / 256, (width - 1) as nat);
        assert(be_bytes(n, width).drop_last() =~= head);
    }
}

/// Two numbers that fit into the width and have the same bytes are the same.
pub proof fn be_bytes_injective(a: nat, b: nat, width: nat)
    requires
        a < byte_span(width),
        b < byte_span(width),
        be_bytes(a, width) == be_bytes(b, width),
    ensures
        a == b,
{
    be_round_trip(a, width);
    be_round_trip(b, width);
}

pub proof fn lemma_byte_spans()
    ensures
        byte_span(1) == 0x100,
        byte_span(2) == 0x1_0000,
        byte_span(4) == 0x1_0000_0000,
        byte_span(8) == 0x1_0000_0000_0000_0000,
{
    reveal_with_fuel(byte_span, 9);
}

/// Appends the eight big-endian bytes of `n`.
pub fn push_be_u64(out: &mut Vec<u8>, n: u64)
    ensures
        final(out)@ == old(out)@ + be_bytes(n as nat, 8),
{
    let r1: u64 = n / 256;
    let r2: u64 = r1 / 256;
    let r3: u64 = r2 / 256;
    let r4: u64 = r3 / 256;
    let r5: u64 = r4 / 256;
    let r6: u64 = r5 / 256;
    let r7: u64 = r6 / 256;
    out.push((r7 % 256) as u8);
    out.push((r6 % 256) as u8);
    out.push((r5 % 256) as u8);
    out.push((r4 % 256) as u8);
    out.push((r3 % 256) as u8);
    out.push((r2 % 256) as u8);
    out.push((r1 % 256) as u8);
    out.push((n % 256) as u8);
    proof {
        reveal_with_fuel(be_bytes, 9);
    }
    assert(out@ =~= old(out)@ + be_bytes(n as nat, 8));
}

/// The 16-bit number whose low byte is `lo` and whose high byte is `hi`.
pub fn u16_from_le(lo: u8, hi: u8) -> (n: u16)
    ensures
        n == hi * 256 + lo,
        le_bytes(n as nat, 2) == seq![lo, hi],
{
    let n: u16 = (hi as u16) * 256 + (lo as u16);
    proof {
        reveal_with_fuel(be_bytes, 3);
        assert(be_bytes(n as nat, 2) =~= seq![hi, lo]);
        assert(le_bytes(n as nat, 2) =~= seq![lo, hi]);
    }
    n
}

/// Big-endian bytes have the most significant one first: dropping the last byte divides
/// by 256, and the last byte is what is left over. Little-endian bytes are the same ones
/// the other way round.
pub proof fn bytes_are_in_order(n: nat, width: nat)
    ensures
        be_bytes(n, width + 1) == be_bytes(n / 256, width) + seq![(n % 256) as u8],
        le_bytes(n, width + 1) == seq![(n % 256) as u8] + le_bytes(n / 256, width),
        be_bytes(n, 0) == Seq::<u8>::empty(),
        le_bytes(n, 0) == Seq::<u8>::empty(),
        be_bytes(n, 2) == seq![(n / 256 % 256) as u8, (n % 256) as u8],
{
    lemma_be_bytes_len(n / 256, width);
    assert(be_bytes(n, width + 1) =~= be_bytes(n / 256, width) + seq![(n % 256) as u8]);
    assert(le_bytes(n, width + 1) =~= seq![(n % 256) as u8] + le_bytes(n / 256, width));
    assert(be_bytes(n, 0).reverse() =~= Seq::empty());
    reveal_with_fuel(be_bytes, 3);
    assert(be_bytes(n, 2) =~= seq![(n / 256 % 256) as u8, (n % 256) as u8]);
}

/// The two's complement pattern of a number and the number differ by a multiple of
/// 65536, and the pattern needs no more than 16 bits.
pub proof fn patterns_are_congruent(n: i16)
    ensures
        0 <= twos_complement(n) < 65536,
        (twos_complement(n) - n) % 65536 == 0,
{
}

} // verus!
