//! Big-endian numbers as they stand in a frame.

use vstd::prelude::*;

verus! {

/// The number that the bytes `s` spell in network order, first byte highest.
pub open spec fn be_value(s: Seq<u8>) -> nat
    decreases s.len(),
{
    if s.len() == 0 {
        0
    } else {
        be_value(s.drop_last()) * 256 + s.last() as nat
    }
}

/// 256 to the power `n`: the number of values that `n` bytes can spell.
pub open spec fn radix(n: nat) -> nat
    decreases n,
{
    if n == 0 {
        1
    } else {
        256 * radix((n - 1) as nat)
    }
}

/// `n` bytes spell a number below `radix(n)`.
pub proof fn lemma_be_value_bound(s: Seq<u8>)
    ensures
        be_value(s) < radix(s.len()),
    decreases s.len(),
{
    if s.len() > 0 {
        lemma_be_value_bound(s.drop_last());
    }
}

/// `radix` does not fall as its argument grows.
pub proof fn lemma_radix_monotone(a: nat, b: nat)
    requires
        a <= b,
    ensures
        0 < radix(a) <= radix(b),
    decreases b,
{
    if a < b {
        lemma_radix_monotone(a, (b - 1) as nat);
    } else if a > 0 {
        lemma_radix_monotone((a - 1) as nat, (a - 1) as nat);
    }
}

/// The values of `radix` at the widths this crate reads.
pub proof fn lemma_radix_widths()
    ensures
        radix(1) == 0x100,
        radix(2) == 0x1_0000,
        radix(4) == 0x1_0000_0000,
        radix(8) == 0x1_0000_0000_0000_0000,
        radix(16) == 0x1_0000_0000_0000_0000_0000_0000_0000_0000,
{
    reveal_with_fuel(radix, 5);
    assert(radix(4) == 0x1_0000_0000);
    assert(radix(8) == 0x1_0000_0000 * radix(4));
    assert(radix(12) == 0x1_0000_0000 * radix(8));
    assert(radix(16) == 0x1_0000_0000 * radix(12));
}

/// Two byte strings of one length that spell the same number are the same.
pub proof fn lemma_be_value_injective(s: Seq<u8>, t: Seq<u8>)
    requires
        s.len() == t.len(),
        be_value(s) == be_value(t),
    ensures
        s == t,
    decreases s.len(),
{
    if s.len() > 0 {
        lemma_be_value_injective(s.drop_last(), t.drop_last());
        assert(s =~= s.drop_last().push(s.last()));
        assert(t =~= t.drop_last().push(t.last()));
    }
}

/// Reads the `width` bytes of `bytes` that start at `at` as one number in
/// network order.
pub fn read_be(bytes: &[u8], at: usize, width: usize) -> (v: u128)
    requires
        width <= 16,
        at + width <= bytes@.len(),
    ensures
        v == be_value(bytes@.subrange(at as int, at + width)),
{
    let len: usize = bytes.len();
    let mut acc: u128 = 0;
    let mut i: usize = 0;
    while i < width
        invariant
            i <= width <= 16,
            at + width <= len,
            len == bytes@.len(),
            acc == be_value(bytes@.subrange(at as int, at + i)),
        decreases width - i,
    {
        let b: u8 = bytes[at + i];
        proof {
            let prev = bytes@.subrange(at as int, at + i);
            let next = bytes@.subrange(at as int, at + i + 1);
            assert(next.drop_last() =~= prev);
            assert(next.last() == b);
            lemma_be_value_bound(prev);
            lemma_radix_monotone(i as nat, 15);
            lemma_radix_widths();
            assert(radix(16) == 256 * radix(15));
        }
        acc = acc * 256 + b as u128;
        i += 1;
    }
    acc
}

/// Reads two bytes at `at` as a number in network order.
pub fn read_be16(bytes: &[u8], at: usize) -> (v: u16)
    requires
        at + 2 <= bytes@.len(),
    ensures
        v == be_value(bytes@.subrange(at as int, at + 2)),
{
    proof {
        lemma_be_value_bound(bytes@.subrange(at as int, at + 2));
        lemma_radix_widths();
    }
    read_be(bytes, at, 2) as u16
}

/// Reads four bytes at `at` as a number in network order.
pub fn read_be32(bytes: &[u8], at: usize) -> (v: u32)
    requires
        at + 4 <= bytes@.len(),
    ensures
        v == be_value(bytes@.subrange(at as int, at + 4)),
{
    proof {
        lemma_be_value_bound(bytes@.subrange(at as int, at + 4));
        lemma_radix_widths();
    }
    read_be(bytes, at, 4) as u32
}

} // verus!
