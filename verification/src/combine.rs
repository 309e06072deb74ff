//! Packing a sequence of nibbles into a 16-bit word.
use vstd::prelude::*;

verus! {

/// The value `combine` computes for `s`: each step shifts the 16-bit
/// accumulator left by four bits (bits shifted out are lost) and adds the
/// next element.
pub open spec fn combine_spec(s: Seq<u8>) -> int
    decreases s.len(),
{
    if s.len() == 0 {
        0
    } else {
        (combine_spec(s.drop_last()) * 16) % 0x10000 + s.last()
    }
}

/// No addition performed by `combine` on `s` leaves the range of `u16`.
pub open spec fn combine_fits(s: Seq<u8>) -> bool {
    forall|k: int| 0 < k <= s.len() ==> #[trigger] combine_spec(s.take(k)) <= 0xffff
}

/// The number that the hexadecimal digits of `s` spell, most significant first.
pub open spec fn hex_value(s: Seq<u8>) -> int
    decreases s.len(),
{
    if s.len() == 0 {
        0
    } else {
        hex_value(s.drop_last()) * 16 + s.last()
    }
}

/// `16` raised to `n`.
pub open spec fn pow16(n: nat) -> int
    decreases n,
{
    if n == 0 {
        1
    } else {
        16 * pow16((n - 1) as nat)
    }
}

/// Every element of `s` is a hexadecimal digit.
pub open spec fn all_nibbles(s: Seq<u8>) -> bool {
    forall|k: int| 0 <= k < s.len() ==> #[trigger] s[k] < 16
}

/// Packs `arr` into one word, four bits per element, the first element in
/// the most significant position.
pub fn combine(arr: &[u8]) -> (val: u16)
    requires
        combine_fits(arr@),
    ensures
        val == combine_spec(arr@),
{
    let mut val: u16 = 0;
    let mut k: usize = 0;
    assert(arr@.take(0) =~= Seq::<u8>::empty());
    while k < arr.len()
        invariant
            k <= arr.len(),
            combine_fits(arr@),
            val == combine_spec(arr@.take(k as int)),
        decreases arr.len() - k,
    {
        let ghost next = arr@.take(k + 1);
        assert(next.drop_last() =~= arr@.take(k as int));
        assert(next.last() == arr@[k as int]);
        assert(combine_spec(next) <= 0xffff);
        let shifted: u16 = val << 4u16;
        assert(shifted == (val * 16) % 0x10000) by (bit_vector)
            requires
                shifted == val << 4u16,
        ;
        val = shifted + arr[k] as u16;
        k = k + 1;
    }
    assert(arr@.take(arr@.len() as int) =~= arr@);
    val
}

/// Packing at most four hexadecimal digits never overflows, and gives the
/// number those digits spell.
pub proof fn lemma_combine_hex_digits(s: Seq<u8>)
    requires
        s.len() <= 4,
        all_nibbles(s),
    ensures
        combine_fits(s),
        combine_spec(s) == hex_value(s),
        0 <= hex_value(s) < pow16(s.len()),
    decreases s.len(),
{
    if s.len() > 0 {
        let p = s.drop_last();
        assert(all_nibbles(p)) by {
            assert forall|k: int| 0 <= k < p.len() implies #[trigger] p[k] < 16 by {
                assert(p[k] == s[k]);
            }
        }
        lemma_combine_hex_digits(p);
        assert(s[s.len() - 1] < 16);
        assert(pow16(p.len()) <= 4096) by {
            reveal_with_fuel(pow16, 4);
        }
        assert(combine_spec(s) == hex_value(s));
        assert forall|k: int| 0 < k <= s.len() implies #[trigger] combine_spec(s.take(k)) <= 0xffff by {
            if k == s.len() {
                assert(s.take(k) =~= s);
            } else {
                assert(s.take(k) =~= p.take(k));
            }
        }
    } else {
        assert forall|k: int| 0 < k <= s.len() implies #[trigger] combine_spec(s.take(k)) <= 0xffff by {}
    }
}

/// Two elements always pack without overflow, into `16 * a + b`.
pub proof fn lemma_combine_pair(a: u8, b: u8)
    ensures
        combine_fits(seq![a, b]),
        combine_spec(seq![a, b]) == a * 16 + b,
{
    let s = seq![a, b];
    assert(s.take(1) =~= seq![a]);
    assert(s.take(2) =~= s);
    assert(seq![a].drop_last() =~= Seq::<u8>::empty());
    assert(s.drop_last() =~= seq![a]);
    assert(combine_spec(Seq::<u8>::empty()) == 0);
    assert(seq![a].last() == a);
    assert(combine_spec(seq![a]) == a);
    assert forall|k: int| 0 < k <= s.len() implies #[trigger] combine_spec(s.take(k)) <= 0xffff by {
        if k == 1 {
        } else {
        }
    }
}

/// Three elements pack into `((16 * a + b) * 16) mod 65536 + c`, and pack
/// without overflow exactly when that value fits in `u16`.
pub proof fn lemma_combine_triple(a: u8, b: u8, c: u8)
    ensures
        combine_spec(seq![a, b, c]) == ((a * 16 + b) * 16) % 0x10000 + c,
        combine_fits(seq![a, b, c]) <==> ((a * 16 + b) * 16) % 0x10000 + c <= 0xffff,
{
    lemma_combine_pair(a, b);
    let s = seq![a, b, c];
    assert(s.drop_last() =~= seq![a, b]);
    assert(s.take(1) =~= seq![a, b].take(1));
    assert(s.take(2) =~= seq![a, b].take(2));
    assert(s.take(3) =~= s);
    if ((a * 16 + b) * 16) % 0x10000 + c <= 0xffff {
        assert forall|k: int| 0 < k <= s.len() implies #[trigger] combine_spec(s.take(k)) <= 0xffff by {
            if k == 1 {
                assert(combine_spec(seq![a, b].take(1)) <= 0xffff);
            } else if k == 2 {
                assert(combine_spec(seq![a, b].take(2)) <= 0xffff);
            }
        }
    } else {
        assert(combine_spec(s.take(3)) > 0xffff);
    }
}

} // verus!
