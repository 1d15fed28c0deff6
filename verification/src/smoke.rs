//! The startup self-test for heap-backed collections.
//!
//! Before the animation starts, the program builds a small growable
//! sequence on the freshly designated heap arena, appends to it, maps
//! every element to its successor, and sums the result. A mismatch in
//! the map step is a fatal condition; the sum is reported on the debug
//! channel.

use vstd::prelude::*;

verus! {

/// The sum of a byte sequence, as an unbounded integer.
pub open spec fn sum_of(s: Seq<u8>) -> int
    decreases s.len(),
{
    if s.len() == 0 {
        0
    } else {
        sum_of(s.drop_last()) + s.last()
    }
}

/// A prefix never sums to more than the whole: the elements are unsigned.
pub proof fn lemma_sum_of_prefix_bound(s: Seq<u8>, k: int)
    requires
        0 <= k <= s.len(),
    ensures
        sum_of(s.subrange(0, k)) <= sum_of(s),
    decreases s.len() - k,
{
    if k < s.len() {
        lemma_sum_of_prefix_bound(s, k + 1);
        assert(s.subrange(0, k + 1).drop_last() =~= s.subrange(0, k));
        assert(s.subrange(0, k + 1).last() == s[k]);
    } else {
        assert(s.subrange(0, k) =~= s);
    }
}

/// Map every element to its successor. Yields the mapped sequence exactly
/// when no element would overflow a byte, and nothing otherwise.
pub fn map_increment(v: &Vec<u8>) -> (r: Option<Vec<u8>>)
    ensures
        r is Some <==> (forall|i: int| 0 <= i < v@.len() ==> v@[i] < 255),
        r matches Some(m) ==> m@ == v@.map_values(|x: u8| (x + 1) as u8),
{
    let mut out: Vec<u8> = Vec::new();
    let mut i: usize = 0;
    while i < v.len()
        invariant
            i <= v@.len(),
            out@.len() == i,
            forall|j: int| 0 <= j < i ==> v@[j] < 255,
            forall|j: int| 0 <= j < i ==> out@[j] == v@[j] + 1,
        decreases v@.len() - i,
    {
        let x = v[i];
        if x == 255 {
            return None;
        }
        out.push(x + 1);
        i = i + 1;
    }
    proof {
        assert(out@ =~= v@.map_values(|x: u8| (x + 1) as u8));
    }
    Some(out)
}

/// Sum the bytes. Yields the sum exactly when it fits in a byte, and
/// nothing on overflow.
pub fn checked_sum(v: &Vec<u8>) -> (r: Option<u8>)
    ensures
        r is Some <==> sum_of(v@) <= u8::MAX,
        r matches Some(s) ==> s == sum_of(v@),
{
    let mut total: u8 = 0;
    let mut i: usize = 0;
    while i < v.len()
        invariant
            i <= v@.len(),
            total == sum_of(v@.subrange(0, i as int)),
        decreases v@.len() - i,
    {
        let x = v[i];
        proof {
            assert(v@.subrange(0, i + 1).drop_last() =~= v@.subrange(0, i as int));
            assert(v@.subrange(0, i + 1).last() == v@[i as int]);
        }
        if x > 255 - total {
            proof {
                lemma_sum_of_prefix_bound(v@, i + 1);
            }
            return None;
        }
        total = total + x;
        i = i + 1;
    }
    proof {
        assert(v@.subrange(0, v@.len() as int) =~= v@);
    }
    Some(total)
}

/// The defensive check of the map step: whether the mapped sequence is
/// exactly the expected [2, 3, 4, 5]. In a correct build this is always
/// true; the shell treats false as a fatal, non-recoverable condition.
pub fn mapped_as_expected(v: &Vec<u8>) -> (r: bool)
    ensures
        r <==> v@ == seq![2u8, 3u8, 4u8, 5u8],
{
    let ok = v.len() == 4 && v[0] == 2 && v[1] == 3 && v[2] == 4 && v[3] == 5;
    proof {
        if ok {
            assert(v@ =~= seq![2u8, 3u8, 4u8, 5u8]);
        }
    }
    ok
}

/// The whole self-test: build [1, 2, 3], append 4, map every element to
/// its successor, and sum the mapped sequence. The intermediate sequences
/// are exactly [1, 2, 3, 4] and [2, 3, 4, 5], and the sum is exactly 14.
pub fn collection_smoke() -> (s: u8)
    ensures
        s == 14,
{
    let mut a: Vec<u8> = Vec::new();
    a.push(1);
    a.push(2);
    a.push(3);
    a.push(4);
    proof {
        assert(a@ =~= seq![1u8, 2u8, 3u8, 4u8]);
    }
    let mapped = map_increment(&a);
    let b = mapped.unwrap();
    proof {
        assert(b@ =~= seq![2u8, 3u8, 4u8, 5u8]);
        assert(sum_of(seq![2u8, 3u8, 4u8, 5u8]) == 14) by {
            reveal_with_fuel(sum_of, 5);
        }
    }
    let total = checked_sum(&b);
    total.unwrap()
}

} // verus!
