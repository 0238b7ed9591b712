//! Selecting from a sequence: the values that a partial function gives for
//! the elements it accepts, in the order of the elements.

use vstd::prelude::*;

verus! {

/// The values `f(x)` for the elements `x` of `s` on which `f` is defined,
/// in order.
pub open spec fn sift<A, B>(s: Seq<A>, f: spec_fn(A) -> Option<B>) -> Seq<B>
    decreases s.len(),
{
    if s.len() == 0 {
        Seq::empty()
    } else {
        match f(s.last()) {
            Some(b) => sift(s.drop_last(), f).push(b),
            None => sift(s.drop_last(), f),
        }
    }
}

/// The first value that `f` gives on `s`, if it gives any.
pub open spec fn first_hit<A, B>(s: Seq<A>, f: spec_fn(A) -> Option<B>) -> Option<B> {
    if sift(s, f).len() > 0 {
        Some(sift(s, f)[0])
    } else {
        None
    }
}

/// Sifting the first `k + 1` elements, from sifting the first `k`.
pub proof fn lemma_sift_step<A, B>(s: Seq<A>, f: spec_fn(A) -> Option<B>, k: int)
    requires
        0 <= k < s.len(),
    ensures
        sift(s.take(k + 1), f) == match f(s[k]) {
            Some(b) => sift(s.take(k), f).push(b),
            None => sift(s.take(k), f),
        },
{
    assert(s.take(k + 1).drop_last() == s.take(k));
}

/// What the first `k` elements give is the beginning of what all give.
pub proof fn lemma_sift_take<A, B>(s: Seq<A>, f: spec_fn(A) -> Option<B>, k: int)
    requires
        0 <= k <= s.len(),
    ensures
        sift(s.take(k), f).is_prefix_of(sift(s, f)),
    decreases s.len() - k,
{
    if k == s.len() {
        assert(s.take(k) == s);
    } else {
        lemma_sift_step(s, f, k);
        lemma_sift_take(s, f, k + 1);
    }
}

/// If the first `k` elements give nothing and the next gives `b`, then `b`
/// is the first value that the sequence gives.
pub proof fn lemma_first_hit_at<A, B>(s: Seq<A>, f: spec_fn(A) -> Option<B>, k: int, b: B)
    requires
        0 <= k < s.len(),
        sift(s.take(k), f).len() == 0,
        f(s[k]) == Some(b),
    ensures
        first_hit(s, f) == Some(b),
{
    lemma_sift_step(s, f, k);
    lemma_sift_take(s, f, k + 1);
    let found = sift(s.take(k + 1), f);
    assert(found.len() == 1 && found[0] == b);
    assert(sift(s, f).subrange(0, 1) == found);
    assert(sift(s, f)[0] == found[0]);
}

/// If the first `k` elements give nothing and neither does the next, the
/// first `k + 1` elements give nothing.
pub proof fn lemma_no_hit_yet<A, B>(s: Seq<A>, f: spec_fn(A) -> Option<B>, k: int)
    requires
        0 <= k < s.len(),
        sift(s.take(k), f).len() == 0,
        f(s[k]) is None,
    ensures
        sift(s.take(k + 1), f).len() == 0,
{
    lemma_sift_step(s, f, k);
}

/// If no element gives anything, there is no first value.
pub proof fn lemma_no_hit<A, B>(s: Seq<A>, f: spec_fn(A) -> Option<B>)
    requires
        sift(s.take(s.len() as int), f).len() == 0,
    ensures
        first_hit(s, f) is None,
{
    assert(s.take(s.len() as int) == s);
}

/// Every value that sifting gives comes from an element of the sequence.
pub proof fn lemma_sift_source<A, B>(s: Seq<A>, f: spec_fn(A) -> Option<B>, i: int)
    requires
        0 <= i < sift(s, f).len(),
    ensures
        exists|k: int| 0 <= k < s.len() && f(#[trigger] s[k]) == Some(sift(s, f)[i]),
    decreases s.len(),
{
    if s.len() > 0 {
        let front = s.drop_last();
        if f(s.last()) is Some && i == sift(front, f).len() {
            assert(f(s[s.len() - 1]) == Some(sift(s, f)[i]));
        } else {
            lemma_sift_source(front, f, i);
            let k = choose|k: int| 0 <= k < front.len() && f(#[trigger] front[k]) == Some(sift(front, f)[i]);
            assert(s[k] == front[k]);
        }
    }
}

} // verus!
