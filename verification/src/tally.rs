//! Counting the elements of a sequence that have a property.
use vstd::prelude::*;

verus! {

/// How many elements of `s` satisfy `p`.
pub open spec fn tally<A>(s: Seq<A>, p: spec_fn(A) -> bool) -> nat
    decreases s.len(),
{
    if s.len() == 0 {
        0
    } else {
        tally(s.drop_last(), p) + one_if(p(s.last()))
    }
}

/// One for `true`, zero for `false`.
pub open spec fn one_if(b: bool) -> nat {
    if b {
        1
    } else {
        0
    }
}

/// Replacing one element changes a tally by that element alone.
pub proof fn lemma_tally_update<A>(s: Seq<A>, i: int, a: A, p: spec_fn(A) -> bool)
    requires
        0 <= i < s.len(),
    ensures
        tally(s.update(i, a), p) + one_if(p(s[i])) == tally(s, p) + one_if(p(a)),
    decreases s.len(),
{
    let t = s.update(i, a);
    if i == s.len() - 1 {
        assert(t.drop_last() =~= s.drop_last());
    } else {
        assert(t.drop_last() =~= s.drop_last().update(i, a));
        lemma_tally_update(s.drop_last(), i, a, p);
    }
}

/// Sequences that agree on a property have the same tally of it.
pub proof fn lemma_tally_same<A>(s: Seq<A>, t: Seq<A>, p: spec_fn(A) -> bool)
    requires
        s.len() == t.len(),
        forall|i: int| 0 <= i < s.len() ==> p(#[trigger] s[i]) == p(t[i]),
    ensures
        tally(s, p) == tally(t, p),
    decreases s.len(),
{
    if s.len() > 0 {
        assert forall|i: int| 0 <= i < s.len() - 1 implies p(#[trigger] s.drop_last()[i]) == p(
            t.drop_last()[i],
        ) by {
            assert(p(s[i]) == p(t[i]));
        }
        assert(p(s[s.len() - 1]) == p(t[s.len() - 1]));
        lemma_tally_same(s.drop_last(), t.drop_last(), p);
    }
}

/// A tally is zero exactly if no element has the property.
pub proof fn lemma_tally_zero<A>(s: Seq<A>, p: spec_fn(A) -> bool)
    ensures
        tally(s, p) == 0 <==> forall|i: int| 0 <= i < s.len() ==> !p(#[trigger] s[i]),
    decreases s.len(),
{
    if s.len() > 0 {
        lemma_tally_zero(s.drop_last(), p);
        assert forall|i: int| 0 <= i < s.len() - 1 implies s.drop_last()[i] == #[trigger] s[i] by {}
        if tally(s, p) == 0 {
            assert forall|i: int| 0 <= i < s.len() implies !p(#[trigger] s[i]) by {
                if i < s.len() - 1 {
                    assert(!p(s.drop_last()[i]));
                }
            }
        } else if p(s.last()) {
            assert(p(s[s.len() - 1]));
        } else {
            let k = choose|k: int| 0 <= k < s.len() - 1 && p(#[trigger] s.drop_last()[k]);
            assert(p(s[k]));
        }
    }
}

/// Where no element of `s` has `p` and its fellow in `t` has `q`, the two tallies
/// together are no more than the length.
pub proof fn lemma_tally_apart<A, B>(
    s: Seq<A>,
    p: spec_fn(A) -> bool,
    t: Seq<B>,
    q: spec_fn(B) -> bool,
)
    requires
        s.len() == t.len(),
        forall|i: int| 0 <= i < s.len() ==> !(p(#[trigger] s[i]) && q(t[i])),
    ensures
        tally(s, p) + tally(t, q) <= s.len(),
    decreases s.len(),
{
    if s.len() > 0 {
        assert forall|i: int| 0 <= i < s.len() - 1 implies !(p(#[trigger] s.drop_last()[i]) && q(
            t.drop_last()[i],
        )) by {
            assert(!(p(s[i]) && q(t[i])));
        }
        assert(!(p(s[s.len() - 1]) && q(t[s.len() - 1])));
        lemma_tally_apart(s.drop_last(), p, t.drop_last(), q);
    }
}

/// Where each element of `s` counts for `p`, and its fellow in `t` for `q`, no more
/// than it counts for `r`, the same holds of the tallies, and those are equal only
/// if each element counts alike.
pub proof fn lemma_tally_within<A, B>(
    s: Seq<A>,
    p: spec_fn(A) -> bool,
    t: Seq<B>,
    q: spec_fn(B) -> bool,
    r: spec_fn(A) -> bool,
)
    requires
        s.len() == t.len(),
        forall|i: int|
            0 <= i < s.len() ==> one_if(p(#[trigger] s[i])) + one_if(q(t[i])) <= one_if(r(s[i])),
    ensures
        tally(s, p) + tally(t, q) <= tally(s, r),
        tally(s, p) + tally(t, q) == tally(s, r) ==> forall|i: int|
            0 <= i < s.len() ==> one_if(p(#[trigger] s[i])) + one_if(q(t[i])) == one_if(r(s[i])),
    decreases s.len(),
{
    if s.len() > 0 {
        let n = s.len() - 1;
        let front = s.drop_last();
        assert forall|i: int| 0 <= i < n implies one_if(p(#[trigger] front[i])) + one_if(
            q(t.drop_last()[i]),
        ) <= one_if(r(front[i])) by {
            assert(one_if(p(s[i])) + one_if(q(t[i])) <= one_if(r(s[i])));
        }
        assert(one_if(p(s[n])) + one_if(q(t[n])) <= one_if(r(s[n])));
        lemma_tally_within(front, p, t.drop_last(), q, r);
        if tally(s, p) + tally(t, q) == tally(s, r) {
            assert forall|i: int| 0 <= i < s.len() implies one_if(p(#[trigger] s[i])) + one_if(
                q(t[i]),
            ) == one_if(r(s[i])) by {
                if i < n {
                    assert(front[i] == s[i]);
                }
            }
        }
    }
}

/// A property and its opposite together are tallied as often as there are
/// elements.
pub proof fn lemma_tally_opposite<A>(s: Seq<A>, p: spec_fn(A) -> bool, q: spec_fn(A) -> bool)
    requires
        forall|i: int| 0 <= i < s.len() ==> p(#[trigger] s[i]) != q(s[i]),
    ensures
        tally(s, p) + tally(s, q) == s.len(),
    decreases s.len(),
{
    if s.len() > 0 {
        assert forall|i: int| 0 <= i < s.len() - 1 implies p(#[trigger] s.drop_last()[i]) != q(
            s.drop_last()[i],
        ) by {
            assert(p(s[i]) != q(s[i]));
        }
        assert(p(s[s.len() - 1]) != q(s[s.len() - 1]));
        lemma_tally_opposite(s.drop_last(), p, q);
    }
}

} // verus!
