//! What a stable sort promises, stated over an arbitrary strict weak order,
//! and the proof step that inserting one element behind its equals keeps it.

use vstd::prelude::*;

verus! {

/// `p` lists each index below `n` exactly once.
pub open spec fn is_index_perm(p: Seq<int>, n: int) -> bool {
    &&& p.len() == n
    &&& forall|i: int| 0 <= i < n ==> 0 <= #[trigger] p[i] < n
    &&& forall|i: int, j: int| 0 <= i < j < n ==> p[i] != p[j]
}

/// `before` is a strict weak order: irreflexive, transitive, and an element
/// before `b` is before everything that `b` is not after.
pub open spec fn strict_weak_order<T>(before: spec_fn(T, T) -> bool) -> bool {
    &&& forall|a: T| !#[trigger] before(a, a)
    &&& forall|a: T, b: T, c: T|
        #![trigger before(a, b), before(b, c)]
        before(a, b) && before(b, c) ==> before(a, c)
    &&& forall|a: T, b: T, c: T|
        #![trigger before(a, b), before(c, b)]
        before(a, b) && !before(c, b) ==> before(a, c)
}

/// `out` is `inp` rearranged by the index list `p`: in order under `before`,
/// and elements that neither precedes keep their relative order.
pub open spec fn stably_sorted_by<T>(
    out: Seq<T>,
    inp: Seq<T>,
    p: Seq<int>,
    before: spec_fn(T, T) -> bool,
) -> bool {
    &&& out.len() == inp.len()
    &&& is_index_perm(p, inp.len() as int)
    &&& forall|i: int| 0 <= i < out.len() ==> #[trigger] out[i] == inp[p[i]]
    &&& forall|i: int, j: int| 0 <= i < j < out.len() ==> !before(#[trigger] out[j], #[trigger] out[i])
    &&& forall|i: int, j: int|
        0 <= i < j < out.len() && !before(#[trigger] out[i], #[trigger] out[j]) ==> p[i] < p[j]
}

/// `out` is what a stable sort of `inp` under `before` gives.
pub open spec fn is_stable_sort<T>(out: Seq<T>, inp: Seq<T>, before: spec_fn(T, T) -> bool) -> bool {
    exists|p: Seq<int>| stably_sorted_by(out, inp, p, before)
}

/// The empty sequence is the stable sort of the empty sequence.
pub proof fn lemma_stable_empty<T>(before: spec_fn(T, T) -> bool)
    ensures
        stably_sorted_by(Seq::<T>::empty(), Seq::<T>::empty(), Seq::<int>::empty(), before),
{
}

/// Inserting the next input element in front of the first element that it
/// precedes keeps the arrangement a stable sort of the longer input.
pub proof fn lemma_stable_insert<T>(
    out: Seq<T>,
    inp: Seq<T>,
    p: Seq<int>,
    before: spec_fn(T, T) -> bool,
    x: T,
    pos: int,
)
    requires
        strict_weak_order(before),
        stably_sorted_by(out, inp, p, before),
        0 <= pos <= out.len(),
        forall|i: int| 0 <= i < pos ==> !before(x, #[trigger] out[i]),
        pos < out.len() ==> before(x, out[pos]),
    ensures
        stably_sorted_by(out.insert(pos, x), inp.push(x), p.insert(pos, inp.len() as int), before),
{
    let n = inp.len() as int;
    let o2 = out.insert(pos, x);
    let i2 = inp.push(x);
    let p2 = p.insert(pos, n);
    assert forall|m: int| pos <= m < out.len() implies before(x, #[trigger] out[m]) by {
        if m > pos {
            assert(!before(out[m], out[pos]));
            assert(before(x, out[pos]) && !before(out[m], out[pos]) ==> before(x, out[m]));
        }
    }
    assert forall|i: int| 0 <= i < o2.len() implies #[trigger] o2[i] == i2[p2[i]] by {
        if i < pos {
            assert(o2[i] == out[i] && p2[i] == p[i]);
            assert(out[i] == inp[p[i]]);
        } else if i > pos {
            assert(o2[i] == out[i - 1] && p2[i] == p[i - 1]);
            assert(out[i - 1] == inp[p[i - 1]]);
        }
    }
    assert forall|i: int| 0 <= i < n + 1 implies 0 <= #[trigger] p2[i] < n + 1 by {
        if i < pos {
            assert(p2[i] == p[i]);
        } else if i > pos {
            assert(p2[i] == p[i - 1]);
        }
    }
    assert forall|i: int, j: int| 0 <= i < j < n + 1 implies p2[i] != p2[j] by {
        let a = if i < pos { i } else { i - 1 };
        let b = if j < pos { j } else { j - 1 };
        if i != pos && j != pos {
            assert(p2[i] == p[a] && p2[j] == p[b]);
            assert(a < b);
        } else if i == pos {
            assert(p2[j] == p[b]);
            assert(0 <= p[b] < n);
        } else {
            assert(p2[i] == p[a]);
            assert(0 <= p[a] < n);
        }
    }
    assert forall|i: int, j: int| 0 <= i < j < o2.len() implies !before(
        #[trigger] o2[j],
        #[trigger] o2[i],
    ) by {
        let a = if i < pos { i } else { i - 1 };
        let b = if j < pos { j } else { j - 1 };
        if i != pos && j != pos {
            assert(o2[i] == out[a] && o2[j] == out[b]);
            assert(!before(out[b], out[a]));
        } else if i == pos {
            assert(o2[j] == out[b]);
            assert(before(x, out[b]));
            if before(out[b], x) {
                assert(before(x, out[b]) && before(out[b], x) ==> before(x, x));
            }
        } else {
            assert(o2[i] == out[a]);
            assert(!before(x, out[a]));
        }
    }
    assert forall|i: int, j: int|
        0 <= i < j < o2.len() && !before(#[trigger] o2[i], #[trigger] o2[j]) implies p2[i] < p2[j] by {
        let a = if i < pos { i } else { i - 1 };
        let b = if j < pos { j } else { j - 1 };
        if i != pos && j != pos {
            assert(o2[i] == out[a] && o2[j] == out[b]);
            assert(p2[i] == p[a] && p2[j] == p[b]);
            assert(!before(out[a], out[b]));
        } else if i == pos {
            assert(o2[j] == out[b]);
            assert(before(x, out[b]));
        } else {
            assert(p2[i] == p[a]);
            assert(0 <= p[a] < n);
        }
    }
}

} // verus!
