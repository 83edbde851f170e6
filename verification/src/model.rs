//! Views of sequences of values: the element-wise mathematical value of a
//! vector's contents.

use vstd::prelude::*;

verus! {

/// The views of the elements of `s`, in order.
pub open spec fn views<T: View>(s: Seq<T>) -> Seq<T::V> {
    s.map_values(|x: T| x@)
}

pub proof fn lemma_views_push<T: View>(s: Seq<T>, x: T)
    ensures
        views(s.push(x)) == views(s).push(x@),
{
    assert(views(s.push(x)) =~= views(s).push(x@));
}

pub proof fn lemma_views_take<T: View>(s: Seq<T>, n: int)
    requires
        0 <= n <= s.len(),
    ensures
        views(s.take(n)) == views(s).take(n),
{
    assert(views(s.take(n)) =~= views(s).take(n));
}

/// The position of the first occurrence of `x` in `s`, or the length of `s`
/// where there is none.
pub open spec fn first_index_of<T>(s: Seq<T>, x: T) -> int
    decreases s.len(),
{
    if s.len() == 0 {
        0
    } else if s[0] == x {
        0
    } else {
        1 + first_index_of(s.drop_first(), x)
    }
}

/// `first_index_of` is the least position that holds `x`, and the length
/// exactly where `x` does not occur.
pub proof fn lemma_first_index_of<T>(s: Seq<T>, x: T)
    ensures
        0 <= first_index_of(s, x) <= s.len(),
        forall|j: int| 0 <= j < first_index_of(s, x) ==> s[j] != x,
        first_index_of(s, x) < s.len() ==> s[first_index_of(s, x)] == x,
        s.contains(x) <==> first_index_of(s, x) < s.len(),
    decreases s.len(),
{
    if s.len() == 0 {
    } else if s[0] == x {
        assert(s.contains(x));
    } else {
        let t = s.drop_first();
        lemma_first_index_of(t, x);
        let k = first_index_of(t, x);
        assert forall|j: int| 0 <= j < 1 + k implies s[j] != x by {
            if j > 0 {
                assert(t[j - 1] == s[j]);
            }
        }
        if k < t.len() {
            assert(t[k] == s[k + 1]);
            assert(s.contains(x));
        }
        if s.contains(x) {
            let i = choose|i: int| 0 <= i < s.len() && s[i] == x;
            assert(t[i - 1] == x);
            assert(t.contains(x));
        }
    }
}

/// What a filter keeps of a sequence with one more element.
pub proof fn lemma_filter_push<T>(s: Seq<T>, x: T, keep: spec_fn(T) -> bool)
    ensures
        s.push(x).filter(keep) == if keep(x) {
            s.filter(keep).push(x)
        } else {
            s.filter(keep)
        },
{
    reveal(Seq::filter);
    assert(s.push(x).drop_last() =~= s);
}

} // verus!
