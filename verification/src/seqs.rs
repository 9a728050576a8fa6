//! Sequence combinators used to state what the list decoders keep.
use vstd::prelude::*;

verus! {

/// `iter().filter_map(f)`: the results of `f` that are present, in order.
pub open spec fn filter_map_seq<A, B>(s: Seq<A>, f: spec_fn(A) -> Option<B>) -> Seq<B>
    decreases s.len(),
{
    if s.len() == 0 {
        Seq::empty()
    } else {
        let rest = filter_map_seq(s.drop_last(), f);
        match f(s.last()) {
            Some(b) => rest.push(b),
            None => rest,
        }
    }
}

/// One more element of the input extends the filtered prefix by what `f`
/// makes of it.
pub proof fn lemma_filter_map_step<A, B>(s: Seq<A>, i: int, f: spec_fn(A) -> Option<B>)
    requires
        0 <= i < s.len(),
    ensures
        filter_map_seq(s.subrange(0, i + 1), f) == (match f(s[i]) {
            Some(b) => filter_map_seq(s.subrange(0, i), f).push(b),
            None => filter_map_seq(s.subrange(0, i), f),
        }),
{
    assert(s.subrange(0, i + 1).drop_last() =~= s.subrange(0, i));
}

/// The whole sequence is its own prefix of full length.
pub proof fn lemma_full_prefix<A>(s: Seq<A>)
    ensures
        s.subrange(0, s.len() as int) == s,
{
    assert(s.subrange(0, s.len() as int) =~= s);
}

/// A filtered sequence is never longer than its input.
pub proof fn lemma_filter_map_len<A, B>(s: Seq<A>, f: spec_fn(A) -> Option<B>)
    ensures
        filter_map_seq(s, f).len() <= s.len(),
    decreases s.len(),
{
    if s.len() > 0 {
        lemma_filter_map_len(s.drop_last(), f);
    }
}

/// Filtering a concatenation filters each part.
pub proof fn lemma_filter_map_concat<A, B>(a: Seq<A>, b: Seq<A>, f: spec_fn(A) -> Option<B>)
    ensures
        filter_map_seq(a + b, f) == filter_map_seq(a, f) + filter_map_seq(b, f),
    decreases b.len(),
{
    if b.len() == 0 {
        assert(a + b =~= a);
        assert(filter_map_seq(a, f) + filter_map_seq(b, f) =~= filter_map_seq(a, f));
    } else {
        lemma_filter_map_concat(a, b.drop_last(), f);
        assert((a + b).drop_last() =~= a + b.drop_last());
        assert((a + b).last() == b.last());
        match f(b.last()) {
            Some(x) => {
                assert(filter_map_seq(a, f) + filter_map_seq(b.drop_last(), f).push(x) =~= (
                filter_map_seq(a, f) + filter_map_seq(b.drop_last(), f)).push(x));
            },
            None => {},
        }
    }
}

/// Filtering a one-element sequence.
pub proof fn lemma_filter_map_single<A, B>(x: A, f: spec_fn(A) -> Option<B>)
    ensures
        filter_map_seq(seq![x], f) == (match f(x) {
            Some(b) => seq![b],
            None => Seq::<B>::empty(),
        }),
{
    assert(seq![x].drop_last() =~= Seq::<A>::empty());
    assert(seq![x].last() == x);
    assert(filter_map_seq(Seq::<A>::empty(), f) =~= Seq::<B>::empty());
    match f(x) {
        Some(b) => {
            assert(Seq::<B>::empty().push(b) =~= seq![b]);
        },
        None => {},
    }
}


/// A filter that keeps every element unchanged leaves the sequence as it is.
pub proof fn lemma_filter_map_keeps_all<A>(s: Seq<A>, f: spec_fn(A) -> Option<A>)
    requires
        forall|i: int| 0 <= i < s.len() ==> f(#[trigger] s[i]) == Some(s[i]),
    ensures
        filter_map_seq(s, f) == s,
    decreases s.len(),
{
    if s.len() > 0 {
        let front = s.drop_last();
        assert forall|i: int| 0 <= i < front.len() implies f(#[trigger] front[i]) == Some(front[i]) by {
            assert(front[i] == s[i]);
        }
        lemma_filter_map_keeps_all(front, f);
        assert(f(s[s.len() - 1]) == Some(s[s.len() - 1]));
        assert(front.push(s.last()) =~= s);
    }
}

/// Every element of a filtered sequence is what `f` made of an element of
/// the input.
pub proof fn lemma_filter_map_member<A, B>(s: Seq<A>, f: spec_fn(A) -> Option<B>, y: B)
    requires
        filter_map_seq(s, f).contains(y),
    ensures
        exists|i: int| 0 <= i < s.len() && f(#[trigger] s[i]) == Some(y),
    decreases s.len(),
{
    let front = s.drop_last();
    let rest = filter_map_seq(front, f);
    let k = choose|k: int| 0 <= k < filter_map_seq(s, f).len() && filter_map_seq(s, f)[k] == y;
    if k < rest.len() {
        assert(filter_map_seq(s, f)[k] == rest[k]);
        assert(rest.contains(y));
        lemma_filter_map_member(front, f, y);
        let i = choose|i: int| 0 <= i < front.len() && f(#[trigger] front[i]) == Some(y);
        assert(s[i] == front[i]);
    } else {
        assert(f(s[s.len() - 1]) == Some(y));
    }
}

} // verus!
