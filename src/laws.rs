use vstd::prelude::*;
use crate::functor::Functorish;

verus! {

/// Mapping a vector with a pure transform `f`, one that returns `g(a)` for
/// each `a`, yields a vector of the same length whose element at each position
/// is `g` of the original element at that position.
pub proof fn lemma_vec_fmap_pointwise<A, B, F: Fn(A) -> B>(
    v: Vec<A>,
    f: F,
    g: spec_fn(A) -> B,
    r: Vec<B>,
)
    requires
        v.maps_to(|a: A, b: B| f.ensures((a,), b), &r),
        forall|a: A, b: B| f.ensures((a,), b) ==> b == g(a),
    ensures
        r.len() == v.len(),
        forall|i: int| 0 <= i < v.len() ==> r[i] == g(#[trigger] v[i]),
        r@ == v@.map_values(g),
{
    assert forall|i: int| 0 <= i < v.len() implies r[i] == g(#[trigger] v[i]) by {
        assert(f.ensures((v[i],), r[i]));
    }
    assert(r@ =~= v@.map_values(g));
}

/// Mapping an absent value, with any transform, yields an absent value.
pub proof fn lemma_option_fmap_none<A, B, F: Fn(A) -> B>(f: F, r: Option<B>)
    requires
        None::<A>.maps_to(|a: A, b: B| f.ensures((a,), b), &r),
    ensures
        r is None,
{
}

/// Mapping a present value holding `e` with a pure transform `f`, one that
/// returns `g(a)` for each `a`, yields a present value holding `g(e)`.
pub proof fn lemma_option_fmap_some<A, B, F: Fn(A) -> B>(
    e: A,
    f: F,
    g: spec_fn(A) -> B,
    r: Option<B>,
)
    requires
        Some(e).maps_to(|a: A, b: B| f.ensures((a,), b), &r),
        forall|a: A, b: B| f.ensures((a,), b) ==> b == g(a),
    ensures
        r == Some(g(e)),
{
}

/// Mapping never changes the length of a vector, whatever the transform.
pub proof fn lemma_vec_fmap_keeps_length<A, B, F: Fn(A) -> B>(v: Vec<A>, f: F, r: Vec<B>)
    requires
        v.maps_to(|a: A, b: B| f.ensures((a,), b), &r),
    ensures
        r.len() == v.len(),
{
}

/// Mapping never changes whether an optional value is present, whatever the
/// transform.
pub proof fn lemma_option_fmap_keeps_presence<A, B, F: Fn(A) -> B>(
    o: Option<A>,
    f: F,
    r: Option<B>,
)
    requires
        o.maps_to(|a: A, b: B| f.ensures((a,), b), &r),
    ensures
        r.is_some() == o.is_some(),
{
}

} // verus!
