use vstd::prelude::*;

verus! {

/// A container of `A`s that can be mapped, element by element, to the same
/// kind of container holding `B`s.
///
/// Each implementation fixes `Functor` to its own container kind over `B`, so
/// mapping a `Vec` gives a `Vec` and mapping an `Option` gives an `Option`.
pub trait Functorish<A, B>: Sized {
    /// The same container kind, holding `B`s.
    type Functor;

    /// `pre` holds of every element that `self` holds.
    spec fn all(&self, pre: spec_fn(A) -> bool) -> bool;

    /// `r` has the shape of `self`, and `rel` holds of each element of `self`
    /// and the element of `r` in the same place.
    spec fn maps_to(&self, rel: spec_fn(A, B) -> bool, r: &Self::Functor) -> bool;

    /// Applies `f` to each element, keeping the shape of the container.
    fn fmap<F: Fn(A) -> B>(self, f: F) -> (r: Self::Functor)
        requires
            self.all(|a: A| f.requires((a,))),
        ensures
            self.maps_to(|a: A, b: B| f.ensures((a,), b), &r),
    ;
}

impl<A, B> Functorish<A, B> for Option<A> {
    type Functor = Option<B>;

    open spec fn all(&self, pre: spec_fn(A) -> bool) -> bool {
        match self {
            Some(a) => pre(*a),
            None => true,
        }
    }

    open spec fn maps_to(&self, rel: spec_fn(A, B) -> bool, r: &Option<B>) -> bool {
        match (self, r) {
            (Some(a), Some(b)) => rel(*a, *b),
            (None, None) => true,
            _ => false,
        }
    }

    fn fmap<F: Fn(A) -> B>(self, f: F) -> (r: Option<B>)
        ensures
            r.is_some() == self.is_some(),
            self.is_some() ==> f.ensures((self.unwrap(),), r.unwrap()),
    {
        match self {
            Some(a) => Some(f(a)),
            None => None,
        }
    }
}

impl<A, B> Functorish<A, B> for Vec<A> {
    type Functor = Vec<B>;

    open spec fn all(&self, pre: spec_fn(A) -> bool) -> bool {
        forall|i: int| 0 <= i < self.len() ==> pre(#[trigger] self[i])
    }

    open spec fn maps_to(&self, rel: spec_fn(A, B) -> bool, r: &Vec<B>) -> bool {
        &&& r.len() == self.len()
        &&& forall|i: int| 0 <= i < self.len() ==> rel(#[trigger] self[i], r[i])
    }

    fn fmap<F: Fn(A) -> B>(self, f: F) -> (r: Vec<B>)
        ensures
            r.len() == self.len(),
            forall|i: int| 0 <= i < self.len() ==> f.ensures((self[i],), #[trigger] r[i]),
    {
        let ghost s = self@;
        let mut r: Vec<B> = Vec::new();
        for a in it: self.into_iter()
            invariant
                it.seq() == s,
                forall|i: int| 0 <= i < s.len() ==> f.requires((#[trigger] s[i],)),
                r.len() == it.index(),
                forall|i: int| 0 <= i < r.len() ==> f.ensures((s[i],), #[trigger] r[i]),
        {
            r.push(f(a));
        }
        r
    }
}

} // verus!
