use std::marker::PhantomData;
use vstd::prelude::*;

verus! {

/// An object of a category.
pub trait Object {

}

impl Object for i32 {

}

/// A morphism from the object `A` to the object `B`.
pub trait Morphism<A: Object, B: Object> {
    /// The inputs that the morphism is defined on.
    spec fn accepts(&self, a: A) -> bool;

    /// The outputs that the morphism may give on `a`.
    spec fn relates(&self, a: A, b: B) -> bool;

    fn apply(&self, a: &A) -> (b: B)
        requires
            self.accepts(*a),
        ensures
            self.relates(*a, b),
    ;
}

/// The image of the morphism `M` under the identity functor: it behaves
/// exactly as `M`.
pub struct IdentityMorphism<M>(pub M);

impl<A: Object, B: Object, M: Morphism<A, B>> Morphism<A, B> for IdentityMorphism<M> {
    open spec fn accepts(&self, a: A) -> bool {
        self.0.accepts(a)
    }

    open spec fn relates(&self, a: A, b: B) -> bool {
        self.0.relates(a, b)
    }

    fn apply(&self, a: &A) -> (b: B) {
        self.0.apply(a)
    }
}

/// A functor from the category `C1` to the category `C2`: it carries a
/// morphism `M` from `A` to `B` to a morphism `FMap` from `A` to `B`.
pub trait Functor<C1, C2, A: Object, B: Object, M: Morphism<A, B>> {
    type FMap: Morphism<A, B>;

    fn fmap(&self, f: M) -> (r: Self::FMap);
}

/// A functor from the category `C` to itself.
pub trait Endofunctor<C, A: Object, M: Morphism<A, A>>: Functor<C, C, A, A, M> {

}

/// The identity functor on the category `C`: it carries each morphism to
/// itself.
pub struct IdentityFunctor<C>(pub PhantomData<C>);

impl<C, A: Object, B: Object, M: Morphism<A, B>> Functor<C, C, A, B, M> for IdentityFunctor<C> {
    type FMap = IdentityMorphism<M>;

    fn fmap(&self, f: M) -> (r: IdentityMorphism<M>)
        ensures
            r.0 == f,
            forall|a: A| #[trigger] r.accepts(a) <==> f.accepts(a),
            forall|a: A, b: B| #[trigger] r.relates(a, b) <==> f.relates(a, b),
    {
        IdentityMorphism(f)
    }
}

impl<C, A: Object, M: Morphism<A, A>> Endofunctor<C, A, M> for IdentityFunctor<C> {

}

/// Adds one to an integer.
pub struct AddOne;

impl Morphism<i32, i32> for AddOne {
    open spec fn accepts(&self, a: i32) -> bool {
        a < i32::MAX
    }

    open spec fn relates(&self, a: i32, b: i32) -> bool {
        b == a + 1
    }

    fn apply(&self, a: &i32) -> (b: i32) {
        *a + 1
    }
}

} // verus!
