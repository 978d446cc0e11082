use vstd::prelude::*;

verus! {

/// A morphism from `Self` to `S`, recorded at the type level.
pub trait Morphic<S> {
    type Domain;

    type Codomain;
}

/// A morphism from a type to itself, recorded at the type level.
pub trait Endomorphic {
    type Domain;

    type Codomain;
}

impl<S, T> Morphic<T> for S {
    type Domain = S;

    type Codomain = T;
}

impl<T> Endomorphic for T {
    type Domain = T;

    type Codomain = T;
}

} // verus!
