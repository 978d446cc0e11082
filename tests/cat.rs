use std::marker::PhantomData;
use travvy_utils::cat::{AddOne, IdentityFunctor, IdentityMorphism, Morphism};
use travvy_utils::cat::Functor as CategoryFunctor;

#[test]
fn add_one_adds_one() {
    assert_eq!(AddOne.apply(&5), 6);
    assert_eq!(AddOne.apply(&-1), 0);
}

#[test]
fn identity_functor_keeps_morphism() {
    let identity_functor: IdentityFunctor<i32> = IdentityFunctor(PhantomData);
    let mapped_morphism = identity_functor.fmap(AddOne);
    assert_eq!(mapped_morphism.apply(&5), 6);
    assert_eq!(mapped_morphism.apply(&41), 42);
}

#[test]
fn identity_morphism_delegates() {
    let m = IdentityMorphism(AddOne);
    assert_eq!(m.apply(&(i32::MAX - 1)), i32::MAX);
}
