use crate::hkt::{Endomorphic, Morphic};
use vstd::prelude::*;

verus! {

/// The values that an `Option` holds, in order: none or one.
pub open spec fn option_seq<T>(o: Option<T>) -> Seq<T> {
    match o {
        Some(t) => seq![t],
        None => seq![],
    }
}

/// `ys` holds, in order, one output of `f` on each value that `xs` holds.
pub open spec fn maps_each<A, B, F: FnMut(A) -> B>(xs: Seq<A>, f: F, ys: Seq<B>) -> bool {
    &&& ys.len() == xs.len()
    &&& forall|i: int| 0 <= i < xs.len() ==> f.ensures((xs[i],), #[trigger] ys[i])
}

/// A functor: the values held by `Self` are mapped, one by one, into the
/// container `CoFunctor` of `B`s.
///
/// `B` stands for the argument of the target type constructor.
pub trait Functor<B> where Self: Sized {
    type CoFunctor;

    type Param;

    type Constraint: Morphic<Self>;

    /// The values held, in order.
    spec fn contents(&self) -> Seq<Self::Param>;

    /// The values held by a target container, in order.
    spec fn co_contents(c: &Self::CoFunctor) -> Seq<B>;

    /// Maps `f` over the values held: the result holds, for each of them
    /// and in the same order, one output of `f` on it.
    fn fmap<F>(self, f: F) -> (r: Self::CoFunctor) where F: FnMut(Self::Param) -> B
        requires
            forall|i: int|
                0 <= i < self.contents().len() ==> f.requires((#[trigger] self.contents()[i],)),
        ensures
            maps_each(self.contents(), f, Self::co_contents(&r)),
    ;
}

impl<A, B> Functor<B> for Option<A> {
    type CoFunctor = Vec<B>;

    type Param = A;

    type Constraint = Self;

    open spec fn contents(&self) -> Seq<A> {
        option_seq(*self)
    }

    open spec fn co_contents(c: &Vec<B>) -> Seq<B> {
        c@
    }

    fn fmap<F>(self, f: F) -> (r: Vec<B>) where F: FnMut(A) -> B {
        let mut f = f;
        if let Some(a) = self {
            assert(<Option<A> as Functor<B>>::contents(&self)[0] == a);
            let b = f(a);
            let mut v: Vec<B> = Vec::new();
            v.push(b);
            v
        } else {
            Vec::new()
        }
    }
}

/// An endofunctor: like [`Functor`], with a target container that is built
/// by the same type constructor as `Self`.
pub trait Endofunctor<B> where Self: Sized {
    type CoFunctor;

    type Param;

    /// Records that the constructor maps `Self` back to `Self`.
    type Constraint: Endomorphic<Domain = Self, Codomain = Self>;

    /// The values held, in order.
    spec fn held(&self) -> Seq<Self::Param>;

    /// The values held by a target container, in order.
    spec fn co_held(c: &Self::CoFunctor) -> Seq<B>;

    /// Maps `f` over the values held: the result holds, for each of them
    /// and in the same order, one output of `f` on it.
    fn endo_fmap<F>(self, f: F) -> (r: Self::CoFunctor) where F: FnMut(Self::Param) -> B
        requires
            forall|i: int| 0 <= i < self.held().len() ==> f.requires((#[trigger] self.held()[i],)),
        ensures
            maps_each(self.held(), f, Self::co_held(&r)),
    ;
}

impl<A, B> Endofunctor<B> for Option<A> {
    type CoFunctor = Option<B>;

    type Param = A;

    type Constraint = Self;

    open spec fn held(&self) -> Seq<A> {
        option_seq(*self)
    }

    open spec fn co_held(c: &Option<B>) -> Seq<B> {
        option_seq(*c)
    }

    fn endo_fmap<F>(self, f: F) -> (r: Option<B>) where F: FnMut(A) -> B {
        let mut f = f;
        if let Some(a) = self {
            assert(<Option<A> as Endofunctor<B>>::held(&self)[0] == a);
            return Some(f(a));
        }
        None
    }
}

/// The identity law: mapping a function that returns its argument
/// unchanged gives back the `Option` that was mapped.
pub proof fn lemma_endo_fmap_identity<A, F: FnMut(A) -> A>(x: Option<A>, f: F, r: Option<A>)
    requires
        forall|a: A, b: A| f.ensures((a,), b) ==> b == a,
        maps_each(option_seq(x), f, option_seq(r)),
    ensures
        r == x,
{
    if let Some(a) = x {
        assert(option_seq(x)[0] == a);
        assert(f.ensures((a,), option_seq(r)[0]));
    }
}

/// The composition law: mapping `f` and then `g` gives exactly the results of
/// mapping `h`, where `h` is `g` after `f`.
pub proof fn lemma_endo_fmap_composition<A, B, C, F, G, H>(
    x: Option<A>,
    f: F,
    g: G,
    h: H,
    z: Option<C>,
) where F: FnMut(A) -> B, G: FnMut(B) -> C, H: FnMut(A) -> C
    requires
        forall|a: A, c: C| #[trigger]
            h.ensures((a,), c) <==> exists|b: B| f.ensures((a,), b) && g.ensures((b,), c),
    ensures
        maps_each(option_seq(x), h, option_seq(z)) <==> exists|y: Option<B>|
            maps_each(option_seq(x), f, option_seq(y)) && maps_each(
                option_seq(y),
                g,
                option_seq(z),
            ),
{
    match x {
        None => {
            if maps_each(option_seq(x), h, option_seq(z)) {
                assert(maps_each(option_seq(x), f, option_seq(None::<B>)));
                assert(maps_each(option_seq(None::<B>), g, option_seq(z)));
            }
        },
        Some(a) => {
            assert(option_seq(x)[0] == a);
            if maps_each(option_seq(x), h, option_seq(z)) {
                let c = option_seq(z)[0];
                assert(h.ensures((a,), c));
                let b = choose|b: B| f.ensures((a,), b) && g.ensures((b,), c);
                let y = Some(b);
                assert(option_seq(y)[0] == b);
                assert(maps_each(option_seq(x), f, option_seq(y)));
                assert(maps_each(option_seq(y), g, option_seq(z)));
            }
            if exists|y: Option<B>|
                maps_each(option_seq(x), f, option_seq(y)) && maps_each(
                    option_seq(y),
                    g,
                    option_seq(z),
                ) {
                let y = choose|y: Option<B>|
                    maps_each(option_seq(x), f, option_seq(y)) && maps_each(
                        option_seq(y),
                        g,
                        option_seq(z),
                    );
                let b = option_seq(y)[0];
                let c = option_seq(z)[0];
                assert(f.ensures((a,), b) && g.ensures((b,), c));
                assert(h.ensures((a,), c));
            }
        },
    }
}

} // verus!
