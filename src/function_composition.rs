use std::marker::PhantomData;
use std::ops::Add;
use vstd::prelude::*;

verus! {

/// Something that can be called on an `A` to give a `B`: a closure, the
/// identity, or a composition of such.
pub trait Callable<A, B> {
    /// The inputs on which a call is allowed.
    spec fn accepts(&self, a: A) -> bool;

    /// The outputs that a call on `a` may give.
    spec fn gives(&self, a: A, b: B) -> bool;

    fn call(&self, a: A) -> (b: B)
        requires
            self.accepts(a),
        ensures
            self.gives(a, b),
    ;
}

impl<A, B, F: Fn(A) -> B> Callable<A, B> for F {
    open spec fn accepts(&self, a: A) -> bool {
        call_requires(*self, (a,))
    }

    open spec fn gives(&self, a: A, b: B) -> bool {
        call_ensures(*self, (a,), b)
    }

    fn call(&self, a: A) -> (b: B) {
        self(a)
    }
}

/// The identity: every value is returned unchanged.
#[derive(Debug, Clone, Copy, PartialEq, Eq)]
pub struct Identity;

impl<A> Callable<A, A> for Identity {
    open spec fn accepts(&self, a: A) -> bool {
        true
    }

    open spec fn gives(&self, a: A, b: A) -> bool {
        b == a
    }

    fn call(&self, a: A) -> (b: A) {
        a
    }
}

/// `f` after `g`: a call on `a` gives `f(g(a))`.
#[derive(Debug)]
pub struct Compose<F, G, A, B, C> {
    f: F,
    g: G,
    _phantom: PhantomData<(A, B, C)>,
}

impl<F, G, A, B, C> Compose<F, G, A, B, C> {
    /// The stage applied last.
    pub closed spec fn outer(self) -> F {
        self.f
    }

    /// The stage applied first.
    pub closed spec fn inner(self) -> G {
        self.g
    }

    /// The composition of `f` after `g`.
    pub closed spec fn spec_new(f: F, g: G) -> Self {
        Compose { f, g, _phantom: PhantomData }
    }

    /// A composition is determined by its two stages.
    pub broadcast proof fn lemma_spec_new_stages(f: F, g: G)
        ensures
            #[trigger] Self::spec_new(f, g).outer() == f,
            Self::spec_new(f, g).inner() == g,
    {
    }
}

impl<F, G, A, B, C> Compose<F, G, A, B, C> where F: Callable<B, C>, G: Callable<A, B> {
    pub fn new(f: F, g: G) -> (r: Self)
        ensures
            r == Self::spec_new(f, g),
            r.outer() == f,
            r.inner() == g,
            forall|a: A| #[trigger]
                r.accepts(a) <==> (g.accepts(a) && forall|b: B| #[trigger]
                    g.gives(a, b) ==> f.accepts(b)),
            forall|a: A, c: C| #[trigger]
                r.gives(a, c) <==> exists|b: B| #[trigger] g.gives(a, b) && f.gives(b, c),
    {
        Compose { f, g, _phantom: PhantomData }
    }
}

impl<F, G, A, B, C> Clone for Compose<F, G, A, B, C> where F: Clone, G: Clone {
    fn clone(&self) -> (r: Self) {
        Compose { f: self.f.clone(), g: self.g.clone(), _phantom: PhantomData }
    }
}

impl<F, G, A, B, C> Copy for Compose<F, G, A, B, C> where F: Copy, G: Copy {

}

impl<F, G, A, B, C> Callable<A, C> for Compose<F, G, A, B, C> where
    F: Callable<B, C>,
    G: Callable<A, B>,
 {
    open spec fn accepts(&self, a: A) -> bool {
        &&& self.inner().accepts(a)
        &&& forall|b: B| #[trigger] self.inner().gives(a, b) ==> self.outer().accepts(b)
    }

    open spec fn gives(&self, a: A, c: C) -> bool {
        exists|b: B| #[trigger] self.inner().gives(a, b) && self.outer().gives(b, c)
    }

    fn call(&self, a: A) -> (c: C) {
        let b = self.g.call(a);
        self.f.call(b)
    }
}

/// `fg + h` chains `h` in front of the composition `fg`: the result is `fg`
/// after `h`.
impl<F, G, H, A, B, C> Add<H> for Compose<F, G, B, C, A> {
    type Output = Compose<Compose<F, G, B, C, A>, H, A, B, A>;

    fn add(self, rhs: H) -> (r: Self::Output)
        ensures
            r == Self::Output::spec_new(self, rhs),
    {
        Compose { f: self, g: rhs, _phantom: PhantomData }
    }
}

impl<F, G, H, A, B, C> vstd::std_specs::ops::AddSpecImpl<H> for Compose<F, G, B, C, A> {
    open spec fn obeys_add_spec() -> bool {
        true
    }

    open spec fn add_req(self, rhs: H) -> bool {
        true
    }

    open spec fn add_spec(self, rhs: H) -> Self::Output {
        Compose::spec_new(self, rhs)
    }
}

impl<'a, F, G, A, B, C> Callable<A, C> for &'a Compose<F, G, A, B, C> where
    F: Callable<B, C>,
    G: Callable<A, B>,
 {
    open spec fn accepts(&self, a: A) -> bool {
        (**self).accepts(a)
    }

    open spec fn gives(&self, a: A, c: C) -> bool {
        (**self).gives(a, c)
    }

    fn call(&self, a: A) -> (c: C) {
        (**self).call(a)
    }
}

/// `&fg + h` chains `h` in front of a borrowed composition `fg`.
impl<'a, F, G, H, A, B, C> Add<H> for &'a Compose<F, G, B, C, A> {
    type Output = Compose<&'a Compose<F, G, B, C, A>, H, A, B, A>;

    fn add(self, rhs: H) -> (r: Self::Output)
        ensures
            r == Self::Output::spec_new(self, rhs),
    {
        Compose { f: self, g: rhs, _phantom: PhantomData }
    }
}

impl<'a, F, G, H, A, B, C> vstd::std_specs::ops::AddSpecImpl<H> for &'a Compose<F, G, B, C, A> {
    open spec fn obeys_add_spec() -> bool {
        true
    }

    open spec fn add_req(self, rhs: H) -> bool {
        true
    }

    open spec fn add_spec(self, rhs: H) -> Self::Output {
        Compose::spec_new(self, rhs)
    }
}

/// Wraps `f` as a composition (`f` after the identity), so that further
/// stages can be chained onto it with `+`.
pub fn composable<F, A, B>(f: F) -> (r: Compose<F, Identity, A, A, B>) where F: Fn(A) -> B
    ensures
        r.outer() == f,
        r.inner() == Identity,
        forall|a: A| #[trigger] r.accepts(a) <==> f.requires((a,)),
        forall|a: A, b: B| #[trigger] r.gives(a, b) <==> f.ensures((a,), b),
{
    let r = Compose::new(f, Identity);
    assert forall|a: A| #[trigger] r.accepts(a) <==> f.requires((a,)) by {
        assert(r.inner().gives(a, a));
    }
    assert forall|a: A, b: B| #[trigger] r.gives(a, b) <==> f.ensures((a,), b) by {
        if f.ensures((a,), b) {
            assert(r.inner().gives(a, a));
        }
    }
    r
}

/// The composition law: `fg + h` behaves as `fg` after `h`. It accepts `a`
/// exactly when `h` accepts `a` and `fg` accepts every output of `h` on `a`,
/// and it gives `c` on `a` exactly when `fg` gives `c` on some output of `h`
/// on `a`: for functions `f` and `g`, `(f + g)(x) == f(g(x))`. Here `fg` is
/// a composition, or a reference to one, and `fg + h` is
/// `Compose::spec_new(fg, h)`.
pub proof fn lemma_composition_law<FG, H, A, B>(fg: FG, h: H) where
    FG: Callable<B, A>,
    H: Callable<A, B>,

    ensures
        forall|a: A| #[trigger]
            Compose::<_, _, A, B, A>::spec_new(fg, h).accepts(a) <==> {
                &&& h.accepts(a)
                &&& forall|b: B| #[trigger] h.gives(a, b) ==> fg.accepts(b)
            },
        forall|a: A, c: A| #[trigger]
            Compose::<_, _, A, B, A>::spec_new(fg, h).gives(a, c) <==> exists|b: B| #[trigger]
                h.gives(a, b) && fg.gives(b, c),
{
    broadcast use Compose::lemma_spec_new_stages;

    let r = Compose::<_, _, A, B, A>::spec_new(fg, h);
    assert forall|a: A, c: A| #[trigger] r.gives(a, c) <==> exists|b: B| #[trigger]
        h.gives(a, b) && fg.gives(b, c) by {
        if r.gives(a, c) {
            let b = choose|b: B| #[trigger] r.inner().gives(a, b) && r.outer().gives(b, c);
            assert(h.gives(a, b) && fg.gives(b, c));
        }
        if exists|b: B| #[trigger] h.gives(a, b) && fg.gives(b, c) {
            let b = choose|b: B| #[trigger] h.gives(a, b) && fg.gives(b, c);
            assert(r.inner().gives(a, b) && r.outer().gives(b, c));
        }
    }
}

} // verus!
