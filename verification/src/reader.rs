//! Reader: a computation whose value becomes available once a read-only
//! context is supplied. Every step of a bound chain observes the same,
//! unchanged context.

use vstd::prelude::*;

use crate::types::{functional, Dup, Identity, Transform, Value};

verus! {

use core::marker::PhantomData;

/// A value of type `T`, obtainable once a context `R` is supplied.
/// `F` is the stored transformation that produces the value.
pub struct Reader<T, R, F>(pub F, pub PhantomData<(T, R)>);

impl<T, R, F: Transform<R, T>> Reader<T, R, F> {
    /// The inputs on which this computation may be run.
    #[verifier::inline]
    pub open spec fn pre(self, r: R) -> bool {
        self.0.pre(r)
    }

    /// Relates a context to the values this computation may produce from it.
    #[verifier::inline]
    pub open spec fn post(self, r: R, t: T) -> bool {
        self.0.post(r, t)
    }

    /// Runs the computation on a concrete context.
    pub fn call(&self, r: R) -> (t: T)
        requires
            self.pre(r),
        ensures
            self.post(r, t),
    {
        self.0.apply(r)
    }

    /// Composes this computation with a continuation: run `self` on the
    /// context, feed the produced value to `h`, and run the computation it
    /// returns on the very same context. Nothing is executed here; the
    /// result is a new deferred computation.
    pub fn bind<U, G, H>(self, h: H) -> (b: Reader<U, R, Bind<T, R, F, U, G, H>>) where
        R: Dup,
        G: Transform<R, U>,
        H: Fn(T) -> Reader<U, R, G>,

        ensures
            b.0.0 == self.0,
            b.0.1 == h,
            forall|r: R, u: U|
                #[trigger] b.post(r, u) <==> exists|t: T, c: Reader<U, R, G>|
                    self.post(r, t) && call_ensures(h, (t,), c) && c.post(r, u),
            forall|r: R|
                #[trigger] b.pre(r) <==> self.pre(r) && (forall|t: T|
                    #[trigger] self.post(r, t) ==> call_requires(h, (t,))) && (forall|
                    t: T,
                    c: Reader<U, R, G>,
                |
                    #![trigger self.post(r, t), call_ensures(h, (t,), c)]
                    self.post(r, t) && call_ensures(h, (t,), c) ==> c.pre(r)),
    {
        Reader(Bind(self.0, h, PhantomData), PhantomData)
    }
}

impl<T, R, F: Clone> Clone for Reader<T, R, F> {
    fn clone(&self) -> (r: Self) {
        Reader(self.0.clone(), PhantomData)
    }
}

impl<T, R, F: Copy> Copy for Reader<T, R, F> {

}

/// The stored transformation of a composed Reader: the first computation's
/// transformation together with the continuation.
pub struct Bind<T, R, F, U, G, H>(pub F, pub H, pub PhantomData<(T, R, U, G)>);

impl<T, R, F: Clone, U, G, H: Clone> Clone for Bind<T, R, F, U, G, H> {
    fn clone(&self) -> (r: Self) {
        Bind(self.0.clone(), self.1.clone(), PhantomData)
    }
}

impl<T, R, F: Copy, U, G, H: Copy> Copy for Bind<T, R, F, U, G, H> {

}

impl<T, R, F, U, G, H> Transform<R, U> for Bind<T, R, F, U, G, H> where
    R: Dup,
    F: Transform<R, T>,
    G: Transform<R, U>,
    H: Fn(T) -> Reader<U, R, G>,
 {
    open spec fn pre(self, r: R) -> bool {
        &&& self.0.pre(r)
        &&& forall|t: T| #[trigger] self.0.post(r, t) ==> call_requires(self.1, (t,))
        &&& forall|t: T, c: Reader<U, R, G>|
            #![trigger self.0.post(r, t), call_ensures(self.1, (t,), c)]
            self.0.post(r, t) && call_ensures(self.1, (t,), c) ==> c.pre(r)
    }

    open spec fn post(self, r: R, u: U) -> bool {
        exists|t: T, c: Reader<U, R, G>|
            self.0.post(r, t) && call_ensures(self.1, (t,), c) && c.post(r, u)
    }

    fn apply(&self, r: R) -> (u: U) {
        let r2 = r.dup();
        let t = self.0.apply(r2);
        let c = (self.1)(t);
        c.call(r)
    }
}

/// Yields the context itself, unchanged.
pub fn read<R>() -> (m: Reader<R, R, Identity>)
    ensures
        m.0 == Identity,
        forall|r: R, t: R| #[trigger] m.post(r, t) <==> t == r,
{
    Reader(Identity, PhantomData)
}

/// Yields the given value, whatever the context.
pub fn value<T: Dup, R>(x: T) -> (m: Reader<T, R, Value<T>>)
    ensures
        m.0 == Value(x),
        forall|r: R, t: T| #[trigger] m.post(r, t) <==> t == x,
{
    Reader(Value(x), PhantomData)
}

/// Reader identity: `read` relates every context to the context itself and
/// to nothing else, so running it returns the context unchanged.
pub proof fn lemma_reader_identity<R>(m: Reader<R, R, Identity>, r: R, t: R)
    ensures
        m.post(r, t) <==> t == r,
{
}

/// Reader left identity: binding `value(x)` into a continuation `h` behaves,
/// on every context, exactly as the computation `h(x)` does: it relates a
/// context `r` to a result `u` precisely when some computation that `h` may
/// return for `x` relates `r` to `u`.
pub proof fn lemma_reader_left_identity<T, R, U, G, H>(
    m: Reader<U, R, Bind<T, R, Value<T>, U, G, H>>,
    x: T,
    r: R,
    u: U,
) where R: Dup, T: Dup, G: Transform<R, U>, H: Fn(T) -> Reader<U, R, G>
    requires
        m.0.0 == Value(x),
    ensures
        m.post(r, u) <==> exists|c: Reader<U, R, G>| #[trigger] call_ensures(m.0.1, (x,), c)
            && c.post(r, u),
{
    if m.post(r, u) {
        let (t, c) = choose|t: T, c: Reader<U, R, G>|
            m.0.0.post(r, t) && call_ensures(m.0.1, (t,), c) && c.post(r, u);
        assert(call_ensures(m.0.1, (x,), c) && c.post(r, u));
    }
    if exists|c: Reader<U, R, G>| #[trigger] call_ensures(m.0.1, (x,), c) && c.post(r, u) {
        let c = choose|c: Reader<U, R, G>| call_ensures(m.0.1, (x,), c) && c.post(r, u);
        assert(m.0.0.post(r, x) && call_ensures(m.0.1, (x,), c) && c.post(r, u));
    }
}

/// Reader associativity: the left-nested composition `bind(bind(m, f), g)`
/// relates a context to a final result precisely when chaining the three
/// stages in order on that same context does — which is what the
/// right-nested form `bind(m, |t| bind(f(t), g))` unfolds to.
pub proof fn lemma_reader_associativity<T, R, U, V, F, G1, G2, H1, H2>(
    m: Reader<V, R, Bind<U, R, Bind<T, R, F, U, G1, H1>, V, G2, H2>>,
    r: R,
    v: V,
) where
    R: Dup,
    F: Transform<R, T>,
    G1: Transform<R, U>,
    G2: Transform<R, V>,
    H1: Fn(T) -> Reader<U, R, G1>,
    H2: Fn(U) -> Reader<V, R, G2>,

    ensures
        m.post(r, v) <==> exists|t: T, c1: Reader<U, R, G1>|
            #[trigger] m.0.0.0.post(r, t) && #[trigger] call_ensures(m.0.0.1, (t,), c1) && (
            exists|u: U, c2: Reader<V, R, G2>|
                c1.post(r, u) && #[trigger] call_ensures(m.0.1, (u,), c2) && c2.post(r, v)),
{
    if m.post(r, v) {
        let (u, c2) = choose|u: U, c2: Reader<V, R, G2>|
            m.0.0.post(r, u) && call_ensures(m.0.1, (u,), c2) && c2.post(r, v);
        let (t, c1) = choose|t: T, c1: Reader<U, R, G1>|
            m.0.0.0.post(r, t) && call_ensures(m.0.0.1, (t,), c1) && c1.post(r, u);
        assert(c1.post(r, u) && call_ensures(m.0.1, (u,), c2) && c2.post(r, v));
    }
    if exists|t: T, c1: Reader<U, R, G1>|
        #[trigger] m.0.0.0.post(r, t) && #[trigger] call_ensures(m.0.0.1, (t,), c1) && (
        exists|u: U, c2: Reader<V, R, G2>|
            c1.post(r, u) && #[trigger] call_ensures(m.0.1, (u,), c2) && c2.post(r, v)) {
        let (t, c1) = choose|t: T, c1: Reader<U, R, G1>|
            m.0.0.0.post(r, t) && call_ensures(m.0.0.1, (t,), c1) && (exists|u: U, c2: Reader<
                V,
                R,
                G2,
            >| c1.post(r, u) && #[trigger] call_ensures(m.0.1, (u,), c2) && c2.post(r, v));
        let (u, c2) = choose|u: U, c2: Reader<V, R, G2>|
            c1.post(r, u) && call_ensures(m.0.1, (u,), c2) && c2.post(r, v);
        assert(m.0.0.post(r, u) && call_ensures(m.0.1, (u,), c2) && c2.post(r, v));
    }
}

/// A composed Reader relates each context to at most one result when its
/// first stage does and its continuation is deterministic; `bind` therefore
/// preserves the property that makes re-invocation pure.
pub proof fn lemma_reader_bind_functional<T, R, U, F, G, H>(b: Bind<T, R, F, U, G, H>) where
    R: Dup,
    F: Transform<R, T>,
    G: Transform<R, U>,
    H: Fn(T) -> Reader<U, R, G>,

    requires
        functional(b.0),
        forall|t: T, c1: Reader<U, R, G>, c2: Reader<U, R, G>|
            call_ensures(b.1, (t,), c1) && call_ensures(b.1, (t,), c2) ==> c1 == c2,
        forall|t: T, c: Reader<U, R, G>| #[trigger] call_ensures(b.1, (t,), c) ==> functional(c.0),
    ensures
        functional(b),
{
    assert forall|r: R, u1: U, u2: U| b.post(r, u1) && b.post(r, u2) implies u1 == u2 by {
        let (t1, c1) = choose|t: T, c: Reader<U, R, G>|
            b.0.post(r, t) && call_ensures(b.1, (t,), c) && c.post(r, u1);
        let (t2, c2) = choose|t: T, c: Reader<U, R, G>|
            b.0.post(r, t) && call_ensures(b.1, (t,), c) && c.post(r, u2);
        assert(t1 == t2);
        assert(c1 == c2);
    }
}

/// Re-invocation purity: a Reader whose stored transformation relates each
/// context to at most one result yields equal results when run twice on the
/// same context.
pub proof fn lemma_reader_reinvocation<T, R, F>(m: Reader<T, R, F>, r: R, t1: T, t2: T) where
    F: Transform<R, T>,

    requires
        functional(m.0),
        m.post(r, t1),
        m.post(r, t2),
    ensures
        t1 == t2,
{
}

} // verus!
