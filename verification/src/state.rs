//! State: a computation that threads a state value strictly left to right
//! through a chain, yielding a value and a possibly replaced state at each
//! step.

use vstd::prelude::*;

use crate::types::{functional, Append, Dup, Duplicate, Replace, Transform, Value};

verus! {

use core::marker::PhantomData;

/// A value of type `T` together with a next state, obtainable once a state
/// `S` is supplied. `F` is the stored transformation that produces the pair.
pub struct State<T, S, F>(pub F, pub PhantomData<(T, S)>);

impl<T, S, F: Transform<S, (T, S)>> State<T, S, F> {
    /// The states on which this computation may be run.
    #[verifier::inline]
    pub open spec fn pre(self, s: S) -> bool {
        self.0.pre(s)
    }

    /// Relates an incoming state to the value/next-state pairs this
    /// computation may produce from it.
    #[verifier::inline]
    pub open spec fn post(self, s: S, out: (T, S)) -> bool {
        self.0.post(s, out)
    }

    /// Runs the computation on a concrete state, returning the produced
    /// value and the state that follows it.
    pub fn call(&self, s: S) -> (out: (T, S))
        requires
            self.pre(s),
        ensures
            self.post(s, out),
    {
        self.0.apply(s)
    }

    /// Composes this computation with a continuation: run `self` on the
    /// incoming state to get a value and an intermediate state, feed the
    /// value to `h`, and run the computation it returns on that intermediate
    /// state. No step ever observes a state produced after it.
    pub fn bind<U, G, H>(self, h: H) -> (b: State<U, S, Bind<T, S, F, U, G, H>>) where
        G: Transform<S, (U, S)>,
        H: Fn(T) -> State<U, S, G>,

        ensures
            b.0.0 == self.0,
            b.0.1 == h,
            forall|s: S, out: (U, S)|
                #[trigger] b.post(s, out) <==> exists|t: T, s1: S, c: State<U, S, G>|
                    self.post(s, (t, s1)) && call_ensures(h, (t,), c) && c.post(s1, out),
            forall|s: S|
                #[trigger] b.pre(s) <==> self.pre(s) && (forall|t: T, s1: S|
                    #[trigger] self.post(s, (t, s1)) ==> call_requires(h, (t,))) && (forall|
                    t: T,
                    s1: S,
                    c: State<U, S, G>,
                |
                    #![trigger self.post(s, (t, s1)), call_ensures(h, (t,), c)]
                    self.post(s, (t, s1)) && call_ensures(h, (t,), c) ==> c.pre(s1)),
    {
        State(Bind(self.0, h, PhantomData), PhantomData)
    }
}

impl<T, S, F: Clone> Clone for State<T, S, F> {
    fn clone(&self) -> (r: Self) {
        State(self.0.clone(), PhantomData)
    }
}

impl<T, S, F: Copy> Copy for State<T, S, F> {

}

/// The stored transformation of a composed State computation: the first
/// computation's transformation together with the continuation.
pub struct Bind<T, S, F, U, G, H>(pub F, pub H, pub PhantomData<(T, S, U, G)>);

impl<T, S, F: Clone, U, G, H: Clone> Clone for Bind<T, S, F, U, G, H> {
    fn clone(&self) -> (r: Self) {
        Bind(self.0.clone(), self.1.clone(), PhantomData)
    }
}

impl<T, S, F: Copy, U, G, H: Copy> Copy for Bind<T, S, F, U, G, H> {

}

impl<T, S, F, U, G, H> Transform<S, (U, S)> for Bind<T, S, F, U, G, H> where
    F: Transform<S, (T, S)>,
    G: Transform<S, (U, S)>,
    H: Fn(T) -> State<U, S, G>,
 {
    open spec fn pre(self, s: S) -> bool {
        &&& self.0.pre(s)
        &&& forall|t: T, s1: S| #[trigger] self.0.post(s, (t, s1)) ==> call_requires(
            self.1,
            (t,),
        )
        &&& forall|t: T, s1: S, c: State<U, S, G>|
            #![trigger self.0.post(s, (t, s1)), call_ensures(self.1, (t,), c)]
            self.0.post(s, (t, s1)) && call_ensures(self.1, (t,), c) ==> c.pre(s1)
    }

    open spec fn post(self, s: S, out: (U, S)) -> bool {
        exists|t: T, s1: S, c: State<U, S, G>|
            self.0.post(s, (t, s1)) && call_ensures(self.1, (t,), c) && c.post(s1, out)
    }

    fn apply(&self, s: S) -> (out: (U, S)) {
        let (t, s1) = self.0.apply(s);
        let c = (self.1)(t);
        c.call(s1)
    }
}

/// Yields the given value and leaves the state untouched.
pub fn value<T: Dup, S>(x: T) -> (m: State<T, S, Append<T>>)
    ensures
        m.0 == Append(x),
        forall|s: S, out: (T, S)| #[trigger] m.post(s, out) <==> out == (x, s),
{
    State(Append(x), PhantomData)
}

/// Yields the current state as the value and leaves the state untouched.
pub fn read<S: Dup>() -> (m: State<S, S, Duplicate>)
    ensures
        m.0 == Duplicate,
        forall|s: S, out: (S, S)| #[trigger] m.post(s, out) <==> out == (s, s),
{
    State(Duplicate, PhantomData)
}

/// Discards the incoming state, yields the unit value and installs `s2` as
/// the state that the rest of the chain sees.
pub fn write<S: Dup>(s2: S) -> (m: State<(), S, Value<((), S)>>)
    ensures
        m.0 == Value(((), s2)),
        forall|s: S, out: ((), S)| #[trigger] m.post(s, out) <==> out == (((), s2)),
{
    State(Value(((), s2)), PhantomData)
}

/// Yields the old state as the value and installs `s2` in its place.
pub fn replace<S: Dup>(s2: S) -> (m: State<S, S, Replace<S>>)
    ensures
        m.0 == Replace(s2),
        forall|s: S, out: (S, S)| #[trigger] m.post(s, out) <==> out == (s, s2),
{
    State(Replace(s2), PhantomData)
}

/// State threading: binding `write(s2)` into a continuation that reads
/// yields, from any initial state, the pair `(s2, s2)` — the read observes
/// exactly the state the write installed.
pub proof fn lemma_state_threading<S, H>(
    m: State<S, S, Bind<(), S, Value<((), S)>, S, Duplicate, H>>,
    s2: S,
    s: S,
    out: (S, S),
) where S: Dup, H: Fn(()) -> State<S, S, Duplicate>
    requires
        m.0.0 == Value(((), s2)),
        m.post(s, out),
    ensures
        out == (s2, s2),
{
    let (t, s1, c) = choose|t: (), s1: S, c: State<S, S, Duplicate>|
        m.0.0.post(s, (t, s1)) && call_ensures(m.0.1, (t,), c) && c.post(s1, out);
    assert(((t, s1)) == (((), s2)));
    assert(out == (s1, s1));
}

/// A composed State computation relates each incoming state to at most one
/// value/next-state pair when its first stage does and its continuation is
/// deterministic; `bind` therefore preserves the property that makes
/// re-invocation pure.
pub proof fn lemma_state_bind_functional<T, S, U, F, G, H>(b: Bind<T, S, F, U, G, H>) where
    F: Transform<S, (T, S)>,
    G: Transform<S, (U, S)>,
    H: Fn(T) -> State<U, S, G>,

    requires
        functional(b.0),
        forall|t: T, c1: State<U, S, G>, c2: State<U, S, G>|
            call_ensures(b.1, (t,), c1) && call_ensures(b.1, (t,), c2) ==> c1 == c2,
        forall|t: T, c: State<U, S, G>| #[trigger] call_ensures(b.1, (t,), c) ==> functional(c.0),
    ensures
        functional(b),
{
    assert forall|s: S, o1: (U, S), o2: (U, S)| b.post(s, o1) && b.post(s, o2) implies o1 == o2 by {
        let (t1, s1, c1) = choose|t: T, s1: S, c: State<U, S, G>|
            b.0.post(s, (t, s1)) && call_ensures(b.1, (t,), c) && c.post(s1, o1);
        let (t2, s22, c2) = choose|t: T, s1: S, c: State<U, S, G>|
            b.0.post(s, (t, s1)) && call_ensures(b.1, (t,), c) && c.post(s1, o2);
        assert(((t1, s1)) == ((t2, s22)));
        assert(c1 == c2);
    }
}

/// Re-invocation purity: a State computation whose stored transformation
/// relates each incoming state to at most one value/next-state pair yields
/// equal pairs when run twice on the same initial state.
pub proof fn lemma_state_reinvocation<T, S, F>(m: State<T, S, F>, s: S, o1: (T, S), o2: (T, S)) where
    F: Transform<S, (T, S)>,

    requires
        functional(m.0),
        m.post(s, o1),
        m.post(s, o2),
    ensures
        o1 == o2,
{
}

} // verus!
