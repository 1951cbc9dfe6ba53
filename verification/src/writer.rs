//! Writer: a computation whose value is paired with accumulated output. The
//! output type forms a monoid: it has an identity element and an associative
//! combine, and every `bind` merges the two sides' output.

use vstd::prelude::*;

use crate::types::Dup;

verus! {

/// The monoid capability used by Writer: an identity element and an
/// associative combine. The mathematical content lives on the view
/// (`View::V`) of the carrier: `empty_m` and `append_m` are total there, and
/// the laws are proof obligations on every implementation. The executable
/// `append` may be partial (`append_ok` says when it is defined), but where
/// it is defined it must agree with `append_m`.
pub trait Append: View + Sized {
    /// The identity element, on the view.
    spec fn empty_m() -> Self::V;

    /// The associative combine, on the view.
    spec fn append_m(a: Self::V, b: Self::V) -> Self::V;

    /// When the executable combine is defined on these operands.
    spec fn append_ok(self, other: Self) -> bool;

    /// Produces the identity element.
    fn empty() -> (r: Self)
        ensures
            r@ == Self::empty_m(),
    ;

    /// Combines `other` into `self`.
    fn append(&mut self, other: Self)
        requires
            old(self).append_ok(other),
        ensures
            final(self)@ == Self::append_m(old(self)@, other@),
    ;

    /// Combining is associative.
    proof fn lemma_append_assoc(a: Self::V, b: Self::V, c: Self::V)
        ensures
            Self::append_m(Self::append_m(a, b), c) == Self::append_m(a, Self::append_m(b, c)),
    ;

    /// The identity element is neutral on the left.
    proof fn lemma_empty_left(a: Self::V)
        ensures
            Self::append_m(Self::empty_m(), a) == a,
    ;

    /// The identity element is neutral on the right.
    proof fn lemma_empty_right(a: Self::V)
        ensures
            Self::append_m(a, Self::empty_m()) == a,
    ;
}

impl Append for String {
    open spec fn empty_m() -> Seq<char> {
        Seq::empty()
    }

    open spec fn append_m(a: Seq<char>, b: Seq<char>) -> Seq<char> {
        a + b
    }

    open spec fn append_ok(self, other: Self) -> bool {
        true
    }

    fn empty() -> (r: Self) {
        String::new()
    }

    fn append(&mut self, other: Self) {
        vstd::string::StringExecFns::append(self, other.as_str());
    }

    proof fn lemma_append_assoc(a: Seq<char>, b: Seq<char>, c: Seq<char>) {
        assert((a + b) + c =~= a + (b + c));
    }

    proof fn lemma_empty_left(a: Seq<char>) {
        assert(Seq::<char>::empty() + a =~= a);
    }

    proof fn lemma_empty_right(a: Seq<char>) {
        assert(a + Seq::<char>::empty() =~= a);
    }
}

impl<T> Append for Vec<T> {
    open spec fn empty_m() -> Seq<T> {
        Seq::empty()
    }

    open spec fn append_m(a: Seq<T>, b: Seq<T>) -> Seq<T> {
        a + b
    }

    open spec fn append_ok(self, other: Self) -> bool {
        true
    }

    fn empty() -> (r: Self) {
        Vec::new()
    }

    fn append(&mut self, mut other: Self) {
        Vec::append(self, &mut other);
    }

    proof fn lemma_append_assoc(a: Seq<T>, b: Seq<T>, c: Seq<T>) {
        assert((a + b) + c =~= a + (b + c));
    }

    proof fn lemma_empty_left(a: Seq<T>) {
        assert(Seq::<T>::empty() + a =~= a);
    }

    proof fn lemma_empty_right(a: Seq<T>) {
        assert(a + Seq::<T>::empty() =~= a);
    }
}

/// A numeric counter used as a Writer accumulator: combining two counters
/// adds them.
#[derive(Default, Debug, Clone, Copy, PartialEq, Eq, PartialOrd, Ord, Hash)]
pub struct Count<T>(pub T);

impl View for Count<i64> {
    type V = int;

    open spec fn view(&self) -> int {
        self.0 as int
    }
}

impl Append for Count<i64> {
    open spec fn empty_m() -> int {
        0
    }

    open spec fn append_m(a: int, b: int) -> int {
        a + b
    }

    open spec fn append_ok(self, other: Self) -> bool {
        i64::MIN <= self.0 + other.0 <= i64::MAX
    }

    fn empty() -> (r: Self) {
        Count(0)
    }

    fn append(&mut self, other: Self) {
        self.0 = self.0 + other.0;
    }

    proof fn lemma_append_assoc(a: int, b: int, c: int) {
    }

    proof fn lemma_empty_left(a: int) {
    }

    proof fn lemma_empty_right(a: int) {
    }
}

/// A value of type `T` already paired with accumulated output `W`. Unlike
/// Reader and State there is no external input to defer on, so the pair is
/// resolved at construction.
#[derive(Debug, Clone, Copy, PartialEq, Eq, PartialOrd, Ord, Hash)]
pub struct Writer<T, W>(pub T, pub W);

impl<T, W> Writer<T, W> {
    /// Composes this computation with a continuation: feed the value to `h`,
    /// keep the value of the computation it returns, and combine the two
    /// accumulated outputs in order.
    pub fn bind<U, H>(self, h: H) -> (r: Writer<U, W>) where
        W: Append,
        H: FnOnce(T) -> Writer<U, W>,

        requires
            call_requires(h, (self.0,)),
            forall|c: Writer<U, W>| call_ensures(h, (self.0,), c) ==> self.1.append_ok(c.1),
        ensures
            exists|c: Writer<U, W>|
                call_ensures(h, (self.0,), c) && r.0 == c.0 && r.1@ == W::append_m(
                    self.1@,
                    c.1@,
                ),
    {
        let Writer(t, mut w) = self;
        let Writer(u, w2) = h(t);
        w.append(w2);
        Writer(u, w)
    }

    /// Exposes the output accumulated so far alongside the value, without
    /// changing the accumulator the rest of the chain sees.
    pub fn listen(self) -> (r: Writer<(T, W), W>) where W: Dup
        ensures
            r.0.0 == self.0,
            r.0.1 == self.1,
            r.1 == self.1,
    {
        let Writer(t, w) = self;
        let w2 = w.dup();
        Writer((t, w2), w)
    }

    /// Applies `f` to a copy of the accumulated output and pairs the result
    /// with the value; the true accumulator is left untouched.
    pub fn listens<U, F>(self, f: F) -> (r: Writer<(T, U), W>) where
        W: Dup,
        F: FnOnce(W) -> U,

        requires
            call_requires(f, (self.1,)),
        ensures
            r.0.0 == self.0,
            call_ensures(f, (self.1,), r.0.1),
            r.1 == self.1,
    {
        let Writer(t, w) = self;
        let w2 = w.dup();
        let u = f(w2);
        Writer((t, u), w)
    }

    /// Replaces the accumulated output with `f` applied to it, leaving the
    /// value alone.
    pub fn censor<F>(self, f: F) -> (r: Writer<T, W>) where F: FnOnce(W) -> W
        requires
            call_requires(f, (self.1,)),
        ensures
            r.0 == self.0,
            call_ensures(f, (self.1,), r.1),
    {
        let Writer(t, w) = self;
        Writer(t, f(w))
    }
}

impl<T, W, G: FnOnce(W) -> W> Writer<(T, G), W> {
    /// For a computation whose value is a pair of a result and a rewrite of
    /// the accumulator: applies the rewrite to the accumulated output and
    /// keeps only the result as the value.
    pub fn pass(self) -> (r: Writer<T, W>)
        requires
            call_requires(self.0.1, (self.1,)),
        ensures
            r.0 == self.0.0,
            call_ensures(self.0.1, (self.1,), r.1),
    {
        let Writer((t, g), w) = self;
        Writer(t, g(w))
    }
}

/// Pairs the given value with the monoid's identity element.
pub fn value<T, W: Append>(x: T) -> (r: Writer<T, W>)
    ensures
        r.0 == x,
        r.1@ == W::empty_m(),
{
    Writer(x, W::empty())
}

/// Pairs the unit value with the given output.
pub fn write<W>(w: W) -> (r: Writer<(), W>)
    ensures
        r == Writer((), w),
{
    Writer((), w)
}

/// Writer/counter duality: a chain that starts from the identity count,
/// writes a count of `x`, then writes a count of `x + 2`, and returns
/// `x + (x + 2)` accumulates a count exactly equal to the value it returns,
/// whatever the integer `x`.
pub proof fn lemma_writer_counter_duality(x: int, v: int, acc: int)
    requires
        v == x + (x + 2),
        acc == Count::<i64>::append_m(
            Count::<i64>::append_m(Count::<i64>::empty_m(), x),
            x + 2,
        ),
    ensures
        acc == v,
{
}

} // verus!
