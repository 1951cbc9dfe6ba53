//! The primitive function values from which the computation kinds are built,
//! together with the two capabilities they rest on: exact duplication (`Dup`)
//! and an invocable stored transformation (`Transform`).

use vstd::prelude::*;

verus! {

/// A value that can be duplicated exactly.
///
/// Reader hands the same context to every step of a chain, and State's `read`
/// yields the current state while also keeping it, so both need a duplicate
/// that is equal to the original.
pub trait Dup: Sized {
    fn dup(&self) -> (r: Self)
        ensures
            r == *self,
    ;
}

impl Dup for () {
    fn dup(&self) -> (r: Self) {
    }
}

impl Dup for bool {
    fn dup(&self) -> (r: Self) {
        *self
    }
}

impl Dup for i32 {
    fn dup(&self) -> (r: Self) {
        *self
    }
}

impl Dup for i64 {
    fn dup(&self) -> (r: Self) {
        *self
    }
}

impl Dup for u32 {
    fn dup(&self) -> (r: Self) {
        *self
    }
}

impl Dup for u64 {
    fn dup(&self) -> (r: Self) {
        *self
    }
}

impl Dup for usize {
    fn dup(&self) -> (r: Self) {
        *self
    }
}

impl Dup for String {
    fn dup(&self) -> (r: Self) {
        self.clone()
    }
}

impl<A: Dup, B: Dup> Dup for (A, B) {
    fn dup(&self) -> (r: Self) {
        (self.0.dup(), self.1.dup())
    }
}

/// A stored transformation from `A` to `B` that can be invoked.
///
/// `pre` says on which inputs the transformation may be invoked, and `post`
/// relates each input to its possible results; `apply` performs the
/// transformation. A computation owns a value of such a type and runs it when
/// the context or state arrives.
pub trait Transform<A, B>: Sized {
    spec fn pre(self, a: A) -> bool;

    spec fn post(self, a: A, b: B) -> bool;

    fn apply(&self, a: A) -> (b: B)
        requires
            self.pre(a),
        ensures
            self.post(a, b),
    ;
}

/// A transformation is functional when it relates each input to at most one
/// result; invoking it twice on the same input then yields equal results.
pub open spec fn functional<A, B, F: Transform<A, B>>(f: F) -> bool {
    forall|a: A, b1: B, b2: B| f.post(a, b1) && f.post(a, b2) ==> b1 == b2
}

/// Returns its input unchanged.
#[derive(Debug, Clone, Copy)]
pub struct Identity;

impl<T> Transform<T, T> for Identity {
    open spec fn pre(self, a: T) -> bool {
        true
    }

    open spec fn post(self, a: T, b: T) -> bool {
        b == a
    }

    fn apply(&self, a: T) -> (b: T) {
        a
    }
}

/// Ignores its input and returns the captured value.
#[derive(Debug, Clone, Copy)]
pub struct Value<T>(pub T);

impl<A, T: Dup> Transform<A, T> for Value<T> {
    open spec fn pre(self, a: A) -> bool {
        true
    }

    open spec fn post(self, a: A, b: T) -> bool {
        b == self.0
    }

    fn apply(&self, a: A) -> (b: T) {
        self.0.dup()
    }
}

/// Returns its input paired with itself.
#[derive(Debug, Clone, Copy)]
pub struct Duplicate;

impl<T: Dup> Transform<T, (T, T)> for Duplicate {
    open spec fn pre(self, a: T) -> bool {
        true
    }

    open spec fn post(self, a: T, b: (T, T)) -> bool {
        b == (a, a)
    }

    fn apply(&self, a: T) -> (b: (T, T)) {
        let c = a.dup();
        (c, a)
    }
}

/// Returns the captured value paired with the input, captured value first.
#[derive(Debug, Clone, Copy)]
pub struct Append<T>(pub T);

impl<U, T: Dup> Transform<U, (T, U)> for Append<T> {
    open spec fn pre(self, a: U) -> bool {
        true
    }

    open spec fn post(self, a: U, b: (T, U)) -> bool {
        b == (self.0, a)
    }

    fn apply(&self, a: U) -> (b: (T, U)) {
        (self.0.dup(), a)
    }
}

/// Returns the input paired with the captured value, input first.
#[derive(Debug, Clone, Copy)]
pub struct Replace<T>(pub T);

impl<T: Dup> Transform<T, (T, T)> for Replace<T> {
    open spec fn pre(self, a: T) -> bool {
        true
    }

    open spec fn post(self, a: T, b: (T, T)) -> bool {
        b == (a, self.0)
    }

    fn apply(&self, a: T) -> (b: (T, T)) {
        (a, self.0.dup())
    }
}

} // verus!
