//! Deferred-effect computations: Reader, State and Writer, plus a generic
//! flat-map composition over sequence-producing types.
//!
//! Each computation wraps a stored transformation and exposes `bind`, which
//! composes two computations into a new one without running either; running
//! happens only when a concrete context or state is supplied (Writer is the
//! exception: its value and output are resolved at construction). A chain
//! of steps is written as nested `bind` calls: each continuation's parameter
//! names the value its step produced, and the terminal expression is wrapped
//! by the kind's `value` factory.

pub mod monad;
pub mod reader;
pub mod state;
pub mod types;
pub mod writer;
