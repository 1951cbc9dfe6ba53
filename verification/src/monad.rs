//! Generic composition over sequence-producing types: any type that can
//! produce an ordered sequence of items gains a `bind` that maps each item
//! through a function producing another such value and flattens the results
//! in order (flat-map). A false guard contributes an empty sequence, which
//! models filtering.

use vstd::prelude::*;

pub use crate::writer::Append;
pub use crate::writer::Count;

verus! {

/// Relates a sequence of inputs to the possible flat-map results: `out` is
/// the concatenation, in order, of one production for each input, where
/// `rel` relates an input to its possible productions and `itemsf` gives the
/// sequence a production stands for.
pub open spec fn flat_map_rel<A, N, B>(
    s: Seq<A>,
    rel: spec_fn(A, N) -> bool,
    itemsf: spec_fn(N) -> Seq<B>,
    out: Seq<B>,
) -> bool
    decreases s.len(),
{
    if s.len() == 0 {
        out.len() == 0
    } else {
        exists|n: N|
            {
                &&& #[trigger] rel(s.last(), n)
                &&& itemsf(n).len() <= out.len()
                &&& out.skip(out.len() - itemsf(n).len()) == itemsf(n)
                &&& flat_map_rel(s.drop_last(), rel, itemsf, out.take(out.len() - itemsf(n).len()))
            }
    }
}

/// A type capable of producing an ordered sequence of items.
pub trait Monad: Sized {
    type Item;

    /// The sequence of items this value produces.
    spec fn items(self) -> Seq<Self::Item>;

    /// Produces the items, in order.
    fn into_items(self) -> (v: Vec<Self::Item>)
        ensures
            v@ == self.items(),
    ;

}

/// Maps each item that `m` produces through `h` and concatenates, in order,
/// the sequences that the results produce (flat-map): the composition
/// operator of the sequence-producing kind.
pub fn bind<M, N, H>(m: M, h: H) -> (out: Vec<N::Item>) where
    M: Monad,
    N: Monad,
    H: Fn(M::Item) -> N,

    requires
        forall|i: int| 0 <= i < m.items().len() ==> call_requires(h, (#[trigger] m.items()[i],)),
    ensures
        flat_map_rel(
            m.items(),
            (|x: M::Item, n: N| call_ensures(h, (x,), n)),
            (|n: N| n.items()),
            out@,
        ),
{
    let ghost s = m.items();
    let ghost rel = |x: M::Item, n: N| call_ensures(h, (x,), n);
    let ghost itemsf = |n: N| n.items();
    let mut rest = m.into_items();
    let mut out: Vec<N::Item> = Vec::new();
    let ghost mut done: Seq<M::Item> = Seq::empty();
    proof {
        assert(done + rest@ =~= s);
    }
    while rest.len() > 0
        invariant
            done + rest@ == s,
            flat_map_rel(done, rel, itemsf, out@),
            forall|i: int| 0 <= i < s.len() ==> call_requires(h, (#[trigger] s[i],)),
            rel == (|x: M::Item, n: N| call_ensures(h, (x,), n)),
            itemsf == (|n: N| n.items()),
        decreases rest.len(),
    {
        let ghost rest_old = rest@;
        proof {
            assert(s[done.len() as int] == rest_old[0]);
        }
        let x = rest.remove(0);
        let n = h(x);
        let ghost gn = n;
        let ghost ni = n.items();
        let mut produced = n.into_items();
        let ghost out_old = out@;
        out.append(&mut produced);
        proof {
            let s2 = done.push(x);
            assert(s2.drop_last() =~= done);
            assert((out_old + ni).skip(out_old.len() as int) =~= ni);
            assert((out_old + ni).take(out_old.len() as int) =~= out_old);
            assert(rel(s2.last(), gn));
            assert(flat_map_rel(s2, rel, itemsf, out_old + ni));
            done = s2;
            assert(done + rest@ =~= s);
        }
    }
    proof {
        assert(done =~= s);
    }
    out
}

impl<T> Monad for Vec<T> {
    type Item = T;

    open spec fn items(self) -> Seq<T> {
        self@
    }

    fn into_items(self) -> (v: Vec<T>) {
        self
    }
}

impl<T> Monad for Option<T> {
    type Item = T;

    open spec fn items(self) -> Seq<T> {
        match self {
            Some(t) => seq![t],
            None => Seq::empty(),
        }
    }

    fn into_items(self) -> (v: Vec<T>) {
        match self {
            Some(t) => {
                let mut v = Vec::new();
                v.push(t);
                v
            },
            None => Vec::new(),
        }
    }
}

/// Wraps a single value as a one-item producer.
pub fn value<T>(t: T) -> (r: Option<T>)
    ensures
        r == Some(t),
        r.items() == seq![t],
{
    Some(t)
}

/// The mathematical flat-map: the concatenation, in order, of `f` applied to
/// each element of `s`.
pub open spec fn flat_map_sem<A, B>(s: Seq<A>, f: spec_fn(A) -> Seq<B>) -> Seq<B>
    decreases s.len(),
{
    if s.len() == 0 {
        Seq::empty()
    } else {
        flat_map_sem(s.drop_last(), f) + f(s.last())
    }
}

/// When every production that `rel` admits for an input stands for the same
/// sequence `f` of that input, the flat-map relation pins the output down
/// completely: it is the mathematical flat-map of `f`.
pub proof fn lemma_flat_map_rel_functional<A, N, B>(
    s: Seq<A>,
    rel: spec_fn(A, N) -> bool,
    itemsf: spec_fn(N) -> Seq<B>,
    out: Seq<B>,
    f: spec_fn(A) -> Seq<B>,
)
    requires
        flat_map_rel(s, rel, itemsf, out),
        forall|x: A, n: N| #[trigger] rel(x, n) ==> itemsf(n) == f(x),
    ensures
        out == flat_map_sem(s, f),
    decreases s.len(),
{
    if s.len() == 0 {
        assert(out =~= Seq::<B>::empty());
    } else {
        let n = choose|n: N|
            {
                &&& #[trigger] rel(s.last(), n)
                &&& itemsf(n).len() <= out.len()
                &&& out.skip(out.len() - itemsf(n).len()) == itemsf(n)
                &&& flat_map_rel(s.drop_last(), rel, itemsf, out.take(out.len() - itemsf(n).len()))
            };
        let k: int = out.len() - itemsf(n).len();
        lemma_flat_map_rel_functional(s.drop_last(), rel, itemsf, out.take(k), f);
        assert(out =~= out.take(k) + out.skip(k));
    }
}

/// Guarded generic composition: flat-mapping each element `x` to the one
/// element `f(x)` when `p(x)` holds and to nothing otherwise equals,
/// element for element and in order, filtering `s` by `p` and then mapping
/// `f` over what remains.
pub proof fn lemma_guard_filter_map<A, B>(s: Seq<A>, p: spec_fn(A) -> bool, f: spec_fn(A) -> B)
    ensures
        flat_map_sem(s, (|x: A| if p(x) { seq![f(x)] } else { Seq::<B>::empty() })) == s.filter(
            p,
        ).map_values(f),
    decreases s.len(),
{
    reveal(Seq::filter);
    let g = |x: A| if p(x) { seq![f(x)] } else { Seq::<B>::empty() };
    if s.len() == 0 {
        assert(flat_map_sem(s, g) =~= s.filter(p).map_values(f));
    } else {
        lemma_guard_filter_map(s.drop_last(), p, f);
        let rest = s.drop_last().filter(p).map_values(f);
        if p(s.last()) {
            assert(s.filter(p) == s.drop_last().filter(p).push(s.last()));
            assert(s.filter(p).map_values(f) =~= rest + seq![f(s.last())]);
            assert(flat_map_sem(s, g) == rest + g(s.last()));
        } else {
            assert(s.filter(p) == s.drop_last().filter(p));
            assert(flat_map_sem(s, g) =~= rest);
        }
    }
}

} // verus!
