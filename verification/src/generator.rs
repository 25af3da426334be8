//! The contract a caller-supplied generator meets, and the run predicate
//! that records how a construction drove it.

use vstd::prelude::*;

verus! {

/// A caller-supplied source of elements, invoked once per index.
///
/// A generator may carry state — a counter, a captured value, anything —
/// and each invocation may change that state. `ens` is the generator's own
/// contract: it relates the state before an invocation, the index handed
/// in, the state after it, and the element produced. Implementations prove
/// `invoke` against their own `ens`; the construction loops in
/// [`crate::construct`] are verified against nothing but this contract.
pub trait Generator<T>: Sized {
    /// What one invocation at index `i` guarantees: how the state `next`
    /// after the call relates to the state before it, and what the
    /// produced element `t` is. The default promises nothing; an
    /// implementation that wants its runs described overrides it.
    open spec fn ens(&self, i: int, next: Self, t: T) -> bool {
        true
    }

    /// Produces the element for index `i`.
    fn invoke(&mut self, i: usize) -> (t: T)
        ensures
            old(self).ens(i as int, *final(self), t),
    ;
}

/// A complete record of a run: starting in state `g0`, the generator was
/// invoked once per index `lo`, `lo + 1`, ..., in ascending order, yielded
/// the elements of `out` in turn, and was left in state `g1`. The chain of
/// intermediate states admits no repeated index and no gap: invocation
/// number `j` of the run happened at index `lo + j` and nowhere else.
pub open spec fn produces<T, G: Generator<T>>(g0: G, g1: G, out: Seq<T>, lo: int) -> bool
    decreases out.len(),
{
    if out.len() == 0 {
        g1 == g0
    } else {
        exists|mid: G|
            #[trigger] g0.ens(lo, mid, out[0]) && produces(mid, g1, out.drop_first(), lo + 1)
    }
}

/// A recorded run extends by one more invocation at the next index.
pub proof fn lemma_produces_push<T, G: Generator<T>>(g0: G, g1: G, g2: G, out: Seq<T>, t: T, lo: int)
    requires
        produces(g0, g1, out, lo),
        g1.ens(lo + out.len(), g2, t),
    ensures
        produces(g0, g2, out.push(t), lo),
    decreases out.len(),
{
    if out.len() == 0 {
        assert(out.push(t)[0] == t);
        assert(out.push(t).drop_first() =~= Seq::<T>::empty());
        assert(g0.ens(lo, g2, out.push(t)[0]));
        assert(produces(g2, g2, out.push(t).drop_first(), lo + 1));
    } else {
        let mid = choose|mid: G|
            #[trigger] g0.ens(lo, mid, out[0]) && produces(mid, g1, out.drop_first(), lo + 1);
        lemma_produces_push(mid, g1, g2, out.drop_first(), t, lo + 1);
        assert(out.push(t)[0] == out[0]);
        assert(out.push(t).drop_first() =~= out.drop_first().push(t));
        assert(g0.ens(lo, mid, out.push(t)[0]));
        assert(produces(mid, g2, out.push(t).drop_first(), lo + 1));
    }
}

} // verus!
