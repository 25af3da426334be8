//! Proved statements about recorded runs: what a whole construction
//! guarantees follows from the per-invocation contract of the generator
//! that drove it.

use vstd::prelude::*;

use crate::generator::Generator;
use crate::generator::produces;

verus! {

/// Completeness: when the element a generator produces depends on the
/// index alone — every invocation at index `i` yields `f(i)`, whatever
/// state the generator is in — a recorded run starting at index `lo`
/// yields exactly `f(lo)`, `f(lo + 1)`, ... in order.
pub proof fn lemma_completeness<T, G: Generator<T>>(
    g0: G,
    g1: G,
    out: Seq<T>,
    lo: int,
    f: spec_fn(int) -> T,
)
    requires
        produces(g0, g1, out, lo),
        forall|s: G, i: int, next: G, t: T| #[trigger] s.ens(i, next, t) ==> t == f(i),
    ensures
        forall|j: int| 0 <= j < out.len() ==> #[trigger] out[j] == f(lo + j),
    decreases out.len(),
{
    if out.len() > 0 {
        let mid = choose|mid: G|
            #[trigger] g0.ens(lo, mid, out[0]) && produces(mid, g1, out.drop_first(), lo + 1);
        lemma_completeness(mid, g1, out.drop_first(), lo + 1, f);
        assert forall|j: int| 0 <= j < out.len() implies #[trigger] out[j] == f(lo + j) by {
            if j > 0 {
                assert(out.drop_first()[j - 1] == f(lo + 1 + (j - 1)));
            }
        }
    }
}

/// Order-sensitivity, counted: when every invocation advances a measure of
/// the generator's state by exactly one — an incrementing counter — a
/// recorded run of `out.len()` elements advances it by exactly `out.len()`.
/// No invocation is repeated and none is skipped.
pub proof fn lemma_invocation_count<T, G: Generator<T>>(
    g0: G,
    g1: G,
    out: Seq<T>,
    lo: int,
    m: spec_fn(G) -> int,
)
    requires
        produces(g0, g1, out, lo),
        forall|s: G, i: int, next: G, t: T| #[trigger] s.ens(i, next, t) ==> m(next) == m(s) + 1,
    ensures
        m(g1) == m(g0) + out.len(),
    decreases out.len(),
{
    if out.len() > 0 {
        let mid = choose|mid: G|
            #[trigger] g0.ens(lo, mid, out[0]) && produces(mid, g1, out.drop_first(), lo + 1);
        lemma_invocation_count(mid, g1, out.drop_first(), lo + 1, m);
    }
}

/// The state a deterministic generator holds after `k` invocations of a
/// run that started in state `g0` at index `lo`, stepping once per index.
pub open spec fn run_state<G>(step: spec_fn(G, int) -> G, g0: G, lo: int, k: nat) -> G
    decreases k,
{
    if k == 0 {
        g0
    } else {
        run_state(step, step(g0, lo), lo + 1, (k - 1) as nat)
    }
}

/// Order-sensitivity, in full: when each invocation determines the next
/// state and the element — `next == step(s, i)` and `t == emit(s, i)` — a
/// recorded run is determined completely by its starting state. The
/// element at position `j` was emitted from the state reached after `j`
/// earlier invocations, at index `lo + j`: side effects happen in strict
/// index order, with no repeats and no gaps.
pub proof fn lemma_deterministic_run<T, G: Generator<T>>(
    g0: G,
    g1: G,
    out: Seq<T>,
    lo: int,
    step: spec_fn(G, int) -> G,
    emit: spec_fn(G, int) -> T,
)
    requires
        produces(g0, g1, out, lo),
        forall|s: G, i: int, next: G, t: T| #[trigger] s.ens(i, next, t)
            ==> next == step(s, i) && t == emit(s, i),
    ensures
        g1 == run_state(step, g0, lo, out.len()),
        forall|j: int| 0 <= j < out.len()
            ==> #[trigger] out[j] == emit(run_state(step, g0, lo, j as nat), lo + j),
    decreases out.len(),
{
    if out.len() > 0 {
        let mid = choose|mid: G|
            #[trigger] g0.ens(lo, mid, out[0]) && produces(mid, g1, out.drop_first(), lo + 1);
        assert(mid == step(g0, lo));
        lemma_deterministic_run(mid, g1, out.drop_first(), lo + 1, step, emit);
        assert(run_state(step, g0, lo, out.len())
            == run_state(step, step(g0, lo), lo + 1, (out.len() - 1) as nat));
        assert forall|j: int| 0 <= j < out.len()
            implies #[trigger] out[j] == emit(run_state(step, g0, lo, j as nat), lo + j) by {
            if j == 0 {
                assert(run_state(step, g0, lo, 0) == g0);
            } else {
                assert(out.drop_first()[j - 1]
                    == emit(run_state(step, mid, lo + 1, (j - 1) as nat), lo + 1 + (j - 1)));
                assert(run_state(step, g0, lo, j as nat)
                    == run_state(step, step(g0, lo), lo + 1, (j - 1) as nat));
            }
        }
    }
}

/// Elementwise guarantee for a generator whose state never changes: every
/// element of the run satisfies the per-invocation guarantee at its own
/// index, and the generator comes out of the run exactly as it went in.
pub proof fn lemma_elementwise<T, G: Generator<T>>(
    g0: G,
    g1: G,
    out: Seq<T>,
    lo: int,
    p: spec_fn(int, T) -> bool,
)
    requires
        produces(g0, g1, out, lo),
        forall|i: int, next: G, t: T| #[trigger] g0.ens(i, next, t) ==> next == g0 && p(i, t),
    ensures
        g1 == g0,
        forall|j: int| 0 <= j < out.len() ==> p(lo + j, #[trigger] out[j]),
    decreases out.len(),
{
    if out.len() > 0 {
        let mid = choose|mid: G|
            #[trigger] g0.ens(lo, mid, out[0]) && produces(mid, g1, out.drop_first(), lo + 1);
        assert(mid == g0);
        lemma_elementwise(g0, g1, out.drop_first(), lo + 1, p);
        assert forall|j: int| 0 <= j < out.len() implies p(lo + j, #[trigger] out[j]) by {
            if j > 0 {
                assert(p(lo + 1 + (j - 1), out.drop_first()[j - 1]));
            }
        }
    }
}

/// Every element of a recorded run came out of one invocation at its own
/// index: some state of the generator produced it under the generator's
/// contract. This holds of stateful generators too, where the producing
/// state is not the starting one.
pub proof fn lemma_step_witness<T, G: Generator<T>>(g0: G, g1: G, out: Seq<T>, lo: int, j: int)
    requires
        produces(g0, g1, out, lo),
        0 <= j < out.len(),
    ensures
        exists|s: G, next: G| #[trigger] s.ens(lo + j, next, out[j]),
    decreases j,
{
    let mid = choose|mid: G|
        #[trigger] g0.ens(lo, mid, out[0]) && produces(mid, g1, out.drop_first(), lo + 1);
    if j == 0 {
        assert(g0.ens(lo + j, mid, out[j]));
    } else {
        lemma_step_witness(mid, g1, out.drop_first(), lo + 1, j - 1);
        let (s, next) = choose|s: G, next: G|
            #[trigger] s.ens(lo + 1 + (j - 1), next, out.drop_first()[j - 1]);
        assert(out.drop_first()[j - 1] == out[j]);
        assert(s.ens(lo + j, next, out[j]));
    }
}

/// Clone-path equivalence, sharpened: where duplication of `T` is exact —
/// a clone always equals the value it was cloned from — a sequence of
/// clones of `v` is a sequence of elements each equal to `v`.
pub proof fn lemma_exact_clones<T: Clone>(v: T, out: Seq<T>)
    requires
        forall|x: T, y: T| #[trigger] cloned::<T>(x, y) ==> y == x,
        forall|j: int| 0 <= j < out.len() ==> cloned::<T>(v, #[trigger] out[j]),
    ensures
        forall|j: int| 0 <= j < out.len() ==> #[trigger] out[j] == v,
{
}

} // verus!
