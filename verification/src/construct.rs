//! Construction entry points: the generation loop that drives a builder
//! guard through exactly one generator invocation per index.

use vstd::prelude::*;

use crate::builder::Builder;
use crate::generator::Generator;
use crate::generator::lemma_produces_push;
use crate::generator::produces;
use crate::laws::lemma_elementwise;
use crate::laws::lemma_step_witness;

verus! {

/// Builds the sequence of length `n` by invoking the generator once per
/// index, in ascending order `0, 1, ..., n - 1`.
///
/// The result records a complete run: the returned elements are exactly
/// what the generator yielded, one per index, and the generator's final
/// state is the one the run left it in. With `n == 0` the generator is
/// never invoked at all and comes back untouched.
pub fn build<T, G: Generator<T>>(n: usize, g: &mut G) -> (r: Vec<T>)
    ensures
        r@.len() == n,
        produces(*old(g), *final(g), r@, 0),
        n == 0 ==> *final(g) == *old(g),
{
    let ghost g0: G = *g;
    let mut guard: Builder<T> = Builder::acquire(n);
    let mut i: usize = 0;
    while i < n
        invariant
            i <= n,
            guard.wf(),
            guard.capacity() == n,
            guard@.len() == i,
            produces(g0, *g, guard@, 0),
        decreases n - i,
    {
        let ghost gprev: G = *g;
        let t = g.invoke(i);
        proof {
            lemma_produces_push(g0, gprev, *g, guard@, t, 0);
        }
        guard.write_next(t);
        i = i + 1;
    }
    guard.into_result()
}

/// The generator behind the fallible path completed a whole run: it was
/// invoked once per index `0 .. r.len()`, in ascending order, and returned
/// the elements of `r` as its successes.
pub open spec fn run_yields<T, E, G: Generator<Result<T, E>>>(g0: G, g1: G, r: Seq<T>) -> bool {
    exists|vals: Seq<Result<T, E>>|
        #[trigger] produces(g0, g1, vals, 0)
            && vals.len() == r.len()
            && (forall|j: int| 0 <= j < r.len() ==> vals[j] == Ok::<T, E>(r[j]))
}

/// The generator behind the fallible path succeeded at every index below
/// `k`, aborted at index `k` with `e`, and was never invoked past `k`.
pub open spec fn run_aborts<T, E, G: Generator<Result<T, E>>>(g0: G, g1: G, k: int, e: E) -> bool {
    exists|vals: Seq<Result<T, E>>|
        #[trigger] produces(g0, g1, vals, 0)
            && vals.len() == k + 1
            && (forall|j: int| 0 <= j < k ==> vals[j] is Ok)
            && vals[k] == Err::<T, E>(e)
}

/// The fallible path aborted somewhere below `n`: there is an index `k`
/// with `0 <= k < n` at which the run ended with the abort value `e`.
pub open spec fn run_aborts_within<T, E, G: Generator<Result<T, E>>>(
    g0: G,
    g1: G,
    n: int,
    e: E,
) -> bool {
    exists|k: int| 0 <= k < n && #[trigger] run_aborts::<T, E, G>(g0, g1, k, e)
}

/// Builds a sequence of length `n` from a generator whose invocations can
/// abort.
///
/// Success at every index yields the full sequence. An abort at some index
/// `k` ends the run at once: the generator is not invoked for any further
/// index, no element beyond the written prefix `0 .. k` ever exists, that
/// prefix is torn down with the builder guard — each element released
/// exactly once — and the abort value comes back to the caller unchanged.
#[verifier::loop_isolation(false)]
pub fn try_build<T, E, G: Generator<Result<T, E>>>(n: usize, g: &mut G) -> (res: Result<
    Vec<T>,
    E,
>)
    ensures
        res matches Ok(r) ==> r@.len() == n && run_yields::<T, E, G>(*old(g), *final(g), r@),
        res matches Err(e) ==> run_aborts_within::<T, E, G>(*old(g), *final(g), n as int, e),
        n == 0 ==> res is Ok && *final(g) == *old(g),
{
    let ghost g0: G = *g;
    let mut guard: Builder<T> = Builder::acquire(n);
    let ghost mut vals: Seq<Result<T, E>> = Seq::empty();
    let mut i: usize = 0;
    while i < n
        invariant
            i <= n,
            guard.wf(),
            guard.capacity() == n,
            guard@.len() == i,
            vals.len() == i,
            produces(g0, *g, vals, 0),
            forall|j: int| 0 <= j < i ==> vals[j] == Ok::<T, E>(guard@[j]),
        decreases n - i,
    {
        let ghost gprev: G = *g;
        let out = g.invoke(i);
        let ghost step_val: Result<T, E> = out;
        proof {
            lemma_produces_push(g0, gprev, *g, vals, step_val, 0);
            vals = vals.push(step_val);
        }
        match out {
            Ok(t) => {
                guard.write_next(t);
                i = i + 1;
            },
            Err(e) => {
                proof {
                    assert(run_aborts::<T, E, G>(*old(g), *final(g), i as int, e));
                    assert(run_aborts_within::<T, E, G>(*old(g), *final(g), n as int, e));
                }
                return Err(e);
            },
        }
    }
    let r = guard.into_result();
    proof {
        assert(run_yields::<T, E, G>(g0, *g, r@));
    }
    Ok(r)
}

/// Success is owed: a generator that cannot abort — no invocation of it,
/// in any state and at any index, yields an error — admits no aborted
/// run at all. For such a generator [`try_build`] can only return the
/// full sequence.
pub proof fn lemma_unfailing_run_never_aborts<T, E, G: Generator<Result<T, E>>>(
    g0: G,
    g1: G,
    n: int,
    e: E,
)
    requires
        forall|s: G, i: int, next: G, t: Result<T, E>| #[trigger] s.ens(i, next, t) ==> t is Ok,
    ensures
        !run_aborts_within::<T, E, G>(g0, g1, n, e),
{
    if run_aborts_within::<T, E, G>(g0, g1, n, e) {
        let k = choose|k: int| 0 <= k < n && #[trigger] run_aborts::<T, E, G>(g0, g1, k, e);
        let vals = choose|vals: Seq<Result<T, E>>|
            #[trigger] produces(g0, g1, vals, 0) && vals.len() == k + 1 && (forall|j: int|
                0 <= j < k ==> vals[j] is Ok) && vals[k] == Err::<T, E>(e);
        lemma_step_witness(g0, g1, vals, 0, k);
        assert(vals[k] is Ok);
    }
}

/// The duplicating generator behind [`build_cloned`]: every invocation
/// clones the one borrowed value, whatever the index, and leaves the
/// generator itself unchanged.
pub struct CloneFill<'a, T: Clone> {
    /// The value every produced element is a clone of.
    pub value: &'a T,
}

impl<'a, T: Clone> Generator<T> for CloneFill<'a, T> {
    open spec fn ens(&self, i: int, next: Self, t: T) -> bool {
        next == *self && cloned::<T>(*self.value, t)
    }

    fn invoke(&mut self, _i: usize) -> (t: T) {
        self.value.clone()
    }
}

/// Builds a sequence of `n` elements, each a clone of the one value `v`.
///
/// This is the clone path: `v` is handed in already evaluated, once, and
/// is only ever borrowed — it stays valid with the caller, and all `n`
/// elements are clones of it, the last slot included. The path reuses the
/// generation loop with [`CloneFill`] as the generator, so the result is
/// also a recorded run of that generator.
pub fn build_cloned<T: Clone>(n: usize, v: &T) -> (r: Vec<T>)
    ensures
        r@.len() == n,
        forall|j: int| 0 <= j < n ==> cloned::<T>(*v, #[trigger] r@[j]),
        produces((CloneFill { value: v }), (CloneFill { value: v }), r@, 0),
{
    let mut gen = CloneFill { value: v };
    let r = build(n, &mut gen);
    proof {
        lemma_elementwise(
            CloneFill { value: v },
            gen,
            r@,
            0,
            (|i: int, t: T| cloned::<T>(*v, t)),
        );
    }
    r
}

} // verus!
