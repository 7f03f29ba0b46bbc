//! The state monad: a computation that takes a state and gives back a value
//! and the next state, and the ways to build such computations from smaller
//! ones.
//!
//! A computation is described by what its function demands and promises.
//! Nothing is said of a function beyond its own contract, so each law below
//! speaks of every result that the contract allows.

use core::marker::PhantomData;
use vstd::pervasive::cloned;
use vstd::prelude::*;

verus! {

/// A computation from a state `S` to a value `A` and the next state.
#[verifier::reject_recursive_types(S)]
#[verifier::reject_recursive_types(A)]
#[verifier::reject_recursive_types(F)]
pub struct State<S, A, F: Fn(S) -> (A, S)> {
    /// Takes the first state to the value and the last state.
    pub run_state: F,
    /// Ties the types of the state and of the value to the computation.
    pub marker: PhantomData<(S, A)>,
}

impl<S, A, F: Fn(S) -> (A, S)> State<S, A, F> {
    /// Whether the computation may be started in `state`.
    pub open spec fn accepts(self, state: S) -> bool {
        call_requires(self.run_state, (state,))
    }

    /// Whether the computation, started in `state`, may end with the value
    /// `out.0` in the state `out.1`.
    pub open spec fn yields(self, state: S, out: (A, S)) -> bool {
        call_ensures(self.run_state, (state,), out)
    }

    /// The computation that `run_state` makes.
    pub fn new(run_state: F) -> (r: Self)
        ensures
            r.run_state == run_state,
    {
        State { run_state, marker: PhantomData }
    }

    /// Runs the computation from `state`; gives the value and the last state.
    pub fn run(self, state: S) -> (r: (A, S))
        requires
            self.accepts(state),
        ensures
            self.yields(state, r),
    {
        (self.run_state)(state)
    }

    /// Runs the computation from `state`; gives the value alone.
    pub fn eval(self, state: S) -> (a: A)
        requires
            self.accepts(state),
        ensures
            exists|last: S| self.yields(state, (a, last)),
    {
        let r = (self.run_state)(state);
        assert(self.yields(state, (r.0, r.1)));
        r.0
    }

    /// Whether the chain of this computation and `f` may be started in
    /// `state`: this computation may, and whatever value and state it gives,
    /// `f` takes the value and what `f` returns may be started in that state.
    pub open spec fn chain_accepts<B, G: Fn(A) -> State<S, B, H>, H: Fn(S) -> (B, S)>(
        self,
        f: G,
        state: S,
    ) -> bool {
        &&& self.accepts(state)
        &&& forall|a: A, mid: S| #[trigger]
            self.yields(state, (a, mid)) ==> {
                &&& call_requires(f, (a,))
                &&& forall|next: State<S, B, H>| #[trigger]
                    call_ensures(f, (a,), next) ==> next.accepts(mid)
            }
    }

    /// Whether the chain of this computation and `f`, started in `state`, may
    /// end with `out`: this computation gives some value and state, `f`
    /// turns the value into a computation, and that one, started in the
    /// state, ends with `out`.
    pub open spec fn chain_yields<B, G: Fn(A) -> State<S, B, H>, H: Fn(S) -> (B, S)>(
        self,
        f: G,
        state: S,
        out: (B, S),
    ) -> bool {
        exists|a: A, mid: S, next: State<S, B, H>|
            {
                &&& #[trigger] self.yields(state, (a, mid))
                &&& #[trigger] call_ensures(f, (a,), next)
                &&& #[trigger] next.yields(mid, out)
            }
    }

    /// Chains this computation with `f`: the result runs this computation,
    /// hands its value to `f`, and runs what `f` returns from the state that
    /// this computation left.
    #[allow(non_snake_case)]
    pub fn flatMap<B, G: Fn(A) -> State<S, B, H>, H: Fn(S) -> (B, S)>(self, f: G) -> (r: State<
        S,
        B,
        impl Fn(S) -> (B, S),
    >)
        ensures
            forall|state: S| self.chain_accepts(f, state) ==> #[trigger] r.accepts(state),
            forall|state: S, out: (B, S)| #[trigger]
                r.yields(state, out) ==> self.chain_yields(f, state, out),
    {
        let me = Ghost(self);
        let chained = Ghost(f);
        let first = self.run_state;
        let run_state = move |state: S| -> (out: (B, S))
            requires
                me@.chain_accepts(chained@, state),
            ensures
                me@.chain_yields(chained@, state, out),
            {
                let (a, mid) = first(state);
                assert(me@.yields(state, (a, mid)));
                let next = f(a);
                let ghost chosen = next;
                let out = (next.run_state)(mid);
                assert(chosen.yields(mid, out));
                out
            };
        State { run_state, marker: PhantomData }
    }
}

/// The computation that gives a copy of `v` and leaves the state alone.
pub fn pure<S, A: Clone>(v: A) -> (r: State<S, A, impl Fn(S) -> (A, S)>)
    ensures
        forall|state: S| #[trigger] r.accepts(state),
        forall|state: S, out: (A, S)| #[trigger]
            r.yields(state, out) ==> cloned(v, out.0) && out.1 == state,
{
    let given = Ghost(v);
    let run_state = move |state: S| -> (out: (A, S))
        ensures
            cloned(given@, out.0),
            out.1 == state,
        { (v.clone(), state) };
    State { run_state, marker: PhantomData }
}

/// The computation that gives a copy of the state as its value and leaves
/// the state alone.
pub fn get<S: Clone>() -> (r: State<S, S, impl Fn(S) -> (S, S)>)
    ensures
        forall|state: S| #[trigger] r.accepts(state),
        forall|state: S, out: (S, S)| #[trigger]
            r.yields(state, out) ==> cloned(state, out.0) && out.1 == state,
{
    let run_state = |state: S| -> (out: (S, S))
        ensures
            cloned(state, out.0),
            out.1 == state,
        { (state.clone(), state) };
    State { run_state, marker: PhantomData }
}

/// The computation that drops the state it is given and leaves a copy of
/// `state` in its place.
pub fn put<S: Clone>(state: S) -> (r: State<S, (), impl Fn(S) -> ((), S)>)
    ensures
        forall|before: S| #[trigger] r.accepts(before),
        forall|before: S, out: ((), S)| #[trigger]
            r.yields(before, out) ==> cloned(state, out.1),
{
    let given = Ghost(state);
    let run_state = move |before: S| -> (out: ((), S))
        ensures
            cloned(given@, out.1),
        { ((), state.clone()) };
    State { run_state, marker: PhantomData }
}

/// Whether `f`, given any copy of `state`, may turn it into a state of which
/// `last` is a copy.
pub open spec fn modified<S: Clone, G: Fn(S) -> S>(f: G, state: S, last: S) -> bool {
    exists|seen: S, made: S|
        {
            &&& #[trigger] cloned(state, seen)
            &&& #[trigger] call_ensures(f, (seen,), made)
            &&& #[trigger] cloned(made, last)
        }
}

/// The computation that puts `f` of the state in the state's place. It does
/// what `get` chained with `put` of `f`'s result does: `f` is given a copy
/// of the state, and a copy of what it returns becomes the state.
pub fn modify<S: Clone, G: Fn(S) -> S>(f: G) -> (r: State<S, (), impl Fn(S) -> ((), S)>)
    ensures
        forall|state: S|
            (forall|seen: S| #[trigger] cloned(state, seen) ==> call_requires(f, (seen,)))
                ==> #[trigger] r.accepts(state),
        forall|state: S, out: ((), S)| #[trigger]
            r.yields(state, out) ==> modified(f, state, out.1),
{
    let change = Ghost(f);
    let run_state = move |state: S| -> (out: ((), S))
        requires
            forall|seen: S| #[trigger] cloned(state, seen) ==> call_requires(change@, (seen,)),
        ensures
            modified(change@, state, out.1),
        {
            let seen = state.clone();
            assert(cloned(state, seen));
            let made = f(seen);
            let last = made.clone();
            assert(cloned(state, seen) && call_ensures(change@, (seen,), made) && cloned(
                made,
                last,
            ));
            ((), last)
        };
    State { run_state, marker: PhantomData }
}

} // verus!
