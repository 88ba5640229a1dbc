//! The outcome of an intercepted call, and the rules by which outcomes chain.
//!
//! A handler is a sequence of steps, each of which may succeed, step aside or
//! fail. [`Detour`] is the only channel through which a handler reports: the
//! combinators below run the next step on a success and hand anything else on
//! untouched, so the first bypass or error ends the handler and reaches the
//! hook as it was raised.

use crate::bypass::Bypass;
use crate::error::HookError;
use core::convert::Infallible;
use core::ops::ControlFlow;
use vstd::prelude::*;
use vstd::std_specs::convert::FromSpec;

verus! {

/// The outcome of an intercepted call.
///
/// Coming from a `Result`, `Ok` is a `Success` and `Err` an `Error`; coming
/// from an `Option`, `Some` is a `Success` and `None` a `Bypass`.
#[must_use]
#[derive(Debug)]
pub enum Detour<S = ()> {
    /// The hook handled the call, and this is its result.
    Success(S),
    /// The hook steps aside: the native operation is to run in its place.
    Bypass(Bypass),
    /// The call failed for good.
    Error(HookError),
}

/// Whatever the executable function `op` returns on an argument is what the
/// mathematical function `f` gives there.
pub open spec fn computes<A, R, F: FnOnce(A) -> R>(op: F, f: spec_fn(A) -> R) -> bool {
    forall|a: A, r: R| #[trigger] op.ensures((a,), r) ==> r == f(a)
}

impl<S> Detour<S> {
    /// `and_then` over mathematical functions: `op` decides after a success,
    /// anything else stays as it is.
    pub open spec fn and_then_spec<U>(self, op: spec_fn(S) -> Detour<U>) -> Detour<U> {
        match self {
            Detour::Success(s) => op(s),
            Detour::Bypass(b) => Detour::Bypass(b),
            Detour::Error(e) => Detour::Error(e),
        }
    }

    /// `map` over mathematical functions: `op` changes the value of a
    /// success, anything else stays as it is.
    pub open spec fn map_spec<U>(self, op: spec_fn(S) -> U) -> Detour<U> {
        match self {
            Detour::Success(s) => Detour::Success(op(s)),
            Detour::Bypass(b) => Detour::Bypass(b),
            Detour::Error(e) => Detour::Error(e),
        }
    }

    /// `or_else` over mathematical functions: `op` decides after an error,
    /// anything else stays as it is.
    pub open spec fn or_else_spec(self, op: spec_fn(HookError) -> Detour<S>) -> Detour<S> {
        match self {
            Detour::Success(s) => Detour::Success(s),
            Detour::Bypass(b) => Detour::Bypass(b),
            Detour::Error(e) => op(e),
        }
    }

    /// `or_bypass` over mathematical functions: `op` decides after a bypass,
    /// anything else stays as it is.
    pub open spec fn or_bypass_spec(self, op: spec_fn(Bypass) -> Detour<S>) -> Detour<S> {
        match self {
            Detour::Success(s) => Detour::Success(s),
            Detour::Bypass(b) => op(b),
            Detour::Error(e) => Detour::Error(e),
        }
    }

    /// Wraps the value that a handler ran through to.
    pub fn from_output(output: S) -> (detour: Detour<S>)
        ensures
            detour == Detour::Success(output),
    {
        Detour::Success(output)
    }

    /// Splits an outcome into the value to go on with, or what to return at
    /// once.
    ///
    /// This is the early return of a handler written without combinators:
    /// on `Continue` the next step runs on the value, on `Break` the handler
    /// returns [`Detour::from_residual`] of what it was given.
    pub fn branch(self) -> (flow: ControlFlow<Detour<Infallible>, S>)
        ensures
            flow == match self {
                Detour::Success(s) => ControlFlow::<Detour<Infallible>, S>::Continue(s),
                Detour::Bypass(b) => ControlFlow::Break(Detour::Bypass(b)),
                Detour::Error(e) => ControlFlow::Break(Detour::Error(e)),
            },
    {
        match self {
            Detour::Success(s) => ControlFlow::Continue(s),
            Detour::Bypass(b) => ControlFlow::Break(Detour::Bypass(b)),
            Detour::Error(e) => ControlFlow::Break(Detour::Error(e)),
        }
    }

    /// Takes up a bypass or an error that [`Detour::branch`] broke off with,
    /// as the outcome of the handler that returns early.
    pub fn from_residual(residual: Detour<Infallible>) -> (detour: Detour<S>)
        ensures
            residual matches Detour::Bypass(b) ==> detour == Detour::<S>::Bypass(b),
            residual matches Detour::Error(e) ==> detour == Detour::<S>::Error(e),
    {
        match residual {
            Detour::Bypass(b) => Detour::Bypass(b),
            Detour::Error(e) => Detour::Error(e),
        }
    }

    /// The outcome that a plain result stands for: `Ok` is a success, `Err`
    /// a hard failure.
    pub fn from_result(result: Result<S, HookError>) -> (detour: Detour<S>)
        ensures
            detour == match result {
                Ok(s) => Detour::Success(s),
                Err(e) => Detour::Error(e),
            },
    {
        match result {
            Ok(s) => Detour::Success(s),
            Err(e) => Detour::Error(e),
        }
    }

    /// The outcome that a value-or-reason result stands for: `Ok` is a
    /// success, `Err` a bypass for the reason given.
    pub fn from_bypass_result(result: Result<S, Bypass>) -> (detour: Detour<S>)
        ensures
            detour == match result {
                Ok(s) => Detour::Success(s),
                Err(b) => Detour::Bypass(b),
            },
    {
        match result {
            Ok(s) => Detour::Success(s),
            Err(b) => Detour::Bypass(b),
        }
    }

    /// The outcome that an optional value stands for: `Some` is a success,
    /// `None` a bypass for want of a value.
    pub fn from_option(option: Option<S>) -> (detour: Detour<S>)
        ensures
            detour == match option {
                Some(s) => Detour::Success(s),
                None => Detour::Bypass(Bypass::EmptyOption),
            },
    {
        match option {
            Some(s) => Detour::Success(s),
            None => Detour::Bypass(Bypass::EmptyOption),
        }
    }

    /// Runs `op` on the value of a success; hands a bypass or an error on as
    /// it is.
    ///
    /// `op` has to be callable only on the value of a success: on a bypass or
    /// an error it is dropped without being called.
    pub fn and_then<U, F: FnOnce(S) -> Detour<U>>(self, op: F) -> (detour: Detour<U>)
        requires
            self matches Detour::Success(s) ==> op.requires((s,)),
        ensures
            match self {
                Detour::Success(s) => op.ensures((s,), detour),
                Detour::Bypass(b) => detour == Detour::<U>::Bypass(b),
                Detour::Error(e) => detour == Detour::<U>::Error(e),
            },
            forall|f: spec_fn(S) -> Detour<U>| #[trigger]
                computes(op, f) ==> detour == self.and_then_spec(f),
    {
        match self {
            Detour::Success(s) => op(s),
            Detour::Bypass(b) => Detour::Bypass(b),
            Detour::Error(e) => Detour::Error(e),
        }
    }

    /// Changes the value of a success with `op`; hands a bypass or an error
    /// on as it is.
    ///
    /// `op` has to be callable only on the value of a success: on a bypass or
    /// an error it is dropped without being called.
    pub fn map<U, F: FnOnce(S) -> U>(self, op: F) -> (detour: Detour<U>)
        requires
            self matches Detour::Success(s) ==> op.requires((s,)),
        ensures
            match self {
                Detour::Success(s) => detour matches Detour::Success(u) && op.ensures((s,), u),
                Detour::Bypass(b) => detour == Detour::<U>::Bypass(b),
                Detour::Error(e) => detour == Detour::<U>::Error(e),
            },
            forall|f: spec_fn(S) -> U| #[trigger] computes(op, f) ==> detour == self.map_spec(f),
    {
        match self {
            Detour::Success(s) => Detour::Success(op(s)),
            Detour::Bypass(b) => Detour::Bypass(b),
            Detour::Error(e) => Detour::Error(e),
        }
    }

    /// The value of a success, or `default` in its place.
    pub fn unwrap_or(self, default: S) -> (value: S)
        ensures
            value == match self {
                Detour::Success(s) => s,
                Detour::Bypass(_) => default,
                Detour::Error(_) => default,
            },
    {
        match self {
            Detour::Success(s) => s,
            _ => default,
        }
    }

    /// Tries again after an error: `op` decides what the outcome is; a
    /// success or a bypass stays as it is.
    ///
    /// `op` has to be callable only on the error at hand: on a success or a
    /// bypass it is dropped without being called.
    #[inline]
    pub fn or_else<O: FnOnce(HookError) -> Detour<S>>(self, op: O) -> (detour: Detour<S>)
        requires
            self matches Detour::Error(e) ==> op.requires((e,)),
        ensures
            match self {
                Detour::Success(s) => detour == Detour::Success(s),
                Detour::Bypass(b) => detour == Detour::<S>::Bypass(b),
                Detour::Error(e) => op.ensures((e,), detour),
            },
            forall|f: spec_fn(HookError) -> Detour<S>| #[trigger]
                computes(op, f) ==> detour == self.or_else_spec(f),
    {
        match self {
            Detour::Success(s) => Detour::Success(s),
            Detour::Bypass(b) => Detour::Bypass(b),
            Detour::Error(e) => op(e),
        }
    }

    /// Tries again after a bypass: `op` decides what the outcome is; a
    /// success or an error stays as it is.
    ///
    /// `op` has to be callable only on the reason at hand: on a success or an
    /// error it is dropped without being called.
    #[inline]
    pub fn or_bypass<O: FnOnce(Bypass) -> Detour<S>>(self, op: O) -> (detour: Detour<S>)
        requires
            self matches Detour::Bypass(b) ==> op.requires((b,)),
        ensures
            match self {
                Detour::Success(s) => detour == Detour::Success(s),
                Detour::Bypass(b) => op.ensures((b,), detour),
                Detour::Error(e) => detour == Detour::<S>::Error(e),
            },
            forall|f: spec_fn(Bypass) -> Detour<S>| #[trigger]
                computes(op, f) ==> detour == self.or_bypass_spec(f),
    {
        match self {
            Detour::Success(s) => Detour::Success(s),
            Detour::Bypass(b) => op(b),
            Detour::Error(e) => Detour::Error(e),
        }
    }
}

impl<S> Detour<S> where S: From<HookError> {
    /// Ends a hook: what to hand back to the host process.
    ///
    /// - a success gives its value;
    /// - a bypass gives what `op` returns for the reason, which is where the
    ///   native operation is called;
    /// - an error gives the value that `S` makes of it.
    ///
    /// `op` has to be callable only on the reason at hand: on a success or an
    /// error it is dropped without being called.
    pub fn unwrap_or_bypass_with<F: FnOnce(Bypass) -> S>(self, op: F) -> (value: S)
        requires
            self matches Detour::Bypass(b) ==> op.requires((b,)),
        ensures
            match self {
                Detour::Success(s) => value == s,
                Detour::Bypass(b) => op.ensures((b,), value),
                Detour::Error(e) => call_ensures(S::from, (e,), value),
            },
            self is Error && S::obeys_from_spec() ==> value == S::from_spec(self->Error_0),
    {
        match self {
            Detour::Success(s) => s,
            Detour::Bypass(b) => op(b),
            Detour::Error(e) => S::from(e),
        }
    }

    /// Ends a hook: what to hand back to the host process.
    ///
    /// - a success gives its value;
    /// - a bypass gives `value`;
    /// - an error gives the value that `S` makes of it.
    pub fn unwrap_or_bypass(self, value: S) -> (returned: S)
        ensures
            match self {
                Detour::Success(s) => returned == s,
                Detour::Bypass(_) => returned == value,
                Detour::Error(e) => call_ensures(S::from, (e,), returned),
            },
            self is Error && S::obeys_from_spec() ==> returned == S::from_spec(self->Error_0),
    {
        match self {
            Detour::Success(s) => s,
            Detour::Bypass(_) => value,
            Detour::Error(e) => S::from(e),
        }
    }
}

/// Lets an `Option` say for which reason its absence is a bypass.
pub trait OptionExt {
    /// What the `Option` holds.
    type Opt;

    /// `Some` is a success; `None` is a bypass for the reason `value`.
    fn bypass(self, value: Bypass) -> Detour<Self::Opt>;
}

/// Turns an optional outcome inside out.
pub trait OptionDetourExt<T>: OptionExt {
    /// The outcome of an optional step: a step that was not taken is a
    /// success with nothing in it, a step that was taken gives its own
    /// outcome.
    fn transpose(self) -> Detour<Option<T>>;
}

impl<T> OptionExt for Option<T> {
    type Opt = T;

    fn bypass(self, value: Bypass) -> (detour: Detour<T>)
        ensures
            detour == match self {
                Some(v) => Detour::Success(v),
                None => Detour::Bypass(value),
            },
    {
        match self {
            Some(v) => Detour::Success(v),
            None => Detour::Bypass(value),
        }
    }
}

impl<T> OptionDetourExt<T> for Option<Detour<T>> {
    #[inline]
    fn transpose(self) -> (detour: Detour<Option<T>>)
        ensures
            detour == match self {
                Some(Detour::Success(s)) => Detour::Success(Some(s)),
                Some(Detour::Error(e)) => Detour::Error(e),
                Some(Detour::Bypass(b)) => Detour::Bypass(b),
                None => Detour::Success(None),
            },
    {
        match self {
            Some(Detour::Success(s)) => Detour::Success(Some(s)),
            Some(Detour::Error(e)) => Detour::Error(e),
            Some(Detour::Bypass(b)) => Detour::Bypass(b),
            None => Detour::Success(None),
        }
    }
}

/// A bypass ends a chain: the step that follows has no say, and the reason
/// comes out as it went in.
pub proof fn lemma_and_then_hands_bypass_on<S, U>(reason: Bypass, op: spec_fn(S) -> Detour<U>)
    ensures
        Detour::<S>::Bypass(reason).and_then_spec(op) == Detour::<U>::Bypass(reason),
{
}

/// An error ends a chain: the step that follows has no say, and the error
/// comes out as it went in.
pub proof fn lemma_and_then_hands_error_on<S, U>(error: HookError, op: spec_fn(S) -> Detour<U>)
    ensures
        Detour::<S>::Error(error).and_then_spec(op) == Detour::<U>::Error(error),
{
}

/// A chain of three steps stops at the second one if that one steps aside:
/// the outcome of the chain is the bypass of the second step with its reason,
/// and it is the same whatever the third step would have done.
pub proof fn lemma_chain_stops_at_bypass<I, A, B, C>(
    input: I,
    first: spec_fn(I) -> Detour<A>,
    second: spec_fn(A) -> Detour<B>,
    third: spec_fn(B) -> Detour<C>,
    reason: Bypass,
)
    requires
        first(input) matches Detour::Success(a) && second(a) == Detour::<B>::Bypass(reason),
    ensures
        first(input).and_then_spec(second).and_then_spec(third) == Detour::<C>::Bypass(reason),
        forall|other: spec_fn(B) -> Detour<C>|
            #[trigger] first(input).and_then_spec(second).and_then_spec(other)
                == first(input).and_then_spec(second).and_then_spec(third),
{
}

/// A chain of three steps stops at the second one if that one fails: the
/// outcome of the chain is the error of the second step, and it is the same
/// whatever the third step would have done.
pub proof fn lemma_chain_stops_at_error<I, A, B, C>(
    input: I,
    first: spec_fn(I) -> Detour<A>,
    second: spec_fn(A) -> Detour<B>,
    third: spec_fn(B) -> Detour<C>,
    error: HookError,
)
    requires
        first(input) matches Detour::Success(a) && second(a) == Detour::<B>::Error(error),
    ensures
        first(input).and_then_spec(second).and_then_spec(third) == Detour::<C>::Error(error),
        forall|other: spec_fn(B) -> Detour<C>|
            #[trigger] first(input).and_then_spec(second).and_then_spec(other)
                == first(input).and_then_spec(second).and_then_spec(third),
{
}

/// The outcome of a handler that starts from `start` and runs `steps` one
/// after the other.
pub open spec fn chain<S>(start: Detour<S>, steps: Seq<spec_fn(S) -> Detour<S>>) -> Detour<S>
    decreases steps.len(),
{
    if steps.len() == 0 {
        start
    } else {
        chain(start, steps.drop_last()).and_then_spec(steps.last())
    }
}

/// The first bypass or error wins: once a handler has met one, after
/// `done` of its steps, the steps that follow change nothing, however many
/// they are and whatever they would do.
pub proof fn lemma_chain_stops_at_first_failure<S>(
    start: Detour<S>,
    steps: Seq<spec_fn(S) -> Detour<S>>,
    done: int,
)
    requires
        0 <= done <= steps.len(),
        !(chain(start, steps.take(done)) is Success),
    ensures
        chain(start, steps) == chain(start, steps.take(done)),
    decreases steps.len() - done,
{
    if done < steps.len() {
        let before = steps.drop_last();
        assert(before.take(done) == steps.take(done));
        lemma_chain_stops_at_first_failure(start, before, done);
    } else {
        assert(steps.take(done) == steps);
    }
}

/// Chaining two steps one after the other is the same as nesting the second
/// inside the first.
pub proof fn lemma_and_then_associative<A, B, C>(
    detour: Detour<A>,
    first: spec_fn(A) -> Detour<B>,
    second: spec_fn(B) -> Detour<C>,
)
    ensures
        detour.and_then_spec(first).and_then_spec(second) == detour.and_then_spec(
            |a: A| first(a).and_then_spec(second),
        ),
{
}

/// A step run on a success is the step itself, and a step that only wraps
/// its argument changes nothing.
pub proof fn lemma_and_then_units<A, B>(value: A, detour: Detour<A>, op: spec_fn(A) -> Detour<B>)
    ensures
        Detour::Success(value).and_then_spec(op) == op(value),
        detour.and_then_spec(|a: A| Detour::Success(a)) == detour,
{
}

/// `map` is `and_then` with a step that always succeeds.
pub proof fn lemma_map_is_and_then<A, B>(detour: Detour<A>, op: spec_fn(A) -> B)
    ensures
        detour.map_spec(op) == detour.and_then_spec(|a: A| Detour::Success(op(a))),
{
}

/// The two ways of trying again keep out of each other's way: `or_else`
/// leaves a bypass alone, `or_bypass` leaves an error alone, and both leave
/// a success alone.
pub proof fn lemma_recovery_is_selective<S>(
    value: S,
    reason: Bypass,
    error: HookError,
    after_error: spec_fn(HookError) -> Detour<S>,
    after_bypass: spec_fn(Bypass) -> Detour<S>,
)
    ensures
        Detour::Success(value).or_else_spec(after_error) == Detour::Success(value),
        Detour::Success(value).or_bypass_spec(after_bypass) == Detour::Success(value),
        Detour::<S>::Bypass(reason).or_else_spec(after_error) == Detour::<S>::Bypass(reason),
        Detour::<S>::Error(error).or_bypass_spec(after_bypass) == Detour::<S>::Error(error),
        Detour::<S>::Error(error).or_else_spec(after_error) == after_error(error),
        Detour::<S>::Bypass(reason).or_bypass_spec(after_bypass) == after_bypass(reason),
{
}

} // verus!
