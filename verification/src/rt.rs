use vstd::prelude::*;

verus! {

use crate::errors::CoreError;

/// Token for cooperative cancellation of async tasks from interpreter code.
///
/// Wraps `tokio_util::sync::CancellationToken`.  Clones observe the same
/// underlying token, so a clone handed to an async task is woken without
/// polling when any holder cancels.  The `fired` field is the verified
/// model of what *this* handle has done: once this handle cancelled the
/// token, every observation of the token reports it cancelled, because the
/// underlying token is monotonic.
#[derive(Debug)]
pub struct CancelToken {
    inner: tokio_util::sync::CancellationToken,
    fired: bool,
}

#[verifier::external_type_specification]
#[verifier::external_body]
pub struct ExTokioCancellationToken(tokio_util::sync::CancellationToken);

/// Relies on `tokio_util::sync::CancellationToken::new`: a fresh token is
/// not cancelled.
#[verifier::external_body]
fn raw_token_new() -> (t: tokio_util::sync::CancellationToken) {
    tokio_util::sync::CancellationToken::new()
}

/// Relies on `tokio_util::sync::CancellationToken::cancel`: cancels the
/// token and wakes all tasks awaiting it; the token stays cancelled.
#[verifier::external_body]
fn raw_token_cancel(t: &tokio_util::sync::CancellationToken) {
    t.cancel()
}

/// Relies on `tokio_util::sync::CancellationToken::is_cancelled`.  Another
/// holder of a clone may cancel the token at any time, so nothing relates
/// the result to this crate's state; the decision functions below take the
/// observed value as an argument and are verified for either outcome.
#[verifier::external_body]
fn raw_token_is_cancelled(t: &tokio_util::sync::CancellationToken) -> (r: bool) {
    t.is_cancelled()
}

/// Relies on `Clone for tokio_util::sync::CancellationToken`: the clone
/// observes the same underlying token.
#[verifier::external_body]
fn raw_token_clone(t: &tokio_util::sync::CancellationToken) -> (r: tokio_util::sync::CancellationToken) {
    t.clone()
}

impl CancelToken {
    /// Whether this handle has cancelled the underlying token.
    pub closed spec fn has_fired(&self) -> bool {
        self.fired
    }

    /// Create a new token; no handle has cancelled it yet.
    pub fn new() -> (t: CancelToken)
        ensures
            !t.has_fired(),
    {
        CancelToken { inner: raw_token_new(), fired: false }
    }

    /// Signal cancellation to all tasks observing this token or a clone of
    /// it.  Monotonic: nothing clears a cancelled token.
    pub fn cancel(&mut self)
        ensures
            final(self).has_fired(),
    {
        raw_token_cancel(&self.inner);
        self.fired = true;
    }

    /// Observe the underlying token.  If this handle already cancelled it,
    /// the observation reports that; otherwise a clone held elsewhere may or
    /// may not have cancelled it, and either answer can come back.
    pub fn is_cancelled(&self) -> (r: bool)
        ensures
            self.has_fired() ==> r,
    {
        if self.fired {
            true
        } else {
            raw_token_is_cancelled(&self.inner)
        }
    }

    /// A new handle on the same underlying token.  Whether the clone has
    /// itself fired is tracked separately, so the clone starts unfired.
    pub fn clone_handle(&self) -> (t: CancelToken)
        ensures
            !t.has_fired(),
    {
        CancelToken { inner: raw_token_clone(&self.inner), fired: false }
    }
}

/// One observation of a driven future: either it completed with a value, or
/// it is still pending.  The caller polls the future on the shared runtime
/// and hands the observation in.
#[derive(Debug)]
pub enum FutureProbe<T> {
    Ready(T),
    Pending,
}

/// One scheduling step of the biased race inside `block_on`.
///
/// The bias is deliberate: if cancellation and completion become ready in
/// the same scheduling step, cancellation wins and the just-produced result
/// is discarded.  This favors prompt interpreter responsiveness over
/// completing in-flight work.
#[derive(Debug)]
pub enum RaceStep<T> {
    /// Cancellation was observed: abandon the future, surface `Interrupted`.
    Cancelled,
    /// The future completed first: hand its value back.
    Completed(T),
    /// Neither is ready: park and poll again.
    Park,
}

/// Decide one step of the race between a driven future and cancellation.
///
/// `cancel_observed` is the per-call signal read; `token_observed` is the
/// caller-supplied token read (false when no token was supplied).  The
/// checks come first, so a cancellation observed in the same step as a
/// completion discards the completed value.
pub fn race_step<T>(cancel_observed: bool, token_observed: bool, probe: FutureProbe<T>) -> (r:
    RaceStep<T>)
    ensures
        cancel_observed || token_observed ==> r is Cancelled,
        !cancel_observed && !token_observed ==> match probe {
            FutureProbe::Ready(v) => r == RaceStep::Completed(v),
            FutureProbe::Pending => r is Park,
        },
{
    if cancel_observed || token_observed {
        RaceStep::Cancelled
    } else {
        match probe {
            FutureProbe::Ready(v) => RaceStep::Completed(v),
            FutureProbe::Pending => RaceStep::Park,
        }
    }
}

/// One step of blocking on a fallible future: `None` means keep driving the
/// future; `Some` is the call's outcome, with cancellation surfaced as
/// `Interrupted`.
pub fn try_block_on<T>(cancel_observed: bool, token_observed: bool, probe: FutureProbe<T>) -> (r:
    Option<Result<T, CoreError>>)
    ensures
        cancel_observed || token_observed ==> r == Some(
            Result::<T, CoreError>::Err(CoreError::Interrupted),
        ),
        !cancel_observed && !token_observed ==> match probe {
            FutureProbe::Ready(v) => r == Some(Result::<T, CoreError>::Ok(v)),
            FutureProbe::Pending => r is None,
        },
{
    match race_step(cancel_observed, token_observed, probe) {
        RaceStep::Cancelled => Some(Err(CoreError::Interrupted)),
        RaceStep::Completed(v) => Some(Ok(v)),
        RaceStep::Park => None,
    }
}

/// One step of blocking on an optional-valued future: cancellation yields
/// `Some(None)` rather than an error.
pub fn maybe_block_on<T>(cancel_observed: bool, token_observed: bool, probe: FutureProbe<Option<T>>)
    -> (r: Option<Option<T>>)
    ensures
        cancel_observed || token_observed ==> r == Some(Option::<T>::None),
        !cancel_observed && !token_observed ==> match probe {
            FutureProbe::Ready(v) => r == Some(v),
            FutureProbe::Pending => r is None,
        },
{
    match race_step(cancel_observed, token_observed, probe) {
        RaceStep::Cancelled => Some(None),
        RaceStep::Completed(v) => Some(v),
        RaceStep::Park => None,
    }
}

/// Cancellation liveness: whenever the interrupt signal has been observed,
/// the pending call resolves at that very step with `Interrupted` — even if
/// the raced future produced a value in the same step, and in particular
/// even if it would never complete.  The step never answers `Park` under an
/// observed cancellation, so the call cannot keep waiting on a signal that
/// has fired.
pub proof fn lemma_cancellation_liveness<T>(
    cancel_observed: bool,
    token_observed: bool,
    probe: FutureProbe<T>,
    r: Option<Result<T, CoreError>>,
)
    requires
        cancel_observed || token_observed,
        call_ensures(try_block_on::<T>, (cancel_observed, token_observed, probe), r),
    ensures
        r == Some(Result::<T, CoreError>::Err(CoreError::Interrupted)),
{
}

} // verus!
