use wreq_core::errors::CoreError;
use wreq_core::gvl::{nogvl, nogvl_cancellable, CancelFlag, InterpreterLock};
use wreq_core::rt::{maybe_block_on, try_block_on, CancelToken, FutureProbe, RaceStep};
use wreq_core::rt::race_step;

#[test]
fn cancellation_wins_even_against_a_ready_future() {
    // Bias: a completion observed in the same step as a cancellation is
    // discarded.
    assert!(matches!(
        try_block_on(true, false, FutureProbe::Ready(5)),
        Some(Err(CoreError::Interrupted))
    ));
    assert!(matches!(
        try_block_on(false, true, FutureProbe::Ready(5)),
        Some(Err(CoreError::Interrupted))
    ));
    // A cancelled call never parks again, even on a pending future.
    assert!(matches!(
        try_block_on::<u32>(true, true, FutureProbe::Pending),
        Some(Err(CoreError::Interrupted))
    ));
}

#[test]
fn completion_and_parking_without_cancellation() {
    assert!(matches!(try_block_on(false, false, FutureProbe::Ready(7)), Some(Ok(7))));
    assert!(matches!(try_block_on::<u32>(false, false, FutureProbe::Pending), None));
    assert!(matches!(race_step(false, false, FutureProbe::Ready(1)), RaceStep::Completed(1)));
    assert!(matches!(race_step::<u32>(false, false, FutureProbe::Pending), RaceStep::Park));
}

#[test]
fn optional_form_swallows_cancellation_into_none() {
    assert!(matches!(maybe_block_on(true, false, FutureProbe::Ready(Some(3))), Some(None)));
    assert!(matches!(
        maybe_block_on(false, false, FutureProbe::Ready(Some(3))),
        Some(Some(3))
    ));
    assert!(matches!(maybe_block_on::<u32>(false, false, FutureProbe::Pending), None));
}

#[test]
fn cancel_token_is_monotonic_and_shared_across_clones() {
    let mut token = CancelToken::new();
    let clone = token.clone_handle();
    assert!(!clone.is_cancelled());
    token.cancel();
    assert!(token.is_cancelled());
    // The clone observes the same underlying token.
    assert!(clone.is_cancelled());
    token.cancel();
    assert!(token.is_cancelled());
}

#[test]
fn cancel_flag_is_monotonic() {
    let mut flag = CancelFlag::new();
    assert!(!flag.is_cancelled());
    flag.cancel();
    assert!(flag.is_cancelled());
    flag.cancel();
    assert!(flag.is_cancelled());
}

#[test]
fn lock_release_runs_the_closure_and_reacquires() {
    let mut lock = InterpreterLock::new();
    let r = nogvl(&mut lock, || 21 * 2);
    assert_eq!(r, 42);
    // The lock was reacquired: a second released section is fine.
    let r2 = nogvl(&mut lock, || String::from("done"));
    assert_eq!(r2, "done");
}

#[test]
fn cancellable_section_hands_in_a_pending_signal() {
    let mut lock = InterpreterLock::new();
    let observed = nogvl_cancellable(&mut lock, |flag: CancelFlag| flag.is_cancelled());
    assert!(!observed);
    // The degraded cooperative form: the closure itself may flip the signal
    // and later observations see it cancelled.
    let observed2 = nogvl_cancellable(&mut lock, |mut flag: CancelFlag| {
        flag.cancel();
        flag.is_cancelled()
    });
    assert!(observed2);
}
