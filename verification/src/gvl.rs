use vstd::prelude::*;

verus! {

/// A single-writer, multi-reader cancellation signal.
///
/// The state is monotonic: once cancelled, a signal never returns to
/// pending.  One signal lives for the duration of one lock-released call:
/// the executor creates it pending, the host's interrupt callback flips it,
/// and the running closure reads it at every suspension point.
///
/// The zero-poll wake-up that lets async readers suspend until the flip is
/// outside work; this type carries the verified state those readers observe.
#[derive(Clone, Debug)]
pub struct CancelFlag {
    cancelled: bool,
}

impl CancelFlag {
    /// Whether the signal has been cancelled.
    pub closed spec fn is_set(&self) -> bool {
        self.cancelled
    }

    /// Create a fresh, pending signal.
    pub fn new() -> (flag: CancelFlag)
        ensures
            !flag.is_set(),
    {
        CancelFlag { cancelled: false }
    }

    /// Flip the signal to cancelled.  Idempotent and monotonic: there is no
    /// operation that clears a cancelled signal.
    pub fn cancel(&mut self)
        ensures
            final(self).is_set(),
    {
        self.cancelled = true;
    }

    /// Read the signal.
    pub fn is_cancelled(&self) -> (r: bool)
        ensures
            r == self.is_set(),
    {
        self.cancelled
    }
}

/// The host interpreter's global lock, as seen by one OS thread.
///
/// `held` means interpreter-managed memory may be touched from this thread;
/// `!held` means the thread is inside a lock-released section and other
/// interpreter threads may run.
#[derive(Clone, Copy, Debug)]
pub struct InterpreterLock {
    held: bool,
}

impl InterpreterLock {
    /// Whether this thread currently holds the interpreter lock.
    pub closed spec fn is_held(&self) -> bool {
        self.held
    }

    /// The state of a thread that has just entered interpreter-visible code.
    pub fn new() -> (lock: InterpreterLock)
        ensures
            lock.is_held(),
    {
        InterpreterLock { held: true }
    }

    fn release(&mut self)
        requires
            old(self).is_held(),
        ensures
            !final(self).is_held(),
    {
        self.held = false;
    }

    fn reacquire(&mut self)
        requires
            !old(self).is_held(),
        ensures
            final(self).is_held(),
    {
        self.held = true;
    }
}

/// Run `func` with the interpreter lock released, then reacquire it before
/// handing the result back.
///
/// The precondition `old(lock).is_held()` is the non-nesting discipline:
/// entering a released section while the lock is already released would
/// deadlock, because the nested entry waits for the lock the outer section
/// has relinquished.  Callers must establish it; the executor cannot check
/// it at run time.
pub fn nogvl<F, R>(lock: &mut InterpreterLock, func: F) -> (r: R) where F: FnOnce() -> R
    requires
        old(lock).is_held(),
        call_requires(func, ()),
    ensures
        final(lock).is_held(),
        call_ensures(func, (), r),
{
    lock.release();
    let r = func();
    lock.reacquire();
    r
}

/// Run `func` with the interpreter lock released, handing it a fresh pending
/// cancellation signal; reacquire the lock before returning.
///
/// In the original host environment an interrupt handler is registered
/// before the lock is released, and the host flips the signal from another
/// thread when it wants to abort this one.  Here that asynchronous delivery
/// degrades to a cooperative token: the closure receives the pending signal
/// and must consult it at every suspension point.
///
/// The same non-nesting discipline as [`nogvl`] applies.
pub fn nogvl_cancellable<F, R>(lock: &mut InterpreterLock, func: F) -> (r: R) where
    F: FnOnce(CancelFlag) -> R,

    requires
        old(lock).is_held(),
        forall|flag: CancelFlag| !flag.is_set() ==> call_requires(func, (flag,)),
    ensures
        final(lock).is_held(),
        exists|flag: CancelFlag| !flag.is_set() && call_ensures(func, (flag,), r),
{
    lock.release();
    let flag = CancelFlag::new();
    let r = func(flag);
    lock.reacquire();
    r
}
} // verus!
