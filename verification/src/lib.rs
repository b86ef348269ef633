//! Coordination core of a host-interpreter HTTP client binding.
//!
//! The hard problem this crate addresses is not HTTP itself: it is safely
//! interleaving a host interpreter that serializes all work behind a single
//! global lock with a multi-threaded asynchronous I/O runtime.  The crate
//! provides the verified coordination logic for that boundary:
//!
//! - a monotonic cancellation signal with single-writer semantics,
//! - the lock-release discipline for running native code while the
//!   interpreter lock is relinquished,
//! - the biased race that drives a future against cancellation,
//! - a bounded, backpressured byte-stream channel between interpreter-visible
//!   push/iterate calls and the async runtime's stream consumers,
//! - a single-owner response-body slot supporting one-shot streaming or
//!   repeated buffered reads without double consumption.
//!
//! Blocking waits, thread wake-ups and the HTTP engine itself are outside
//! work: callers run those loops and hand each observation to the decision
//! functions here, which are verified for every possible observation.

pub mod body;
pub mod cookie;
pub mod errors;
pub mod extractor;
pub mod gvl;
pub mod header;
pub mod http;
pub mod resp;
pub mod rt;
pub mod stream;

pub use errors::CoreError;
