//! In-process concurrency building blocks: a single-flight memoizing cache
//! and a bounded worker-thread pool with a blocking drain.
//!
//! The synchronization decisions of both components are verified here as
//! sequential state machines; an unverified shell supplies the actual
//! threads, locks and channels and drives these machines inside its
//! critical sections.

pub mod cache;
pub mod flight;
pub mod pool;
