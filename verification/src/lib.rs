//! A cooperative task scheduler for single-threaded host event loops, with a
//! multi-threaded mode built on an atomic wait/notify protocol, and a binary
//! rewrite pass that makes the blocking wait instruction safe to emit into
//! portable build artifacts.
//!
//! The host embedding (the code that owns the event loop, the threads and the
//! wait/notify instructions) drives these state machines and performs the
//! outside work they decide on; every decision and every data structure here
//! is verified.

pub mod queue;
pub mod task;
pub mod waker;
pub mod multithread;
pub mod polyfill;
pub mod thread;
pub mod thread_spawn;
pub mod xform;
