//! A fixed-size worker pool's dispatch rules, and the small HTTP responder
//! that runs on top of it.
//!
//! The pool is modelled as a state machine: `pool::PoolCore` decides which
//! worker starts which task, when a worker waits and when it stops. The
//! threads, the lock and the tasks themselves live with the caller, which
//! performs each decision and reports back.

pub mod http;
pub mod page;
pub mod pool;
