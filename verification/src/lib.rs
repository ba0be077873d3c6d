//! Relay from object-created notifications to text-detection jobs.
//!
//! One delivered batch of notifications is one invocation. The batch is
//! decoded into object references, the object that the first record names is
//! fetched from the object store, and a text-detection job is submitted for
//! it. Nothing is queued, retried or kept.
//!
//! The two network calls are made by the caller. This crate decides which call
//! comes next, what the caller is to log, and what each reply means:
//!
//! 1. `Invocation::start` takes the batch and yields the first `Step`.
//! 2. While the step's state is `Fetching` or `Dispatching`, the caller makes
//!    the call that the state holds and hands the reply to its `resolve`,
//!    which yields the next step.
//! 3. `Done` and `Failed` are final: the caller reports the outcome.
//!
//! The module `trace` states what holds of every invocation that is driven in
//! this way, whatever the two services answer.

pub mod decoder;
pub mod exchange;
pub mod journal;
pub mod notification;
pub mod orchestrator;
pub mod reference;
pub mod trace;
