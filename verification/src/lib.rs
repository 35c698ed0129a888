//! A small cooperative task scheduler: a blocking multi-producer,
//! single-consumer channel, tasks that are driven one step at a time,
//! wake handles that put a task back on the ready-queue, and a timer
//! whose completion wakes the task that waits for it.
//!
//! Everything that is shared between threads lives behind a lock. Verus
//! cannot name what another thread leaves behind a lock, so each shared
//! block is a plain state type ([`channel::Inner`], [`task::Slot`],
//! [`timer::SharedState`]) whose operations carry exact contracts, and the
//! handles that threads hold only take the lock and apply one operation.
//! What follows from these operations when threads interleave them is
//! proved in [`protocol`].

pub mod sync;
pub mod channel;
pub mod task;
pub mod executor;
pub mod timer;
pub mod flatten;
pub mod protocol;
