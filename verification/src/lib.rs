//! Input front end for a rotary knob with a push button.
//!
//! The crate decodes a quadrature rotary encoder into directional tick
//! events (`+1` / `-1`) and a mechanical button into press/release edges,
//! and hands the events over a FIFO channel to a consumer that invokes a
//! user callback under a non-blocking, lossy try-lock policy.
//!
//! Everything here is plain state-machine logic: the platform side
//! (pin sampling, timers, interrupts, threads) lives with the caller,
//! which feeds sampled line levels and edge notifications in and performs
//! the callback invocations that the consumer step decides on.

pub mod dispatch;
pub mod push_button;
pub mod rotencoder;
