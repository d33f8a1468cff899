//! Driver logic for a McPherson 789A-4 stepper-motor controller speaking its
//! ASCII protocol over one serial link.
//!
//! The library performs no I/O itself. Each operation is a state machine: it
//! hands the caller a [`serial::Request`] to carry out on the link (write,
//! write-then-read, or sleep) and is resumed with what came back. The caller
//! owns the port and the clock.

pub mod error;
pub mod protocol;
pub mod serial;
pub mod mp_789a_4;
pub mod middleware;
pub mod ki_6485;
