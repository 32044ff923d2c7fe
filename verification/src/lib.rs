//! An 8-bit "Simple-As-Possible" processor emulator: sixteen bytes of
//! memory, a small register set, sticky arithmetic flags, and a
//! fetch-decode-execute cycle driven one step at a time by the caller.
//!
//! The machine state and the cycle engine live in [`machine`]; their
//! behaviour is specified against the mathematical model in [`model`],
//! and the architectural guarantees (program-counter wraparound, flag
//! stickiness, halt terminality, and the like) are proved in [`laws`].

pub mod laws;
pub mod machine;
pub mod model;
