//! Time and sleep subsystem of an enclave library OS: validated clock values,
//! clock reads checked against an untrusted host, cooperative sleeps and
//! interval timers, each decision verified.
pub mod clock;
pub mod error;
pub mod open;
pub mod span;
pub mod sleep;
pub mod time;
pub mod timer_file;
