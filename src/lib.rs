//! Startup composition of a desktop application shell.
//!
//! The shell is built once and run once: a setup step that, in debug builds,
//! registers a logging capability, followed by a blocking event loop. The
//! decisions of that sequence live in [`startup`] as a verified state machine;
//! the host that performs the framework calls feeds it events and carries out
//! the commands it returns.

pub mod startup;
