//! Userspace drivers for Tock: the key-value store driver and an MCTP host
//! port that talks to a Cerberus root of trust over I2C.
//!
//! Every system call is described by a plain value that the caller performs;
//! what the kernel answers is handed back to the driver, which decides the
//! outcome.

pub mod result;
pub mod syscalls;
pub mod kv_store;
pub mod mctp;
pub mod host;
pub mod hardware;
