//! Errors reported by system calls.

use vstd::prelude::*;

verus! {

/// A `command` system call that the kernel answered with a negative code.
#[derive(Clone, Copy, Debug, PartialEq, Eq, Structural)]
pub struct CommandError {
    pub driver_number: usize,
    pub command_number: usize,
    pub arg1: usize,
    pub arg2: usize,
    pub return_code: isize,
}

/// A `subscribe` system call that the kernel answered with a negative code.
#[derive(Clone, Copy, Debug, PartialEq, Eq, Structural)]
pub struct SubscribeError {
    pub driver_number: usize,
    pub subscribe_number: usize,
    pub return_code: isize,
}

/// An `allow` system call that the kernel answered with a negative code.
#[derive(Clone, Copy, Debug, PartialEq, Eq, Structural)]
pub struct AllowError {
    pub driver_number: usize,
    pub allow_number: usize,
    pub return_code: isize,
}

/// The error type of the drivers.
#[derive(Clone, Copy, Debug, PartialEq, Eq, Structural)]
pub enum TockError {
    Subscribe(SubscribeError),
    Command(CommandError),
    Allow(AllowError),
}

pub type TockResult<T> = Result<T, TockError>;

} // verus!
