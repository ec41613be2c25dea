//! The system calls a driver asks the kernel to perform, as plain values,
//! and how the kernel's return code is read.
//!
//! A `command` succeeds when the kernel returns a non-negative code, which is
//! then the value of the call; `subscribe` and `allow` succeed only on zero.
//! A failed call is reported with every argument it was made with.

use vstd::prelude::*;
use crate::result::{AllowError, CommandError, SubscribeError};

verus! {

/// A `command` system call.
#[derive(Clone, Copy, Debug, PartialEq, Eq, Structural)]
pub struct CommandCall {
    pub driver_number: usize,
    pub command_number: usize,
    pub arg1: usize,
    pub arg2: usize,
}

/// A `subscribe` system call, registering the driver's callback.
#[derive(Clone, Copy, Debug, PartialEq, Eq, Structural)]
pub struct SubscribeCall {
    pub driver_number: usize,
    pub subscribe_number: usize,
}

/// An `allow` system call, sharing a buffer of `len` bytes with the kernel.
#[derive(Clone, Copy, Debug, PartialEq, Eq, Structural)]
pub struct AllowCall {
    pub driver_number: usize,
    pub allow_number: usize,
    pub len: usize,
}

/// The error that a failed `command` reports.
pub open spec fn command_error(call: CommandCall, return_code: isize) -> CommandError {
    CommandError {
        driver_number: call.driver_number,
        command_number: call.command_number,
        arg1: call.arg1,
        arg2: call.arg2,
        return_code,
    }
}

impl CommandCall {
    /// Reads the kernel's answer to this call.
    pub fn outcome(&self, return_code: isize) -> (r: Result<usize, CommandError>)
        ensures
            return_code >= 0 ==> r == Ok::<usize, CommandError>(return_code as usize),
            return_code < 0 ==> r == Err::<usize, CommandError>(command_error(*self, return_code)),
    {
        if return_code >= 0 {
            Ok(return_code as usize)
        } else {
            Err(CommandError {
                driver_number: self.driver_number,
                command_number: self.command_number,
                arg1: self.arg1,
                arg2: self.arg2,
                return_code,
            })
        }
    }
}

impl SubscribeCall {
    /// Reads the kernel's answer to this call.
    pub fn outcome(&self, return_code: isize) -> (r: Result<(), SubscribeError>)
        ensures
            return_code == 0 ==> r == Ok::<(), SubscribeError>(()),
            return_code != 0 ==> r == Err::<(), SubscribeError>(SubscribeError {
                driver_number: self.driver_number,
                subscribe_number: self.subscribe_number,
                return_code,
            }),
    {
        if return_code == 0 {
            Ok(())
        } else {
            Err(SubscribeError {
                driver_number: self.driver_number,
                subscribe_number: self.subscribe_number,
                return_code,
            })
        }
    }
}

impl AllowCall {
    /// Reads the kernel's answer to this call.
    pub fn outcome(&self, return_code: isize) -> (r: Result<(), AllowError>)
        ensures
            return_code == 0 ==> r == Ok::<(), AllowError>(()),
            return_code != 0 ==> r == Err::<(), AllowError>(AllowError {
                driver_number: self.driver_number,
                allow_number: self.allow_number,
                return_code,
            }),
    {
        if return_code == 0 {
            Ok(())
        } else {
            Err(AllowError {
                driver_number: self.driver_number,
                allow_number: self.allow_number,
                return_code,
            })
        }
    }
}

} // verus!
