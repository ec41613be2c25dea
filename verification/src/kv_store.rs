//! The key-value store driver.
//!
//! The store is driven through four commands (append, get and invalidate a
//! key, collect garbage), two shared buffers (the key and the value) and one
//! callback, all on the store's driver number.

use vstd::prelude::*;
use crate::result::{TockError, TockResult};
use crate::syscalls::{command_error, AllowCall, CommandCall, SubscribeCall};

verus! {

pub const DRIVER_NUMBER: usize = 0x50003;

pub const KEY_BUFFER_SIZE: usize = 32;
pub const VALUE_BUFFER_SIZE: usize = 64;

/// Command number: append the key in the key buffer, with the value in the value buffer.
pub const COMMAND_APPEND_KEY: usize = 0;
/// Command number: look up the key in the key buffer.
pub const COMMAND_GET_KEY: usize = 1;
/// Command number: invalidate the key in the key buffer.
pub const COMMAND_INVALIDATE_KEY: usize = 2;
/// Command number: reclaim the space of invalidated keys.
pub const COMMAND_GARBAGE_COLLECT: usize = 3;

/// Subscribe number of the completion callback.
pub const SUBSCRIBE_CALLBACK: usize = 0;

/// Allow number of the key buffer.
pub const ALLOW_KEY: usize = 0;
/// Allow number of the value buffer.
pub const ALLOW_VALUE: usize = 1;

/// Hands out the key-value store driver.
pub struct KVStoreDriverFactory;

impl KVStoreDriverFactory {
    /// Initialises the driver; this never fails.
    pub fn init_driver(&mut self) -> (r: TockResult<KVStoreDriver>)
        ensures
            r is Ok,
    {
        Ok(KVStoreDriver)
    }
}

/// Turns the kernel's upcall into a call of the user's callback.
pub struct KVStoreEventConsumer;

impl KVStoreEventConsumer {
    /// The arguments that the user's callback is called with: the upcall's
    /// own arguments are not passed on, the callback always gets `(0, 0)`.
    pub fn consume(arg1: usize, arg2: usize, arg3: usize) -> (r: (usize, usize))
        ensures
            r == (0usize, 0usize),
    {
        (0, 0)
    }
}

/// The buffer that holds the key of an operation.
#[derive(Debug)]
pub struct KVStoreKeyBuffer {
    buffer: [u8; KEY_BUFFER_SIZE],
}

impl View for KVStoreKeyBuffer {
    type V = Seq<u8>;

    closed spec fn view(&self) -> Seq<u8> {
        self.buffer@
    }
}

impl KVStoreKeyBuffer {
    pub fn new(buf: [u8; KEY_BUFFER_SIZE]) -> (r: Self)
        ensures
            r@ == buf@,
    {
        KVStoreKeyBuffer { buffer: buf }
    }

    /// Every buffer holds exactly `KEY_BUFFER_SIZE` bytes.
    pub proof fn lemma_len(&self)
        ensures
            self@.len() == KEY_BUFFER_SIZE,
    {
    }
}


impl Default for KVStoreKeyBuffer {
    /// A key buffer of zeros.
    fn default() -> (r: Self)
        ensures
            r@ == Seq::new(KEY_BUFFER_SIZE as nat, |i: int| 0u8),
    {
        let r = KVStoreKeyBuffer { buffer: [0u8; 32] };
        assert(r@ =~= Seq::new(KEY_BUFFER_SIZE as nat, |i: int| 0u8));
        r
    }
}

impl core::ops::Deref for KVStoreKeyBuffer {
    type Target = [u8; KEY_BUFFER_SIZE];

    fn deref(&self) -> (r: &[u8; KEY_BUFFER_SIZE])
        ensures
            r@ == self@,
    {
        &self.buffer
    }
}

impl core::ops::DerefMut for KVStoreKeyBuffer {
    fn deref_mut(&mut self) -> (r: &mut [u8; KEY_BUFFER_SIZE])
        ensures
            r@ == old(self)@,
            final(self)@ == final(r)@,
    {
        &mut self.buffer
    }
}

/// The buffer that holds the value of an operation.
pub struct KVStoreValueBuffer {
    pub buffer: [u8; VALUE_BUFFER_SIZE],
}

impl KVStoreValueBuffer {
    pub fn new(buf: [u8; VALUE_BUFFER_SIZE]) -> (r: Self)
        ensures
            r.buffer == buf,
    {
        KVStoreValueBuffer { buffer: buf }
    }
}

impl Default for KVStoreValueBuffer {
    /// A value buffer of zeros.
    fn default() -> (r: Self)
        ensures
            r.buffer@ == Seq::new(VALUE_BUFFER_SIZE as nat, |i: int| 0u8),
    {
        let r = KVStoreValueBuffer { buffer: [0u8; 64] };
        assert(r.buffer@ =~= Seq::new(VALUE_BUFFER_SIZE as nat, |i: int| 0u8));
        r
    }
}

/// The key-value store driver.
pub struct KVStoreDriver;

/// The `command` call of the store with the given command number and argument.
pub open spec fn kv_command(command_number: usize, arg1: usize) -> CommandCall {
    CommandCall { driver_number: DRIVER_NUMBER, command_number, arg1, arg2: 0 }
}

/// What an operation of the store returns once the kernel answered its
/// `command` with `return_code`.
pub open spec fn command_result(call: CommandCall, return_code: isize) -> TockResult<()> {
    if return_code >= 0 {
        Ok(())
    } else {
        Err(TockError::Command(command_error(call, return_code)))
    }
}

/// A command of the store goes to the store's driver with the given command
/// number and argument unchanged, and a zero second argument.
pub proof fn lemma_kv_command_carries_its_arguments(command_number: usize, arg1: usize)
    ensures
        kv_command(command_number, arg1).driver_number == DRIVER_NUMBER,
        kv_command(command_number, arg1).command_number == command_number,
        kv_command(command_number, arg1).arg1 == arg1,
        kv_command(command_number, arg1).arg2 == 0,
{
}

/// An operation succeeds exactly when the kernel answers its command with a
/// non-negative code; every negative code is a failure that reports the
/// call's driver, command number and arguments together with the code.
pub proof fn lemma_command_result_fails_exactly_on_negative_codes(call: CommandCall, return_code: isize)
    ensures
        command_result(call, return_code) is Ok <==> return_code >= 0,
        return_code < 0 ==> command_result(call, return_code) == Err::<(), TockError>(
            TockError::Command(crate::result::CommandError {
                driver_number: call.driver_number,
                command_number: call.command_number,
                arg1: call.arg1,
                arg2: call.arg2,
                return_code,
            }),
        ),
{
}

/// The four operations of the store reach the kernel as distinct commands,
/// whatever their arguments, so the store can always tell them apart.
pub proof fn lemma_operations_distinct(a: usize, b: usize)
    ensures
        kv_command(COMMAND_APPEND_KEY, a) != kv_command(COMMAND_GET_KEY, b),
        kv_command(COMMAND_APPEND_KEY, a) != kv_command(COMMAND_INVALIDATE_KEY, b),
        kv_command(COMMAND_APPEND_KEY, a) != kv_command(COMMAND_GARBAGE_COLLECT, 0),
        kv_command(COMMAND_GET_KEY, a) != kv_command(COMMAND_INVALIDATE_KEY, b),
        kv_command(COMMAND_GET_KEY, a) != kv_command(COMMAND_GARBAGE_COLLECT, 0),
        kv_command(COMMAND_INVALIDATE_KEY, a) != kv_command(COMMAND_GARBAGE_COLLECT, 0),
{
}

impl KVStoreDriver {
    /// Shares the key buffer with the kernel.
    pub fn init_key_buffer(&self, buffer: &KVStoreKeyBuffer) -> (c: AllowCall)
        ensures
            c == (AllowCall { driver_number: DRIVER_NUMBER, allow_number: ALLOW_KEY, len: KEY_BUFFER_SIZE }),
    {
        AllowCall { driver_number: DRIVER_NUMBER, allow_number: ALLOW_KEY, len: KEY_BUFFER_SIZE }
    }

    /// Shares the value buffer with the kernel.
    pub fn init_value_buffer(&self, buffer: &KVStoreValueBuffer) -> (c: AllowCall)
        ensures
            c == (AllowCall { driver_number: DRIVER_NUMBER, allow_number: ALLOW_VALUE, len: VALUE_BUFFER_SIZE }),
    {
        AllowCall { driver_number: DRIVER_NUMBER, allow_number: ALLOW_VALUE, len: VALUE_BUFFER_SIZE }
    }

    /// Registers the completion callback; the kernel's upcalls reach it
    /// through `KVStoreEventConsumer::consume`.
    pub fn subscribe(&self) -> (c: SubscribeCall)
        ensures
            c == (SubscribeCall { driver_number: DRIVER_NUMBER, subscribe_number: SUBSCRIBE_CALLBACK }),
    {
        SubscribeCall { driver_number: DRIVER_NUMBER, subscribe_number: SUBSCRIBE_CALLBACK }
    }

    /// Appends the key of `key_len` bytes in the key buffer.
    pub fn append_key(&self, key_len: usize) -> (c: CommandCall)
        ensures
            c == kv_command(COMMAND_APPEND_KEY, key_len),
            c.driver_number == DRIVER_NUMBER,
            c.command_number == COMMAND_APPEND_KEY,
            c.arg1 == key_len,
            c.arg2 == 0,
    {
        CommandCall { driver_number: DRIVER_NUMBER, command_number: COMMAND_APPEND_KEY, arg1: key_len, arg2: 0 }
    }

    /// Looks up the key of `key_len` bytes in the key buffer.
    pub fn get_key(&self, key_len: usize) -> (c: CommandCall)
        ensures
            c == kv_command(COMMAND_GET_KEY, key_len),
            c.driver_number == DRIVER_NUMBER,
            c.command_number == COMMAND_GET_KEY,
            c.arg1 == key_len,
            c.arg2 == 0,
    {
        CommandCall { driver_number: DRIVER_NUMBER, command_number: COMMAND_GET_KEY, arg1: key_len, arg2: 0 }
    }

    /// Invalidates the key of `key_len` bytes in the key buffer.
    pub fn invalidate_key(&self, key_len: usize) -> (c: CommandCall)
        ensures
            c == kv_command(COMMAND_INVALIDATE_KEY, key_len),
            c.driver_number == DRIVER_NUMBER,
            c.command_number == COMMAND_INVALIDATE_KEY,
            c.arg1 == key_len,
            c.arg2 == 0,
    {
        CommandCall { driver_number: DRIVER_NUMBER, command_number: COMMAND_INVALIDATE_KEY, arg1: key_len, arg2: 0 }
    }

    /// Reclaims the space of invalidated keys.
    pub fn garbage_collect(&self) -> (c: CommandCall)
        ensures
            c == kv_command(COMMAND_GARBAGE_COLLECT, 0),
            c.driver_number == DRIVER_NUMBER,
            c.command_number == COMMAND_GARBAGE_COLLECT,
            c.arg1 == 0,
            c.arg2 == 0,
    {
        CommandCall { driver_number: DRIVER_NUMBER, command_number: COMMAND_GARBAGE_COLLECT, arg1: 0, arg2: 0 }
    }

    /// The result of an operation whose `command` the kernel answered with
    /// `return_code`: the value of the command is dropped.
    pub fn complete_command(&self, call: &CommandCall, return_code: isize) -> (r: TockResult<()>)
        ensures
            r == command_result(*call, return_code),
            return_code >= 0 ==> r == Ok::<(), TockError>(()),
            return_code < 0 ==> r == Err::<(), TockError>(TockError::Command(crate::result::CommandError {
                driver_number: call.driver_number,
                command_number: call.command_number,
                arg1: call.arg1,
                arg2: call.arg2,
                return_code,
            })),
    {
        match call.outcome(return_code) {
            Ok(_) => Ok(()),
            Err(e) => Err(TockError::Command(e)),
        }
    }

    /// The result of `subscribe` once the kernel answered with `return_code`.
    pub fn complete_subscribe(&self, call: &SubscribeCall, return_code: isize) -> (r: TockResult<()>)
        ensures
            return_code == 0 <==> r is Ok,
            r matches Err(e) ==> e == TockError::Subscribe(crate::result::SubscribeError {
                driver_number: call.driver_number,
                subscribe_number: call.subscribe_number,
                return_code,
            }),
    {
        match call.outcome(return_code) {
            Ok(()) => Ok(()),
            Err(e) => Err(TockError::Subscribe(e)),
        }
    }

    /// The result of sharing a buffer once the kernel answered with `return_code`.
    pub fn complete_allow(&self, call: &AllowCall, return_code: isize) -> (r: TockResult<()>)
        ensures
            return_code == 0 <==> r is Ok,
            r matches Err(e) ==> e == TockError::Allow(crate::result::AllowError {
                driver_number: call.driver_number,
                allow_number: call.allow_number,
                return_code,
            }),
    {
        match call.outcome(return_code) {
            Ok(()) => Ok(()),
            Err(e) => Err(TockError::Allow(e)),
        }
    }
}

} // verus!
