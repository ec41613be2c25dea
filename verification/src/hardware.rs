//! The platform that a Cerberus root of trust runs on: the device's
//! identity, its reset counters, and the RSA signature verification it
//! offers. These stand in for the real hardware and answer with fixed values.

use vstd::prelude::*;
use core::time::Duration;

verus! {

/// The size of the firmware version string.
pub const FIRMWARE_VERSION_LEN: usize = 32;

/// The identity of the device: its firmware version, zero-padded to
/// `FIRMWARE_VERSION_LEN` bytes, and a unique identifier.
pub struct Identity {
    firmware_version: [u8; FIRMWARE_VERSION_LEN],
    unique_id: Vec<u8>,
}

impl View for Identity {
    /// The firmware version and the unique identifier.
    type V = (Seq<u8>, Seq<u8>);

    closed spec fn view(&self) -> (Seq<u8>, Seq<u8>) {
        (self.firmware_version@, self.unique_id@)
    }
}

/// `bytes` followed by zeros up to `len` bytes.
pub open spec fn zero_padded(bytes: Seq<u8>, len: nat) -> Seq<u8> {
    bytes + Seq::new((len - bytes.len()) as nat, |i: int| 0u8)
}

/// Padding keeps every byte given and adds only zeros: the result has `len`
/// bytes, starts with all of `bytes`, and is zero after them.
pub proof fn lemma_zero_padded_keeps_bytes(bytes: Seq<u8>, len: nat)
    requires
        bytes.len() <= len,
    ensures
        zero_padded(bytes, len).len() == len,
        zero_padded(bytes, len).take(bytes.len() as int) == bytes,
        forall|i: int| bytes.len() <= i < len ==> zero_padded(bytes, len)[i] == 0u8,
{
    assert(zero_padded(bytes, len).take(bytes.len() as int) =~= bytes);
}

impl Identity {
    /// Creates an identity; the firmware version must fit its
    /// `FIRMWARE_VERSION_LEN` bytes.
    pub fn new(firmware_version: &[u8], unique_id: &[u8]) -> (r: Self)
        requires
            firmware_version@.len() <= FIRMWARE_VERSION_LEN,
        ensures
            r@.0 == zero_padded(firmware_version@, FIRMWARE_VERSION_LEN as nat),
            r@.0.len() == FIRMWARE_VERSION_LEN,
            r@.0.take(firmware_version@.len() as int) == firmware_version@,
            forall|i: int| firmware_version@.len() <= i < FIRMWARE_VERSION_LEN ==> r@.0[i] == 0u8,
            r@.1 == unique_id@,
    {
        let mut buf: [u8; FIRMWARE_VERSION_LEN] = [0u8; 32];
        let n: usize = firmware_version.len();
        let mut i: usize = 0;
        while i < n
            invariant
                n == firmware_version@.len(),
                n <= FIRMWARE_VERSION_LEN,
                i <= n,
                buf@.len() == FIRMWARE_VERSION_LEN,
                forall|j: int| 0 <= j < i ==> buf@[j] == firmware_version@[j],
                forall|j: int| i <= j < FIRMWARE_VERSION_LEN ==> buf@[j] == 0u8,
            decreases n - i,
        {
            buf[i] = firmware_version[i];
            i = i + 1;
        }
        assert(buf@ =~= zero_padded(firmware_version@, FIRMWARE_VERSION_LEN as nat));
        assert(buf@.take(n as int) =~= firmware_version@);
        let unique_id = vstd::slice::slice_to_vec(unique_id);
        Identity { firmware_version: buf, unique_id }
    }

    /// The firmware version, zero-padded.
    pub fn firmware_version(&self) -> (r: &[u8; FIRMWARE_VERSION_LEN])
        ensures
            r@ == self@.0,
    {
        &self.firmware_version
    }

    /// The unique identifier of the device.
    pub fn unique_device_identity(&self) -> (r: &[u8])
        ensures
            r@ == self@.1,
    {
        self.unique_id.as_slice()
    }
}

/// The value that std's `Duration::new` returns for these seconds and nanoseconds.
pub uninterp spec fn duration_new(secs: u64, nanos: u32) -> Duration;

/// std's `Duration::new`. Claimed of it: the result is a function of its
/// arguments; it does not panic when `nanos` is below one second, since
/// nothing then carries into the seconds. What the duration is, is left to
/// the name `duration_new`.
#[verifier::external_body]
fn make_duration(secs: u64, nanos: u32) -> (d: Duration)
    requires
        nanos < 1_000_000_000,
    ensures
        d == duration_new(secs, nanos),
{
    Duration::new(secs, nanos)
}

/// The reset counters of the device.
pub struct Reset {
    resets: u32,
    uptime: Duration,
}

impl View for Reset {
    /// The reset count and the uptime it was created with.
    type V = (u32, Duration);

    closed spec fn view(&self) -> (u32, Duration) {
        (self.resets, self.uptime)
    }
}

impl Reset {
    pub fn new(resets: u32, uptime: Duration) -> (r: Self)
        ensures
            r@ == (resets, uptime),
    {
        Reset { resets, uptime }
    }

    /// The number of resets since power-on that the device reports: always
    /// zero, whatever it was created with.
    pub fn resets_since_power_on(&self) -> (r: u32)
        ensures
            r == 0,
    {
        0
    }

    /// The uptime that the device reports: always five seconds, whatever it
    /// was created with.
    pub fn uptime(&self) -> (r: Duration)
        ensures
            r == duration_new(5, 0),
    {
        make_duration(5, 0)
    }
}

/// The length of an RSA modulus.
#[derive(Clone, Copy, Debug, PartialEq, Eq, Structural)]
pub enum ModulusLength {
    Bits2048,
    Bits3072,
    Bits4096,
}

/// The error of the RSA operations.
#[derive(Debug)]
pub struct Error {}

/// An RSA public key.
pub struct PublicKey {}

impl PublicKey {
    pub fn new() -> (r: Self) {
        PublicKey {}
    }

    /// The length of the key's modulus: 2048 bits.
    pub fn len(&self) -> (r: ModulusLength)
        ensures
            r == ModulusLength::Bits2048,
    {
        ModulusLength::Bits2048
    }
}

/// Builds RSA signature verification engines.
pub struct Builder {}

/// An RSA signature verification engine.
pub struct Engine {}

impl Engine {
    pub fn new() -> (r: Self) {
        Engine {}
    }
}

impl Builder {
    pub fn new() -> (r: Self) {
        Builder {}
    }

    /// Every modulus length is supported.
    pub fn supports_modulus(&self, len: ModulusLength) -> (r: bool)
        ensures
            r,
    {
        true
    }

    /// An engine for `key`; this never fails.
    pub fn new_engine(&self, key: PublicKey) -> (r: Result<Engine, Error>)
        ensures
            r is Ok,
    {
        Ok(Engine::new())
    }
}

} // verus!
