//! The host port of a Cerberus root of trust: requests go to the device as
//! vendor-defined MCTP packets written over I2C, and responses are read back
//! in two steps, first the SMBus header (to learn the packet's length) and
//! then the whole packet. The most recent response is remembered and given
//! again until the next request.

use vstd::prelude::*;
use crate::mctp::{
    decode_packet, decode_packet_panics, decode_packet_would_panic, decoded_payload,
    packet_length, vendor_defined, vendor_defined_packet, MCTP_SMBUS_COMMAND_CODE,
};

verus! {

/// The address of this device.
pub const MY_ID: u8 = 0x23;
/// The I2C address of the device the requests go to.
pub const DEST_ID: u8 = 0x10;
/// The MCTP destination that vendor-defined requests are addressed to.
pub const VENDOR_DEFINED_DEST: u8 = 0x0B;
/// The supported vendor ID: a PCI vendor ID (format 0) ...
pub const VENDOR_FORMAT: u8 = 0x00;
/// ... with this value ...
pub const VENDOR_DATA: u32 = 0x1414;
/// ... and this extra data.
pub const VENDOR_NUMERIC_VALUE: u16 = 4;
/// The size of the buffer that a request is built in.
pub const REQUEST_BUFFER_SIZE: usize = 32;
/// The size of the buffer that a response is assembled in.
pub const DEST_BUFFER_SIZE: usize = 32;

/// The Cerberus command code of a firmware version request.
pub const FIRMWARE_VERSION: u8 = 0x01;

/// The header of a Cerberus message.
#[derive(Clone, Copy, Debug, PartialEq, Eq, Structural)]
pub struct Header {
    /// The command code.
    pub command: u8,
    pub is_request: bool,
}

/// An I2C write of the first `len` bytes of `data` to the device at `address`.
pub struct I2cWrite {
    pub address: usize,
    pub data: Vec<u8>,
    pub len: usize,
}

/// The next step of reading a response.
#[derive(Clone, Copy, Debug, PartialEq, Eq, Structural)]
pub enum ResponseStep {
    /// Read the SMBus header, `len` bytes, from the device at `address` into
    /// the shared buffer, then hand the buffer to `response_length`.
    ReadHeader { address: usize, len: usize },
    /// Read the whole packet, `len` bytes, from the device at `address` into
    /// the shared buffer, then hand the buffer to `response`.
    ReadPacket { address: usize, len: usize },
    /// The exchange cannot go on: the packet has no valid length, does not
    /// fit the response buffer, or cannot be decoded; or its payload ends
    /// before a byte that must still be compared, or its answer does not fit
    /// the caller's buffer.
    Fault,
    /// The exchange is over, with the header of a firmware version response,
    /// or `None` where the payload is not one.
    Done(Option<Header>),
}

/// The host port, with the address of this device and the most recent
/// response received since the last request: its header (`None` where the
/// payload was not a firmware version answer) and the data of its answer.
pub struct ManticoreHost {
    address: u8,
    last_header: Option<Option<Header>>,
    last_data: Vec<u8>,
}

impl View for ManticoreHost {
    /// The address, and the most recent response since the last request.
    type V = (u8, Option<(Option<Header>, Seq<u8>)>);

    closed spec fn view(&self) -> (u8, Option<(Option<Header>, Seq<u8>)>) {
        (self.address, match self.last_header {
            Some(h) => Some((h, self.last_data@)),
            None => None,
        })
    }
}

/// The largest message that a request can carry: the packet (twelve bytes
/// of framing, the three-byte command header and the message) must fit the
/// request buffer.
pub const MAX_REQUEST_MESSAGE: usize = 17;

/// The message of a request for `command` with the given parts: the command
/// header `[0, command, 0]` followed by the message bytes.
pub open spec fn request_message(command: u8, message: Seq<u8>) -> Seq<u8> {
    seq![0u8, command, 0u8] + message
}

/// The vendor-defined packet that requests `command` with `message`, built by
/// a device at `address`.
pub open spec fn request_packet(address: u8, command: u8, message: Seq<u8>) -> Seq<u8> {
    vendor_defined_packet(address, VENDOR_DEFINED_DEST, VENDOR_FORMAT, VENDOR_DATA, request_message(command, message))
}

/// The I2C write of a request built in `buf`, whose length libmctp returned
/// as `len`: everything but the first byte (the destination address, which
/// the I2C controller sends itself), and the length less that byte.
pub open spec fn request_write_of(buf: Seq<u8>, len: Result<usize, ()>) -> Option<(Seq<u8>, int)> {
    match len {
        Ok(n) => if 1 <= n { Some((buf.skip(1), n - 1)) } else { None },
        Err(_) => None,
    }
}

/// The step after the first three bytes of a response, `first`, are read:
/// the length is the byte count plus four, when the command code is MCTP's.
pub open spec fn length_step(first: Seq<u8>) -> ResponseStep {
    if first[0] == MCTP_SMBUS_COMMAND_CODE {
        ResponseStep::ReadPacket { address: DEST_ID as usize, len: (first[1] + 4) as usize }
    } else {
        ResponseStep::Fault
    }
}

/// The response header that a firmware version answer is reported with.
pub open spec fn firmware_version_response() -> Header {
    Header { command: FIRMWARE_VERSION, is_request: false }
}

/// What a decoded payload `ret` gives, with a buffer of `buf_len` bytes for
/// the answer: a firmware version answer starts with the PCI vendor ID
/// 0x1414 and a zero byte, and its data (from the fifth byte on) must fit the
/// buffer. The first three bytes are compared one at a time, and the
/// comparison stops at the first that differs.
pub open spec fn payload_step(ret: Seq<u8>, buf_len: nat) -> ResponseStep {
    if ret.len() < 1 {
        ResponseStep::Fault
    } else if ret[0] != 0x14 {
        ResponseStep::Done(None)
    } else if ret.len() < 2 {
        ResponseStep::Fault
    } else if ret[1] != 0x14 {
        ResponseStep::Done(None)
    } else if ret.len() < 3 {
        ResponseStep::Fault
    } else if ret[2] != 0 {
        ResponseStep::Done(None)
    } else if ret.len() < 4 || ret.len() - 4 > buf_len {
        ResponseStep::Fault
    } else {
        ResponseStep::Done(Some(firmware_version_response()))
    }
}

/// The packet of `len` bytes assembled from the shared buffer: this device's
/// address shifted left by one, then the first `len - 1` bytes read.
pub open spec fn response_packet(shared: Seq<u8>, len: nat) -> Seq<u8> {
    seq![(MY_ID * 2) as u8] + shared.take(len - 1)
}

/// The step after the whole packet of `len` bytes was read into `shared`:
/// a length of zero, or one beyond the response buffer, cannot be assembled.
pub open spec fn finish_step(shared: Seq<u8>, len: nat, buf_len: nat) -> ResponseStep {
    if len < 1 || len > DEST_BUFFER_SIZE {
        ResponseStep::Fault
    } else {
        let p = response_packet(shared, len);
        if decode_packet_panics(p) {
            ResponseStep::Fault
        } else {
            match decoded_payload(p) {
                None => ResponseStep::Fault,
                Some(ret) => payload_step(ret, buf_len),
            }
        }
    }
}

/// The data of the answer in the packet of `len` bytes read into `shared`:
/// its decoded payload from the fifth byte on.
pub open spec fn answer_data(shared: Seq<u8>, len: nat) -> Seq<u8> {
    decoded_payload(response_packet(shared, len))->Some_0.skip(4)
}

/// What the caller's buffer `buf` holds once the packet of `len` bytes in
/// `shared` was read: on a firmware version answer, its data at the front and
/// the rest of `buf` after it; otherwise `buf` as it was.
pub open spec fn finish_buffer(shared: Seq<u8>, len: nat, buf: Seq<u8>) -> Seq<u8> {
    if finish_step(shared, len, buf.len()) == ResponseStep::Done(Some(firmware_version_response())) {
        answer_data(shared, len) + buf.skip(answer_data(shared, len).len() as int)
    } else {
        buf
    }
}

/// The response the host remembers once the packet of `len` bytes in
/// `shared` was read, where it remembered `last` before: a completed
/// response replaces it (with no data where the payload was not a firmware
/// version answer); a fault leaves it.
pub open spec fn finish_memory(
    shared: Seq<u8>,
    len: nat,
    buf_len: nat,
    last: Option<(Option<Header>, Seq<u8>)>,
) -> Option<(Option<Header>, Seq<u8>)> {
    match finish_step(shared, len, buf_len) {
        ResponseStep::Done(Some(h)) => Some((Some(h), answer_data(shared, len))),
        ResponseStep::Done(None) => Some((None, Seq::<u8>::empty())),
        _ => last,
    }
}

/// The first step of reading a response, where the host remembers `last`:
/// with nothing remembered, the SMBus header is read from the device;
/// otherwise the remembered response is given again, provided its data fits
/// the caller's buffer of `buf_len` bytes.
pub open spec fn replay_step(last: Option<(Option<Header>, Seq<u8>)>, buf_len: nat) -> ResponseStep {
    match last {
        None => ResponseStep::ReadHeader { address: DEST_ID as usize, len: 4 },
        Some((h, d)) => if d.len() > buf_len {
            ResponseStep::Fault
        } else {
            ResponseStep::Done(h)
        },
    }
}

/// What the caller's buffer `buf` holds after that first step: the
/// remembered data at its front, where it fits; otherwise `buf` as it was.
pub open spec fn replay_buffer(last: Option<(Option<Header>, Seq<u8>)>, buf: Seq<u8>) -> Seq<u8> {
    match last {
        Some((h, d)) => if d.len() <= buf.len() {
            d + buf.skip(d.len() as int)
        } else {
            buf
        },
        None => buf,
    }
}

/// Until the next request, reading a response gives the most recent
/// response again: once a response was read from the device into a buffer
/// `buf`, the host remembers it, and a later read into a buffer that held the
/// same bytes as `buf` ends in the same step and leaves the same bytes.
pub proof fn lemma_response_kept_until_request(
    shared: Seq<u8>,
    len: nat,
    buf: Seq<u8>,
    last: Option<(Option<Header>, Seq<u8>)>,
)
    requires
        finish_step(shared, len, buf.len()) is Done,
    ensures
        replay_step(finish_memory(shared, len, buf.len(), last), buf.len()) == finish_step(shared, len, buf.len()),
        replay_buffer(finish_memory(shared, len, buf.len(), last), buf) == finish_buffer(shared, len, buf),
{
    assert(Seq::<u8>::empty() + buf.skip(0) =~= buf);
}

/// A request is built by libmctp from the host's own address, addressed to
/// the vendor-defined destination 0x0B with the PCI vendor ID 0x1414, and
/// carries the command header `[0, command, 0]` followed by the message.
pub proof fn lemma_request_packet_from_host_address(address: u8, command: u8, message: Seq<u8>)
    ensures
        request_packet(address, command, message)
            == vendor_defined_packet(address, 0x0Bu8, 0u8, 0x1414u32, seq![0u8, command, 0u8] + message),
{
}

/// The payload check: a payload is a firmware version answer exactly when
/// it starts with the PCI vendor ID 0x14 0x14 and a zero byte and its data,
/// from the fifth byte on, fits the buffer; it is a different answer exactly
/// when one of its first three bytes differs, the bytes before it matching.
pub proof fn lemma_payload_step_checks_vendor_id(ret: Seq<u8>, buf_len: nat)
    ensures
        (payload_step(ret, buf_len) == ResponseStep::Done(Some(Header { command: 0x01, is_request: false })))
            <==> (ret.len() >= 4 && ret[0] == 0x14 && ret[1] == 0x14 && ret[2] == 0 && ret.len() - 4 <= buf_len),
        (payload_step(ret, buf_len) == ResponseStep::Done(None)) <==> (
            (ret.len() >= 1 && ret[0] != 0x14)
            || (ret.len() >= 2 && ret[0] == 0x14 && ret[1] != 0x14)
            || (ret.len() >= 3 && ret[0] == 0x14 && ret[1] == 0x14 && ret[2] != 0)),
{
}

/// Every packet that fits the 32-byte response buffer is read: for a length
/// from 1 to 32, when the packet (this device's address 0x23 shifted left,
/// then the first `len - 1` bytes read) decodes to a payload, the response
/// is what that payload gives; so a firmware version answer of any such
/// length whose data fits the buffer ends in that answer.
pub proof fn lemma_response_reads_every_fitting_packet(shared: Seq<u8>, len: nat, buf_len: nat)
    requires
        1 <= len <= 32,
        !decode_packet_panics(seq![0x46u8] + shared.take(len - 1)),
        decoded_payload(seq![0x46u8] + shared.take(len - 1)) is Some,
    ensures
        ({
            let ret = decoded_payload(seq![0x46u8] + shared.take(len - 1))->Some_0;
            &&& finish_step(shared, len, buf_len) == payload_step(ret, buf_len)
            &&& (ret.len() >= 4 && ret[0] == 0x14 && ret[1] == 0x14 && ret[2] == 0 && ret.len() - 4 <= buf_len)
                ==> finish_step(shared, len, buf_len) == ResponseStep::Done(Some(Header { command: 0x01, is_request: false }))
        }),
{
}

/// A response is determined by the packet the device sent: two readings of
/// `len` bytes whose first `len - 1` shared bytes agree assemble the same
/// packet and, into buffers that held the same bytes, end in the same step,
/// leave the same bytes in the buffer and leave the same response
/// remembered, whatever else the shared buffers hold.
pub proof fn lemma_response_determined_by_packet(
    s1: Seq<u8>,
    s2: Seq<u8>,
    len: nat,
    buf: Seq<u8>,
    last: Option<(Option<Header>, Seq<u8>)>,
)
    requires
        1 <= len <= DEST_BUFFER_SIZE ==> s1.take(len - 1) == s2.take(len - 1),
    ensures
        finish_step(s1, len, buf.len()) == finish_step(s2, len, buf.len()),
        finish_buffer(s1, len, buf) == finish_buffer(s2, len, buf),
        finish_memory(s1, len, buf.len(), last) == finish_memory(s2, len, buf.len(), last),
        1 <= len <= DEST_BUFFER_SIZE ==> response_packet(s1, len) == response_packet(s2, len),
{
}

impl ManticoreHost {
    pub fn new(address: u8) -> (r: Self)
        ensures
            r@ == (address, None::<(Option<Header>, Seq<u8>)>),
    {
        ManticoreHost { address, last_header: None, last_data: Vec::new() }
    }

    /// Copies `src` to the front of `buf`.
    fn copy_to_front(src: &[u8], buf: &mut [u8])
        requires
            src@.len() <= old(buf)@.len(),
        ensures
            final(buf)@ == src@ + old(buf)@.skip(src@.len() as int),
    {
        let ghost old_buf = buf@;
        let n: usize = src.len();
        let mut i: usize = 0;
        while i < n
            invariant
                n == src@.len(),
                i <= n,
                n <= buf@.len(),
                buf@.len() == old_buf.len(),
                buf@ == src@.take(i as int) + old_buf.skip(i as int),
            decreases n - i,
        {
            buf[i] = src[i];
            assert(buf@ =~= src@.take(i + 1) + old_buf.skip(i + 1));
            i = i + 1;
        }
        assert(buf@ =~= src@ + old_buf.skip(n as int));
    }

    /// The I2C write of a request built in `buf` (the request buffer), given
    /// what libmctp returned for it; `None` where it failed.
    pub fn request_write(buf: &[u8], len: Result<usize, ()>) -> (w: Option<I2cWrite>)
        requires
            buf@.len() == REQUEST_BUFFER_SIZE,
        ensures
            match request_write_of(buf@, len) {
                Some((data, n)) => w matches Some(w) && w.address == DEST_ID && w.data@ == data && w.len == n,
                None => w is None,
            },
    {
        match len {
            Ok(n) => {
                if n < 1 {
                    return None;
                }
                let mut data: Vec<u8> = Vec::new();
                let mut i: usize = 1;
                while i < REQUEST_BUFFER_SIZE
                    invariant
                        buf@.len() == REQUEST_BUFFER_SIZE,
                        1 <= i <= REQUEST_BUFFER_SIZE,
                        data@ == buf@.subrange(1, i as int),
                    decreases REQUEST_BUFFER_SIZE - i,
                {
                    data.push(buf[i]);
                    i = i + 1;
                }
                assert(data@ == buf@.skip(1));
                Some(I2cWrite { address: DEST_ID as usize, data, len: n - 1 })
            },
            Err(_) => None,
        }
    }

    /// Schedules a request with the given parts: the vendor-defined packet
    /// whose message is the command header `[0, command, 0]` followed by
    /// `message` is built, and all of it but its first byte is written to the
    /// device.
    /// The response remembered so far is forgotten.
    pub fn request(&mut self, header: Header, message: &[u8]) -> (w: I2cWrite)
        requires
            message@.len() <= MAX_REQUEST_MESSAGE,
        ensures
            final(self)@ == (old(self)@.0, None::<(Option<Header>, Seq<u8>)>),
            ({
                let p = vendor_defined_packet(old(self)@.0, VENDOR_DEFINED_DEST, VENDOR_FORMAT, VENDOR_DATA,
                    seq![0u8, header.command, 0u8] + message@);
                &&& w.len == p.len() - 1
                &&& w.data@ == (p + Seq::new((REQUEST_BUFFER_SIZE - p.len()) as nat, |i: int| 0u8)).skip(1)
            }),
            w.address == DEST_ID,
            w.len == request_packet(old(self)@.0, header.command, message@).len() - 1,
            w.data@ == (request_packet(old(self)@.0, header.command, message@)
                + Seq::new((REQUEST_BUFFER_SIZE - request_packet(old(self)@.0, header.command, message@).len()) as nat, |i: int| 0u8)).skip(1),
            w.len == 14 + message@.len(),
            w.data@.len() == REQUEST_BUFFER_SIZE - 1,
            w.data@[0] == MCTP_SMBUS_COMMAND_CODE,
            w.data@[1] == 11 + message@.len(),
            w.data@[7] == 0x7E,
            w.data@[8] == 0x14,
            w.data@[9] == 0x14,
            w.data@.subrange(10, 13) == seq![0u8, header.command, 0u8],
            w.data@.subrange(13, 13 + message@.len() as int) == message@,
            forall|i: int| 14 + message@.len() <= i < REQUEST_BUFFER_SIZE - 1 ==> w.data@[i] == 0u8,
    {
        self.last_header = None;
        self.last_data = Vec::new();
        let mut buf: Vec<u8> = Vec::new();
        let mut i: usize = 0;
        while i < REQUEST_BUFFER_SIZE
            invariant
                i <= REQUEST_BUFFER_SIZE,
                buf@ == Seq::new(i as nat, |j: int| 0u8),
            decreases REQUEST_BUFFER_SIZE - i,
        {
            buf.push(0u8);
            i = i + 1;
        }
        let mut msg: Vec<u8> = Vec::new();
        msg.push(0u8);
        msg.push(header.command);
        msg.push(0u8);
        let mut j: usize = 0;
        while j < message.len()
            invariant
                j <= message@.len(),
                msg@ == seq![0u8, header.command, 0u8] + message@.take(j as int),
            decreases message@.len() - j,
        {
            msg.push(message[j]);
            assert(msg@ =~= seq![0u8, header.command, 0u8] + message@.take(j + 1));
            j = j + 1;
        }
        assert(msg@ =~= request_message(header.command, message@));
        let ghost zeros = buf@;
        let len = vendor_defined(
            self.address,
            VENDOR_DEFINED_DEST,
            VENDOR_FORMAT,
            VENDOR_DATA,
            VENDOR_NUMERIC_VALUE,
            msg.as_slice(),
            buf.as_mut_slice(),
        );
        let ghost p = request_packet(old(self)@.0, header.command, message@);
        let ghost m = message@.len() as int;
        assert(zeros.skip(p.len() as int) =~= Seq::new((REQUEST_BUFFER_SIZE - p.len()) as nat, |i: int| 0u8));
        assert(p.subrange(11, 14 + m) == request_message(header.command, message@));
        assert(p.subrange(11, 14) =~= p.subrange(11, 14 + m).subrange(0, 3));
        assert(p.subrange(14, 14 + m) =~= p.subrange(11, 14 + m).subrange(3, 3 + m));
        assert(buf@.skip(1).subrange(10, 13) =~= p.subrange(11, 14));
        assert(buf@.skip(1).subrange(13, 13 + m) =~= p.subrange(14, 14 + m));
        let w = Self::request_write(buf.as_slice(), len);
        match w {
            Some(w) => w,
            None => {
                assert(false);
                I2cWrite { address: 0, data: Vec::new(), len: 0 }
            },
        }
    }

    /// Starts reading a response. Where a response was received since the
    /// last request, it is the most recent one and is given again: its data
    /// is copied to the front of `buf`. Otherwise the SMBus header, four
    /// bytes, is read from the device first.
    pub fn response_begin(&self, buf: &mut [u8]) -> (s: ResponseStep)
        ensures
            s == replay_step(self@.1, old(buf)@.len()),
            final(buf)@ == replay_buffer(self@.1, old(buf)@),
    {
        match self.last_header {
            None => ResponseStep::ReadHeader { address: DEST_ID as usize, len: 4 },
            Some(h) => {
                if self.last_data.len() > buf.len() {
                    ResponseStep::Fault
                } else {
                    Self::copy_to_front(self.last_data.as_slice(), buf);
                    ResponseStep::Done(h)
                }
            },
        }
    }

    /// Decides how much to read once the SMBus header was read into the
    /// shared buffer `shared`: its first three bytes are placed after a zero
    /// destination address, and libmctp reads the packet's length from them.
    pub fn response_length(&self, shared: &[u8]) -> (s: ResponseStep)
        requires
            shared@.len() >= 3,
        ensures
            s == length_step(shared@),
    {
        let mut temp: Vec<u8> = Vec::new();
        temp.push(0u8);
        temp.push(shared[0]);
        temp.push(shared[1]);
        temp.push(shared[2]);
        match packet_length(self.address, temp.as_slice()) {
            Ok(len) => ResponseStep::ReadPacket { address: DEST_ID as usize, len },
            Err(()) => ResponseStep::Fault,
        }
    }

    /// Reads a decoded payload `ret`: on a firmware version answer its data,
    /// from the fifth byte on, is copied to the front of `buf`.
    pub fn handle_payload(ret: &[u8], buf: &mut [u8]) -> (s: ResponseStep)
        ensures
            s == payload_step(ret@, old(buf)@.len()),
            (s == ResponseStep::Done(Some(Header { command: FIRMWARE_VERSION, is_request: false }))) <==> (
                ret@.len() >= 4 && ret@[0] == 0x14 && ret@[1] == 0x14 && ret@[2] == 0
                && ret@.len() - 4 <= old(buf)@.len()),
            s == ResponseStep::Done(Some(firmware_version_response()))
                ==> final(buf)@ == ret@.skip(4) + old(buf)@.skip(ret@.len() - 4),
            s != ResponseStep::Done(Some(firmware_version_response())) ==> final(buf)@ == old(buf)@,
    {
        let n: usize = ret.len();
        if n < 1 {
            return ResponseStep::Fault;
        }
        if ret[0] != 0x14 {
            return ResponseStep::Done(None);
        }
        if n < 2 {
            return ResponseStep::Fault;
        }
        if ret[1] != 0x14 {
            return ResponseStep::Done(None);
        }
        if n < 3 {
            return ResponseStep::Fault;
        }
        if ret[2] != 0 {
            return ResponseStep::Done(None);
        }
        if n < 4 || n - 4 > buf.len() {
            return ResponseStep::Fault;
        }
        let data = vstd::slice::slice_subrange(ret, 4, n);
        assert(data@ =~= ret@.skip(4));
        Self::copy_to_front(data, buf);
        ResponseStep::Done(Some(Header { command: FIRMWARE_VERSION, is_request: false }))
    }

    /// Finishes reading a response of `len` bytes (as `response_length`
    /// decided) once the packet was read into the shared buffer `shared`:
    /// the packet is this device's address followed by the first `len - 1`
    /// bytes of `shared`; libmctp decodes it, and the payload is read by
    /// `handle_payload`. A completed response is remembered until the next
    /// request.
    pub fn response(&mut self, len: usize, shared: &[u8], buf: &mut [u8]) -> (s: ResponseStep)
        requires
            1 <= len <= DEST_BUFFER_SIZE ==> shared@.len() >= len - 1,
        ensures
            s == finish_step(shared@, len as nat, old(buf)@.len()),
            final(buf)@ == finish_buffer(shared@, len as nat, old(buf)@),
            1 <= len <= DEST_BUFFER_SIZE ==> ({
                let p = seq![0x46u8] + shared@.take(len - 1);
                !decode_packet_panics(p) && decoded_payload(p) is Some ==> {
                    let ret = decoded_payload(p)->Some_0;
                    &&& s == payload_step(ret, old(buf)@.len())
                    &&& s == ResponseStep::Done(Some(Header { command: FIRMWARE_VERSION, is_request: false }))
                        ==> final(buf)@ == ret.skip(4) + old(buf)@.skip(ret.len() - 4)
                }
            }),
            final(self)@ == (old(self)@.0, finish_memory(shared@, len as nat, old(buf)@.len(), old(self)@.1)),
    {
        if len > DEST_BUFFER_SIZE || len < 1 {
            return ResponseStep::Fault;
        }
        let mut packet: Vec<u8> = Vec::new();
        packet.push(MY_ID * 2);
        let mut i: usize = 0;
        while i < len - 1
            invariant
                1 <= len <= DEST_BUFFER_SIZE,
                shared@.len() >= len - 1,
                i <= len - 1,
                packet@ == seq![(MY_ID * 2) as u8] + shared@.take(i as int),
            decreases len - 1 - i,
        {
            packet.push(shared[i]);
            assert(packet@ =~= seq![(MY_ID * 2) as u8] + shared@.take(i + 1));
            i = i + 1;
        }
        assert(packet@ == response_packet(shared@, len as nat));
        if decode_packet_would_panic(packet.as_slice()) {
            return ResponseStep::Fault;
        }
        match decode_packet(self.address, packet.as_slice()) {
            None => ResponseStep::Fault,
            Some(ret) => {
                let s = Self::handle_payload(ret.as_slice(), buf);
                match s {
                    ResponseStep::Done(Some(h)) => {
                        let n: usize = ret.len();
                        let data = vstd::slice::slice_subrange(ret.as_slice(), 4, n);
                        self.last_data = vstd::slice::slice_to_vec(data);
                        self.last_header = Some(Some(h));
                        assert(self.last_data@ =~= answer_data(shared@, len as nat));
                    },
                    ResponseStep::Done(None) => {
                        self.last_data = Vec::new();
                        self.last_header = Some(None);
                        assert(self.last_data@ =~= Seq::<u8>::empty());
                    },
                    _ => {},
                }
                s
            },
        }
    }
}

} // verus!
