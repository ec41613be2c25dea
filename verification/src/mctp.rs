//! The calls into libmctp, which builds and decodes MCTP-over-SMBus packets.
//!
//! libmctp neither sends nor receives anything: it writes the bytes of a
//! packet into a buffer, reads the length field of a packet's SMBus header,
//! and decodes a received packet into its payload.

use vstd::prelude::*;
use libmctp::smbus::MCTPSMBusContext;
use libmctp::smbus_request::MCTPSMBusContextRequest;
use libmctp::vendor_packets::VendorIDFormat;

verus! {

/// The SMBus command code of every MCTP packet.
pub const MCTP_SMBUS_COMMAND_CODE: u8 = 0x0F;

/// The bytes of the vendor-defined request that libmctp builds for a
/// device at `source_addr`, sent to `dest_addr`, carrying `msg` after the
/// vendor ID of the given format and value.
pub uninterp spec fn vendor_defined_packet(
    source_addr: u8,
    dest_addr: u8,
    vendor_format: u8,
    vendor_data: u32,
    msg: Seq<u8>,
) -> Seq<u8>;

/// The payload that libmctp's `decode_packet` finds in `packet`, or `None`
/// where it reports an error.
pub uninterp spec fn decoded_payload(packet: Seq<u8>) -> Option<Seq<u8>>;

/// The length of a vendor-defined packet: four bytes of SMBus header, four of
/// transport header, one of message type, the vendor ID (two bytes for a PCI
/// ID, four for an IANA one), the message, and the packet error code.
pub open spec fn vendor_defined_len(vendor_format: u8, msg_len: nat) -> nat {
    if vendor_format == 0 {
        msg_len + 12
    } else {
        msg_len + 14
    }
}

/// libmctp's `MCTPSMBusContextRequest::vendor_defined`, on the request
/// context of a device at `source_addr`.
///
/// Claimed of it, as its source shows: it fails exactly when the vendor
/// format is neither PCI (0) nor IANA (1), and then leaves `buf` alone;
/// otherwise it writes the packet to the front of `buf`, keeps the rest, and
/// returns the packet's length. The packet starts with the destination
/// address shifted left by one, the SMBus command code and the byte count
/// (the length less four); for a PCI vendor ID, byte 8 is the message type
/// 0x7E, bytes 9 and 10 the vendor ID, most significant byte first, and the
/// message follows. The remaining bytes (the headers' other fields and the
/// packet error code) are left to the name `vendor_defined_packet`.
#[verifier::external_body]
pub(crate) fn vendor_defined(
    source_addr: u8,
    dest_addr: u8,
    vendor_format: u8,
    vendor_data: u32,
    numeric_value: u16,
    msg: &[u8],
    buf: &mut [u8],
) -> (r: Result<usize, ()>)
    requires
        (vendor_format == 0 || vendor_format == 1) ==> vendor_defined_len(vendor_format, msg@.len()) <= old(buf)@.len(),
        msg@.len() + 14 <= 255,
    ensures
        (vendor_format == 0 || vendor_format == 1) <==> r is Ok,
        r is Err ==> final(buf)@ == old(buf)@,
        r matches Ok(n) ==> {
            let p = vendor_defined_packet(source_addr, dest_addr, vendor_format, vendor_data, msg@);
            &&& n == p.len()
            &&& p.len() == vendor_defined_len(vendor_format, msg@.len())
            &&& final(buf)@ == p + old(buf)@.skip(n as int)
            &&& p[0] == (dest_addr % 128) * 2
            &&& p[1] == MCTP_SMBUS_COMMAND_CODE
            &&& p[2] == n - 4
            &&& vendor_format == 0 ==> {
                &&& p[8] == 0x7Eu8
                &&& p[9] == (vendor_data % 65536) / 256
                &&& p[10] == vendor_data % 256
                &&& p.subrange(11, 11 + msg@.len() as int) == msg@
            }
        },
{
    let request = MCTPSMBusContextRequest::new(source_addr);
    let format = VendorIDFormat { format: vendor_format, data: vendor_data, numeric_value };
    request.vendor_defined(dest_addr, &format, msg, buf)
}

/// libmctp's `MCTPSMBusContext::get_length`, on a context for a device at
/// `address`.
///
/// Claimed of it, as its source shows: when the second byte of the packet is
/// the SMBus command code of MCTP, the length is the byte count (the third
/// byte) plus four; otherwise it fails. It reads only the first three bytes.
#[verifier::external_body]
pub(crate) fn packet_length(address: u8, packet: &[u8]) -> (r: Result<usize, ()>)
    requires
        packet@.len() >= 3,
    ensures
        r == (if packet@[1] == MCTP_SMBUS_COMMAND_CODE {
            Ok::<usize, ()>((packet@[2] + 4) as usize)
        } else {
            Err::<usize, ()>(())
        }),
{
    let ctx = MCTPSMBusContext::new(address, &[], &[]);
    match ctx.get_length(packet) {
        Ok(n) => Ok(n),
        Err(_) => Err(()),
    }
}

/// libmctp's `MCTPSMBusContext::decode_packet`, on a context for a device at
/// `address`: the payload of the packet, copied out, or `None` where it
/// returns an error. What the payload is, is left to the name
/// `decoded_payload`; its source shows that it reads nothing of the context.
#[verifier::external_body]
pub(crate) fn decode_packet(address: u8, packet: &[u8]) -> (r: Option<Vec<u8>>)
    requires
        !decode_packet_panics(packet@),
    ensures
        match r {
            Some(v) => decoded_payload(packet@) == Some(v@),
            None => decoded_payload(packet@) is None,
        },
{
    let ctx = MCTPSMBusContext::new(address, &[], &[]);
    match ctx.decode_packet(packet) {
        Ok((_, payload)) => Some(payload.to_vec()),
        Err(_) => None,
    }
}

/// Whether the four transport and message-type header bytes that
/// `decode_packet` checks are acceptable: reserved bits clear, header
/// version 1, no integrity check, and a known message type.
pub open spec fn headers_accepted(p: Seq<u8>) -> bool {
    &&& p[4] / 16 == 0
    &&& p[4] % 16 == 1
    &&& p[8] / 128 == 0
    &&& message_type(p) == 0 || message_type(p) == 5 || message_type(p) == 6
        || message_type(p) == 0x7E || message_type(p) == 0x7F
}

/// The message type of a packet.
pub open spec fn message_type(p: Seq<u8>) -> u8 {
    (p[8] % 128) as u8
}

/// Whether `decode_packet` panics on a control message: on a short packet,
/// on a request whose command code has no known data length (9 and above),
/// on a response with an unknown completion code (above 5), and on a
/// successful response whose command code has no known data length (7, and
/// 10 and above).
pub open spec fn control_decode_panics(p: Seq<u8>) -> bool {
    ||| p.len() < 11
    ||| p[9] >= 128 && (p[10] >= 9 || p.len() < 12)
    ||| p[9] < 128 && (p.len() < 12 || p[11] > 5 || (p[11] == 0 && (p[10] == 7 || p[10] >= 10
        || p.len() < 13)))
}

/// The packets that `decode_packet` is not handed: those on which libmctp's
/// `decode_packet` panics (shorter than its headers, or with accepted
/// headers and a control body that is cut short or uses a command it leaves
/// unimplemented), and the non-control packets too short to hold their
/// payload, on which it panics unless their packet error code is wrong, and
/// otherwise fails.
pub open spec fn decode_packet_panics(p: Seq<u8>) -> bool {
    ||| p.len() < 9
    ||| headers_accepted(p) && {
        let t: u8 = message_type(p);
        ||| t == 0 && control_decode_panics(p)
        ||| (t == 0x7E || t == 5 || t == 6) && p.len() < 10
        ||| t == 0x7F && p.len() < 11
    }
}

/// Tests whether `decode_packet` would panic on `p`.
pub fn decode_packet_would_panic(p: &[u8]) -> (b: bool)
    ensures
        b == decode_packet_panics(p@),
{
    let n: usize = p.len();
    if n < 9 {
        return true;
    }
    let t: u8 = p[8] % 128;
    let accepted = p[4] / 16 == 0 && p[4] % 16 == 1 && p[8] / 128 == 0
        && (t == 0 || t == 5 || t == 6 || t == 0x7E || t == 0x7F);
    if !accepted {
        return false;
    }
    if t == 0 {
        if n < 11 {
            true
        } else if p[9] >= 128 {
            p[10] >= 9 || n < 12
        } else {
            n < 12 || p[11] > 5 || (p[11] == 0 && (p[10] == 7 || p[10] >= 10 || n < 13))
        }
    } else if t == 0x7F {
        n < 11
    } else {
        n < 10
    }
}

} // verus!
