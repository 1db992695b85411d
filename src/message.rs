//! Received messages: the envelope shared by every datagram, the messages
//! that this codec understands, and the decoder that tells them apart.
use core::ops::RangeInclusive;
use vstd::prelude::*;
use vstd::slice::slice_subrange;

use crate::wire::{be_u16_at, le_u16_at, splice};

verus! {

/// The UDP port on which the protocol is spoken.
pub const PORT: u16 = 0x1936;

/// Opcode of a discovery poll.
pub const OP_POLL: u16 = 0x2000;

/// Opcode of a discovery reply.
pub const OP_POLL_REPLY: u16 = 0x2100;

/// Opcode of a command.
pub const OP_COMMAND: u16 = 0x2400;

/// Opcode of a frame of DMX512 channel data.
pub const OP_DMX: u16 = 0x5000;

/// Opcode of a synchronisation message.
pub const OP_SYNC: u16 = 0x5200;

/// The highest protocol version that this codec understands.
pub const PROTOCOL_VERSION: u16 = 14;

/// The tag that opens every datagram: `"Art-Net"` and a NUL.
pub const MAGIC: [u8; 8] = [0x41, 0x72, 0x74, 0x2d, 0x4e, 0x65, 0x74, 0x00];

/// The bytes of the tag that opens every datagram.
pub open spec fn magic() -> Seq<u8> {
    seq![0x41u8, 0x72u8, 0x74u8, 0x2du8, 0x4eu8, 0x65u8, 0x74u8, 0x00u8]
}

/// Manufacturer code: (low byte, high byte), each read as a character.
pub type ESTAManufacturerCode = (char, char);

/// The manufacturer code held in the two bytes `lo`, `hi`.
pub open spec fn manufacturer_code_of(lo: u8, hi: u8) -> ESTAManufacturerCode {
    (lo as char, hi as char)
}

/// The bytes of the manufacturer code, low one first.
pub open spec fn manufacturer_code_bytes(c: ESTAManufacturerCode) -> Seq<u8> {
    seq![c.0 as u8, c.1 as u8]
}

/// Reads a manufacturer code from the first two bytes of `s`.
fn parse_esta_manufacturer_code(s: &[u8]) -> (r: ESTAManufacturerCode)
    requires
        s@.len() >= 2,
    ensures
        r == manufacturer_code_of(s@[0], s@[1]),
{
    (s[0] as char, s[1] as char)
}

/// Writes the manufacturer code at `buf[pos..pos + 2]`, low byte first.
pub fn put_esta_manufacturer_code(
    buf: &mut [u8],
    pos: usize,
    manufacturer_code: &ESTAManufacturerCode,
)
    requires
        pos + 2 <= old(buf)@.len(),
    ensures
        final(buf)@ == splice(old(buf)@, pos as int, manufacturer_code_bytes(*manufacturer_code)),
{
    buf[pos] = manufacturer_code.0 as u8;
    buf[pos + 1] = manufacturer_code.1 as u8;
    assert(buf@ =~= splice(old(buf)@, pos as int, manufacturer_code_bytes(*manufacturer_code)));
}

/// A decoded message.
#[derive(Debug)]
pub enum Art<'a> {
    Poll(Poll),
    Command(Command<'a>),
    Dmx(Dmx<'a>),
    Sync,
}

/// Why a datagram could not be decoded, or a reply not encoded.
#[derive(Debug, Clone, Copy, PartialEq, Eq, Structural)]
pub enum Error {
    /// The protocol version field exceeds the highest one understood.
    UnsupportedProtocolVersion(u16),
    /// The opcode names no message that this codec decodes.
    UnsupportedOpCode(u16),
    /// The bytes do not have the layout of the message they claim to be.
    ParserError,
    /// The destination buffer cannot hold the encoded message.
    BufferTooSmall,
}

/// One of the 32,768 addresses to which a DMX frame can be directed,
/// made of Net (7 bits), Sub-Net (4 bits) and Universe (4 bits).
#[derive(Debug, Clone, Copy, PartialEq, Eq, Structural)]
pub struct PortAddress {
    pub net: u8,
    pub sub_net: u8,
    pub universe: u8,
}

impl PortAddress {
    /// Each field fits its bit width.
    pub open spec fn wf(self) -> bool {
        self.net < 128 && self.sub_net < 16 && self.universe < 16
    }

    /// Sum of the fields each shifted right (Net by 14, Sub-Net by 7,
    /// Universe not at all). This is not the value sent on the wire.
    pub fn as_index(&self) -> (r: usize)
        ensures
            r == self.sub_net / 128 + self.universe,
            self.wf() ==> r == self.universe,
    {
        let net = self.net;
        let sub_net = self.sub_net;
        assert((net as usize) >> 14usize == 0usize) by (bit_vector);
        assert((sub_net as usize) >> 7usize == (sub_net as usize) / 128usize) by (bit_vector);
        ((self.net as usize) >> 14) + ((self.sub_net as usize) >> 7) + (self.universe as usize)
    }
}

/// The address held in the wire bytes `lo` (Sub-Net in its low nibble,
/// Universe in its high nibble) and `hi` (a spare bit over the 7-bit Net).
pub open spec fn port_address_of(lo: u8, hi: u8) -> PortAddress {
    PortAddress { net: hi % 128, sub_net: lo % 16, universe: lo / 16 }
}

/// Decodes a port address from the first two bytes of `s`.
pub fn parse_port_address(s: &[u8]) -> (r: Result<PortAddress, Error>)
    ensures
        s@.len() < 2 ==> r == Err::<PortAddress, Error>(Error::ParserError),
        s@.len() >= 2 ==> r == Ok::<PortAddress, Error>(port_address_of(s@[0], s@[1])),
        r matches Ok(a) ==> a.wf(),
{
    if s.len() < 2 {
        return Err(Error::ParserError);
    }
    let lo = s[0];
    let hi = s[1];
    Ok(PortAddress { net: hi % 128, sub_net: lo % 16, universe: lo / 16 })
}

/// A discovery poll.
#[derive(Debug)]
pub struct Poll {
    pub flags: u8,
    pub min_diagnostic_priority: u8,
    /// The port addresses the poll targets; all of them when the poll
    /// names no range.
    pub target_port_addresses: RangeInclusive<u16>,
}

/// A poll body is long enough: flags and priority.
pub open spec fn poll_ok(s: Seq<u8>) -> bool {
    s.len() >= 2
}

/// `p` is what the poll body `s` holds.
pub open spec fn poll_matches(p: Poll, s: Seq<u8>) -> bool {
    &&& p.flags == s[0]
    &&& p.min_diagnostic_priority == s[1]
    &&& !p.target_port_addresses@.exhausted
    &&& if s.len() >= 6 {
        &&& p.target_port_addresses@.start == be_u16_at(s, 2)
        &&& p.target_port_addresses@.end == be_u16_at(s, 4)
    } else {
        &&& p.target_port_addresses@.start == 0
        &&& p.target_port_addresses@.end == 65535
    }
}

fn parse_poll(s: &[u8]) -> (r: Result<Poll, Error>)
    ensures
        match r {
            Ok(p) => poll_ok(s@) && poll_matches(p, s@),
            Err(e) => !poll_ok(s@) && e == Error::ParserError,
        },
{
    if s.len() < 2 {
        return Err(Error::ParserError);
    }
    let flags = s[0];
    let min_diagnostic_priority = s[1];
    let target_port_addresses = if s.len() >= 6 {
        let top = 256 * (s[2] as u16) + s[3] as u16;
        let bottom = 256 * (s[4] as u16) + s[5] as u16;
        RangeInclusive::new(top, bottom)
    } else {
        RangeInclusive::new(0u16, 65535u16)
    };
    Ok(Poll { flags, min_diagnostic_priority, target_port_addresses })
}

/// A command: a manufacturer code and an opaque payload.
#[derive(Debug)]
pub struct Command<'a> {
    pub esta_manufacturer_code: ESTAManufacturerCode,
    pub data: &'a [u8],
}

/// A command body holds its header and as many bytes as its length field
/// (little-endian, at offset 2) declares.
pub open spec fn command_ok(s: Seq<u8>) -> bool {
    s.len() >= 4 && le_u16_at(s, 2) <= s.len() - 4
}

/// `c` is what the command body `s` holds.
pub open spec fn command_matches(c: Command, s: Seq<u8>) -> bool {
    &&& c.esta_manufacturer_code == manufacturer_code_of(s[0], s[1])
    &&& c.data@ == s.subrange(4, 4 + le_u16_at(s, 2))
}

fn parse_command<'a>(s: &'a [u8]) -> (r: Result<Command<'a>, Error>)
    ensures
        match r {
            Ok(c) => command_ok(s@) && command_matches(c, s@),
            Err(e) => !command_ok(s@) && e == Error::ParserError,
        },
{
    if s.len() < 4 {
        return Err(Error::ParserError);
    }
    let esta_manufacturer_code = parse_esta_manufacturer_code(s);
    let length = s[2] as usize + 256 * (s[3] as usize);
    if length > s.len() - 4 {
        return Err(Error::ParserError);
    }
    let data = slice_subrange(s, 4, 4 + length);
    Ok(Command { esta_manufacturer_code, data })
}

/// A frame of DMX512 channel data.
#[derive(Debug)]
pub struct Dmx<'a> {
    /// Orders frames that arrive out of order; 0 disables the feature.
    pub sequence: u8,
    /// The physical input port the data came from.
    pub physical: u8,
    /// The universe the frame is directed to.
    pub port_address: PortAddress,
    /// The channel values.
    pub data: &'a [u8],
}

/// A DMX body holds its header and as many bytes as its length field
/// (big-endian, at offset 4) declares.
pub open spec fn dmx_ok(s: Seq<u8>) -> bool {
    s.len() >= 6 && be_u16_at(s, 4) <= s.len() - 6
}

/// `d` is what the DMX body `s` holds.
pub open spec fn dmx_matches(d: Dmx, s: Seq<u8>) -> bool {
    &&& d.sequence == s[0]
    &&& d.physical == s[1]
    &&& d.port_address == port_address_of(s[2], s[3])
    &&& d.data@ == s.subrange(6, 6 + be_u16_at(s, 4))
}

fn parse_dmx<'a>(s: &'a [u8]) -> (r: Result<Dmx<'a>, Error>)
    ensures
        match r {
            Ok(d) => dmx_ok(s@) && dmx_matches(d, s@),
            Err(e) => !dmx_ok(s@) && e == Error::ParserError,
        },
{
    if s.len() < 6 {
        return Err(Error::ParserError);
    }
    let sequence = s[0];
    let physical = s[1];
    let port_address = match parse_port_address(slice_subrange(s, 2, 4)) {
        Ok(a) => a,
        Err(e) => return Err(e),
    };
    let length = 256 * (s[4] as usize) + s[5] as usize;
    if length > s.len() - 6 {
        return Err(Error::ParserError);
    }
    let data = slice_subrange(s, 6, 6 + length);
    Ok(Dmx { sequence, physical, port_address, data })
}

/// A sync body holds its two auxiliary bytes.
pub open spec fn sync_ok(s: Seq<u8>) -> bool {
    s.len() >= 2
}

fn parse_sync(s: &[u8]) -> (r: Result<(), Error>)
    ensures
        r is Ok <==> sync_ok(s@),
        r is Err ==> r == Err::<(), Error>(Error::ParserError),
{
    if s.len() < 2 {
        return Err(Error::ParserError);
    }
    Ok(())
}

/// `s` opens with the magic tag, an opcode and a protocol version.
pub open spec fn envelope_ok(s: Seq<u8>) -> bool {
    s.len() >= 12 && s.subrange(0, 8) == magic()
}

/// The opcode of a datagram whose envelope is whole.
pub open spec fn opcode_of(s: Seq<u8>) -> int {
    le_u16_at(s, 8)
}

/// The protocol version of a datagram whose envelope is whole.
pub open spec fn version_of(s: Seq<u8>) -> int {
    be_u16_at(s, 10)
}

/// What follows the envelope.
pub open spec fn body_of(s: Seq<u8>) -> Seq<u8> {
    s.subrange(12, s.len() as int)
}

/// The opcodes that the decoder turns into messages.
pub open spec fn known_opcode(op: int) -> bool {
    op == OP_POLL || op == OP_COMMAND || op == OP_DMX || op == OP_SYNC
}

/// `r` is the decoding that `s` calls for.
pub open spec fn decodes_to(s: Seq<u8>, r: Result<Art, Error>) -> bool {
    if !envelope_ok(s) {
        r == Err::<Art, Error>(Error::ParserError)
    } else if version_of(s) > PROTOCOL_VERSION {
        r == Err::<Art, Error>(Error::UnsupportedProtocolVersion(version_of(s) as u16))
    } else if !known_opcode(opcode_of(s)) {
        r == Err::<Art, Error>(Error::UnsupportedOpCode(opcode_of(s) as u16))
    } else {
        let body = body_of(s);
        match r {
            Ok(Art::Poll(p)) => opcode_of(s) == OP_POLL && poll_ok(body) && poll_matches(p, body),
            Ok(Art::Command(c)) => opcode_of(s) == OP_COMMAND && command_ok(body)
                && command_matches(c, body),
            Ok(Art::Dmx(d)) => opcode_of(s) == OP_DMX && dmx_ok(body) && dmx_matches(d, body),
            Ok(Art::Sync) => opcode_of(s) == OP_SYNC && sync_ok(body),
            Err(e) => e == Error::ParserError && {
                ||| opcode_of(s) == OP_POLL && !poll_ok(body)
                ||| opcode_of(s) == OP_COMMAND && !command_ok(body)
                ||| opcode_of(s) == OP_DMX && !dmx_ok(body)
                ||| opcode_of(s) == OP_SYNC && !sync_ok(body)
            },
        }
    }
}

/// Decodes one datagram. Payloads of the result are views into `s`.
pub fn from_slice<'a>(s: &'a [u8]) -> (r: Result<Art<'a>, Error>)
    ensures
        decodes_to(s@, r),
        s@.len() < 8 || s@.subrange(0, 8) != magic() ==> r == Err::<Art, Error>(
            Error::ParserError,
        ),
        envelope_ok(s@) && version_of(s@) > PROTOCOL_VERSION ==> r == Err::<Art, Error>(
            Error::UnsupportedProtocolVersion(version_of(s@) as u16),
        ),
        envelope_ok(s@) && version_of(s@) <= PROTOCOL_VERSION && !known_opcode(opcode_of(s@))
            ==> r == Err::<Art, Error>(Error::UnsupportedOpCode(opcode_of(s@) as u16)),
{
    if s.len() < 12 || !has_magic(s) {
        return Err(Error::ParserError);
    }
    let op_code = s[8] as u16 + 256 * (s[9] as u16);
    let protocol_version = 256 * (s[10] as u16) + s[11] as u16;
    if protocol_version > PROTOCOL_VERSION {
        return Err(Error::UnsupportedProtocolVersion(protocol_version));
    }
    let body = slice_subrange(s, 12, s.len());
    if op_code == OP_POLL {
        match parse_poll(body) {
            Ok(p) => Ok(Art::Poll(p)),
            Err(e) => Err(e),
        }
    } else if op_code == OP_COMMAND {
        match parse_command(body) {
            Ok(c) => Ok(Art::Command(c)),
            Err(e) => Err(e),
        }
    } else if op_code == OP_DMX {
        match parse_dmx(body) {
            Ok(d) => Ok(Art::Dmx(d)),
            Err(e) => Err(e),
        }
    } else if op_code == OP_SYNC {
        match parse_sync(body) {
            Ok(()) => Ok(Art::Sync),
            Err(e) => Err(e),
        }
    } else {
        Err(Error::UnsupportedOpCode(op_code))
    }
}

/// Whether `s` opens with the magic tag.
fn has_magic(s: &[u8]) -> (r: bool)
    requires
        s@.len() >= 8,
    ensures
        r == (s@.subrange(0, 8) == magic()),
{
    let r = s[0] == 0x41 && s[1] == 0x72 && s[2] == 0x74 && s[3] == 0x2d && s[4] == 0x4e
        && s[5] == 0x65 && s[6] == 0x74 && s[7] == 0x00;
    assert(r ==> s@.subrange(0, 8) =~= magic());
    assert(s@.subrange(0, 8) == magic() ==> forall|i: int|
        0 <= i < 8 ==> s@[i] == #[trigger] magic()[i]);
    r
}

} // verus!
