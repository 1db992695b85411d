//! The discovery reply: a fixed-layout record that a node sends in answer
//! to a poll.
use vstd::prelude::*;
use vstd::string::StringSliceAdditionalSpecFns;

use crate::message::{
    magic, manufacturer_code_bytes, MAGIC, put_esta_manufacturer_code, ESTAManufacturerCode, Error,
    OP_POLL_REPLY,
};
use crate::wire::{
    be_bytes, be_u16_at, le_bytes, le_u16_at, lemma_be_round_trip, lemma_le_round_trip,
    lemma_padded, lemma_splice_append, padded, put_padded_str, put_slice, put_u16_be, put_u16_le,
    put_u8, splice,
};

verus! {

/// Number of bytes that an encoded reply takes.
pub const POLL_REPLY_LEN: usize = 239;

/// Width of the short name slot.
pub const SHORT_NAME_LEN: usize = 18;

/// Width of the long name slot.
pub const LONG_NAME_LEN: usize = 64;

/// Width of the node report slot.
pub const NODE_REPORT_LEN: usize = 64;

/// Status register value that signals normal indicator mode.
pub const STATUS1_NORMAL_INDICATORS: u8 = 0b1100_0000;

/// The reply to a discovery poll. Text fields are meant to be ASCII.
#[derive(Debug)]
pub struct PollReply<'a> {
    pub ip_address: &'a [u8; 4],
    pub port: u16,
    pub firmware_version: u16,
    /// Bits 14-8 of the 15-bit Port-Address, in the bottom 7 bits.
    pub net_switch: u8,
    /// Bits 7-4 of the 15-bit Port-Address, in the bottom 4 bits.
    pub sub_switch: u8,
    /// Equipment vendor and feature set; bit 15 marks extended features.
    pub oem: u16,
    /// Firmware version of the User Bios Extension Area, zero if absent.
    pub ubea_version: u8,
    /// General status register: indicator state in bits 7-6,
    /// programming authority in bits 5-4, boot source in bit 2,
    /// RDM capability in bit 1, UBEA presence in bit 0.
    pub status1: u8,
    pub esta_manufacturer_code: ESTAManufacturerCode,
    pub short_name: &'a str,
    pub long_name: &'a str,
    pub node_report: &'a str,
    pub num_ports: u16,
    pub port_types: &'a [u8; 4],
    pub good_input: &'a [u8; 4],
    pub good_output_a: &'a [u8; 4],
    pub swin: &'a [u8; 4],
    pub swout: &'a [u8; 4],
    pub acn_priority: u8,
    pub sw_macro: u8,
    pub sw_remote: u8,
    pub style: u8,
    pub mac_address: &'a [u8; 6],
    pub bind_ip_address: &'a [u8; 4],
    pub bind_index: u8,
    pub status2: u8,
    pub good_output_b: &'a [u8; 4],
    pub status3: u8,
    /// RDMnet and LLRP default responder UID.
    pub default_responder_uid: &'a [u8; 6],
}

/// `n` zero bytes.
pub open spec fn zeros(n: nat) -> Seq<u8> {
    Seq::new(n, |i: int| 0u8)
}

/// The header of an encoded reply, up to the manufacturer code.
pub open spec fn poll_reply_head(r: PollReply) -> Seq<u8> {
    magic() + le_bytes(OP_POLL_REPLY) + r.ip_address@ + le_bytes(r.port) + be_bytes(
        r.firmware_version,
    ) + seq![r.net_switch, r.sub_switch] + be_bytes(r.oem) + seq![r.ubea_version, r.status1]
        + manufacturer_code_bytes(r.esta_manufacturer_code)
}

/// The three text slots of an encoded reply.
pub open spec fn poll_reply_names(r: PollReply) -> Seq<u8> {
    padded(r.short_name.spec_bytes(), SHORT_NAME_LEN as nat) + padded(
        r.long_name.spec_bytes(),
        LONG_NAME_LEN as nat,
    ) + padded(r.node_report.spec_bytes(), NODE_REPORT_LEN as nat)
}

/// The port block and the rest of an encoded reply.
pub open spec fn poll_reply_tail(r: PollReply) -> Seq<u8> {
    be_bytes(r.num_ports) + r.port_types@ + r.good_input@ + r.good_output_a@ + r.swin@
        + r.swout@ + seq![r.acn_priority, r.sw_macro, r.sw_remote] + zeros(3) + seq![r.style]
        + r.mac_address@ + r.bind_ip_address@ + seq![r.bind_index, r.status2] + r.good_output_b@
        + seq![r.status3] + r.default_responder_uid@ + zeros(15)
}

/// The encoding of `r`.
pub open spec fn poll_reply_bytes(r: PollReply) -> Seq<u8> {
    poll_reply_head(r) + poll_reply_names(r) + poll_reply_tail(r)
}

/// Fills `buf[pos..pos + n]` with zeros.
fn put_zeros(buf: &mut [u8], pos: usize, n: usize)
    requires
        pos + n <= old(buf)@.len(),
    ensures
        final(buf)@ == splice(old(buf)@, pos as int, zeros(n as nat)),
{
    let blen = buf.len();
    let mut i: usize = 0;
    while i < n
        invariant
            i <= n,
            pos + n <= blen,
            buf@.len() == blen,
            blen == old(buf)@.len(),
            forall|j: int| 0 <= j < pos ==> buf@[j] == old(buf)@[j],
            forall|j: int| pos <= j < pos + i ==> buf@[j] == 0u8,
            forall|j: int| pos + i <= j < buf@.len() ==> buf@[j] == old(buf)@[j],
        decreases n - i,
    {
        buf[pos + i] = 0;
        i = i + 1;
    }
    assert(buf@ =~= splice(old(buf)@, pos as int, zeros(n as nat)));
}

impl<'a> PollReply<'a> {
    /// Writes the reply at the start of `buf` and returns the number of
    /// bytes written. A buffer too small to hold it is left untouched.
    #[verifier::rlimit(50)]
    pub fn serialize(&self, buf: &mut [u8]) -> (r: Result<usize, Error>)
        ensures
            old(buf)@.len() < POLL_REPLY_LEN ==> r == Err::<usize, Error>(Error::BufferTooSmall)
                && final(buf)@ == old(buf)@,
            old(buf)@.len() >= POLL_REPLY_LEN ==> r == Ok::<usize, Error>(POLL_REPLY_LEN)
                && final(buf)@ == poll_reply_bytes(*self) + old(buf)@.subrange(
                POLL_REPLY_LEN as int,
                old(buf)@.len() as int,
            ),
    {
        if buf.len() < POLL_REPLY_LEN {
            return Err(Error::BufferTooSmall);
        }
        let ghost b0 = buf@;
        let ghost mut written: Seq<u8> = Seq::empty();
        proof {
            lemma_padded(self.short_name.spec_bytes(), SHORT_NAME_LEN as nat);
            lemma_padded(self.long_name.spec_bytes(), LONG_NAME_LEN as nat);
            lemma_padded(self.node_report.spec_bytes(), NODE_REPORT_LEN as nat);
            assert(splice(b0, 0, written) =~= b0);
        }
        let mut pos: usize = 0;
        put_slice(buf, pos, MAGIC.as_slice());
        proof {
            lemma_splice_append(b0, written, magic());
            written = written + magic();
        }
        pos = pos + 8;
        put_u16_le(buf, pos, OP_POLL_REPLY);
        proof {
            lemma_splice_append(b0, written, le_bytes(OP_POLL_REPLY));
            written = written + le_bytes(OP_POLL_REPLY);
        }
        pos = pos + 2;
        put_slice(buf, pos, self.ip_address.as_slice());
        proof {
            lemma_splice_append(b0, written, self.ip_address@);
            written = written + self.ip_address@;
        }
        pos = pos + 4;
        put_u16_le(buf, pos, self.port);
        proof {
            lemma_splice_append(b0, written, le_bytes(self.port));
            written = written + le_bytes(self.port);
        }
        pos = pos + 2;
        put_u16_be(buf, pos, self.firmware_version);
        proof {
            lemma_splice_append(b0, written, be_bytes(self.firmware_version));
            written = written + be_bytes(self.firmware_version);
        }
        pos = pos + 2;
        put_u8(buf, pos, self.net_switch);
        proof {
            lemma_splice_append(b0, written, seq![self.net_switch]);
            written = written + seq![self.net_switch];
        }
        pos = pos + 1;
        put_u8(buf, pos, self.sub_switch);
        proof {
            lemma_splice_append(b0, written, seq![self.sub_switch]);
            written = written + seq![self.sub_switch];
        }
        pos = pos + 1;
        put_u16_be(buf, pos, self.oem);
        proof {
            lemma_splice_append(b0, written, be_bytes(self.oem));
            written = written + be_bytes(self.oem);
        }
        pos = pos + 2;
        put_u8(buf, pos, self.ubea_version);
        proof {
            lemma_splice_append(b0, written, seq![self.ubea_version]);
            written = written + seq![self.ubea_version];
        }
        pos = pos + 1;
        put_u8(buf, pos, self.status1);
        proof {
            lemma_splice_append(b0, written, seq![self.status1]);
            written = written + seq![self.status1];
        }
        pos = pos + 1;
        put_esta_manufacturer_code(buf, pos, &self.esta_manufacturer_code);
        proof {
            lemma_splice_append(b0, written, manufacturer_code_bytes(self.esta_manufacturer_code));
            written = written + manufacturer_code_bytes(self.esta_manufacturer_code);
        }
        pos = pos + 2;
        put_padded_str(buf, pos, SHORT_NAME_LEN, self.short_name);
        proof {
            lemma_splice_append(b0, written, padded(self.short_name.spec_bytes(), SHORT_NAME_LEN as nat));
            written = written + padded(self.short_name.spec_bytes(), SHORT_NAME_LEN as nat);
        }
        pos = pos + 18;
        put_padded_str(buf, pos, LONG_NAME_LEN, self.long_name);
        proof {
            lemma_splice_append(b0, written, padded(self.long_name.spec_bytes(), LONG_NAME_LEN as nat));
            written = written + padded(self.long_name.spec_bytes(), LONG_NAME_LEN as nat);
        }
        pos = pos + 64;
        put_padded_str(buf, pos, NODE_REPORT_LEN, self.node_report);
        proof {
            lemma_splice_append(b0, written, padded(self.node_report.spec_bytes(), NODE_REPORT_LEN as nat));
            written = written + padded(self.node_report.spec_bytes(), NODE_REPORT_LEN as nat);
        }
        pos = pos + 64;
        put_u16_be(buf, pos, self.num_ports);
        proof {
            lemma_splice_append(b0, written, be_bytes(self.num_ports));
            written = written + be_bytes(self.num_ports);
        }
        pos = pos + 2;
        put_slice(buf, pos, self.port_types.as_slice());
        proof {
            lemma_splice_append(b0, written, self.port_types@);
            written = written + self.port_types@;
        }
        pos = pos + 4;
        put_slice(buf, pos, self.good_input.as_slice());
        proof {
            lemma_splice_append(b0, written, self.good_input@);
            written = written + self.good_input@;
        }
        pos = pos + 4;
        put_slice(buf, pos, self.good_output_a.as_slice());
        proof {
            lemma_splice_append(b0, written, self.good_output_a@);
            written = written + self.good_output_a@;
        }
        pos = pos + 4;
        put_slice(buf, pos, self.swin.as_slice());
        proof {
            lemma_splice_append(b0, written, self.swin@);
            written = written + self.swin@;
        }
        pos = pos + 4;
        put_slice(buf, pos, self.swout.as_slice());
        proof {
            lemma_splice_append(b0, written, self.swout@);
            written = written + self.swout@;
        }
        pos = pos + 4;
        put_u8(buf, pos, self.acn_priority);
        proof {
            lemma_splice_append(b0, written, seq![self.acn_priority]);
            written = written + seq![self.acn_priority];
        }
        pos = pos + 1;
        put_u8(buf, pos, self.sw_macro);
        proof {
            lemma_splice_append(b0, written, seq![self.sw_macro]);
            written = written + seq![self.sw_macro];
        }
        pos = pos + 1;
        put_u8(buf, pos, self.sw_remote);
        proof {
            lemma_splice_append(b0, written, seq![self.sw_remote]);
            written = written + seq![self.sw_remote];
        }
        pos = pos + 1;
        put_zeros(buf, pos, 3);
        proof {
            lemma_splice_append(b0, written, zeros(3));
            written = written + zeros(3);
        }
        pos = pos + 3;
        put_u8(buf, pos, self.style);
        proof {
            lemma_splice_append(b0, written, seq![self.style]);
            written = written + seq![self.style];
        }
        pos = pos + 1;
        put_slice(buf, pos, self.mac_address.as_slice());
        proof {
            lemma_splice_append(b0, written, self.mac_address@);
            written = written + self.mac_address@;
        }
        pos = pos + 6;
        put_slice(buf, pos, self.bind_ip_address.as_slice());
        proof {
            lemma_splice_append(b0, written, self.bind_ip_address@);
            written = written + self.bind_ip_address@;
        }
        pos = pos + 4;
        put_u8(buf, pos, self.bind_index);
        proof {
            lemma_splice_append(b0, written, seq![self.bind_index]);
            written = written + seq![self.bind_index];
        }
        pos = pos + 1;
        put_u8(buf, pos, self.status2);
        proof {
            lemma_splice_append(b0, written, seq![self.status2]);
            written = written + seq![self.status2];
        }
        pos = pos + 1;
        put_slice(buf, pos, self.good_output_b.as_slice());
        proof {
            lemma_splice_append(b0, written, self.good_output_b@);
            written = written + self.good_output_b@;
        }
        pos = pos + 4;
        put_u8(buf, pos, self.status3);
        proof {
            lemma_splice_append(b0, written, seq![self.status3]);
            written = written + seq![self.status3];
        }
        pos = pos + 1;
        put_slice(buf, pos, self.default_responder_uid.as_slice());
        proof {
            lemma_splice_append(b0, written, self.default_responder_uid@);
            written = written + self.default_responder_uid@;
        }
        pos = pos + 6;
        put_zeros(buf, pos, 15);
        proof {
            lemma_splice_append(b0, written, zeros(15));
            written = written + zeros(15);
        }
        pos = pos + 15;
        assert(written =~= poll_reply_bytes(*self));
        Ok(pos)
    }
}

impl<'a> Default for PollReply<'a> {
    /// Every field zero or empty, but the status register, which signals
    /// normal indicator mode.
    fn default() -> (r: Self)
        ensures
            r.ip_address@ == zeros(4),
            r.port == 0,
            r.firmware_version == 0,
            r.net_switch == 0,
            r.sub_switch == 0,
            r.oem == 0,
            r.ubea_version == 0,
            r.status1 == STATUS1_NORMAL_INDICATORS,
            r.esta_manufacturer_code == ('\0', '\0'),
            r.short_name@.len() == 0,
            r.long_name@.len() == 0,
            r.node_report@.len() == 0,
            r.num_ports == 0,
            r.port_types@ == zeros(4),
            r.good_input@ == zeros(4),
            r.good_output_a@ == zeros(4),
            r.swin@ == zeros(4),
            r.swout@ == zeros(4),
            r.acn_priority == 0,
            r.sw_macro == 0,
            r.sw_remote == 0,
            r.style == 0,
            r.mac_address@ == zeros(6),
            r.bind_ip_address@ == zeros(4),
            r.bind_index == 0,
            r.status2 == 0,
            r.good_output_b@ == zeros(4),
            r.status3 == 0,
            r.default_responder_uid@ == zeros(6),
    {
        let r = PollReply {
            ip_address: &[0, 0, 0, 0],
            port: 0,
            firmware_version: 0,
            net_switch: 0,
            sub_switch: 0,
            oem: 0,
            ubea_version: 0,
            status1: STATUS1_NORMAL_INDICATORS,
            esta_manufacturer_code: ('\0', '\0'),
            short_name: "",
            long_name: "",
            node_report: "",
            num_ports: 0,
            port_types: &[0, 0, 0, 0],
            good_input: &[0, 0, 0, 0],
            good_output_a: &[0, 0, 0, 0],
            swin: &[0, 0, 0, 0],
            swout: &[0, 0, 0, 0],
            acn_priority: 0,
            sw_macro: 0,
            sw_remote: 0,
            style: 0,
            mac_address: &[0, 0, 0, 0, 0, 0],
            bind_ip_address: &[0, 0, 0, 0],
            bind_index: 0,
            status2: 0,
            good_output_b: &[0, 0, 0, 0],
            status3: 0,
            default_responder_uid: &[0, 0, 0, 0, 0, 0],
        };
        proof {
            reveal_strlit("");
        }
        assert(r.ip_address@ =~= zeros(4));
        assert(r.port_types@ =~= zeros(4));
        assert(r.good_input@ =~= zeros(4));
        assert(r.good_output_a@ =~= zeros(4));
        assert(r.swin@ =~= zeros(4));
        assert(r.swout@ =~= zeros(4));
        assert(r.mac_address@ =~= zeros(6));
        assert(r.bind_ip_address@ =~= zeros(4));
        assert(r.good_output_b@ =~= zeros(4));
        assert(r.default_responder_uid@ =~= zeros(6));
        r
    }
}

/// Every field of a reply can be read back from its fixed offset in the
/// encoding: the integers in their byte order, the byte arrays as they
/// are, the text fields as their padded slots, the spare bytes as zeros.
pub proof fn lemma_poll_reply_offsets(r: PollReply)
    ensures
        ({
            let b = poll_reply_bytes(r);
            &&& b.len() == POLL_REPLY_LEN
            &&& b.subrange(0, 8) == magic()
            &&& le_u16_at(b, 8) == OP_POLL_REPLY
            &&& b.subrange(10, 14) == r.ip_address@
            &&& le_u16_at(b, 14) == r.port
            &&& be_u16_at(b, 16) == r.firmware_version
            &&& b[18] == r.net_switch
            &&& b[19] == r.sub_switch
            &&& be_u16_at(b, 20) == r.oem
            &&& b[22] == r.ubea_version
            &&& b[23] == r.status1
            &&& b[24] == r.esta_manufacturer_code.0 as u8
            &&& b[25] == r.esta_manufacturer_code.1 as u8
            &&& b.subrange(26, 44) == padded(r.short_name.spec_bytes(), 18)
            &&& b.subrange(44, 108) == padded(r.long_name.spec_bytes(), 64)
            &&& b.subrange(108, 172) == padded(r.node_report.spec_bytes(), 64)
            &&& be_u16_at(b, 172) == r.num_ports
            &&& b.subrange(174, 178) == r.port_types@
            &&& b.subrange(178, 182) == r.good_input@
            &&& b.subrange(182, 186) == r.good_output_a@
            &&& b.subrange(186, 190) == r.swin@
            &&& b.subrange(190, 194) == r.swout@
            &&& b[194] == r.acn_priority
            &&& b[195] == r.sw_macro
            &&& b[196] == r.sw_remote
            &&& b.subrange(197, 200) == zeros(3)
            &&& b[200] == r.style
            &&& b.subrange(201, 207) == r.mac_address@
            &&& b.subrange(207, 211) == r.bind_ip_address@
            &&& b[211] == r.bind_index
            &&& b[212] == r.status2
            &&& b.subrange(213, 217) == r.good_output_b@
            &&& b[217] == r.status3
            &&& b.subrange(218, 224) == r.default_responder_uid@
            &&& b.subrange(224, 239) == zeros(15)
        }),
{
    let b = poll_reply_bytes(r);
    let head = poll_reply_head(r);
    let names = poll_reply_names(r);
    let tail = poll_reply_tail(r);
    lemma_padded(r.short_name.spec_bytes(), 18);
    lemma_padded(r.long_name.spec_bytes(), 64);
    lemma_padded(r.node_report.spec_bytes(), 64);
    lemma_le_round_trip(OP_POLL_REPLY);
    lemma_le_round_trip(r.port);
    lemma_be_round_trip(r.firmware_version);
    lemma_be_round_trip(r.oem);
    lemma_be_round_trip(r.num_ports);
    assert(head.len() == 26);
    assert(names.len() == 146);
    assert(tail.len() == 67);
    assert(b.subrange(0, 26) =~= head);
    assert(b.subrange(26, 172) =~= names);
    assert(b.subrange(172, 239) =~= tail);
    assert(b.subrange(0, 8) =~= magic());
    assert(b.subrange(10, 14) =~= r.ip_address@);
    assert(b.subrange(26, 44) =~= padded(r.short_name.spec_bytes(), 18));
    assert(b.subrange(44, 108) =~= padded(r.long_name.spec_bytes(), 64));
    assert(b.subrange(108, 172) =~= padded(r.node_report.spec_bytes(), 64));
    assert(b.subrange(174, 178) =~= r.port_types@);
    assert(b.subrange(178, 182) =~= r.good_input@);
    assert(b.subrange(182, 186) =~= r.good_output_a@);
    assert(b.subrange(186, 190) =~= r.swin@);
    assert(b.subrange(190, 194) =~= r.swout@);
    assert(b.subrange(197, 200) =~= zeros(3));
    assert(b.subrange(201, 207) =~= r.mac_address@);
    assert(b.subrange(207, 211) =~= r.bind_ip_address@);
    assert(b.subrange(213, 217) =~= r.good_output_b@);
    assert(b.subrange(218, 224) =~= r.default_responder_uid@);
    assert(b.subrange(224, 239) =~= zeros(15));
}

} // verus!
