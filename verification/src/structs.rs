//! The structures that cross the bus, each with its encoding.
//!
//! Every structure has a fixed layout. `wire` states the bytes that stand
//! for a value; `to_bytes` produces them and `from_bytes` reads them back.
//! Integers are laid out least significant byte first. The event structures
//! arrive with their integers most significant byte first: `from_bytes`
//! followed by `byteswap` gives their values.

use crate::bytes::{
    bits_of_i32, get_bytes, get_u16, get_u32, i32_bits, i32_from_bits, le16, le32,
    lemma_i32_bits, lemma_i32_of_bits, lemma_le16_injective, lemma_le32_injective, lemma_swapped16,
    lemma_swapped32, put_bytes, put_u16, put_u32, swap16, swap32, swapped16, swapped32,
};
use crate::events::Event;
use vstd::prelude::*;

verus! {

/// Whether bit `bit` of `byte` is one.
pub open spec fn bit_is_set(byte: u8, bit: u8) -> bool {
    (byte >> bit) & 1 == 1
}

/// `byte` with its bit `bit` made zero.
pub open spec fn bit_cleared(byte: u8, bit: u8) -> u8 {
    byte & !(1u8 << bit)
}

/// Clearing one bit of a byte clears that bit and no other.
pub proof fn lemma_bit_cleared(byte: u8, bit: u8, other: u8)
    by (bit_vector)
    requires
        bit < 8,
        other < 8,
    ensures
        bit_is_set(bit_cleared(byte, bit), other) <==> bit_is_set(byte, other) && other != bit,
{
}

/// What the firmware keeps in shared memory to describe its own state.
#[derive(Debug, Clone, Copy, PartialEq, Eq)]
pub struct SharedMemData {
    /// State flags.
    pub flags: u32,
    /// Address of the trap record, once the firmware has trapped.
    pub trap_addr: u32,
    /// Address of the text of a failed assertion.
    pub assert_exp_addr: u32,
    /// Address of the file name of a failed assertion.
    pub assert_file_addr: u32,
    /// Line of a failed assertion.
    pub assert_line: u32,
    /// Address of the firmware's console.
    pub console_addr: u32,
    /// Address of the message trace.
    pub msgtrace_addr: u32,
    /// Firmware identifier.
    pub fwid: u32,
}

impl SharedMemData {
    /// Size of the encoding in bytes.
    pub const SIZE: usize = 32;

    /// The bytes that stand for this value.
    pub open spec fn wire(self) -> Seq<u8> {
        le32(self.flags)
            + le32(self.trap_addr)
            + le32(self.assert_exp_addr)
            + le32(self.assert_file_addr)
            + le32(self.assert_line)
            + le32(self.console_addr)
            + le32(self.msgtrace_addr)
            + le32(self.fwid)
    }

    /// Encodes this value.
    pub fn to_bytes(&self) -> (r: [u8; 32])
        ensures
            r@ == self.wire(),
    {
        let mut r: [u8; 32] = [0; 32];
        put_u32(&mut r, 0, self.flags);
        put_u32(&mut r, 4, self.trap_addr);
        put_u32(&mut r, 8, self.assert_exp_addr);
        put_u32(&mut r, 12, self.assert_file_addr);
        put_u32(&mut r, 16, self.assert_line);
        put_u32(&mut r, 20, self.console_addr);
        put_u32(&mut r, 24, self.msgtrace_addr);
        put_u32(&mut r, 28, self.fwid);
        assert(r@ =~= self.wire());
        r
    }

    /// Decodes a value.
    pub fn from_bytes(bytes: &[u8; 32]) -> (r: Self)
        ensures
            r.wire() == bytes@,
    {
        let r = SharedMemData {
            flags: get_u32(bytes, 0),
            trap_addr: get_u32(bytes, 4),
            assert_exp_addr: get_u32(bytes, 8),
            assert_file_addr: get_u32(bytes, 12),
            assert_line: get_u32(bytes, 16),
            console_addr: get_u32(bytes, 20),
            msgtrace_addr: get_u32(bytes, 24),
            fwid: get_u32(bytes, 28),
        };
        assert(r.wire() =~= bytes@);
        r
    }

    /// No two values have the same encoding: what `from_bytes` reads out of
    /// the bytes of a value is that value.
    pub proof fn lemma_wire_injective(a: Self, b: Self)
        requires
            a.wire() == b.wire(),
        ensures
            a == b,
    {
        assert(le32(a.flags) =~= a.wire().subrange(0, 4));
        assert(le32(b.flags) =~= b.wire().subrange(0, 4));
        lemma_le32_injective(a.flags, b.flags);
        assert(le32(a.trap_addr) =~= a.wire().subrange(4, 8));
        assert(le32(b.trap_addr) =~= b.wire().subrange(4, 8));
        lemma_le32_injective(a.trap_addr, b.trap_addr);
        assert(le32(a.assert_exp_addr) =~= a.wire().subrange(8, 12));
        assert(le32(b.assert_exp_addr) =~= b.wire().subrange(8, 12));
        lemma_le32_injective(a.assert_exp_addr, b.assert_exp_addr);
        assert(le32(a.assert_file_addr) =~= a.wire().subrange(12, 16));
        assert(le32(b.assert_file_addr) =~= b.wire().subrange(12, 16));
        lemma_le32_injective(a.assert_file_addr, b.assert_file_addr);
        assert(le32(a.assert_line) =~= a.wire().subrange(16, 20));
        assert(le32(b.assert_line) =~= b.wire().subrange(16, 20));
        lemma_le32_injective(a.assert_line, b.assert_line);
        assert(le32(a.console_addr) =~= a.wire().subrange(20, 24));
        assert(le32(b.console_addr) =~= b.wire().subrange(20, 24));
        lemma_le32_injective(a.console_addr, b.console_addr);
        assert(le32(a.msgtrace_addr) =~= a.wire().subrange(24, 28));
        assert(le32(b.msgtrace_addr) =~= b.wire().subrange(24, 28));
        lemma_le32_injective(a.msgtrace_addr, b.msgtrace_addr);
        assert(le32(a.fwid) =~= a.wire().subrange(28, 32));
        assert(le32(b.fwid) =~= b.wire().subrange(28, 32));
        lemma_le32_injective(a.fwid, b.fwid);
    }
}

/// The ring buffer of the firmware's console log.
#[derive(Debug, Clone, Copy, PartialEq, Eq)]
pub struct SharedMemLog {
    /// Address of the buffer.
    pub buf: u32,
    /// Size of the buffer in bytes.
    pub buf_size: u32,
    /// Write index of the firmware.
    pub idx: u32,
    /// Read index.
    pub out_idx: u32,
}

impl SharedMemLog {
    /// Size of the encoding in bytes.
    pub const SIZE: usize = 16;

    /// The bytes that stand for this value.
    pub open spec fn wire(self) -> Seq<u8> {
        le32(self.buf)
            + le32(self.buf_size)
            + le32(self.idx)
            + le32(self.out_idx)
    }

    /// Encodes this value.
    pub fn to_bytes(&self) -> (r: [u8; 16])
        ensures
            r@ == self.wire(),
    {
        let mut r: [u8; 16] = [0; 16];
        put_u32(&mut r, 0, self.buf);
        put_u32(&mut r, 4, self.buf_size);
        put_u32(&mut r, 8, self.idx);
        put_u32(&mut r, 12, self.out_idx);
        assert(r@ =~= self.wire());
        r
    }

    /// Decodes a value.
    pub fn from_bytes(bytes: &[u8; 16]) -> (r: Self)
        ensures
            r.wire() == bytes@,
    {
        let r = SharedMemLog {
            buf: get_u32(bytes, 0),
            buf_size: get_u32(bytes, 4),
            idx: get_u32(bytes, 8),
            out_idx: get_u32(bytes, 12),
        };
        assert(r.wire() =~= bytes@);
        r
    }

    /// No two values have the same encoding: what `from_bytes` reads out of
    /// the bytes of a value is that value.
    pub proof fn lemma_wire_injective(a: Self, b: Self)
        requires
            a.wire() == b.wire(),
        ensures
            a == b,
    {
        assert(le32(a.buf) =~= a.wire().subrange(0, 4));
        assert(le32(b.buf) =~= b.wire().subrange(0, 4));
        lemma_le32_injective(a.buf, b.buf);
        assert(le32(a.buf_size) =~= a.wire().subrange(4, 8));
        assert(le32(b.buf_size) =~= b.wire().subrange(4, 8));
        lemma_le32_injective(a.buf_size, b.buf_size);
        assert(le32(a.idx) =~= a.wire().subrange(8, 12));
        assert(le32(b.idx) =~= b.wire().subrange(8, 12));
        lemma_le32_injective(a.idx, b.idx);
        assert(le32(a.out_idx) =~= a.wire().subrange(12, 16));
        assert(le32(b.out_idx) =~= b.wire().subrange(12, 16));
        lemma_le32_injective(a.out_idx, b.out_idx);
    }
}

/// The header that starts every packet on the bus.
#[derive(Debug, Clone, Copy, PartialEq, Eq)]
pub struct SdpcmHeader {
    /// Length of the whole frame in bytes.
    pub len: u16,
    /// Bitwise complement of `len`.
    pub len_inv: u16,
    /// Rx/Tx sequence number
    pub sequence: u8,
    /// Channel number in the low four bits, flags in the high four.
    pub channel_and_flags: u8,
    /// Length of next data frame, reserved for Tx
    pub next_length: u8,
    /// Data offset
    pub header_length: u8,
    /// Flow control bits, reserved for Tx
    pub wireless_flow_control: u8,
    /// Maximum Sequence number allowed by firmware for Tx
    pub bus_data_credit: u8,
    /// Reserved
    pub reserved: [u8; 2],
}

impl SdpcmHeader {
    /// Size of the encoding in bytes.
    pub const SIZE: usize = 12;

    /// The bytes that stand for this value.
    pub open spec fn wire(self) -> Seq<u8> {
        le16(self.len)
            + le16(self.len_inv)
            + seq![self.sequence]
            + seq![self.channel_and_flags]
            + seq![self.next_length]
            + seq![self.header_length]
            + seq![self.wireless_flow_control]
            + seq![self.bus_data_credit]
            + self.reserved@
    }

    /// Encodes this value.
    pub fn to_bytes(&self) -> (r: [u8; 12])
        ensures
            r@ == self.wire(),
    {
        let mut r: [u8; 12] = [0; 12];
        put_u16(&mut r, 0, self.len);
        put_u16(&mut r, 2, self.len_inv);
        r[4] = self.sequence;
        r[5] = self.channel_and_flags;
        r[6] = self.next_length;
        r[7] = self.header_length;
        r[8] = self.wireless_flow_control;
        r[9] = self.bus_data_credit;
        put_bytes(&mut r, 10, &self.reserved);
        assert(r@ =~= self.wire());
        r
    }

    /// Decodes a value.
    pub fn from_bytes(bytes: &[u8; 12]) -> (r: Self)
        ensures
            r.wire() == bytes@,
    {
        let mut reserved: [u8; 2] = [0; 2];
        get_bytes(&mut reserved, bytes, 10);
        let r = SdpcmHeader {
            len: get_u16(bytes, 0),
            len_inv: get_u16(bytes, 2),
            sequence: bytes[4],
            channel_and_flags: bytes[5],
            next_length: bytes[6],
            header_length: bytes[7],
            wireless_flow_control: bytes[8],
            bus_data_credit: bytes[9],
            reserved,
        };
        assert(r.wire() =~= bytes@);
        r
    }

    /// No two values have the same encoding: what `from_bytes` reads out of
    /// the bytes of a value is that value.
    pub proof fn lemma_wire_injective(a: Self, b: Self)
        requires
            a.wire() == b.wire(),
        ensures
            a == b,
    {
        assert(le16(a.len) =~= a.wire().subrange(0, 2));
        assert(le16(b.len) =~= b.wire().subrange(0, 2));
        lemma_le16_injective(a.len, b.len);
        assert(le16(a.len_inv) =~= a.wire().subrange(2, 4));
        assert(le16(b.len_inv) =~= b.wire().subrange(2, 4));
        lemma_le16_injective(a.len_inv, b.len_inv);
        assert(a.sequence == a.wire()[4]);
        assert(b.sequence == b.wire()[4]);
        assert(a.channel_and_flags == a.wire()[5]);
        assert(b.channel_and_flags == b.wire()[5]);
        assert(a.next_length == a.wire()[6]);
        assert(b.next_length == b.wire()[6]);
        assert(a.header_length == a.wire()[7]);
        assert(b.header_length == b.wire()[7]);
        assert(a.wireless_flow_control == a.wire()[8]);
        assert(b.wireless_flow_control == b.wire()[8]);
        assert(a.bus_data_credit == a.wire()[9]);
        assert(b.bus_data_credit == b.wire()[9]);
        assert(a.reserved@ =~= a.wire().subrange(10, 12));
        assert(b.reserved@ =~= b.wire().subrange(10, 12));
        assert(a.reserved =~= b.reserved);
    }
}

/// The header of an ioctl request or response on the control channel.
#[derive(Debug, Clone, Copy, PartialEq, Eq)]
pub struct CdcHeader {
    /// Ioctl number.
    pub cmd: u32,
    /// Length of the payload.
    pub len: u32,
    /// Kind of the ioctl, and the interface index in the high bits.
    pub flags: u16,
    /// Identifier that pairs a response with its request.
    pub id: u16,
    /// Status that the chip reports; zero on success.
    pub status: u32,
}

impl CdcHeader {
    /// Size of the encoding in bytes.
    pub const SIZE: usize = 16;

    /// The bytes that stand for this value.
    pub open spec fn wire(self) -> Seq<u8> {
        le32(self.cmd)
            + le32(self.len)
            + le16(self.flags)
            + le16(self.id)
            + le32(self.status)
    }

    /// Encodes this value.
    pub fn to_bytes(&self) -> (r: [u8; 16])
        ensures
            r@ == self.wire(),
    {
        let mut r: [u8; 16] = [0; 16];
        put_u32(&mut r, 0, self.cmd);
        put_u32(&mut r, 4, self.len);
        put_u16(&mut r, 8, self.flags);
        put_u16(&mut r, 10, self.id);
        put_u32(&mut r, 12, self.status);
        assert(r@ =~= self.wire());
        r
    }

    /// Decodes a value.
    pub fn from_bytes(bytes: &[u8; 16]) -> (r: Self)
        ensures
            r.wire() == bytes@,
    {
        let r = CdcHeader {
            cmd: get_u32(bytes, 0),
            len: get_u32(bytes, 4),
            flags: get_u16(bytes, 8),
            id: get_u16(bytes, 10),
            status: get_u32(bytes, 12),
        };
        assert(r.wire() =~= bytes@);
        r
    }

    /// No two values have the same encoding: what `from_bytes` reads out of
    /// the bytes of a value is that value.
    pub proof fn lemma_wire_injective(a: Self, b: Self)
        requires
            a.wire() == b.wire(),
        ensures
            a == b,
    {
        assert(le32(a.cmd) =~= a.wire().subrange(0, 4));
        assert(le32(b.cmd) =~= b.wire().subrange(0, 4));
        lemma_le32_injective(a.cmd, b.cmd);
        assert(le32(a.len) =~= a.wire().subrange(4, 8));
        assert(le32(b.len) =~= b.wire().subrange(4, 8));
        lemma_le32_injective(a.len, b.len);
        assert(le16(a.flags) =~= a.wire().subrange(8, 10));
        assert(le16(b.flags) =~= b.wire().subrange(8, 10));
        lemma_le16_injective(a.flags, b.flags);
        assert(le16(a.id) =~= a.wire().subrange(10, 12));
        assert(le16(b.id) =~= b.wire().subrange(10, 12));
        lemma_le16_injective(a.id, b.id);
        assert(le32(a.status) =~= a.wire().subrange(12, 16));
        assert(le32(b.status) =~= b.wire().subrange(12, 16));
        lemma_le32_injective(a.status, b.status);
    }
}

pub const BDC_VERSION: u8 = 2;

pub const BDC_VERSION_SHIFT: u8 = 4;

/// The header in front of an Ethernet frame on the data channel.
#[derive(Debug, Clone, Copy, PartialEq, Eq)]
pub struct BcdHeader {
    /// Protocol version and flags.
    pub flags: u8,
    /// 802.1d Priority (low 3 bits)
    pub priority: u8,
    /// More flags.
    pub flags2: u8,
    /// Offset from end of BDC header to packet data, in 4-uint8_t words. Leaves room for optional headers.
    pub data_offset: u8,
}

impl BcdHeader {
    /// Size of the encoding in bytes.
    pub const SIZE: usize = 4;

    /// The bytes that stand for this value.
    pub open spec fn wire(self) -> Seq<u8> {
        seq![self.flags]
            + seq![self.priority]
            + seq![self.flags2]
            + seq![self.data_offset]
    }

    /// Encodes this value.
    pub fn to_bytes(&self) -> (r: [u8; 4])
        ensures
            r@ == self.wire(),
    {
        let mut r: [u8; 4] = [0; 4];
        r[0] = self.flags;
        r[1] = self.priority;
        r[2] = self.flags2;
        r[3] = self.data_offset;
        assert(r@ =~= self.wire());
        r
    }

    /// Decodes a value.
    pub fn from_bytes(bytes: &[u8; 4]) -> (r: Self)
        ensures
            r.wire() == bytes@,
    {
        let r = BcdHeader {
            flags: bytes[0],
            priority: bytes[1],
            flags2: bytes[2],
            data_offset: bytes[3],
        };
        assert(r.wire() =~= bytes@);
        r
    }

    /// No two values have the same encoding: what `from_bytes` reads out of
    /// the bytes of a value is that value.
    pub proof fn lemma_wire_injective(a: Self, b: Self)
        requires
            a.wire() == b.wire(),
        ensures
            a == b,
    {
        assert(a.flags == a.wire()[0]);
        assert(b.flags == b.wire()[0]);
        assert(a.priority == a.wire()[1]);
        assert(b.priority == b.wire()[1]);
        assert(a.flags2 == a.wire()[2]);
        assert(b.flags2 == b.wire()[2]);
        assert(a.data_offset == a.wire()[3]);
        assert(b.data_offset == b.wire()[3]);
    }
}

/// An Ethernet header.
#[derive(Debug, Clone, Copy, PartialEq, Eq)]
pub struct EthernetHeader {
    /// Destination address.
    pub destination_mac: [u8; 6],
    /// Source address.
    pub source_mac: [u8; 6],
    /// EtherType.
    pub ether_type: u16,
}

impl EthernetHeader {
    /// Size of the encoding in bytes.
    pub const SIZE: usize = 14;

    /// The bytes that stand for this value.
    pub open spec fn wire(self) -> Seq<u8> {
        self.destination_mac@
            + self.source_mac@
            + le16(self.ether_type)
    }

    /// Encodes this value.
    pub fn to_bytes(&self) -> (r: [u8; 14])
        ensures
            r@ == self.wire(),
    {
        let mut r: [u8; 14] = [0; 14];
        put_bytes(&mut r, 0, &self.destination_mac);
        put_bytes(&mut r, 6, &self.source_mac);
        put_u16(&mut r, 12, self.ether_type);
        assert(r@ =~= self.wire());
        r
    }

    /// Decodes a value.
    pub fn from_bytes(bytes: &[u8; 14]) -> (r: Self)
        ensures
            r.wire() == bytes@,
    {
        let mut destination_mac: [u8; 6] = [0; 6];
        get_bytes(&mut destination_mac, bytes, 0);
        let mut source_mac: [u8; 6] = [0; 6];
        get_bytes(&mut source_mac, bytes, 6);
        let r = EthernetHeader {
            destination_mac,
            source_mac,
            ether_type: get_u16(bytes, 12),
        };
        assert(r.wire() =~= bytes@);
        r
    }

    /// No two values have the same encoding: what `from_bytes` reads out of
    /// the bytes of a value is that value.
    pub proof fn lemma_wire_injective(a: Self, b: Self)
        requires
            a.wire() == b.wire(),
        ensures
            a == b,
    {
        assert(a.destination_mac@ =~= a.wire().subrange(0, 6));
        assert(b.destination_mac@ =~= b.wire().subrange(0, 6));
        assert(a.destination_mac =~= b.destination_mac);
        assert(a.source_mac@ =~= a.wire().subrange(6, 12));
        assert(b.source_mac@ =~= b.wire().subrange(6, 12));
        assert(a.source_mac =~= b.source_mac);
        assert(le16(a.ether_type) =~= a.wire().subrange(12, 14));
        assert(le16(b.ether_type) =~= b.wire().subrange(12, 14));
        lemma_le16_injective(a.ether_type, b.ether_type);
    }

    /// This value with the bytes of each of its integers in reverse order.
    pub open spec fn swapped(self) -> Self {
        EthernetHeader {
            ether_type: swapped16(self.ether_type),
            ..self
        }
    }

    /// Reverses the bytes of each integer, which turns the big-endian
    /// integers of the wire into values and back.
    pub fn byteswap(&mut self)
        ensures
            *final(self) == old(self).swapped(),
    {
        self.ether_type = swap16(self.ether_type);
    }

    /// Swapping twice changes nothing.
    pub proof fn lemma_swapped_involution(m: Self)
        ensures
            m.swapped().swapped() == m,
    {
        lemma_swapped16(m.ether_type);
    }
}

/// The vendor header that follows the Ethernet header of an event frame.
#[derive(Debug, Clone, Copy, PartialEq, Eq)]
pub struct EventHeader {
    /// Vendor subtype.
    pub subtype: u16,
    /// Length of what follows.
    pub length: u16,
    /// Version of the header.
    pub version: u8,
    /// Vendor OUI.
    pub oui: [u8; 3],
    /// Subtype within the vendor's events.
    pub user_subtype: u16,
}

impl EventHeader {
    /// Size of the encoding in bytes.
    pub const SIZE: usize = 10;

    /// The bytes that stand for this value.
    pub open spec fn wire(self) -> Seq<u8> {
        le16(self.subtype)
            + le16(self.length)
            + seq![self.version]
            + self.oui@
            + le16(self.user_subtype)
    }

    /// Encodes this value.
    pub fn to_bytes(&self) -> (r: [u8; 10])
        ensures
            r@ == self.wire(),
    {
        let mut r: [u8; 10] = [0; 10];
        put_u16(&mut r, 0, self.subtype);
        put_u16(&mut r, 2, self.length);
        r[4] = self.version;
        put_bytes(&mut r, 5, &self.oui);
        put_u16(&mut r, 8, self.user_subtype);
        assert(r@ =~= self.wire());
        r
    }

    /// Decodes a value.
    pub fn from_bytes(bytes: &[u8; 10]) -> (r: Self)
        ensures
            r.wire() == bytes@,
    {
        let mut oui: [u8; 3] = [0; 3];
        get_bytes(&mut oui, bytes, 5);
        let r = EventHeader {
            subtype: get_u16(bytes, 0),
            length: get_u16(bytes, 2),
            version: bytes[4],
            oui,
            user_subtype: get_u16(bytes, 8),
        };
        assert(r.wire() =~= bytes@);
        r
    }

    /// No two values have the same encoding: what `from_bytes` reads out of
    /// the bytes of a value is that value.
    pub proof fn lemma_wire_injective(a: Self, b: Self)
        requires
            a.wire() == b.wire(),
        ensures
            a == b,
    {
        assert(le16(a.subtype) =~= a.wire().subrange(0, 2));
        assert(le16(b.subtype) =~= b.wire().subrange(0, 2));
        lemma_le16_injective(a.subtype, b.subtype);
        assert(le16(a.length) =~= a.wire().subrange(2, 4));
        assert(le16(b.length) =~= b.wire().subrange(2, 4));
        lemma_le16_injective(a.length, b.length);
        assert(a.version == a.wire()[4]);
        assert(b.version == b.wire()[4]);
        assert(a.oui@ =~= a.wire().subrange(5, 8));
        assert(b.oui@ =~= b.wire().subrange(5, 8));
        assert(a.oui =~= b.oui);
        assert(le16(a.user_subtype) =~= a.wire().subrange(8, 10));
        assert(le16(b.user_subtype) =~= b.wire().subrange(8, 10));
        lemma_le16_injective(a.user_subtype, b.user_subtype);
    }

    /// This value with the bytes of each of its integers in reverse order.
    pub open spec fn swapped(self) -> Self {
        EventHeader {
            subtype: swapped16(self.subtype),
            length: swapped16(self.length),
            user_subtype: swapped16(self.user_subtype),
            ..self
        }
    }

    /// Reverses the bytes of each integer, which turns the big-endian
    /// integers of the wire into values and back.
    pub fn byteswap(&mut self)
        ensures
            *final(self) == old(self).swapped(),
    {
        self.subtype = swap16(self.subtype);
        self.length = swap16(self.length);
        self.user_subtype = swap16(self.user_subtype);
    }

    /// Swapping twice changes nothing.
    pub proof fn lemma_swapped_involution(m: Self)
        ensures
            m.swapped().swapped() == m,
    {
        lemma_swapped16(m.subtype);
        lemma_swapped16(m.length);
        lemma_swapped16(m.user_subtype);
    }
}

/// What the firmware says about one event.
#[derive(Debug, Clone, Copy, PartialEq, Eq)]
pub struct EventMessage {
    /// version
    pub version: u16,
    /// see flags below
    pub flags: u16,
    /// Message (see below)
    pub event_type: u32,
    /// Status code (see below)
    pub status: u32,
    /// Reason code (if applicable)
    pub reason: u32,
    /// WLC_E_AUTH
    pub auth_type: u32,
    /// data buf
    pub datalen: u32,
    /// Station address (if applicable)
    pub addr: [u8; 6],
    /// name of the incoming packet interface
    pub ifname: [u8; 16],
    /// destination OS i/f index
    pub ifidx: u8,
    /// source bsscfg index
    pub bsscfgidx: u8,
}

impl EventMessage {
    /// Size of the encoding in bytes.
    pub const SIZE: usize = 48;

    /// The bytes that stand for this value.
    pub open spec fn wire(self) -> Seq<u8> {
        le16(self.version)
            + le16(self.flags)
            + le32(self.event_type)
            + le32(self.status)
            + le32(self.reason)
            + le32(self.auth_type)
            + le32(self.datalen)
            + self.addr@
            + self.ifname@
            + seq![self.ifidx]
            + seq![self.bsscfgidx]
    }

    /// Encodes this value.
    pub fn to_bytes(&self) -> (r: [u8; 48])
        ensures
            r@ == self.wire(),
    {
        let mut r: [u8; 48] = [0; 48];
        put_u16(&mut r, 0, self.version);
        put_u16(&mut r, 2, self.flags);
        put_u32(&mut r, 4, self.event_type);
        put_u32(&mut r, 8, self.status);
        put_u32(&mut r, 12, self.reason);
        put_u32(&mut r, 16, self.auth_type);
        put_u32(&mut r, 20, self.datalen);
        put_bytes(&mut r, 24, &self.addr);
        put_bytes(&mut r, 30, &self.ifname);
        r[46] = self.ifidx;
        r[47] = self.bsscfgidx;
        assert(r@ =~= self.wire());
        r
    }

    /// Decodes a value.
    pub fn from_bytes(bytes: &[u8; 48]) -> (r: Self)
        ensures
            r.wire() == bytes@,
    {
        let mut addr: [u8; 6] = [0; 6];
        get_bytes(&mut addr, bytes, 24);
        let mut ifname: [u8; 16] = [0; 16];
        get_bytes(&mut ifname, bytes, 30);
        let r = EventMessage {
            version: get_u16(bytes, 0),
            flags: get_u16(bytes, 2),
            event_type: get_u32(bytes, 4),
            status: get_u32(bytes, 8),
            reason: get_u32(bytes, 12),
            auth_type: get_u32(bytes, 16),
            datalen: get_u32(bytes, 20),
            addr,
            ifname,
            ifidx: bytes[46],
            bsscfgidx: bytes[47],
        };
        assert(r.wire() =~= bytes@);
        r
    }

    /// No two values have the same encoding: what `from_bytes` reads out of
    /// the bytes of a value is that value.
    pub proof fn lemma_wire_injective(a: Self, b: Self)
        requires
            a.wire() == b.wire(),
        ensures
            a == b,
    {
        assert(le16(a.version) =~= a.wire().subrange(0, 2));
        assert(le16(b.version) =~= b.wire().subrange(0, 2));
        lemma_le16_injective(a.version, b.version);
        assert(le16(a.flags) =~= a.wire().subrange(2, 4));
        assert(le16(b.flags) =~= b.wire().subrange(2, 4));
        lemma_le16_injective(a.flags, b.flags);
        assert(le32(a.event_type) =~= a.wire().subrange(4, 8));
        assert(le32(b.event_type) =~= b.wire().subrange(4, 8));
        lemma_le32_injective(a.event_type, b.event_type);
        assert(le32(a.status) =~= a.wire().subrange(8, 12));
        assert(le32(b.status) =~= b.wire().subrange(8, 12));
        lemma_le32_injective(a.status, b.status);
        assert(le32(a.reason) =~= a.wire().subrange(12, 16));
        assert(le32(b.reason) =~= b.wire().subrange(12, 16));
        lemma_le32_injective(a.reason, b.reason);
        assert(le32(a.auth_type) =~= a.wire().subrange(16, 20));
        assert(le32(b.auth_type) =~= b.wire().subrange(16, 20));
        lemma_le32_injective(a.auth_type, b.auth_type);
        assert(le32(a.datalen) =~= a.wire().subrange(20, 24));
        assert(le32(b.datalen) =~= b.wire().subrange(20, 24));
        lemma_le32_injective(a.datalen, b.datalen);
        assert(a.addr@ =~= a.wire().subrange(24, 30));
        assert(b.addr@ =~= b.wire().subrange(24, 30));
        assert(a.addr =~= b.addr);
        assert(a.ifname@ =~= a.wire().subrange(30, 46));
        assert(b.ifname@ =~= b.wire().subrange(30, 46));
        assert(a.ifname =~= b.ifname);
        assert(a.ifidx == a.wire()[46]);
        assert(b.ifidx == b.wire()[46]);
        assert(a.bsscfgidx == a.wire()[47]);
        assert(b.bsscfgidx == b.wire()[47]);
    }

    /// This value with the bytes of each of its integers in reverse order.
    pub open spec fn swapped(self) -> Self {
        EventMessage {
            version: swapped16(self.version),
            flags: swapped16(self.flags),
            event_type: swapped32(self.event_type),
            status: swapped32(self.status),
            reason: swapped32(self.reason),
            auth_type: swapped32(self.auth_type),
            datalen: swapped32(self.datalen),
            ..self
        }
    }

    /// Reverses the bytes of each integer, which turns the big-endian
    /// integers of the wire into values and back.
    pub fn byteswap(&mut self)
        ensures
            *final(self) == old(self).swapped(),
    {
        self.version = swap16(self.version);
        self.flags = swap16(self.flags);
        self.event_type = swap32(self.event_type);
        self.status = swap32(self.status);
        self.reason = swap32(self.reason);
        self.auth_type = swap32(self.auth_type);
        self.datalen = swap32(self.datalen);
    }

    /// Swapping twice changes nothing.
    pub proof fn lemma_swapped_involution(m: Self)
        ensures
            m.swapped().swapped() == m,
    {
        lemma_swapped16(m.version);
        lemma_swapped16(m.flags);
        lemma_swapped32(m.event_type);
        lemma_swapped32(m.status);
        lemma_swapped32(m.reason);
        lemma_swapped32(m.auth_type);
        lemma_swapped32(m.datalen);
    }
}

/// A whole event frame: Ethernet header, vendor header and message.
#[derive(Debug, Clone, Copy, PartialEq, Eq)]
pub struct EventPacket {
    /// Ethernet header.
    pub eth: EthernetHeader,
    /// Vendor header.
    pub hdr: EventHeader,
    /// The message.
    pub msg: EventMessage,
}

impl EventPacket {
    /// Size of the encoding in bytes.
    pub const SIZE: usize = 72;

    /// The bytes that stand for this value.
    pub open spec fn wire(self) -> Seq<u8> {
        self.eth.wire()
            + self.hdr.wire()
            + self.msg.wire()
    }

    /// Encodes this value.
    pub fn to_bytes(&self) -> (r: [u8; 72])
        ensures
            r@ == self.wire(),
    {
        let mut r: [u8; 72] = [0; 72];
        let eth: [u8; 14] = self.eth.to_bytes();
        put_bytes(&mut r, 0, &eth);
        let hdr: [u8; 10] = self.hdr.to_bytes();
        put_bytes(&mut r, 14, &hdr);
        let msg: [u8; 48] = self.msg.to_bytes();
        put_bytes(&mut r, 24, &msg);
        assert(r@ =~= self.wire());
        r
    }

    /// Decodes a value.
    pub fn from_bytes(bytes: &[u8; 72]) -> (r: Self)
        ensures
            r.wire() == bytes@,
    {
        let mut eth_bytes: [u8; 14] = [0; 14];
        get_bytes(&mut eth_bytes, bytes, 0);
        let eth: EthernetHeader = EthernetHeader::from_bytes(&eth_bytes);
        let mut hdr_bytes: [u8; 10] = [0; 10];
        get_bytes(&mut hdr_bytes, bytes, 14);
        let hdr: EventHeader = EventHeader::from_bytes(&hdr_bytes);
        let mut msg_bytes: [u8; 48] = [0; 48];
        get_bytes(&mut msg_bytes, bytes, 24);
        let msg: EventMessage = EventMessage::from_bytes(&msg_bytes);
        let r = EventPacket {
            eth,
            hdr,
            msg,
        };
        assert(r.wire() =~= bytes@);
        r
    }

    /// No two values have the same encoding: what `from_bytes` reads out of
    /// the bytes of a value is that value.
    pub proof fn lemma_wire_injective(a: Self, b: Self)
        requires
            a.wire() == b.wire(),
        ensures
            a == b,
    {
        assert(a.eth.wire() =~= a.wire().subrange(0, 14));
        assert(b.eth.wire() =~= b.wire().subrange(0, 14));
        EthernetHeader::lemma_wire_injective(a.eth, b.eth);
        assert(a.hdr.wire() =~= a.wire().subrange(14, 24));
        assert(b.hdr.wire() =~= b.wire().subrange(14, 24));
        EventHeader::lemma_wire_injective(a.hdr, b.hdr);
        assert(a.msg.wire() =~= a.wire().subrange(24, 72));
        assert(b.msg.wire() =~= b.wire().subrange(24, 72));
        EventMessage::lemma_wire_injective(a.msg, b.msg);
    }

    /// This value with the bytes of each of its integers in reverse order.
    pub open spec fn swapped(self) -> Self {
        EventPacket { eth: self.eth.swapped(), hdr: self.hdr.swapped(), msg: self.msg.swapped() }
    }

    /// Reverses the bytes of each integer, which turns the big-endian
    /// integers of the wire into values and back.
    pub fn byteswap(&mut self)
        ensures
            *final(self) == old(self).swapped(),
    {
        self.eth.byteswap();
        self.hdr.byteswap();
        self.msg.byteswap();
    }

    /// Swapping twice changes nothing.
    pub proof fn lemma_swapped_involution(m: Self)
        ensures
            m.swapped().swapped() == m,
    {
        EthernetHeader::lemma_swapped_involution(m.eth);
        EventHeader::lemma_swapped_involution(m.hdr);
        EventMessage::lemma_swapped_involution(m.msg);
    }
}

/// The header in front of each chunk of a download to the firmware.
#[derive(Debug, Clone, Copy, PartialEq, Eq)]
pub struct DownloadHeader {
    /// Where the chunk stands in the download, and the handler version.
    pub flag: u16,
    /// What is downloaded.
    pub dload_type: u16,
    /// Length of the chunk.
    pub len: u32,
    /// Checksum, unused.
    pub crc: u32,
}

impl DownloadHeader {
    /// Size of the encoding in bytes.
    pub const SIZE: usize = 12;

    /// The bytes that stand for this value.
    pub open spec fn wire(self) -> Seq<u8> {
        le16(self.flag)
            + le16(self.dload_type)
            + le32(self.len)
            + le32(self.crc)
    }

    /// Encodes this value.
    pub fn to_bytes(&self) -> (r: [u8; 12])
        ensures
            r@ == self.wire(),
    {
        let mut r: [u8; 12] = [0; 12];
        put_u16(&mut r, 0, self.flag);
        put_u16(&mut r, 2, self.dload_type);
        put_u32(&mut r, 4, self.len);
        put_u32(&mut r, 8, self.crc);
        assert(r@ =~= self.wire());
        r
    }

    /// Decodes a value.
    pub fn from_bytes(bytes: &[u8; 12]) -> (r: Self)
        ensures
            r.wire() == bytes@,
    {
        let r = DownloadHeader {
            flag: get_u16(bytes, 0),
            dload_type: get_u16(bytes, 2),
            len: get_u32(bytes, 4),
            crc: get_u32(bytes, 8),
        };
        assert(r.wire() =~= bytes@);
        r
    }

    /// No two values have the same encoding: what `from_bytes` reads out of
    /// the bytes of a value is that value.
    pub proof fn lemma_wire_injective(a: Self, b: Self)
        requires
            a.wire() == b.wire(),
        ensures
            a == b,
    {
        assert(le16(a.flag) =~= a.wire().subrange(0, 2));
        assert(le16(b.flag) =~= b.wire().subrange(0, 2));
        lemma_le16_injective(a.flag, b.flag);
        assert(le16(a.dload_type) =~= a.wire().subrange(2, 4));
        assert(le16(b.dload_type) =~= b.wire().subrange(2, 4));
        lemma_le16_injective(a.dload_type, b.dload_type);
        assert(le32(a.len) =~= a.wire().subrange(4, 8));
        assert(le32(b.len) =~= b.wire().subrange(4, 8));
        lemma_le32_injective(a.len, b.len);
        assert(le32(a.crc) =~= a.wire().subrange(8, 12));
        assert(le32(b.crc) =~= b.wire().subrange(8, 12));
        lemma_le32_injective(a.crc, b.crc);
    }
}

#[allow(unused)]
pub const DOWNLOAD_FLAG_NO_CRC: u16 = 0x0001;

pub const DOWNLOAD_FLAG_BEGIN: u16 = 0x0002;

pub const DOWNLOAD_FLAG_END: u16 = 0x0004;

pub const DOWNLOAD_FLAG_HANDLER_VER: u16 = 0x1000;

/// Country Locale Matrix (CLM)
pub const DOWNLOAD_TYPE_CLM: u16 = 2;

/// The country that the radio is to obey.
#[derive(Debug, Clone, Copy, PartialEq, Eq)]
pub struct CountryInfo {
    /// Abbreviation of the country, NUL-padded.
    pub country_abbrev: [u8; 4],
    /// Revision of the country's rules.
    pub rev: i32,
    /// Code of the country, NUL-padded.
    pub country_code: [u8; 4],
}

impl CountryInfo {
    /// Size of the encoding in bytes.
    pub const SIZE: usize = 12;

    /// The bytes that stand for this value.
    pub open spec fn wire(self) -> Seq<u8> {
        self.country_abbrev@
            + le32(i32_bits(self.rev))
            + self.country_code@
    }

    /// Encodes this value.
    pub fn to_bytes(&self) -> (r: [u8; 12])
        ensures
            r@ == self.wire(),
    {
        let mut r: [u8; 12] = [0; 12];
        put_bytes(&mut r, 0, &self.country_abbrev);
        put_u32(&mut r, 4, bits_of_i32(self.rev));
        put_bytes(&mut r, 8, &self.country_code);
        assert(r@ =~= self.wire());
        r
    }

    /// Decodes a value.
    pub fn from_bytes(bytes: &[u8; 12]) -> (r: Self)
        ensures
            r.wire() == bytes@,
    {
        let mut country_abbrev: [u8; 4] = [0; 4];
        get_bytes(&mut country_abbrev, bytes, 0);
        let rev_bits: u32 = get_u32(bytes, 4);
        proof {
            lemma_i32_of_bits(rev_bits);
        }
        let mut country_code: [u8; 4] = [0; 4];
        get_bytes(&mut country_code, bytes, 8);
        let r = CountryInfo {
            country_abbrev,
            rev: i32_from_bits(rev_bits),
            country_code,
        };
        assert(r.wire() =~= bytes@);
        r
    }

    /// No two values have the same encoding: what `from_bytes` reads out of
    /// the bytes of a value is that value.
    pub proof fn lemma_wire_injective(a: Self, b: Self)
        requires
            a.wire() == b.wire(),
        ensures
            a == b,
    {
        assert(a.country_abbrev@ =~= a.wire().subrange(0, 4));
        assert(b.country_abbrev@ =~= b.wire().subrange(0, 4));
        assert(a.country_abbrev =~= b.country_abbrev);
        assert(le32(i32_bits(a.rev)) =~= a.wire().subrange(4, 8));
        assert(le32(i32_bits(b.rev)) =~= b.wire().subrange(4, 8));
        lemma_le32_injective(i32_bits(a.rev), i32_bits(b.rev));
        lemma_i32_bits(a.rev);
        lemma_i32_bits(b.rev);
        assert(a.country_code@ =~= a.wire().subrange(8, 12));
        assert(b.country_code@ =~= b.wire().subrange(8, 12));
        assert(a.country_code =~= b.country_code);
    }
}

/// The name of a network.
#[derive(Debug, Clone, Copy, PartialEq, Eq)]
pub struct SsidInfo {
    /// How many bytes of `ssid` are the name.
    pub len: u32,
    /// The name, NUL-padded.
    pub ssid: [u8; 32],
}

impl SsidInfo {
    /// Size of the encoding in bytes.
    pub const SIZE: usize = 36;

    /// The bytes that stand for this value.
    pub open spec fn wire(self) -> Seq<u8> {
        le32(self.len)
            + self.ssid@
    }

    /// Encodes this value.
    pub fn to_bytes(&self) -> (r: [u8; 36])
        ensures
            r@ == self.wire(),
    {
        let mut r: [u8; 36] = [0; 36];
        put_u32(&mut r, 0, self.len);
        put_bytes(&mut r, 4, &self.ssid);
        assert(r@ =~= self.wire());
        r
    }

    /// Decodes a value.
    pub fn from_bytes(bytes: &[u8; 36]) -> (r: Self)
        ensures
            r.wire() == bytes@,
    {
        let mut ssid: [u8; 32] = [0; 32];
        get_bytes(&mut ssid, bytes, 4);
        let r = SsidInfo {
            len: get_u32(bytes, 0),
            ssid,
        };
        assert(r.wire() =~= bytes@);
        r
    }

    /// No two values have the same encoding: what `from_bytes` reads out of
    /// the bytes of a value is that value.
    pub proof fn lemma_wire_injective(a: Self, b: Self)
        requires
            a.wire() == b.wire(),
        ensures
            a == b,
    {
        assert(le32(a.len) =~= a.wire().subrange(0, 4));
        assert(le32(b.len) =~= b.wire().subrange(0, 4));
        lemma_le32_injective(a.len, b.len);
        assert(a.ssid@ =~= a.wire().subrange(4, 36));
        assert(b.ssid@ =~= b.wire().subrange(4, 36));
        assert(a.ssid =~= b.ssid);
    }
}

/// The passphrase of a network.
#[derive(Debug, Clone, Copy, PartialEq, Eq)]
pub struct PassphraseInfo {
    /// How many bytes of `passphrase` are the passphrase.
    pub len: u16,
    /// Flags of the key.
    pub flags: u16,
    /// The passphrase, NUL-padded.
    pub passphrase: [u8; 64],
}

impl PassphraseInfo {
    /// Size of the encoding in bytes.
    pub const SIZE: usize = 68;

    /// The bytes that stand for this value.
    pub open spec fn wire(self) -> Seq<u8> {
        le16(self.len)
            + le16(self.flags)
            + self.passphrase@
    }

    /// Encodes this value.
    pub fn to_bytes(&self) -> (r: [u8; 68])
        ensures
            r@ == self.wire(),
    {
        let mut r: [u8; 68] = [0; 68];
        put_u16(&mut r, 0, self.len);
        put_u16(&mut r, 2, self.flags);
        put_bytes(&mut r, 4, &self.passphrase);
        assert(r@ =~= self.wire());
        r
    }

    /// Decodes a value.
    pub fn from_bytes(bytes: &[u8; 68]) -> (r: Self)
        ensures
            r.wire() == bytes@,
    {
        let mut passphrase: [u8; 64] = [0; 64];
        get_bytes(&mut passphrase, bytes, 4);
        let r = PassphraseInfo {
            len: get_u16(bytes, 0),
            flags: get_u16(bytes, 2),
            passphrase,
        };
        assert(r.wire() =~= bytes@);
        r
    }

    /// No two values have the same encoding: what `from_bytes` reads out of
    /// the bytes of a value is that value.
    pub proof fn lemma_wire_injective(a: Self, b: Self)
        requires
            a.wire() == b.wire(),
        ensures
            a == b,
    {
        assert(le16(a.len) =~= a.wire().subrange(0, 2));
        assert(le16(b.len) =~= b.wire().subrange(0, 2));
        lemma_le16_injective(a.len, b.len);
        assert(le16(a.flags) =~= a.wire().subrange(2, 4));
        assert(le16(b.flags) =~= b.wire().subrange(2, 4));
        lemma_le16_injective(a.flags, b.flags);
        assert(a.passphrase@ =~= a.wire().subrange(4, 68));
        assert(b.passphrase@ =~= b.wire().subrange(4, 68));
        assert(a.passphrase =~= b.passphrase);
    }
}

/// Which events the firmware is to report, one bit for each event number.
#[derive(Debug, Clone, Copy, PartialEq, Eq)]
pub struct EventMask {
    /// Interface that the mask is for.
    pub iface: u32,
    /// The bits, event number 0 in the lowest bit of the first byte.
    pub events: [u8; 24],
}

impl EventMask {
    /// Size of the encoding in bytes.
    pub const SIZE: usize = 28;

    /// The bytes that stand for this value.
    pub open spec fn wire(self) -> Seq<u8> {
        le32(self.iface)
            + self.events@
    }

    /// Encodes this value.
    pub fn to_bytes(&self) -> (r: [u8; 28])
        ensures
            r@ == self.wire(),
    {
        let mut r: [u8; 28] = [0; 28];
        put_u32(&mut r, 0, self.iface);
        put_bytes(&mut r, 4, &self.events);
        assert(r@ =~= self.wire());
        r
    }

    /// Decodes a value.
    pub fn from_bytes(bytes: &[u8; 28]) -> (r: Self)
        ensures
            r.wire() == bytes@,
    {
        let mut events: [u8; 24] = [0; 24];
        get_bytes(&mut events, bytes, 4);
        let r = EventMask {
            iface: get_u32(bytes, 0),
            events,
        };
        assert(r.wire() =~= bytes@);
        r
    }

    /// No two values have the same encoding: what `from_bytes` reads out of
    /// the bytes of a value is that value.
    pub proof fn lemma_wire_injective(a: Self, b: Self)
        requires
            a.wire() == b.wire(),
        ensures
            a == b,
    {
        assert(le32(a.iface) =~= a.wire().subrange(0, 4));
        assert(le32(b.iface) =~= b.wire().subrange(0, 4));
        lemma_le32_injective(a.iface, b.iface);
        assert(a.events@ =~= a.wire().subrange(4, 28));
        assert(b.events@ =~= b.wire().subrange(4, 28));
        assert(a.events =~= b.events);
    }

    /// Whether the mask asks for the event with number `n`.
    pub open spec fn enabled(self, n: u8) -> bool {
        n < 192 && bit_is_set(self.events[n as int / 8], n % 8)
    }

    /// Stops asking for `evt`; every other event stays as it was.
    pub fn unset(&mut self, evt: Event)
        requires
            evt.spec_number() < 192,
        ensures
            final(self).iface == old(self).iface,
            forall|n: u8|
                n < 192 ==> (#[trigger] final(self).enabled(n) <==> old(self).enabled(n) && n
                    != evt.spec_number()),
            final(self).events@ == old(self).events@.update(
                evt.spec_number() as int / 8,
                bit_cleared(old(self).events[evt.spec_number() as int / 8], evt.spec_number() % 8),
            ),
    {
        let n: u8 = evt.number();
        let idx: usize = (n / 8) as usize;
        let bit: u8 = n % 8;
        let before: u8 = self.events[idx];
        let after: u8 = before & !(1u8 << bit);
        self.events[idx] = after;
        proof {
            assert forall|m: u8| m < 192 implies (#[trigger] self.enabled(m) <==> old(self).enabled(
                m,
            ) && m != n) by {
                if m as int / 8 == idx as int {
                    lemma_bit_cleared(before, bit, m % 8);
                    assert(m == n <==> m % 8 == bit);
                }
            }
        }
    }
}

/// Parameters for a wifi scan
#[derive(Debug, Clone, Copy, PartialEq, Eq)]
pub struct ScanParams {
    /// Version of this structure.
    pub version: u32,
    /// What to do: start, continue or abort.
    pub action: u16,
    /// Identifier that the results carry back.
    pub sync_id: u16,
    /// How many bytes of `ssid` are a name to look for.
    pub ssid_len: u32,
    /// Name to look for.
    pub ssid: [u8; 32],
    /// Address to look for; all ones for any.
    pub bssid: [u8; 6],
    /// Kind of network to look for.
    pub bss_type: u8,
    /// Active or passive.
    pub scan_type: u8,
    /// Probes per channel.
    pub nprobes: u32,
    /// Dwell time of an active scan.
    pub active_time: u32,
    /// Dwell time of a passive scan.
    pub passive_time: u32,
    /// Time to stay on the home channel between channels.
    pub home_time: u32,
    /// How many channels are listed; zero for all.
    pub channel_num: u32,
    /// The first listed channel.
    pub channel_list: [u16; 1],
}

impl ScanParams {
    /// Size of the encoding in bytes.
    pub const SIZE: usize = 76;

    /// The bytes that stand for this value.
    ///
    /// The last 2 bytes are padding, written as zero.
    pub open spec fn wire(self) -> Seq<u8> {
        le32(self.version)
            + le16(self.action)
            + le16(self.sync_id)
            + le32(self.ssid_len)
            + self.ssid@
            + self.bssid@
            + seq![self.bss_type]
            + seq![self.scan_type]
            + le32(self.nprobes)
            + le32(self.active_time)
            + le32(self.passive_time)
            + le32(self.home_time)
            + le32(self.channel_num)
            + le16(self.channel_list[0])
            + seq![0u8, 0u8]
    }

    /// Encodes this value.
    pub fn to_bytes(&self) -> (r: [u8; 76])
        ensures
            r@ == self.wire(),
    {
        let mut r: [u8; 76] = [0; 76];
        put_u32(&mut r, 0, self.version);
        put_u16(&mut r, 4, self.action);
        put_u16(&mut r, 6, self.sync_id);
        put_u32(&mut r, 8, self.ssid_len);
        put_bytes(&mut r, 12, &self.ssid);
        put_bytes(&mut r, 44, &self.bssid);
        r[50] = self.bss_type;
        r[51] = self.scan_type;
        put_u32(&mut r, 52, self.nprobes);
        put_u32(&mut r, 56, self.active_time);
        put_u32(&mut r, 60, self.passive_time);
        put_u32(&mut r, 64, self.home_time);
        put_u32(&mut r, 68, self.channel_num);
        put_u16(&mut r, 72, self.channel_list[0]);
        assert(r@ =~= self.wire());
        r
    }

    /// Decodes a value.
    ///
    /// The padding at the end of `bytes` is not looked at.
    pub fn from_bytes(bytes: &[u8; 76]) -> (r: Self)
        ensures
            r.wire().subrange(0, 74) == bytes@.subrange(0, 74),
    {
        let mut ssid: [u8; 32] = [0; 32];
        get_bytes(&mut ssid, bytes, 12);
        let mut bssid: [u8; 6] = [0; 6];
        get_bytes(&mut bssid, bytes, 44);
        let r = ScanParams {
            version: get_u32(bytes, 0),
            action: get_u16(bytes, 4),
            sync_id: get_u16(bytes, 6),
            ssid_len: get_u32(bytes, 8),
            ssid,
            bssid,
            bss_type: bytes[50],
            scan_type: bytes[51],
            nprobes: get_u32(bytes, 52),
            active_time: get_u32(bytes, 56),
            passive_time: get_u32(bytes, 60),
            home_time: get_u32(bytes, 64),
            channel_num: get_u32(bytes, 68),
            channel_list: [get_u16(bytes, 72)],
        };
        assert(r.wire().subrange(0, 74) =~= bytes@.subrange(0, 74));
        r
    }

    /// No two values have the same encoding: what `from_bytes` reads out of
    /// the bytes of a value is that value.
    pub proof fn lemma_wire_injective(a: Self, b: Self)
        requires
            a.wire() == b.wire(),
        ensures
            a == b,
    {
        assert(le32(a.version) =~= a.wire().subrange(0, 4));
        assert(le32(b.version) =~= b.wire().subrange(0, 4));
        lemma_le32_injective(a.version, b.version);
        assert(le16(a.action) =~= a.wire().subrange(4, 6));
        assert(le16(b.action) =~= b.wire().subrange(4, 6));
        lemma_le16_injective(a.action, b.action);
        assert(le16(a.sync_id) =~= a.wire().subrange(6, 8));
        assert(le16(b.sync_id) =~= b.wire().subrange(6, 8));
        lemma_le16_injective(a.sync_id, b.sync_id);
        assert(le32(a.ssid_len) =~= a.wire().subrange(8, 12));
        assert(le32(b.ssid_len) =~= b.wire().subrange(8, 12));
        lemma_le32_injective(a.ssid_len, b.ssid_len);
        assert(a.ssid@ =~= a.wire().subrange(12, 44));
        assert(b.ssid@ =~= b.wire().subrange(12, 44));
        assert(a.ssid =~= b.ssid);
        assert(a.bssid@ =~= a.wire().subrange(44, 50));
        assert(b.bssid@ =~= b.wire().subrange(44, 50));
        assert(a.bssid =~= b.bssid);
        assert(a.bss_type == a.wire()[50]);
        assert(b.bss_type == b.wire()[50]);
        assert(a.scan_type == a.wire()[51]);
        assert(b.scan_type == b.wire()[51]);
        assert(le32(a.nprobes) =~= a.wire().subrange(52, 56));
        assert(le32(b.nprobes) =~= b.wire().subrange(52, 56));
        lemma_le32_injective(a.nprobes, b.nprobes);
        assert(le32(a.active_time) =~= a.wire().subrange(56, 60));
        assert(le32(b.active_time) =~= b.wire().subrange(56, 60));
        lemma_le32_injective(a.active_time, b.active_time);
        assert(le32(a.passive_time) =~= a.wire().subrange(60, 64));
        assert(le32(b.passive_time) =~= b.wire().subrange(60, 64));
        lemma_le32_injective(a.passive_time, b.passive_time);
        assert(le32(a.home_time) =~= a.wire().subrange(64, 68));
        assert(le32(b.home_time) =~= b.wire().subrange(64, 68));
        lemma_le32_injective(a.home_time, b.home_time);
        assert(le32(a.channel_num) =~= a.wire().subrange(68, 72));
        assert(le32(b.channel_num) =~= b.wire().subrange(68, 72));
        lemma_le32_injective(a.channel_num, b.channel_num);
        assert(le16(a.channel_list[0]) =~= a.wire().subrange(72, 74));
        assert(le16(b.channel_list[0]) =~= b.wire().subrange(72, 74));
        lemma_le16_injective(a.channel_list[0], b.channel_list[0]);
        assert(a.channel_list =~= b.channel_list);
    }
}

/// Wifi Scan Results Header, followed by `bss_count` `BssInfo`
#[derive(Debug, Clone, Copy, PartialEq, Eq)]
pub struct ScanResults {
    /// Length of the results.
    pub buflen: u32,
    /// Version of this structure.
    pub version: u32,
    /// Identifier of the scan.
    pub sync_id: u16,
    /// How many networks follow.
    pub bss_count: u16,
}

impl ScanResults {
    /// Size of the encoding in bytes.
    pub const SIZE: usize = 12;

    /// The bytes that stand for this value.
    pub open spec fn wire(self) -> Seq<u8> {
        le32(self.buflen)
            + le32(self.version)
            + le16(self.sync_id)
            + le16(self.bss_count)
    }

    /// Encodes this value.
    pub fn to_bytes(&self) -> (r: [u8; 12])
        ensures
            r@ == self.wire(),
    {
        let mut r: [u8; 12] = [0; 12];
        put_u32(&mut r, 0, self.buflen);
        put_u32(&mut r, 4, self.version);
        put_u16(&mut r, 8, self.sync_id);
        put_u16(&mut r, 10, self.bss_count);
        assert(r@ =~= self.wire());
        r
    }

    /// Decodes a value.
    pub fn from_bytes(bytes: &[u8; 12]) -> (r: Self)
        ensures
            r.wire() == bytes@,
    {
        let r = ScanResults {
            buflen: get_u32(bytes, 0),
            version: get_u32(bytes, 4),
            sync_id: get_u16(bytes, 8),
            bss_count: get_u16(bytes, 10),
        };
        assert(r.wire() =~= bytes@);
        r
    }

    /// No two values have the same encoding: what `from_bytes` reads out of
    /// the bytes of a value is that value.
    pub proof fn lemma_wire_injective(a: Self, b: Self)
        requires
            a.wire() == b.wire(),
        ensures
            a == b,
    {
        assert(le32(a.buflen) =~= a.wire().subrange(0, 4));
        assert(le32(b.buflen) =~= b.wire().subrange(0, 4));
        lemma_le32_injective(a.buflen, b.buflen);
        assert(le32(a.version) =~= a.wire().subrange(4, 8));
        assert(le32(b.version) =~= b.wire().subrange(4, 8));
        lemma_le32_injective(a.version, b.version);
        assert(le16(a.sync_id) =~= a.wire().subrange(8, 10));
        assert(le16(b.sync_id) =~= b.wire().subrange(8, 10));
        lemma_le16_injective(a.sync_id, b.sync_id);
        assert(le16(a.bss_count) =~= a.wire().subrange(10, 12));
        assert(le16(b.bss_count) =~= b.wire().subrange(10, 12));
        lemma_le16_injective(a.bss_count, b.bss_count);
    }
}

/// Wifi Scan Result
///
/// The firmware sends more after these fields; `length` covers all of it.
#[derive(Debug, Clone, Copy, PartialEq, Eq)]
#[non_exhaustive]
pub struct BssInfo {
    /// Version of this structure.
    pub version: u32,
    /// Length of the whole record, of which this is the start.
    pub length: u32,
    /// Address of the access point.
    pub bssid: [u8; 6],
    /// Beacon period.
    pub beacon_period: u16,
    /// Capability bits.
    pub capability: u16,
    /// How many bytes of `ssid` are the name.
    pub ssid_len: u8,
    /// Name of the network.
    pub ssid: [u8; 32],
}

impl BssInfo {
    /// Size of the encoding in bytes.
    pub const SIZE: usize = 52;

    /// The bytes that stand for this value.
    ///
    /// The last byte is padding, written as zero.
    pub open spec fn wire(self) -> Seq<u8> {
        le32(self.version)
            + le32(self.length)
            + self.bssid@
            + le16(self.beacon_period)
            + le16(self.capability)
            + seq![self.ssid_len]
            + self.ssid@
            + seq![0u8]
    }

    /// Encodes this value.
    pub fn to_bytes(&self) -> (r: [u8; 52])
        ensures
            r@ == self.wire(),
    {
        let mut r: [u8; 52] = [0; 52];
        put_u32(&mut r, 0, self.version);
        put_u32(&mut r, 4, self.length);
        put_bytes(&mut r, 8, &self.bssid);
        put_u16(&mut r, 14, self.beacon_period);
        put_u16(&mut r, 16, self.capability);
        r[18] = self.ssid_len;
        put_bytes(&mut r, 19, &self.ssid);
        assert(r@ =~= self.wire());
        r
    }

    /// Decodes a value.
    ///
    /// The padding at the end of `bytes` is not looked at.
    pub fn from_bytes(bytes: &[u8; 52]) -> (r: Self)
        ensures
            r.wire().subrange(0, 51) == bytes@.subrange(0, 51),
    {
        let mut bssid: [u8; 6] = [0; 6];
        get_bytes(&mut bssid, bytes, 8);
        let mut ssid: [u8; 32] = [0; 32];
        get_bytes(&mut ssid, bytes, 19);
        let r = BssInfo {
            version: get_u32(bytes, 0),
            length: get_u32(bytes, 4),
            bssid,
            beacon_period: get_u16(bytes, 14),
            capability: get_u16(bytes, 16),
            ssid_len: bytes[18],
            ssid,
        };
        assert(r.wire().subrange(0, 51) =~= bytes@.subrange(0, 51));
        r
    }

    /// No two values have the same encoding: what `from_bytes` reads out of
    /// the bytes of a value is that value.
    pub proof fn lemma_wire_injective(a: Self, b: Self)
        requires
            a.wire() == b.wire(),
        ensures
            a == b,
    {
        assert(le32(a.version) =~= a.wire().subrange(0, 4));
        assert(le32(b.version) =~= b.wire().subrange(0, 4));
        lemma_le32_injective(a.version, b.version);
        assert(le32(a.length) =~= a.wire().subrange(4, 8));
        assert(le32(b.length) =~= b.wire().subrange(4, 8));
        lemma_le32_injective(a.length, b.length);
        assert(a.bssid@ =~= a.wire().subrange(8, 14));
        assert(b.bssid@ =~= b.wire().subrange(8, 14));
        assert(a.bssid =~= b.bssid);
        assert(le16(a.beacon_period) =~= a.wire().subrange(14, 16));
        assert(le16(b.beacon_period) =~= b.wire().subrange(14, 16));
        lemma_le16_injective(a.beacon_period, b.beacon_period);
        assert(le16(a.capability) =~= a.wire().subrange(16, 18));
        assert(le16(b.capability) =~= b.wire().subrange(16, 18));
        lemma_le16_injective(a.capability, b.capability);
        assert(a.ssid_len == a.wire()[18]);
        assert(b.ssid_len == b.wire()[18]);
        assert(a.ssid@ =~= a.wire().subrange(19, 51));
        assert(b.ssid@ =~= b.wire().subrange(19, 51));
        assert(a.ssid =~= b.ssid);
    }
}

} // verus!
