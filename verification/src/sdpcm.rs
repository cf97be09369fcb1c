//! The framing of packets on the bus.
//!
//! Every packet starts with an SDPCM header, which gives the length of the
//! frame, numbers it, names its channel and says where its payload starts.
//! In front of the payload stands the header of the channel: a CDC header on
//! the control channel, a BDC header on the data channel. Events come as a
//! whole event packet with the event's data behind it.
//!
//! The chip limits what it is sent: each frame it sends names, as its
//! credit, the sequence number at which the host must stop. [`Sdpcm`] keeps
//! the numbers of both directions and that limit.

use crate::bytes::{
    append_bytes, append_zeros, copy_bytes, get_bytes, get_u16, le16, le16_value, zeros,
};
use crate::consts::{CHANNEL_TYPE_CONTROL, CHANNEL_TYPE_DATA, CHANNEL_TYPE_EVENT};
use crate::ioctl::{IoctlRequest, IoctlRequestView};
use crate::structs::{
    BcdHeader, CdcHeader, EventPacket, SdpcmHeader, BDC_VERSION, BDC_VERSION_SHIFT,
};
use vstd::prelude::*;

verus! {

/// Why a frame was not packed.
#[derive(Debug, Clone, Copy, PartialEq, Eq, Structural)]
pub enum FrameError {
    /// The chip takes no frame until it has granted more credit.
    NoCredit,
    /// The frame would be longer than its length field can say.
    TooLong,
}

/// What a received frame is found to be.
#[derive(Debug, Clone, Copy, PartialEq, Eq, Structural)]
pub enum FrameKind {
    /// Nothing: the length is zero.
    Empty,
    /// The length and its complement are both all ones, as they are read
    /// from a bus that does not answer.
    Wedged,
    /// The length and its complement do not agree.
    Corrupt,
    /// The lengths in the header do not fit the frame, or the channel is
    /// none that is known.
    Malformed,
    /// A response to an ioctl.
    Control,
    /// An event.
    Event,
    /// An Ethernet frame.
    Data,
}

/// A received frame, taken apart.
#[derive(Debug, Clone, PartialEq, Eq)]
pub enum Received {
    /// A frame that holds nothing to pass on; `kind` says why.
    Dropped { kind: FrameKind },
    /// A response to an ioctl: its header, and the bytes of the response.
    Control { header: CdcHeader, response: Vec<u8> },
    /// An event: its packet with all integers in host order, and the data
    /// that followed the packet.
    Event { packet: EventPacket, data: Vec<u8> },
    /// An Ethernet frame.
    Data { frame: Vec<u8> },
}

/// The longest payload of an ioctl that fits a frame: what the 16 bits of
/// the length leave once the SDPCM header of 12 bytes and the CDC header of
/// 16 bytes are taken off.
pub const MAX_IOCTL_PAYLOAD: usize = 0xffff - 28;

/// The longest Ethernet frame that fits a frame: what the 16 bits of the
/// length leave once the SDPCM header of 12 bytes and the BDC header of 4
/// bytes are taken off.
pub const MAX_DATA_PAYLOAD: usize = 0xffff - 16;

/// `len` rounded up to a multiple of four.
pub open spec fn padded(len: int) -> int {
    (len + 3) / 4 * 4
}

/// The complement of a 16-bit length.
pub open spec fn inverted(len: u16) -> u16 {
    (0xffff - len) as u16
}

/// The bytes of the SDPCM header of a frame that the host sends.
pub open spec fn tx_header(len: u16, sequence: u8, channel: u8, header_length: u8) -> Seq<u8> {
    le16(len) + le16(inverted(len)) + seq![sequence, channel, 0u8, header_length, 0u8, 0u8, 0u8, 0u8]
}

/// The flags of the CDC header of a request: its kind, and the interface in
/// the four highest bits.
pub open spec fn cdc_flags(request: IoctlRequestView) -> u16 {
    (request.kind.spec_number() + (request.iface % 16) * 4096) as u16
}

/// The CDC header of a request that is sent under the identifier `id`.
pub open spec fn cdc_header(request: IoctlRequestView, id: u16) -> CdcHeader {
    CdcHeader {
        cmd: request.cmd,
        len: request.buf.len() as u32,
        flags: cdc_flags(request),
        id,
        status: 0,
    }
}

/// The BDC header of an Ethernet frame that the host sends.
pub open spec fn bdc_header() -> BcdHeader {
    BcdHeader { flags: 0x20, priority: 0, flags2: 0, data_offset: 0 }
}

/// The frame that carries `request` under the identifier `id` and the
/// sequence number `sequence`.
pub open spec fn ioctl_frame(sequence: u8, id: u16, request: IoctlRequestView) -> Seq<u8> {
    let len: int = 28 + request.buf.len() as int;
    tx_header(len as u16, sequence, CHANNEL_TYPE_CONTROL, 28) + cdc_header(request, id).wire()
        + request.buf + zeros(padded(len) - len)
}

/// The frame that carries the Ethernet frame `packet` under the sequence
/// number `sequence`.
pub open spec fn data_frame(sequence: u8, packet: Seq<u8>) -> Seq<u8> {
    let len: int = 16 + packet.len() as int;
    tx_header(len as u16, sequence, CHANNEL_TYPE_DATA, 16) + bdc_header().wire() + packet + zeros(
        padded(len) - len,
    )
}

/// The length that a frame says it has.
pub open spec fn frame_len(frame: Seq<u8>) -> u16 {
    le16_value(frame.subrange(0, 2))
}

/// The complement of its length that a frame carries.
pub open spec fn frame_len_inv(frame: Seq<u8>) -> u16 {
    le16_value(frame.subrange(2, 4))
}

/// The sequence number of a frame.
pub open spec fn frame_sequence(frame: Seq<u8>) -> u8 {
    frame[4]
}

/// The channel of a frame: the low four bits of its channel byte.
pub open spec fn frame_channel(frame: Seq<u8>) -> u8 {
    frame[5] & 0x0f
}

/// Where the payload of a frame starts.
pub open spec fn frame_header_length(frame: Seq<u8>) -> u8 {
    frame[7]
}

/// The credit that a frame grants.
pub open spec fn frame_credit(frame: Seq<u8>) -> u8 {
    frame[9]
}

/// Whether a frame has a header that can be believed: it is there, its
/// length is not zero, and length and complement agree.
pub open spec fn frame_intact(frame: Seq<u8>) -> bool {
    frame.len() >= 12 && frame_len(frame) != 0 && frame_len(frame) ^ frame_len_inv(frame) == 0xffff
}

/// Where the Ethernet frame starts in a frame of the data channel: behind
/// the BDC header, and behind as many words as that header says.
pub open spec fn data_start(frame: Seq<u8>) -> int {
    frame_header_length(frame) + 4 * frame[frame_header_length(frame) - 1]
}

/// What a received frame is.
pub open spec fn frame_kind(frame: Seq<u8>) -> FrameKind {
    let len = frame_len(frame);
    let start = frame_header_length(frame);
    let channel = frame_channel(frame);
    if frame.len() < 12 || len == 0 {
        FrameKind::Empty
    } else if len == 0xffff && frame_len_inv(frame) == 0xffff {
        FrameKind::Wedged
    } else if len ^ frame_len_inv(frame) != 0xffff {
        FrameKind::Corrupt
    } else if len > frame.len() || start > len {
        FrameKind::Malformed
    } else if channel == CHANNEL_TYPE_CONTROL {
        if start >= 28 {
            FrameKind::Control
        } else {
            FrameKind::Malformed
        }
    } else if channel == CHANNEL_TYPE_EVENT {
        if start >= 12 && start + 72 <= len {
            FrameKind::Event
        } else {
            FrameKind::Malformed
        }
    } else if channel == CHANNEL_TYPE_DATA {
        if start >= 16 && data_start(frame) <= len {
            FrameKind::Data
        } else {
            FrameKind::Malformed
        }
    } else {
        FrameKind::Malformed
    }
}

/// Whether `received` is what `frame` holds.
///
/// A response is the CDC header in front of the payload, and the payload. An
/// event is the event packet at the start of the payload, with its integers
/// turned from the big-endian of the wire into values, and what follows the
/// packet. An Ethernet frame is what follows the BDC header. Everything ends
/// where the length of the frame says, whatever else the buffer holds.
pub open spec fn holds(frame: Seq<u8>, received: Received) -> bool {
    let len = frame_len(frame) as int;
    let start = frame_header_length(frame) as int;
    match received {
        Received::Dropped { kind } => {
            &&& kind == frame_kind(frame)
            &&& kind != FrameKind::Control
            &&& kind != FrameKind::Event
            &&& kind != FrameKind::Data
        },
        Received::Control { header, response } => {
            &&& frame_kind(frame) == FrameKind::Control
            &&& header.wire() == frame.subrange(start - 16, start)
            &&& response@ == frame.subrange(start, len)
        },
        Received::Event { packet, data } => {
            &&& frame_kind(frame) == FrameKind::Event
            &&& packet.swapped().wire() == frame.subrange(start, start + 72)
            &&& data@ == frame.subrange(start + 72, len)
        },
        Received::Data { frame: packet } => {
            &&& frame_kind(frame) == FrameKind::Data
            &&& packet@ == frame.subrange(data_start(frame), len)
        },
    }
}

/// The sequence numbers of both directions, and the chip's limit.
#[derive(Debug, Clone, Copy, PartialEq, Eq)]
pub struct Sdpcm {
    /// Number of the next frame to send.
    pub tx_seq: u8,
    /// Number at which sending must stop.
    pub tx_seq_max: u8,
    /// Number that the next received frame is expected to have.
    pub rx_seq: u8,
}

impl Sdpcm {
    /// How many frames may be sent before the chip grants more credit.
    pub open spec fn credit(self) -> int {
        (self.tx_seq_max - self.tx_seq) % 256
    }

    /// Whether a frame may be sent.
    pub open spec fn spec_has_credit(&self) -> bool {
        self.tx_seq != self.tx_seq_max
    }

    /// The numbers after a frame was sent.
    pub open spec fn sent(self) -> Sdpcm {
        Sdpcm { tx_seq: ((self.tx_seq + 1) % 256) as u8, ..self }
    }

    /// The numbers after a frame with the given header fields was received.
    pub open spec fn received(self, sequence: u8, credit: u8) -> Sdpcm {
        Sdpcm { tx_seq: self.tx_seq, tx_seq_max: credit, rx_seq: ((sequence + 1) % 256) as u8 }
    }

    /// The numbers at the start: nothing sent, nothing received, credit for
    /// one frame.
    pub fn new() -> (s: Sdpcm)
        ensures
            s == (Sdpcm { tx_seq: 0, tx_seq_max: 1, rx_seq: 0 }),
    {
        Sdpcm { tx_seq: 0, tx_seq_max: 1, rx_seq: 0 }
    }

    /// Whether a frame may be sent.
    #[verifier::when_used_as_spec(spec_has_credit)]
    pub fn has_credit(&self) -> (b: bool)
        ensures
            b == self.spec_has_credit(),
            b == (self.credit() > 0),
    {
        self.tx_seq != self.tx_seq_max
    }

    /// Takes the sequence number for the next frame.
    fn next_tx_seq(&mut self) -> (sequence: u8)
        requires
            old(self).spec_has_credit(),
        ensures
            sequence == old(self).tx_seq,
            *final(self) == old(self).sent(),
    {
        let sequence: u8 = self.tx_seq;
        self.tx_seq = if sequence == 255 {
            0
        } else {
            sequence + 1
        };
        sequence
    }

    /// Packs an ioctl into a frame.
    ///
    /// The frame is refused where it would be too long, or where the chip
    /// has granted no credit; nothing changes then. Otherwise the frame
    /// takes the next sequence number.
    pub fn pack_ioctl(&mut self, request: &IoctlRequest, id: u16) -> (r: Result<
        Vec<u8>,
        FrameError,
    >)
        ensures
            request@.buf.len() > MAX_IOCTL_PAYLOAD ==> r == Err::<Vec<u8>, FrameError>(
                FrameError::TooLong,
            ),
            request@.buf.len() <= MAX_IOCTL_PAYLOAD && !old(self).spec_has_credit() ==> r == Err::<
                Vec<u8>,
                FrameError,
            >(FrameError::NoCredit),
            request@.buf.len() <= MAX_IOCTL_PAYLOAD && old(self).spec_has_credit() ==> r is Ok
                && r.unwrap()@ == ioctl_frame(old(self).tx_seq, id, request@),
            r is Ok ==> *final(self) == old(self).sent() && final(self).credit() == old(
                self,
            ).credit() - 1,
            r is Err ==> *final(self) == *old(self),
    {
        let n: usize = request.buf.len();
        if n > MAX_IOCTL_PAYLOAD {
            return Err(FrameError::TooLong);
        }
        if !self.has_credit() {
            return Err(FrameError::NoCredit);
        }
        proof {
            lemma_sending_uses_credit(*self);
        }
        let sequence: u8 = self.next_tx_seq();
        let header = request_header(request, id);
        let sub: [u8; 16] = header.to_bytes();
        let frame = build_frame(
            28 + n,
            sequence,
            CHANNEL_TYPE_CONTROL,
            28,
            &sub,
            request.buf.as_slice(),
        );
        Ok(frame)
    }

    /// Packs an Ethernet frame into a frame of the bus.
    ///
    /// The frame is refused where it would be too long, or where the chip
    /// has granted no credit; nothing changes then. Otherwise the frame
    /// takes the next sequence number.
    pub fn pack_data(&mut self, packet: &[u8]) -> (r: Result<Vec<u8>, FrameError>)
        ensures
            packet@.len() > MAX_DATA_PAYLOAD ==> r == Err::<Vec<u8>, FrameError>(
                FrameError::TooLong,
            ),
            packet@.len() <= MAX_DATA_PAYLOAD && !old(self).spec_has_credit() ==> r == Err::<
                Vec<u8>,
                FrameError,
            >(FrameError::NoCredit),
            packet@.len() <= MAX_DATA_PAYLOAD && old(self).spec_has_credit() ==> r is Ok
                && r.unwrap()@ == data_frame(old(self).tx_seq, packet@),
            r is Ok ==> *final(self) == old(self).sent() && final(self).credit() == old(
                self,
            ).credit() - 1,
            r is Err ==> *final(self) == *old(self),
    {
        let n: usize = packet.len();
        if n > MAX_DATA_PAYLOAD {
            return Err(FrameError::TooLong);
        }
        if !self.has_credit() {
            return Err(FrameError::NoCredit);
        }
        proof {
            lemma_sending_uses_credit(*self);
        }
        let sequence: u8 = self.next_tx_seq();
        let version: u8 = BDC_VERSION << BDC_VERSION_SHIFT;
        assert(version == 0x20) by (bit_vector)
            requires
                version == 2u8 << 4u8,
        ;
        let header = BcdHeader { flags: version, priority: 0, flags2: 0, data_offset: 0 };
        let sub: [u8; 4] = header.to_bytes();
        let frame = build_frame(16 + n, sequence, CHANNEL_TYPE_DATA, 16, &sub, packet);
        Ok(frame)
    }

    /// Takes a received frame apart.
    ///
    /// A frame whose header can be believed renews the chip's limit and
    /// says which number the next frame is expected to have; `in_order`
    /// tells whether this one had the number that was expected. Any other
    /// frame changes nothing.
    pub fn unpack(&mut self, frame: &[u8]) -> (r: (bool, Received))
        ensures
            holds(frame@, r.1),
            frame_intact(frame@) ==> *final(self) == old(self).received(
                frame_sequence(frame@),
                frame_credit(frame@),
            ) && r.0 == (frame_sequence(frame@) == old(self).rx_seq),
            !frame_intact(frame@) ==> *final(self) == *old(self) && !r.0,
    {
        if frame.len() < 12 {
            return (false, Received::Dropped { kind: FrameKind::Empty });
        }
        let len: u16 = get_u16(frame, 0);
        let len_inv: u16 = get_u16(frame, 2);
        if len == 0 {
            return (false, Received::Dropped { kind: FrameKind::Empty });
        }
        if len == 0xffff && len_inv == 0xffff {
            proof {
                lemma_all_ones();
            }
            return (false, Received::Dropped { kind: FrameKind::Wedged });
        }
        if len ^ len_inv != 0xffff {
            return (false, Received::Dropped { kind: FrameKind::Corrupt });
        }
        let sequence: u8 = frame[4];
        let in_order: bool = sequence == self.rx_seq;
        self.tx_seq_max = frame[9];
        self.rx_seq = if sequence == 255 {
            0
        } else {
            sequence + 1
        };
        (in_order, parse(frame))
    }
}

/// The CDC header of a request that is sent under the identifier `id`.
fn request_header(request: &IoctlRequest, id: u16) -> (header: CdcHeader)
    requires
        request@.buf.len() <= MAX_IOCTL_PAYLOAD,
    ensures
        header == cdc_header(request@, id),
{
    let kind: u16 = request.kind.number();
    let iface: u16 = (request.iface % 16) as u16;
    CdcHeader {
        cmd: request.cmd,
        len: request.buf.len() as u32,
        flags: kind + iface * 4096,
        id,
        status: 0,
    }
}

/// A frame of `len` bytes for the host to send: the SDPCM header, the
/// header of the channel, the payload, and zeros up to a whole word.
fn build_frame(
    len: usize,
    sequence: u8,
    channel: u8,
    header_length: u8,
    sub: &[u8],
    payload: &[u8],
) -> (frame: Vec<u8>)
    requires
        len <= 0xffff,
        len == 12 + sub@.len() + payload@.len(),
    ensures
        frame@ == tx_header(len as u16, sequence, channel, header_length) + sub@ + payload@
            + zeros(padded(len as int) - len),
{
    let mut frame: Vec<u8> = tx_header_bytes(len as u16, sequence, channel, header_length);
    append_bytes(&mut frame, sub);
    append_bytes(&mut frame, payload);
    append_zeros(&mut frame, pad_of(len));
    assert(frame@ =~= tx_header(len as u16, sequence, channel, header_length) + sub@ + payload@
        + zeros(padded(len as int) - len));
    frame
}

/// How many bytes of padding a frame of `len` bytes gets.
fn pad_of(len: usize) -> (pad: usize)
    requires
        len <= 0xffff,
    ensures
        pad == padded(len as int) - len,
        (len + pad) % 4 == 0,
        pad < 4,
{
    let rest: usize = len % 4;
    if rest == 0 {
        0
    } else {
        4 - rest
    }
}

/// The SDPCM header of a frame that the host sends.
fn tx_header_bytes(len: u16, sequence: u8, channel: u8, header_length: u8) -> (r: Vec<u8>)
    ensures
        r@ == tx_header(len, sequence, channel, header_length),
{
    let header = SdpcmHeader {
        len,
        len_inv: 0xffff - len,
        sequence,
        channel_and_flags: channel,
        next_length: 0,
        header_length,
        wireless_flow_control: 0,
        bus_data_credit: 0,
        reserved: [0, 0],
    };
    let bytes: [u8; 12] = header.to_bytes();
    assert(bytes@ =~= tx_header(len, sequence, channel, header_length));
    copy_bytes(&bytes)
}

/// Takes a received frame apart, without regard to sequence numbers.
pub fn parse(frame: &[u8]) -> (r: Received)
    ensures
        holds(frame@, r),
{
    if frame.len() < 12 {
        return Received::Dropped { kind: FrameKind::Empty };
    }
    let len16: u16 = get_u16(frame, 0);
    let len_inv: u16 = get_u16(frame, 2);
    if len16 == 0 {
        return Received::Dropped { kind: FrameKind::Empty };
    }
    if len16 == 0xffff && len_inv == 0xffff {
        return Received::Dropped { kind: FrameKind::Wedged };
    }
    if len16 ^ len_inv != 0xffff {
        return Received::Dropped { kind: FrameKind::Corrupt };
    }
    let len: usize = len16 as usize;
    let start: usize = frame[7] as usize;
    if len > frame.len() || start > len {
        return Received::Dropped { kind: FrameKind::Malformed };
    }
    let channel: u8 = frame[5] & 0x0f;
    if channel == CHANNEL_TYPE_CONTROL {
        if start < 28 {
            return Received::Dropped { kind: FrameKind::Malformed };
        }
        let mut sub: [u8; 16] = [0; 16];
        get_bytes(&mut sub, frame, start - 16);
        let header = CdcHeader::from_bytes(&sub);
        let response: Vec<u8> = copy_bytes(vstd::slice::slice_subrange(frame, start, len));
        Received::Control { header, response }
    } else if channel == CHANNEL_TYPE_EVENT {
        if start < 12 || start + 72 > len {
            return Received::Dropped { kind: FrameKind::Malformed };
        }
        let mut sub: [u8; 72] = [0; 72];
        get_bytes(&mut sub, frame, start);
        let mut packet = EventPacket::from_bytes(&sub);
        let ghost raw = packet;
        packet.byteswap();
        proof {
            EventPacket::lemma_swapped_involution(raw);
        }
        let data: Vec<u8> = copy_bytes(vstd::slice::slice_subrange(frame, start + 72, len));
        Received::Event { packet, data }
    } else if channel == CHANNEL_TYPE_DATA {
        if start < 16 {
            return Received::Dropped { kind: FrameKind::Malformed };
        }
        let offset: usize = start + 4 * (frame[start - 1] as usize);
        if offset > len {
            return Received::Dropped { kind: FrameKind::Malformed };
        }
        let packet: Vec<u8> = copy_bytes(vstd::slice::slice_subrange(frame, offset, len));
        Received::Data { frame: packet }
    } else {
        Received::Dropped { kind: FrameKind::Malformed }
    }
}

/// A length of all ones does not agree with a complement of all ones.
proof fn lemma_all_ones()
    ensures
        0xffffu16 ^ 0xffffu16 != 0xffffu16,
{
    assert(0xffffu16 ^ 0xffffu16 == 0u16) by (bit_vector);
}

/// A length and its complement differ in every bit.
pub proof fn lemma_inverted(len: u16)
    by (bit_vector)
    ensures
        len ^ inverted(len) == 0xffff,
{
}

/// Every frame that the host packs carries a length that agrees with its
/// complement, and is a whole number of 32-bit words long.
pub proof fn lemma_packed_frames(sequence: u8, id: u16, request: IoctlRequestView, packet: Seq<u8>)
    requires
        request.buf.len() <= MAX_IOCTL_PAYLOAD,
        packet.len() <= MAX_DATA_PAYLOAD,
    ensures
        frame_len(ioctl_frame(sequence, id, request)) == 28 + request.buf.len(),
        frame_len(ioctl_frame(sequence, id, request)) ^ frame_len_inv(
            ioctl_frame(sequence, id, request),
        ) == 0xffff,
        ioctl_frame(sequence, id, request).len() == padded(28 + request.buf.len() as int),
        ioctl_frame(sequence, id, request).len() % 4 == 0,
        frame_len(data_frame(sequence, packet)) == 16 + packet.len(),
        frame_len(data_frame(sequence, packet)) ^ frame_len_inv(data_frame(sequence, packet))
            == 0xffff,
        data_frame(sequence, packet).len() == padded(16 + packet.len() as int),
        data_frame(sequence, packet).len() % 4 == 0,
{
    let a = ioctl_frame(sequence, id, request);
    let alen: u16 = (28 + request.buf.len()) as u16;
    assert(a.subrange(0, 2) =~= le16(alen));
    assert(a.subrange(2, 4) =~= le16(inverted(alen)));
    crate::bytes::lemma_le16_value_of_le16(alen);
    crate::bytes::lemma_le16_value_of_le16(inverted(alen));
    lemma_inverted(alen);
    let d = data_frame(sequence, packet);
    let dlen: u16 = (16 + packet.len()) as u16;
    assert(d.subrange(0, 2) =~= le16(dlen));
    assert(d.subrange(2, 4) =~= le16(inverted(dlen)));
    crate::bytes::lemma_le16_value_of_le16(dlen);
    crate::bytes::lemma_le16_value_of_le16(inverted(dlen));
    lemma_inverted(dlen);
}

/// Sending takes the sequence number one further, uses up one credit, and
/// is possible only while credit is left: the number never passes the
/// chip's limit.
pub proof fn lemma_sending_uses_credit(s: Sdpcm)
    ensures
        0 <= s.credit() < 256,
        s.spec_has_credit() <==> s.credit() > 0,
        s.spec_has_credit() ==> s.sent().credit() == s.credit() - 1,
        s.sent().tx_seq == (s.tx_seq + 1) % 256,
        s.sent().tx_seq_max == s.tx_seq_max,
{
}

/// A frame that grants no more than the number of the next frame stops the
/// sending, and a later frame that grants more lets it go on.
pub proof fn lemma_credit_stall(s: Sdpcm, sequence: u8, later: u8, credit: u8)
    requires
        credit != s.tx_seq,
    ensures
        !s.received(sequence, s.tx_seq).spec_has_credit(),
        s.received(sequence, s.tx_seq).received(later, credit).spec_has_credit(),
{
}

/// The channel numbers, with any flags above them taken off.
proof fn lemma_channel_bits()
    ensures
        0u8 & 0x0f == 0u8,
        1u8 & 0x0f == 1u8,
        2u8 & 0x0f == 2u8,
{
    assert(0u8 & 0x0f == 0u8) by (bit_vector);
    assert(1u8 & 0x0f == 1u8) by (bit_vector);
    assert(2u8 & 0x0f == 2u8) by (bit_vector);
}

/// What is taken out of a packed ioctl is the ioctl that was packed: its
/// header as it was sent, and its payload without the padding.
pub proof fn lemma_ioctl_frame_round_trip(
    sequence: u8,
    id: u16,
    request: IoctlRequestView,
    received: Received,
)
    requires
        request.buf.len() <= MAX_IOCTL_PAYLOAD,
        holds(ioctl_frame(sequence, id, request), received),
    ensures
        received matches Received::Control { header, response } && header == cdc_header(
            request,
            id,
        ) && response@ == request.buf,
{
    let frame = ioctl_frame(sequence, id, request);
    let len: u16 = (28 + request.buf.len()) as u16;
    lemma_packed_frames(sequence, id, request, Seq::empty());
    lemma_channel_bits();
    assert(frame[5] == CHANNEL_TYPE_CONTROL);
    assert(frame[7] == 28);
    assert(frame_kind(frame) == FrameKind::Control);
    match received {
        Received::Control { header, response } => {
            assert(frame.subrange(12, 28) =~= cdc_header(request, id).wire());
            CdcHeader::lemma_wire_injective(header, cdc_header(request, id));
            assert(frame.subrange(28, len as int) =~= request.buf);
        },
        _ => {},
    }
}

/// What is taken out of a packed Ethernet frame is the Ethernet frame that
/// was packed, without the padding.
pub proof fn lemma_data_frame_round_trip(sequence: u8, packet: Seq<u8>, received: Received)
    requires
        packet.len() <= MAX_DATA_PAYLOAD,
        holds(data_frame(sequence, packet), received),
    ensures
        received matches Received::Data { frame } && frame@ == packet,
{
    let frame = data_frame(sequence, packet);
    let len: u16 = (16 + packet.len()) as u16;
    lemma_packed_frames(sequence, 0, IoctlRequestView {
        kind: crate::ioctl::IoctlType::Read,
        cmd: 0,
        iface: 0,
        buf: Seq::empty(),
    }, packet);
    lemma_channel_bits();
    assert(frame[5] == CHANNEL_TYPE_DATA);
    assert(frame[7] == 16);
    assert(frame[15] == 0);
    assert(data_start(frame) == 16);
    assert(frame_kind(frame) == FrameKind::Data);
    match received {
        Received::Data { frame: inner } => {
            assert(frame.subrange(16, len as int) =~= packet);
        },
        _ => {},
    }
}

} // verus!
