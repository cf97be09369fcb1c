use cyw43::ioctl::{IoctlRequest, IoctlType};
use cyw43::sdpcm::{parse, FrameError, FrameKind, Received, Sdpcm};
use cyw43::structs::{CdcHeader, EventPacket, SdpcmHeader};

fn request(len: usize) -> IoctlRequest {
    IoctlRequest {
        kind: IoctlType::Write,
        cmd: 263,
        iface: 0,
        buf: (0..len).map(|i| i as u8).collect(),
    }
}

fn rx_frame(channel: u8, sequence: u8, credit: u8, start: u8, body: &[u8]) -> Vec<u8> {
    let len = (12 + body.len()) as u16;
    let header = SdpcmHeader {
        len,
        len_inv: !len,
        sequence,
        channel_and_flags: channel,
        next_length: 0,
        header_length: start,
        wireless_flow_control: 0,
        bus_data_credit: credit,
        reserved: [0, 0],
    };
    let mut frame = header.to_bytes().to_vec();
    frame.extend_from_slice(body);
    frame
}

#[test]
fn ioctl_frame_layout() {
    let mut s = Sdpcm::new();
    let frame = s.pack_ioctl(&request(5), 0x1234).unwrap();
    assert_eq!(frame.len(), 36);
    assert_eq!(&frame[0..12], &[33, 0, 0xde, 0xff, 0, 0, 0, 28, 0, 0, 0, 0]);
    assert_eq!(
        &frame[12..28],
        &[7, 1, 0, 0, 5, 0, 0, 0, 2, 0, 0x34, 0x12, 0, 0, 0, 0]
    );
    assert_eq!(&frame[28..33], &[0, 1, 2, 3, 4]);
    assert_eq!(&frame[33..], &[0, 0, 0]);
    assert_eq!(s.tx_seq, 1);
}

#[test]
fn ioctl_frame_carries_kind_and_interface_in_its_flags() {
    let mut s = Sdpcm::new();
    let r = IoctlRequest { kind: IoctlType::Read, cmd: 262, iface: 3, buf: vec![] };
    let frame = s.pack_ioctl(&r, 1).unwrap();
    assert_eq!(frame.len(), 28);
    assert_eq!(&frame[20..22], &[0x00, 0x30]);
    let mut s = Sdpcm::new();
    let r = IoctlRequest { kind: IoctlType::Write, cmd: 262, iface: 0x1f, buf: vec![] };
    assert_eq!(&s.pack_ioctl(&r, 1).unwrap()[20..22], &[0x02, 0xf0]);
}

#[test]
fn data_frame_layout() {
    let mut s = Sdpcm { tx_seq: 9, tx_seq_max: 20, rx_seq: 0 };
    let frame = s.pack_data(&[0xaa; 14]).unwrap();
    assert_eq!(frame.len(), 32);
    assert_eq!(&frame[0..12], &[30, 0, 0xe1, 0xff, 9, 2, 0, 16, 0, 0, 0, 0]);
    assert_eq!(&frame[12..16], &[0x20, 0, 0, 0]);
    assert_eq!(&frame[16..30], &[0xaa; 14]);
    assert_eq!(&frame[30..], &[0, 0]);
    assert_eq!(s.tx_seq, 10);
}

#[test]
fn packed_frames_are_whole_words_with_a_matching_complement() {
    for n in 0..70usize {
        let mut s = Sdpcm::new();
        let frame = s.pack_ioctl(&request(n), n as u16).unwrap();
        let len = u16::from_le_bytes([frame[0], frame[1]]);
        let len_inv = u16::from_le_bytes([frame[2], frame[3]]);
        assert_eq!(len ^ len_inv, 0xffff);
        assert_eq!(len as usize, 28 + n);
        assert_eq!(frame.len() % 4, 0);
        assert!(frame.len() >= len as usize && frame.len() < len as usize + 4);

        let mut s = Sdpcm::new();
        let packet = vec![0x55; n];
        let frame = s.pack_data(&packet).unwrap();
        let len = u16::from_le_bytes([frame[0], frame[1]]);
        let len_inv = u16::from_le_bytes([frame[2], frame[3]]);
        assert_eq!(len ^ len_inv, 0xffff);
        assert_eq!(len as usize, 16 + n);
        assert_eq!(frame.len() % 4, 0);
    }
}

#[test]
fn sequence_advances_by_one_and_wraps() {
    let mut s = Sdpcm { tx_seq: 254, tx_seq_max: 1, rx_seq: 0 };
    assert_eq!(s.pack_data(&[1]).unwrap()[4], 254);
    assert_eq!(s.tx_seq, 255);
    assert_eq!(s.pack_ioctl(&request(0), 1).unwrap()[4], 255);
    assert_eq!(s.tx_seq, 0);
    assert_eq!(s.pack_data(&[1]).unwrap()[4], 0);
    assert_eq!(s.tx_seq, 1);
    assert_eq!(s.pack_data(&[1]), Err(FrameError::NoCredit));
    assert_eq!(s.tx_seq, 1);
    assert_eq!(s.tx_seq_max, 1);
}

#[test]
fn credit_stall() {
    let mut s = Sdpcm::new();
    assert!(s.has_credit());
    let stall = rx_frame(2, 0, s.tx_seq, 16, &[0x20, 0, 0, 0]);
    s.unpack(&stall);
    assert!(!s.has_credit());
    let mut sent = 0;
    for _ in 0..10 {
        if s.pack_data(&[1, 2, 3]).is_ok() {
            sent += 1;
        }
        if s.pack_ioctl(&request(1), 1).is_ok() {
            sent += 1;
        }
    }
    assert_eq!(sent, 0);
    assert_eq!(s.tx_seq, 0);
    assert_eq!(s.pack_data(&[1]), Err(FrameError::NoCredit));

    let grant = rx_frame(2, 1, s.tx_seq + 1, 16, &[0x20, 0, 0, 0]);
    s.unpack(&grant);
    assert!(s.has_credit());
    assert!(s.pack_data(&[1, 2, 3]).is_ok());
    assert_eq!(s.tx_seq, 1);
    assert_eq!(s.pack_data(&[1, 2, 3]), Err(FrameError::NoCredit));
}

#[test]
fn frames_that_are_too_long_are_refused() {
    let mut s = Sdpcm::new();
    assert_eq!(s.pack_ioctl(&request(0xffff - 27), 1), Err(FrameError::TooLong));
    assert_eq!(s.pack_data(&vec![0; 0xffff - 15]), Err(FrameError::TooLong));
    assert_eq!(s, Sdpcm::new());
    let frame = s.pack_data(&vec![0; 0xffff - 16]).unwrap();
    assert_eq!(frame.len(), 0x10000);
    assert_eq!(&frame[0..4], &[0xff, 0xff, 0, 0]);
    let mut s = Sdpcm::new();
    let frame = s.pack_ioctl(&request(0xffff - 28), 1).unwrap();
    assert_eq!(frame.len(), 0x10000);
    let mut s = Sdpcm { tx_seq: 3, tx_seq_max: 3, rx_seq: 0 };
    assert_eq!(s.pack_data(&vec![0; 0xffff]), Err(FrameError::TooLong));
}

#[test]
fn unpack_takes_credit_and_sequence_from_intact_frames() {
    let mut s = Sdpcm::new();
    let frame = rx_frame(2, 0, 7, 16, &[0x20, 0, 0, 0, 1, 2, 3]);
    let (in_order, received) = s.unpack(&frame);
    assert!(in_order);
    assert_eq!(received, Received::Data { frame: vec![1, 2, 3] });
    assert_eq!(s, Sdpcm { tx_seq: 0, tx_seq_max: 7, rx_seq: 1 });

    let frame = rx_frame(2, 5, 9, 16, &[0x20, 0, 0, 0]);
    let (in_order, received) = s.unpack(&frame);
    assert!(!in_order);
    assert_eq!(received, Received::Data { frame: vec![] });
    assert_eq!(s, Sdpcm { tx_seq: 0, tx_seq_max: 9, rx_seq: 6 });

    let frame = rx_frame(2, 255, 9, 16, &[0x20, 0, 0, 0]);
    s.unpack(&frame);
    assert_eq!(s.rx_seq, 0);
}

#[test]
fn unpack_drops_empty_and_corrupt_frames() {
    let mut s = Sdpcm { tx_seq: 1, tx_seq_max: 4, rx_seq: 2 };
    let before = s;
    assert_eq!(s.unpack(&[]), (false, Received::Dropped { kind: FrameKind::Empty }));
    assert_eq!(s.unpack(&[0; 64]), (false, Received::Dropped { kind: FrameKind::Empty }));
    assert_eq!(s.unpack(&[1; 11]), (false, Received::Dropped { kind: FrameKind::Empty }));
    let mut corrupt = rx_frame(2, 2, 9, 16, &[0x20, 0, 0, 0]);
    corrupt[2] ^= 1;
    assert_eq!(s.unpack(&corrupt), (false, Received::Dropped { kind: FrameKind::Corrupt }));
    let mut off_by_one = rx_frame(2, 2, 9, 16, &[0x20, 0, 0, 0]);
    off_by_one[0] = 0xff;
    off_by_one[1] = 0xff;
    off_by_one[2] = 0xfe;
    off_by_one[3] = 0xff;
    assert_eq!(s.unpack(&off_by_one), (false, Received::Dropped { kind: FrameKind::Corrupt }));
    assert_eq!(s, before);
}

#[test]
fn unpack_tells_a_bus_that_does_not_answer() {
    let mut s = Sdpcm { tx_seq: 1, tx_seq_max: 4, rx_seq: 2 };
    let before = s;
    let ones = [0xffu8; 32];
    assert_eq!(s.unpack(&ones), (false, Received::Dropped { kind: FrameKind::Wedged }));
    assert_eq!(parse(&ones), Received::Dropped { kind: FrameKind::Wedged });
    assert_eq!(s, before);
    let mut whole = vec![0u8; 0x10000];
    whole[0] = 0xff;
    whole[1] = 0xff;
    whole[5] = 2;
    whole[7] = 16;
    assert!(matches!(s.unpack(&whole), (false, Received::Data { .. })));
}

#[test]
fn parse_refuses_lengths_that_do_not_fit() {
    let good = rx_frame(2, 0, 0, 16, &[0x20, 0, 0, 0, 1]);
    assert_eq!(parse(&good[..16]), Received::Dropped { kind: FrameKind::Malformed });
    let early = rx_frame(2, 0, 0, 15, &[0x20, 0, 0, 0, 1]);
    assert_eq!(parse(&early), Received::Dropped { kind: FrameKind::Malformed });
    let late = rx_frame(2, 0, 0, 18, &[0x20, 0, 0, 0, 1]);
    assert_eq!(parse(&late), Received::Dropped { kind: FrameKind::Malformed });
    let offset = rx_frame(2, 0, 0, 16, &[0x20, 0, 0, 1, 1, 2, 3]);
    assert_eq!(parse(&offset), Received::Dropped { kind: FrameKind::Malformed });
    let unknown = rx_frame(3, 0, 0, 16, &[0x20, 0, 0, 0, 1]);
    assert_eq!(parse(&unknown), Received::Dropped { kind: FrameKind::Malformed });
    let control = rx_frame(0, 0, 0, 27, &[0; 16]);
    assert_eq!(parse(&control), Received::Dropped { kind: FrameKind::Malformed });
    let event = rx_frame(1, 0, 0, 12, &[0; 71]);
    assert_eq!(parse(&event), Received::Dropped { kind: FrameKind::Malformed });
}

#[test]
fn parse_honours_the_data_offset_and_the_flags_in_the_channel_byte() {
    let frame = rx_frame(0xf2, 0, 0, 16, &[0x20, 0, 0, 1, 9, 9, 9, 9, 1, 2]);
    assert_eq!(parse(&frame), Received::Data { frame: vec![1, 2] });
    let mut padded = frame.clone();
    padded.extend_from_slice(&[0, 0]);
    assert_eq!(parse(&padded), Received::Data { frame: vec![1, 2] });
}

#[test]
fn parse_reads_back_what_pack_ioctl_wrote() {
    let mut s = Sdpcm::new();
    let r = request(6);
    let frame = s.pack_ioctl(&r, 0x4321).unwrap();
    match parse(&frame) {
        Received::Control { header, response } => {
            assert_eq!(
                header,
                CdcHeader { cmd: 263, len: 6, flags: 2, id: 0x4321, status: 0 }
            );
            assert_eq!(response, r.buf);
        }
        other => panic!("{:?}", other),
    }
    let mut s = Sdpcm::new();
    let frame = s.pack_data(&[5, 6, 7]).unwrap();
    assert_eq!(parse(&frame), Received::Data { frame: vec![5, 6, 7] });
}

#[test]
fn parse_turns_events_into_host_order() {
    let mut body = vec![0u8; 72];
    body[12..14].copy_from_slice(&0x886cu16.to_be_bytes());
    body[14..16].copy_from_slice(&0x8001u16.to_be_bytes());
    body[19..22].copy_from_slice(&[0x00, 0x10, 0x18]);
    body[22..24].copy_from_slice(&1u16.to_be_bytes());
    body[24..26].copy_from_slice(&2u16.to_be_bytes());
    body[28..32].copy_from_slice(&69u32.to_be_bytes());
    body[32..36].copy_from_slice(&8u32.to_be_bytes());
    body[44..48].copy_from_slice(&3u32.to_be_bytes());
    body.extend_from_slice(&[0xa, 0xb, 0xc]);
    let frame = rx_frame(1, 0, 0, 12, &body);
    match parse(&frame) {
        Received::Event { packet, data } => {
            assert_eq!(packet.eth.ether_type, 0x886c);
            assert_eq!(packet.hdr.subtype, 0x8001);
            assert_eq!(packet.hdr.oui, [0x00, 0x10, 0x18]);
            assert_eq!(packet.hdr.user_subtype, 1);
            assert_eq!(packet.msg.version, 2);
            assert_eq!(packet.msg.event_type, 69);
            assert_eq!(packet.msg.status, 8);
            assert_eq!(packet.msg.datalen, 3);
            assert_eq!(data, vec![0xa, 0xb, 0xc]);
            let mut raw = packet;
            raw.byteswap();
            assert_eq!(&raw.to_bytes()[..], &body[..72]);
            assert_eq!(EventPacket::SIZE, 72);
        }
        other => panic!("{:?}", other),
    }
}
