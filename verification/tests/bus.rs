use cyw43::backplane::{chunk_len, window_offset, Backplane};
use cyw43::bus::{cmd_word, words, FUNC_BACKPLANE, FUNC_BUS, FUNC_WLAN};
use cyw43::runner::{Delivery, Runner, Turn};
use cyw43::events::EventQueue;
use cyw43::ioctl::{IoctlState, IoctlType};
use cyw43::sdpcm::{FrameKind, Sdpcm};
use cyw43::structs::SdpcmHeader;
use cyw43::PowerManagementMode;

#[test]
fn cmd_word_places_its_fields() {
    assert_eq!(cmd_word(false, false, FUNC_BUS, 0, 0), 0);
    assert_eq!(cmd_word(true, false, FUNC_BUS, 0, 0), 0x8000_0000);
    assert_eq!(cmd_word(false, true, FUNC_BUS, 0, 0), 0x4000_0000);
    assert_eq!(cmd_word(false, false, FUNC_BACKPLANE, 0, 0), 0x1000_0000);
    assert_eq!(cmd_word(false, false, FUNC_WLAN, 0, 0), 0x2000_0000);
    assert_eq!(cmd_word(false, false, FUNC_BUS, 1, 0), 0x800);
    assert_eq!(cmd_word(false, false, FUNC_BUS, 0, 1), 1);
    assert_eq!(cmd_word(true, true, FUNC_BUS, 0x14, 4), 0xc000_a004);
    assert_eq!(cmd_word(true, true, FUNC_WLAN, 0, 64), 0xe000_0040);
    assert_eq!(cmd_word(false, true, FUNC_BACKPLANE, 0x1000a, 1), 0x5800_5001);
}

#[test]
fn cmd_word_keeps_the_low_bits_of_address_and_length() {
    assert_eq!(cmd_word(false, false, FUNC_BUS, 0x1ffff, 0x7ff), 0x0fff_ffff);
    assert_eq!(cmd_word(false, false, FUNC_BUS, 0x2_0000, 0x800), 0);
    assert_eq!(cmd_word(false, false, FUNC_BUS, 0xffff_ffff, 0xffff_ffff), 0x0fff_ffff);
    assert_eq!(cmd_word(false, false, 7, 0, 0), 0x3000_0000);
}

#[test]
fn words_round_up() {
    assert_eq!(words(0), 0);
    assert_eq!(words(1), 1);
    assert_eq!(words(4), 1);
    assert_eq!(words(5), 2);
    assert_eq!(words(2047), 512);
    assert_eq!(words(u32::MAX), 0x4000_0000);
}

#[test]
fn window_is_selected_only_when_it_changes() {
    let mut b = Backplane::new();
    assert_eq!(b.set_window(0x1800_3004), Some([0x00, 0x00, 0x18]));
    assert_eq!(b.window, 0x1800_0000);
    assert_eq!(b.set_window(0x1800_7fff), None);
    assert_eq!(b.set_window(0x1800_8000), Some([0x80, 0x00, 0x18]));
    assert_eq!(b.window, 0x1800_8000);
    assert_eq!(b.set_window(0x0006_9abc), Some([0x80, 0x06, 0x00]));
    assert_eq!(b.window, 0x0006_8000);
    assert_eq!(b.set_window(0xffff_ffff), Some([0x80, 0xff, 0xff]));
    assert_eq!(b.set_window(0xffff_8000), None);
    assert_eq!(b.set_window(0), Some([0, 0, 0]));
}

#[test]
fn window_offset_asks_for_wide_cycles_from_four_bytes_on() {
    assert_eq!(window_offset(0x1800_3004, 4), 0xb004);
    assert_eq!(window_offset(0x1800_3004, 2), 0x3004);
    assert_eq!(window_offset(0x1800_3004, 1), 0x3004);
    assert_eq!(window_offset(0x0000_7fff, 64), 0xffff);
    assert_eq!(window_offset(0x0000_8000, 4), 0x8000);
    assert_eq!(window_offset(0xffff_ffff, 0), 0x7fff);
}

#[test]
fn upload_chunks_stay_within_the_window() {
    assert_eq!(chunk_len(0, 1000), 64);
    assert_eq!(chunk_len(0, 10), 10);
    assert_eq!(chunk_len(0, 0), 0);
    assert_eq!(chunk_len(0x7fe0, 1000), 32);
    assert_eq!(chunk_len(0x7fff, 1000), 1);
    assert_eq!(chunk_len(0x8000, 1000), 64);
    assert_eq!(chunk_len(0x7fc0, 1000), 64);
    assert_eq!(chunk_len(0xffff_ffff, 5), 1);
    let mut addr = 0x7f00u32;
    let mut left = 700usize;
    let mut writes = 0;
    while left > 0 {
        let n = chunk_len(addr, left);
        assert!(n > 0 && n <= 64);
        assert_eq!(addr & !0x7fff, (addr + n as u32 - 1) & !0x7fff);
        addr += n as u32;
        left -= n;
        writes += 1;
    }
    assert_eq!(writes, 11);
}

#[test]
fn power_modes_have_their_timings() {
    let rows = [
        (PowerManagementMode::Disabled, 0, 0, 0, 0, 0),
        (PowerManagementMode::Aggressive, 2, 2000, 1, 1, 10),
        (PowerManagementMode::Balanced, 2, 20, 1, 1, 1),
        (PowerManagementMode::PowerSave, 2, 200, 1, 1, 10),
    ];
    for (mode, number, sleep, beacon, dtim, assoc) in rows {
        assert_eq!(mode.mode(), number);
        assert_eq!(mode.sleep_ret_ms(), sleep);
        assert_eq!(mode.beacon_period(), beacon);
        assert_eq!(mode.dtim_period(), dtim);
        assert_eq!(mode.assoc(), assoc);
    }
}

#[test]
fn runner_sends_nothing_without_credit() {
    let mut r = Runner::new();
    r.sdpcm = Sdpcm { tx_seq: 4, tx_seq_max: 4, rx_seq: 0 };
    assert_eq!(r.turn(true, true), Turn::Idle);
    assert_eq!(r.turn(true, false), Turn::Idle);
    assert_eq!(r.turn(false, true), Turn::Idle);
    assert!(!r.data_first);
}

#[test]
fn runner_alternates_starting_with_the_ioctl() {
    let mut r = Runner::new();
    assert_eq!(r.turn(false, false), Turn::Idle);
    assert_eq!(r.turn(false, true), Turn::Data);
    assert_eq!(r.turn(true, true), Turn::Ioctl);
    assert_eq!(r.turn(true, true), Turn::Data);
    assert_eq!(r.turn(true, true), Turn::Ioctl);
    assert_eq!(r.turn(true, false), Turn::Ioctl);
    assert_eq!(r.turn(true, true), Turn::Data);
    assert_eq!(r.turn(false, true), Turn::Data);
    assert_eq!(r.turn(true, true), Turn::Ioctl);
}

#[test]
fn runner_numbers_ioctls_and_wraps() {
    let mut r = Runner::new();
    assert_eq!(r.next_ioctl_id(), 1);
    assert_eq!(r.next_ioctl_id(), 2);
    r.ioctl_id = 0xffff;
    assert_eq!(r.next_ioctl_id(), 0);
    assert_eq!(r.ioctl_id, 0);
}

fn rx_frame(channel: u8, sequence: u8, credit: u8, start: u8, body: &[u8]) -> Vec<u8> {
    let len = (12 + body.len()) as u16;
    let header = SdpcmHeader {
        len,
        len_inv: !len,
        sequence,
        channel_and_flags: channel,
        next_length: 0,
        header_length: start,
        wireless_flow_control: 0,
        bus_data_credit: credit,
        reserved: [0, 0],
    };
    let mut frame = header.to_bytes().to_vec();
    frame.extend_from_slice(body);
    frame
}

fn response_frame(id: u16, status: u32, payload: &[u8]) -> Vec<u8> {
    let mut body = vec![0u8; 16];
    body[10..12].copy_from_slice(&id.to_le_bytes());
    body[12..16].copy_from_slice(&status.to_le_bytes());
    body.extend_from_slice(payload);
    rx_frame(0, 0, 5, 28, &body)
}

#[test]
fn runner_hands_responses_to_the_slot() {
    let mut r = Runner::new();
    let mut slot = IoctlState::new();
    let mut queue = EventQueue::new(4);
    slot.do_ioctl(IoctlType::Read, 262, 0, &[1]).unwrap();
    let id = r.next_ioctl_id();
    slot.wait_pending(id).unwrap();

    let stray = response_frame(0x9999, 0, &[7]);
    assert_eq!(r.receive(&mut slot, &mut queue, &stray), Delivery::Response { accepted: false });
    assert_eq!(slot.sent_id(), Some(id));
    assert_eq!(r.sdpcm.tx_seq_max, 5);

    let answer = response_frame(id, 0, &[1, 2, 3]);
    assert_eq!(r.receive(&mut slot, &mut queue, &answer), Delivery::Response { accepted: true });
    assert_eq!(slot.wait_complete(), Some(Ok(vec![1, 2, 3])));
    assert_eq!(queue.published_count(), 0);
}

#[test]
fn runner_hands_events_to_the_queue_and_frames_to_the_stack() {
    let mut r = Runner::new();
    let mut slot = IoctlState::new();
    let mut queue = EventQueue::new(4);
    let mut listener = queue.subscriber();

    let mut body = vec![0u8; 72];
    body[28..32].copy_from_slice(&1u32.to_be_bytes());
    body.extend_from_slice(&[9, 9]);
    let event = rx_frame(1, 0, 3, 12, &body);
    assert_eq!(r.receive(&mut slot, &mut queue, &event), Delivery::Event);
    let record = queue.next_message(&mut listener).unwrap();
    assert_eq!(record.msg.event_type, 1);
    assert_eq!(record.data, vec![9, 9]);
    assert!(slot.is_idle());

    let data = rx_frame(2, 1, 3, 16, &[0x20, 0, 0, 0, 0xde, 0xad]);
    assert_eq!(
        r.receive(&mut slot, &mut queue, &data),
        Delivery::Data { frame: vec![0xde, 0xad] }
    );
    assert_eq!(r.sdpcm, Sdpcm { tx_seq: 0, tx_seq_max: 3, rx_seq: 2 });

    assert_eq!(
        r.receive(&mut slot, &mut queue, &[0; 12]),
        Delivery::Dropped { kind: FrameKind::Empty }
    );
    assert_eq!(queue.published_count(), 1);
}
