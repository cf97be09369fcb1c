use cyw43::events::{Event, EventQueue, EVENT_MASK_BITS, EVENT_UNKNOWN};
use cyw43::structs::EventMessage;

fn message(event: Event, status: u32) -> EventMessage {
    EventMessage {
        version: 2,
        flags: 0,
        event_type: event.number() as u32,
        status,
        reason: 0,
        auth_type: 0,
        datalen: 0,
        addr: [0; 6],
        ifname: [0; 16],
        ifidx: 0,
        bsscfgidx: 0,
    }
}

#[test]
fn event_numbers_are_those_of_the_firmware() {
    assert_eq!(Event::SET_SSID.number(), 0);
    assert_eq!(Event::JOIN.number(), 1);
    assert_eq!(Event::AUTH.number(), 3);
    assert_eq!(Event::DISASSOC.number(), 11);
    assert_eq!(Event::DISASSOC_IND.number(), 12);
    assert_eq!(Event::ROAM.number(), 19);
    assert_eq!(Event::RADIO.number(), 40);
    assert_eq!(Event::PROBREQ_MSG.number(), 44);
    assert_eq!(Event::IF.number(), 54);
    assert_eq!(Event::ESCAN_RESULT.number(), 69);
    assert_eq!(Event::PROBRESP_MSG.number(), 71);
    assert_eq!(Event::PROBREQ_MSG_RX.number(), 137);
    assert_eq!(Event::Unknown.number(), EVENT_UNKNOWN);
}

#[test]
fn event_numbers_round_trip() {
    for n in 0..=255u8 {
        let e = Event::from_number(n);
        if e == Event::Unknown {
            assert!(n == 42 || n == 43 || n == 53 || (n > 93 && n != 137), "{}", n);
        } else {
            assert_eq!(e.number(), n);
            assert!(n < EVENT_MASK_BITS);
        }
    }
    assert_eq!(Event::from_number(3), Event::AUTH);
    assert_eq!(Event::from_number(200), Event::Unknown);
}

#[test]
fn event_matches_the_wide_event_type() {
    assert!(Event::AUTH.matches(3));
    assert!(!Event::AUTH.matches(1));
    assert!(!Event::AUTH.matches(0x103));
    assert!(Event::ESCAN_RESULT.matches(69));
}

#[test]
fn queue_delivers_to_every_subscriber_in_order() {
    let mut q = EventQueue::new(4);
    let mut a = q.subscriber();
    q.publish(message(Event::AUTH, 1), &[1]);
    let mut b = q.subscriber();
    q.publish(message(Event::JOIN, 0), &[2, 3]);
    assert_eq!(q.published_count(), 2);

    let first = q.next_message(&mut a).unwrap();
    assert_eq!(first.msg.event_type, 3);
    assert_eq!(first.data, vec![1]);
    let second = q.next_message(&mut a).unwrap();
    assert_eq!(second.msg.event_type, 1);
    assert_eq!(second.data, vec![2, 3]);
    assert!(q.next_message(&mut a).is_none());
    assert_eq!(a.lagged, 0);

    let only = q.next_message(&mut b).unwrap();
    assert_eq!(only.msg.event_type, 1);
    assert!(q.next_message(&mut b).is_none());
    assert_eq!(b.lagged, 0);
}

#[test]
fn queue_drops_the_oldest_for_a_lagging_subscriber() {
    let mut q = EventQueue::new(2);
    let mut slow = q.subscriber();
    for status in 0..5u32 {
        q.publish(message(Event::LINK, status), &[]);
    }
    let m = q.next_message(&mut slow).unwrap();
    assert_eq!(m.msg.status, 3);
    assert_eq!(slow.lagged, 3);
    assert_eq!(slow.next, 4);
    let m = q.next_message(&mut slow).unwrap();
    assert_eq!(m.msg.status, 4);
    assert_eq!(slow.lagged, 3);
    assert!(q.next_message(&mut slow).is_none());
    assert_eq!(slow.lagged, 3);
}

#[test]
fn queue_of_capacity_zero_keeps_one_event() {
    let mut q = EventQueue::new(0);
    let mut s = q.subscriber();
    q.publish(message(Event::AUTH, 1), &[]);
    q.publish(message(Event::AUTH, 2), &[]);
    assert_eq!(q.next_message(&mut s).unwrap().msg.status, 2);
    assert_eq!(s.lagged, 1);
}

#[test]
fn queue_has_nothing_for_a_new_subscriber() {
    let mut q = EventQueue::new(3);
    q.publish(message(Event::AUTH, 1), &[]);
    let mut s = q.subscriber();
    assert!(q.next_message(&mut s).is_none());
    assert_eq!(s.next, 1);
}
