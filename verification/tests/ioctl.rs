use cyw43::ioctl::{IoctlError, IoctlState, IoctlType};

#[test]
fn ioctl_kinds_have_the_numbers_of_the_protocol() {
    assert_eq!(IoctlType::Read.number(), 0);
    assert_eq!(IoctlType::Write.number(), 2);
}

#[test]
fn slot_walks_from_idle_to_done_and_back() {
    let mut s = IoctlState::new();
    assert!(s.is_idle());
    assert!(s.wait_pending(1).is_none());
    assert_eq!(s.wait_complete(), None);

    assert_eq!(s.do_ioctl(IoctlType::Write, 263, 0, &[1, 2, 3]), Ok(()));
    assert!(s.is_pending());
    assert_eq!(s.wait_complete(), None);

    let request = s.wait_pending(7).unwrap();
    assert_eq!(request.kind, IoctlType::Write);
    assert_eq!(request.cmd, 263);
    assert_eq!(request.iface, 0);
    assert_eq!(request.buf, vec![1, 2, 3]);
    assert_eq!(s.sent_id(), Some(7));
    assert!(s.wait_pending(8).is_none());
    assert_eq!(s.sent_id(), Some(7));

    assert!(s.ioctl_done(7, 0, &[9, 8]));
    assert!(s.is_done());
    assert_eq!(s.wait_complete(), Some(Ok(vec![9, 8])));
    assert!(s.is_idle());
}

#[test]
fn slot_takes_one_ioctl_at_a_time() {
    let mut s = IoctlState::new();
    assert_eq!(s.do_ioctl(IoctlType::Read, 262, 0, &[1]), Ok(()));
    assert_eq!(s.do_ioctl(IoctlType::Write, 2, 0, &[]), Err(IoctlError::Busy));
    let first = s.wait_pending(1).unwrap();
    assert_eq!(first.cmd, 262);
    assert_eq!(s.do_ioctl(IoctlType::Write, 2, 0, &[]), Err(IoctlError::Busy));
    assert!(s.ioctl_done(1, 0, &[]));
    assert_eq!(s.do_ioctl(IoctlType::Write, 2, 0, &[]), Err(IoctlError::Busy));
    assert_eq!(s.wait_complete(), Some(Ok(vec![])));
    assert_eq!(s.do_ioctl(IoctlType::Write, 2, 0, &[]), Ok(()));
}

#[test]
fn ioctl_correlation() {
    let mut s = IoctlState::new();
    s.do_ioctl(IoctlType::Read, 262, 0, b"a\0").unwrap();
    assert!(s.wait_pending(0x1234).is_some());
    assert!(!s.ioctl_done(0x9999, 0, &[0xee]));
    assert_eq!(s.sent_id(), Some(0x1234));
    assert_eq!(s.wait_complete(), None);
    assert!(s.ioctl_done(0x1234, 0, &[1]));
    assert_eq!(s.wait_complete(), Some(Ok(vec![1])));

    s.do_ioctl(IoctlType::Read, 262, 0, b"b\0").unwrap();
    assert!(s.wait_pending(0x1235).is_some());
    assert!(!s.ioctl_done(0x1234, 0, &[0xee]));
    assert!(s.ioctl_done(0x1235, 0, &[2]));
    assert_eq!(s.wait_complete(), Some(Ok(vec![2])));
}

#[test]
fn cancelled_ioctl() {
    let mut s = IoctlState::new();
    s.do_ioctl(IoctlType::Write, 263, 0, &[1]).unwrap();
    assert!(s.wait_pending(5).is_some());
    s.cancel_ioctl();
    assert!(s.is_idle());

    s.do_ioctl(IoctlType::Write, 263, 0, &[2]).unwrap();
    assert!(!s.ioctl_done(5, 0, &[0xaa]));
    assert!(s.is_pending());
    let request = s.wait_pending(6).unwrap();
    assert_eq!(request.buf, vec![2]);
    assert!(!s.ioctl_done(5, 0, &[0xaa]));
    assert!(s.ioctl_done(6, 0, &[0xbb]));
    assert_eq!(s.wait_complete(), Some(Ok(vec![0xbb])));
    assert!(s.is_idle());
}

#[test]
fn cancel_before_the_request_was_taken_empties_the_slot() {
    let mut s = IoctlState::new();
    s.do_ioctl(IoctlType::Write, 263, 0, &[1]).unwrap();
    s.cancel_ioctl();
    assert!(s.is_idle());
    assert!(s.wait_pending(1).is_none());
    s.cancel_ioctl();
    assert!(s.is_idle());
}

#[test]
fn negative_status_fails_the_ioctl() {
    let mut s = IoctlState::new();
    s.do_ioctl(IoctlType::Write, 263, 0, &[]).unwrap();
    s.wait_pending(1).unwrap();
    assert!(s.ioctl_done(1, 0xffff_fffe, &[1, 2]));
    assert_eq!(s.wait_complete(), Some(Err(IoctlError::Failed(-2))));
    assert!(s.is_idle());

    s.do_ioctl(IoctlType::Write, 263, 0, &[]).unwrap();
    s.wait_pending(2).unwrap();
    assert!(s.ioctl_done(2, 0x8000_0000, &[]));
    assert_eq!(s.wait_complete(), Some(Err(IoctlError::Failed(i32::MIN))));

    s.do_ioctl(IoctlType::Write, 263, 0, &[]).unwrap();
    s.wait_pending(3).unwrap();
    assert!(s.ioctl_done(3, 0x7fff_ffff, &[4]));
    assert_eq!(s.wait_complete(), Some(Ok(vec![4])));
}
