use cyw43::control::{
    ioctl, parse_scan_result, Action, Awaiting, Control, ControlError, LinkState,
};
use cyw43::iovar::{
    get_iovar, get_iovar_response, get_iovar_u32, ioctl_set_u32, iovar_u32, set_iovar,
    set_iovar_u32, set_iovar_u32x2, set_iovar_v,
};
use cyw43::scripts::{
    clm_chunk_request, gpio_steps, init_event_mask, init_scan_params, init_steps,
    join_open_steps, passphrase_info, power_management_steps, scan_steps, set_ssid_request,
    ssid_info, Expect, Step,
};
use cyw43::events::Event;
use cyw43::ioctl::{IoctlError, IoctlRequest, IoctlState, IoctlType};
use cyw43::structs::EventMessage;
use cyw43::PowerManagementMode;

const MAC: [u8; 6] = [0x28, 0xcd, 0xc1, 0x01, 0x02, 0x03];

fn message(event: Event, status: u32) -> EventMessage {
    EventMessage {
        version: 2,
        flags: 0,
        event_type: event.number() as u32,
        status,
        reason: 0,
        auth_type: 0,
        datalen: 0,
        addr: [0; 6],
        ifname: [0; 16],
        ifidx: 0,
        bsscfgidx: 0,
    }
}

fn set_var(name: &str, val: &[u8]) -> IoctlRequest {
    let mut buf = name.as_bytes().to_vec();
    buf.push(0);
    buf.extend_from_slice(val);
    IoctlRequest { kind: IoctlType::Write, cmd: 263, iface: 0, buf }
}

fn set_u32(cmd: u32, val: u32) -> IoctlRequest {
    IoctlRequest { kind: IoctlType::Write, cmd, iface: 0, buf: val.to_le_bytes().to_vec() }
}

/// Performs the actions of a running operation as a well-behaved chip
/// would, up to the first that waits for an event or ends the operation,
/// and returns everything that was asked for.
fn play(control: &mut Control, first: Action) -> Vec<Action> {
    let mut seen = vec![first];
    loop {
        let next = match seen.last().unwrap() {
            Action::Ioctl(request) => {
                if request.kind == IoctlType::Read && request.buf.starts_with(b"cur_etheraddr\0")
                {
                    let mut response = MAC.to_vec();
                    response.resize(request.buf.len(), 0);
                    control.response(&response)
                } else {
                    control.response(&vec![0; request.buf.len()])
                }
            }
            Action::Delay { .. }
            | Action::Subscribe
            | Action::SetEthernetAddress(_)
            | Action::SetLinkState(_)
            | Action::Found(_) => control.completed(),
            Action::NextEvent | Action::Done | Action::Failed(_) => return seen,
        };
        seen.push(next);
    }
}

fn scan_event_data(ssid: &[u8]) -> Vec<u8> {
    let mut data = vec![0u8; 12 + 128];
    data[0] = 140;
    data[4] = 109;
    data[8] = 1;
    data[10] = 1;
    data[12] = 109;
    data[16] = 128;
    data[20..26].copy_from_slice(&[1, 2, 3, 4, 5, ssid[0]]);
    data[30] = ssid.len() as u8;
    data[31..31 + ssid.len()].copy_from_slice(ssid);
    data
}

#[test]
fn set_iovar_lays_out_name_nul_value() {
    let r = set_iovar("country", &[1, 2, 3]);
    assert_eq!(r, set_var("country", &[1, 2, 3]));
    assert_eq!(r.buf, b"country\0\x01\x02\x03".to_vec());
    let r = set_iovar("", &[]);
    assert_eq!(r.buf, vec![0]);
    let r = set_iovar_v::<256>("escan", &[7; 76]);
    assert_eq!(r.buf.len(), 82);
    assert_eq!(&r.buf[..6], b"escan\0");
    assert_eq!(&r.buf[6..], &[7; 76]);
}

#[test]
fn set_iovar_u32_is_little_endian() {
    assert_eq!(set_iovar_u32("ampdu_mpdu", 4).buf, b"ampdu_mpdu\0\x04\0\0\0".to_vec());
    assert_eq!(
        set_iovar_u32("x", 0x0102_0304),
        set_var("x", &[4, 3, 2, 1])
    );
    assert_eq!(
        set_iovar_u32x2("bsscfg:sup_wpa_tmo", 0, 2500).buf,
        b"bsscfg:sup_wpa_tmo\0\0\0\0\0\xc4\x09\0\0".to_vec()
    );
    assert_eq!(
        set_iovar_u32x2("gpioout", 0x8000_0001, 0xffff_ffff),
        set_var("gpioout", &[1, 0, 0, 0x80, 0xff, 0xff, 0xff, 0xff])
    );
}

#[test]
fn ioctl_set_u32_carries_four_bytes() {
    let r = ioctl_set_u32(86, 1, 0x0a0b_0c0d);
    assert_eq!(r.kind, IoctlType::Write);
    assert_eq!(r.cmd, 86);
    assert_eq!(r.iface, 1);
    assert_eq!(r.buf, vec![0x0d, 0x0c, 0x0b, 0x0a]);
}

#[test]
fn get_iovar_pads_to_the_length_asked_for() {
    let r = get_iovar("cur_etheraddr", 6);
    assert_eq!(r.kind, IoctlType::Read);
    assert_eq!(r.cmd, 262);
    assert_eq!(r.iface, 0);
    assert_eq!(r.buf, b"cur_etheraddr\0".to_vec());
    let r = get_iovar("ab", 6);
    assert_eq!(r.buf, vec![0x61, 0x62, 0, 0, 0, 0]);
    let r = get_iovar("ab", 3);
    assert_eq!(r.buf, vec![0x61, 0x62, 0]);
    let r = get_iovar("ab", 0);
    assert_eq!(r.buf, vec![0x61, 0x62, 0]);
    let r = get_iovar("", 64);
    assert_eq!(r.buf, vec![0; 64]);
    assert_eq!(get_iovar_u32("clmload_status").buf, b"clmload_status\0".to_vec());
    assert_eq!(get_iovar_u32("a").buf, vec![0x61, 0, 0, 0]);
}

#[test]
fn get_iovar_response_copies_what_both_hold() {
    let mut res = [0xaa; 4];
    assert_eq!(get_iovar_response(&[1, 2, 3, 4, 5, 6], &mut res), 4);
    assert_eq!(res, [1, 2, 3, 4]);
    let mut res = [0xaa; 4];
    assert_eq!(get_iovar_response(&[1, 2], &mut res), 2);
    assert_eq!(res, [1, 2, 0xaa, 0xaa]);
    let mut res = [0xaa; 4];
    assert_eq!(get_iovar_response(&[], &mut res), 0);
    assert_eq!(res, [0xaa; 4]);
    let mut none: [u8; 0] = [];
    assert_eq!(get_iovar_response(&[1], &mut none), 0);
}

#[test]
fn iovar_u32_needs_four_bytes() {
    assert_eq!(iovar_u32(&[1, 2, 3]), None);
    assert_eq!(iovar_u32(&[]), None);
    assert_eq!(iovar_u32(&[1, 2, 3, 4]), Some(0x0403_0201));
    assert_eq!(iovar_u32(&[0, 0, 0, 0, 9, 9]), Some(0));
    assert_eq!(iovar_u32(&[0xff; 15]), Some(u32::MAX));
}

#[test]
fn ioctl_posts_to_an_empty_slot_only() {
    let mut slot = IoctlState::new();
    let a = set_iovar_u32("apsta", 1);
    let b = ioctl_set_u32(2, 0, 0);
    assert_eq!(ioctl(&mut slot, &a), Ok(()));
    assert_eq!(ioctl(&mut slot, &b), Err(IoctlError::Busy));
    assert_eq!(slot.wait_pending(1), Some(a));
}

#[test]
fn clm_upload() {
    let clm: Vec<u8> = (0..3000u32).map(|i| (i % 251) as u8).collect();
    let expect = [(0x1002u16, 1024usize), (0x1000, 1024), (0x1004, 952)];
    let mut control = Control::new();
    let mut action = control.init(&clm);
    let mut offset = 0;
    for (flag, len) in expect {
        let request = match &action {
            Action::Ioctl(request) => request.clone(),
            other => panic!("{:?}", other),
        };
        assert_eq!(request.kind, IoctlType::Write);
        assert_eq!(request.cmd, 263);
        assert_eq!(request.iface, 0);
        assert_eq!(&request.buf[0..8], b"clmload\0");
        assert_eq!(&request.buf[8..10], &flag.to_le_bytes());
        assert_eq!(&request.buf[10..12], &[2, 0]);
        assert_eq!(&request.buf[12..16], &(len as u32).to_le_bytes());
        assert_eq!(&request.buf[16..20], &[0, 0, 0, 0]);
        assert_eq!(&request.buf[20..], &clm[offset..offset + len]);
        assert_eq!(request, clm_chunk_request(&clm, offset / 1024));
        offset += len;
        action = control.response(&[]);
    }
    assert_eq!(offset, 3000);
    assert_eq!(action, Action::Ioctl(get_iovar_u32("clmload_status")));
    assert_eq!(control.awaiting(), Awaiting::Response(Expect::ClmStatus));
    let next = control.response(&[0; 15]);
    assert_eq!(next, Action::Ioctl(set_var("bus:txglom", &[0, 0, 0, 0])));
}

#[test]
fn clm_of_one_chunk_is_first_and_last() {
    let clm = [7u8; 1024];
    let r = clm_chunk_request(&clm, 0);
    assert_eq!(&r.buf[8..10], &[0x06, 0x10]);
    assert_eq!(&r.buf[12..16], &[0, 4, 0, 0]);
    assert_eq!(r.buf.len(), 20 + 1024);
    let clm = [7u8; 1025];
    assert_eq!(&clm_chunk_request(&clm, 0).buf[8..10], &[0x02, 0x10]);
    let last = clm_chunk_request(&clm, 1);
    assert_eq!(&last.buf[8..10], &[0x04, 0x10]);
    assert_eq!(&last.buf[12..16], &[1, 0, 0, 0]);
    assert_eq!(last.buf.len(), 21);
    let clm = [7u8; 1];
    assert_eq!(clm_chunk_request(&clm, 0).buf, b"clmload\0\x06\x10\x02\0\x01\0\0\0\0\0\0\0\x07");
}

#[test]
fn init_says_its_script() {
    let clm = [0x5a; 100];
    let mut control = Control::new();
    assert_eq!(control.link_state(), LinkState::Down);
    assert_eq!(control.ethernet_address(), [0; 6]);
    let first = control.init(&clm);
    let seen = play(&mut control, first);
    let mask: [u8; 28] = [
        0, 0, 0, 0, 0xff, 0xff, 0xf7, 0xff, 0xff, 0xee, 0xbf, 0xff, 0x7f, 0xff, 0xff, 0xff, 0xff,
        0xff, 0xff, 0xff, 0xff, 0xfd, 0xff, 0xff, 0xff, 0xff, 0xff, 0xff,
    ];
    let settle = Action::Delay { millis: 100 };
    let expected = vec![
        Action::Ioctl(clm_chunk_request(&clm, 0)),
        Action::Ioctl(IoctlRequest {
            kind: IoctlType::Read,
            cmd: 262,
            iface: 0,
            buf: b"clmload_status\0".to_vec(),
        }),
        Action::Ioctl(set_var("bus:txglom", &[0, 0, 0, 0])),
        Action::Ioctl(set_var("apsta", &[1, 0, 0, 0])),
        Action::Ioctl(IoctlRequest {
            kind: IoctlType::Read,
            cmd: 262,
            iface: 0,
            buf: b"cur_etheraddr\0".to_vec(),
        }),
        Action::Ioctl(set_var("country", b"XX\0\0\xff\xff\xff\xffXX\0\0")),
        settle.clone(),
        Action::Ioctl(set_u32(64, 0)),
        Action::Ioctl(set_var("bus:txglom", &[0, 0, 0, 0])),
        settle.clone(),
        Action::Ioctl(set_var("ampdu_ba_wsize", &[8, 0, 0, 0])),
        settle.clone(),
        Action::Ioctl(set_var("ampdu_mpdu", &[4, 0, 0, 0])),
        settle.clone(),
        Action::Ioctl(set_var("bsscfg:event_msgs", &mask)),
        settle.clone(),
        Action::Ioctl(IoctlRequest { kind: IoctlType::Write, cmd: 2, iface: 0, buf: vec![] }),
        settle.clone(),
        Action::Ioctl(set_u32(110, 1)),
        Action::Ioctl(set_u32(142, 0)),
        settle.clone(),
        Action::SetEthernetAddress(MAC),
        Action::Done,
    ];
    assert_eq!(seen, expected);
    assert!(control.is_idle());
    assert_eq!(control.ethernet_address(), MAC);
    assert_eq!(control.link_state(), LinkState::Down);
    assert!(MAC[..3].iter().all(|b| *b != 0));
}

#[test]
fn scripts_are_built_step_by_step() {
    let steps = init_steps(&[1; 2049]);
    assert_eq!(steps.len(), 3 + 21);
    assert_eq!(steps[2], Step::Ioctl {
        request: clm_chunk_request(&[1; 2049], 2),
        expect: Expect::Nothing
    });
    assert_eq!(steps[3], Step::Ioctl {
        request: get_iovar_u32("clmload_status"),
        expect: Expect::ClmStatus
    });
    assert_eq!(steps[6], Step::Ioctl {
        request: get_iovar("cur_etheraddr", 6),
        expect: Expect::Address
    });
    assert_eq!(steps[8], Step::Delay { millis: 100 });
    assert_eq!(steps[23], Step::SetEthernetAddress);
    assert_eq!(init_steps(&[]).len(), 21);
    assert_eq!(power_management_steps(PowerManagementMode::Disabled).len(), 1);
    assert_eq!(power_management_steps(PowerManagementMode::Balanced).len(), 5);
    assert_eq!(gpio_steps(2, true).len(), 1);
    assert_eq!(scan_steps()[0], Step::Subscribe);
    let join = join_open_steps("net");
    assert_eq!(join.len(), 7);
    assert_eq!(join[5], Step::Subscribe);
    assert_eq!(join[6], Step::Ioctl { request: set_ssid_request("net"), expect: Expect::Nothing });
}

#[test]
fn init_with_an_empty_clm_starts_with_the_status_check() {
    let mut control = Control::new();
    assert_eq!(control.init(&[]), Action::Ioctl(get_iovar_u32("clmload_status")));
}

#[test]
fn init_fails_where_the_clm_was_not_accepted() {
    let mut control = Control::new();
    let mut action = control.init(&[1, 2, 3]);
    assert!(matches!(action, Action::Ioctl(_)));
    action = control.response(&[]);
    assert_eq!(action, Action::Ioctl(get_iovar_u32("clmload_status")));
    assert_eq!(
        control.response(&[1, 0, 0, 0]),
        Action::Failed(ControlError::ClmLoadFailed(1))
    );
    assert!(control.is_idle());

    let mut control = Control::new();
    control.init(&[]);
    assert_eq!(control.response(&[0, 0, 0]), Action::Failed(ControlError::ShortResponse));
    assert!(control.is_idle());
}

#[test]
fn init_fails_where_the_address_is_short() {
    let mut control = Control::new();
    let mut action = control.init(&[]);
    for _ in 0..3 {
        assert!(matches!(action, Action::Ioctl(_)));
        action = control.response(&[0; 16]);
    }
    assert_eq!(action, Action::Ioctl(get_iovar("cur_etheraddr", 6)));
    assert_eq!(control.response(&[1, 2, 3, 4, 5]), Action::Failed(ControlError::ShortResponse));
    assert!(control.is_idle());
    assert_eq!(control.ethernet_address(), [0; 6]);
}

#[test]
fn control_runs_one_operation_at_a_time() {
    let mut control = Control::new();
    let first = control.gpio_set(0, true);
    assert!(matches!(first, Action::Ioctl(_)));
    assert_eq!(control.scan(), Action::Failed(ControlError::Busy));
    assert_eq!(control.init(&[]), Action::Failed(ControlError::Busy));
    assert_eq!(control.join_open("x"), Action::Failed(ControlError::Busy));
    assert_eq!(
        control.set_power_management(PowerManagementMode::PowerSave),
        Action::Failed(ControlError::Busy)
    );
    assert_eq!(control.awaiting(), Awaiting::Response(Expect::Nothing));
    assert_eq!(control.response(&[]), Action::Done);
    assert!(matches!(control.scan(), Action::Subscribe));
}

#[test]
fn control_refuses_reports_that_do_not_fit() {
    let mut control = Control::new();
    assert_eq!(control.completed(), Action::Failed(ControlError::Unexpected));
    assert_eq!(control.response(&[]), Action::Failed(ControlError::Unexpected));
    assert_eq!(
        control.event(&message(Event::JOIN, 0), &[]),
        Action::Failed(ControlError::Unexpected)
    );
    assert!(control.is_idle());
    let first = control.gpio_set(1, false);
    assert_eq!(control.completed(), Action::Failed(ControlError::Unexpected));
    assert_eq!(
        control.event(&message(Event::JOIN, 0), &[]),
        Action::Failed(ControlError::Unexpected)
    );
    assert_eq!(control.awaiting(), Awaiting::Response(Expect::Nothing));
    assert_eq!(first, Action::Ioctl(set_var("gpioout", &[2, 0, 0, 0, 0, 0, 0, 0])));
    assert_eq!(control.response(&[]), Action::Done);
}

#[test]
fn gpio_set_picks_the_pin() {
    for (n, en, bytes) in [
        (0u8, true, [1u8, 0, 0, 0, 1, 0, 0, 0]),
        (1, true, [2, 0, 0, 0, 2, 0, 0, 0]),
        (2, true, [4, 0, 0, 0, 4, 0, 0, 0]),
        (2, false, [4, 0, 0, 0, 0, 0, 0, 0]),
    ] {
        let mut control = Control::new();
        let first = control.gpio_set(n, en);
        assert_eq!(play(&mut control, first), vec![
            Action::Ioctl(set_var("gpioout", &bytes)),
            Action::Done
        ]);
    }
}

#[test]
fn power_management_sets_the_timings_where_power_is_saved() {
    let mut control = Control::new();
    let first = control.set_power_management(PowerManagementMode::PowerSave);
    assert_eq!(play(&mut control, first), vec![
        Action::Ioctl(set_var("pm2_sleep_ret", &[200, 0, 0, 0])),
        Action::Ioctl(set_var("bcn_li_bcn", &[1, 0, 0, 0])),
        Action::Ioctl(set_var("bcn_li_dtim", &[1, 0, 0, 0])),
        Action::Ioctl(set_var("assoc_listen", &[10, 0, 0, 0])),
        Action::Ioctl(set_u32(86, 2)),
        Action::Done,
    ]);
    let first = control.set_power_management(PowerManagementMode::Aggressive);
    let seen = play(&mut control, first);
    assert_eq!(seen[0], Action::Ioctl(set_var("pm2_sleep_ret", &[0xd0, 0x07, 0, 0])));
    assert_eq!(seen.len(), 6);
    let first = control.set_power_management(PowerManagementMode::Balanced);
    let seen = play(&mut control, first);
    assert_eq!(seen[0], Action::Ioctl(set_var("pm2_sleep_ret", &[20, 0, 0, 0])));
    assert_eq!(seen[3], Action::Ioctl(set_var("assoc_listen", &[1, 0, 0, 0])));
    let first = control.set_power_management(PowerManagementMode::Disabled);
    assert_eq!(play(&mut control, first), vec![Action::Ioctl(set_u32(86, 0)), Action::Done]);
}

#[test]
fn ssid_and_passphrase_are_padded_with_zeros() {
    let info = ssid_info("home");
    assert_eq!(info.len, 4);
    let mut expected = [0u8; 32];
    expected[..4].copy_from_slice(b"home");
    assert_eq!(info.ssid, expected);
    assert_eq!(ssid_info("").len, 0);
    assert_eq!(ssid_info("").ssid, [0; 32]);
    let long = "abcdefghijklmnopqrstuvwxyz012345";
    assert_eq!(ssid_info(long).len, 32);
    assert_eq!(&ssid_info(long).ssid, long.as_bytes());
    let request = set_ssid_request("home");
    assert_eq!(request.cmd, 26);
    assert_eq!(request.kind, IoctlType::Write);
    assert_eq!(request.buf.len(), 36);
    assert_eq!(&request.buf[..8], b"\x04\0\0\0home");
    assert!(request.buf[8..].iter().all(|b| *b == 0));

    let pass = passphrase_info("secret12");
    assert_eq!((pass.len, pass.flags), (8, 1));
    assert_eq!(&pass.passphrase[..8], b"secret12");
    assert!(pass.passphrase[8..].iter().all(|b| *b == 0));
    let full = "0123456789abcdef0123456789abcdef0123456789abcdef0123456789abcdef";
    assert_eq!(passphrase_info(full).len, 64);
    assert_eq!(&passphrase_info(full).passphrase, full.as_bytes());
}

#[test]
fn join_open_says_its_script_and_waits() {
    let mut control = Control::new();
    let first = control.join_open("home");
    let seen = play(&mut control, first);
    assert_eq!(seen, vec![
        Action::Ioctl(set_var("ampdu_ba_wsize", &[8, 0, 0, 0])),
        Action::Ioctl(set_u32(134, 0)),
        Action::Ioctl(set_var("bsscfg:sup_wpa", &[0; 8])),
        Action::Ioctl(set_u32(20, 1)),
        Action::Ioctl(set_u32(22, 0)),
        Action::Subscribe,
        Action::Ioctl(set_ssid_request("home")),
        Action::NextEvent,
    ]);
    assert_eq!(control.awaiting(), Awaiting::Event);
    assert_eq!(control.link_state(), LinkState::Down);
}

#[test]
fn join_wpa2_says_its_script_and_waits() {
    let mut control = Control::new();
    let first = control.join_wpa2("home", "secret12");
    let seen = play(&mut control, first);
    let mut phrase = vec![8, 0, 1, 0];
    phrase.extend_from_slice(b"secret12");
    phrase.resize(68, 0);
    assert_eq!(seen, vec![
        Action::Ioctl(set_var("ampdu_ba_wsize", &[8, 0, 0, 0])),
        Action::Ioctl(set_u32(134, 4)),
        Action::Ioctl(set_var("bsscfg:sup_wpa", &[0, 0, 0, 0, 1, 0, 0, 0])),
        Action::Ioctl(set_var("bsscfg:sup_wpa2_eapver", &[0, 0, 0, 0, 0xff, 0xff, 0xff, 0xff])),
        Action::Ioctl(set_var("bsscfg:sup_wpa_tmo", &[0, 0, 0, 0, 0xc4, 0x09, 0, 0])),
        Action::Delay { millis: 100 },
        Action::Ioctl(IoctlRequest { kind: IoctlType::Write, cmd: 268, iface: 0, buf: phrase }),
        Action::Ioctl(set_u32(20, 1)),
        Action::Ioctl(set_u32(22, 0)),
        Action::Ioctl(set_u32(165, 0x80)),
        Action::Subscribe,
        Action::Ioctl(set_ssid_request("home")),
        Action::NextEvent,
    ]);
}

#[test]
fn join_retry() {
    let mut control = Control::new();
    let first = control.join_wpa2("home", "secret12");
    play(&mut control, first);
    let mut reissued = 0;
    for _ in 0..2 {
        let action = control.event(&message(Event::AUTH, 6), &[]);
        assert_eq!(action, Action::Ioctl(set_ssid_request("home")));
        reissued += 1;
        assert_eq!(control.link_state(), LinkState::Down);
        assert_eq!(control.response(&[]), Action::NextEvent);
    }
    assert_eq!(
        control.event(&message(Event::JOIN, 0), &[]),
        Action::SetLinkState(LinkState::Up)
    );
    assert_eq!(reissued, 2);
    assert_eq!(control.link_state(), LinkState::Up);
    assert_eq!(control.completed(), Action::Done);
    assert!(control.is_idle());
    assert_eq!(control.link_state(), LinkState::Up);
}

#[test]
fn join_passes_over_events_that_decide_nothing() {
    let mut control = Control::new();
    let first = control.join_open("home");
    play(&mut control, first);
    assert_eq!(control.event(&message(Event::AUTH, 0), &[]), Action::NextEvent);
    assert_eq!(control.event(&message(Event::LINK, 0), &[]), Action::NextEvent);
    assert_eq!(control.event(&message(Event::LINK, 1), &[]), Action::NextEvent);
    assert_eq!(control.event(&message(Event::SET_SSID, 0), &[]), Action::NextEvent);
    assert_eq!(control.link_state(), LinkState::Down);
    assert_eq!(control.awaiting(), Awaiting::Event);
}

#[test]
fn join_fails_where_the_chip_says_so() {
    let mut control = Control::new();
    let first = control.join_open("home");
    play(&mut control, first);
    assert_eq!(
        control.event(&message(Event::JOIN, 3), &[]),
        Action::Failed(ControlError::JoinFailed(3))
    );
    assert!(control.is_idle());
    assert_eq!(control.link_state(), LinkState::Down);
    assert!(matches!(control.join_open("home"), Action::Ioctl(_)));
}

#[test]
fn failed_ioctl_ends_the_operation() {
    let mut control = Control::new();
    assert_eq!(control.failed(-1), Action::Failed(ControlError::Unexpected));
    let first = control.set_power_management(PowerManagementMode::PowerSave);
    assert!(matches!(first, Action::Ioctl(_)));
    assert_eq!(control.failed(-23), Action::Failed(ControlError::IoctlFailed(-23)));
    assert!(control.is_idle());
    let first = control.join_wpa2("home", "secret12");
    let seen = play(&mut control, first);
    assert_eq!(seen.last(), Some(&Action::NextEvent));
    assert_eq!(control.failed(-1), Action::Failed(ControlError::Unexpected));
    assert_eq!(control.awaiting(), Awaiting::Event);
}

#[test]
fn link_goes_down_on_disassociation() {
    let mut control = Control::new();
    assert_eq!(control.observe(&message(Event::DISASSOC, 0)), None);
    let first = control.join_open("home");
    play(&mut control, first);
    control.event(&message(Event::JOIN, 0), &[]);
    control.completed();
    assert_eq!(control.link_state(), LinkState::Up);
    assert_eq!(control.observe(&message(Event::LINK, 0)), None);
    assert_eq!(control.link_state(), LinkState::Up);
    assert_eq!(control.observe(&message(Event::DISASSOC_IND, 8)), Some(LinkState::Down));
    assert_eq!(control.link_state(), LinkState::Down);
    assert_eq!(control.observe(&message(Event::DISASSOC, 0)), None);
}

#[test]
fn scan_enumeration() {
    let mut control = Control::new();
    let first = control.scan();
    let seen = play(&mut control, first);
    assert_eq!(seen.len(), 3);
    assert_eq!(seen[0], Action::Subscribe);
    assert_eq!(seen[1], Action::Ioctl(set_var("escan", &init_scan_params().to_bytes())));
    assert_eq!(seen[2], Action::NextEvent);

    let mut found = Vec::new();
    for ssid in [b"A", b"B", b"C", b"D"] {
        match control.event(&message(Event::ESCAN_RESULT, 8), &scan_event_data(ssid)) {
            Action::Found(bss) => found.push(bss.ssid[..bss.ssid_len as usize].to_vec()),
            other => panic!("{:?}", other),
        }
        assert_eq!(control.completed(), Action::NextEvent);
    }
    assert_eq!(control.event(&message(Event::ESCAN_RESULT, 0), &[]), Action::Done);
    assert_eq!(found, vec![b"A".to_vec(), b"B".to_vec(), b"C".to_vec(), b"D".to_vec()]);
    assert!(control.is_idle());
}

#[test]
fn scan_passes_over_what_holds_no_network() {
    let mut control = Control::new();
    let first = control.scan();
    play(&mut control, first);
    assert_eq!(control.event(&message(Event::ESCAN_RESULT, 8), &[0; 20]), Action::NextEvent);
    assert_eq!(control.event(&message(Event::AUTH, 0), &scan_event_data(b"A")), Action::NextEvent);
    let mut none = scan_event_data(b"A");
    none[10] = 0;
    assert_eq!(control.event(&message(Event::ESCAN_RESULT, 8), &none), Action::NextEvent);
    assert_eq!(control.awaiting(), Awaiting::Event);
}

#[test]
fn scan_params_ask_for_a_passive_scan_of_all_channels() {
    let p = init_scan_params();
    assert_eq!((p.version, p.action, p.sync_id, p.ssid_len), (1, 1, 1, 0));
    assert_eq!(p.ssid, [0; 32]);
    assert_eq!(p.bssid, [0xff; 6]);
    assert_eq!((p.bss_type, p.scan_type), (2, 1));
    assert_eq!((p.nprobes, p.active_time, p.passive_time, p.home_time), (!0, !0, !0, !0));
    assert_eq!((p.channel_num, p.channel_list), (0, [0]));
}

#[test]
fn event_mask_leaves_out_the_noisy_events() {
    let mask = init_event_mask();
    assert_eq!(mask.iface, 0);
    for n in 0..192u8 {
        let set = mask.events[(n / 8) as usize] >> (n % 8) & 1 == 1;
        let noisy = [40, 54, 44, 137, 71, 19].contains(&n);
        assert_eq!(set, !noisy, "{}", n);
    }
}

#[test]
fn parse_scan_result_needs_a_whole_record() {
    let data = scan_event_data(b"net");
    let bss = parse_scan_result(&data).unwrap();
    assert_eq!(bss.version, 109);
    assert_eq!(bss.length, 128);
    assert_eq!(bss.bssid, [1, 2, 3, 4, 5, b'n']);
    assert_eq!(bss.ssid_len, 3);
    assert_eq!(&bss.ssid[..3], b"net");
    assert!(parse_scan_result(&data[..64]).is_some());
    assert!(parse_scan_result(&data[..63]).is_none());
    assert!(parse_scan_result(&[]).is_none());
    let mut none = data.clone();
    none[10] = 0;
    assert!(parse_scan_result(&none).is_none());
    let mut long = data.clone();
    long[30] = 33;
    assert!(parse_scan_result(&long).is_none());
    long[30] = 32;
    assert!(parse_scan_result(&long).is_some());
    let mut many = data;
    many[11] = 1;
    assert!(parse_scan_result(&many).is_some());
}
