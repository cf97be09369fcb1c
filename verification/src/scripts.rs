//! What each operation of the control plane says to the chip.
//!
//! An operation is a script: ioctls, pauses in which the chip settles, and
//! a few other steps, in a fixed order. The scripts are written down here as
//! sequences, one for each operation, and built here step by step.

use crate::bytes::{append_bytes, i32_bits, le16, le32, put_bytes, zeros};
use crate::consts::{
    IOCTL_CMD_ANTDIV, IOCTL_CMD_SET_AUTH, IOCTL_CMD_SET_BAND, IOCTL_CMD_SET_GMODE,
    IOCTL_CMD_SET_INFRA, IOCTL_CMD_SET_PASSPHRASE, IOCTL_CMD_SET_PM, IOCTL_CMD_SET_SSID,
    IOCTL_CMD_SET_WPA_AUTH, IOCTL_CMD_SET_WSEC, IOCTL_CMD_UP, SETTLE_MILLIS, WPA2_AUTH_PSK,
    WSEC_AES, WSEC_NONE,
};
use crate::countries::world_wide_xx;
use crate::events::Event;
use crate::ioctl::{IoctlRequest, IoctlRequestView, IoctlType};
use crate::iovar::{
    get_iovar, get_iovar_u32, get_var, ioctl_set_u32, set_iovar, set_iovar_u32, set_iovar_u32x2,
    set_iovar_v, set_u32, set_var, set_var_u32, set_var_u32x2,
};
use crate::power::PowerManagementMode;
use crate::structs::{
    bit_cleared, bit_is_set, CountryInfo, DownloadHeader, EventMask, PassphraseInfo, ScanParams,
    SsidInfo, DOWNLOAD_FLAG_BEGIN, DOWNLOAD_FLAG_END, DOWNLOAD_FLAG_HANDLER_VER,
    DOWNLOAD_TYPE_CLM,
};
use vstd::prelude::*;
use vstd::string::{is_ascii_spec_bytes, StringSliceAdditionalSpecFns};

verus! {

/// Most bytes of the CLM that one ioctl carries.
pub const CLM_CHUNK_SIZE: usize = 1024;

/// Most bytes that the payload of one upload may have: the name with its
/// NUL byte, the header, and the chunk.
pub const CLM_BUF_SIZE: usize = 8 + 12 + CLM_CHUNK_SIZE;

/// Most bytes that the payload of the scan request may have.
pub const ESCAN_BUF_SIZE: usize = 256;

/// What the response to an ioctl is used for.
#[derive(Debug, Clone, Copy, PartialEq, Eq, Structural)]
pub enum Expect {
    /// Nothing: the response is not looked at.
    Nothing,
    /// The response holds the status of the CLM load, which must be zero.
    ClmStatus,
    /// The response holds the chip's Ethernet address.
    Address,
}

/// One line of a script.
#[derive(Debug, Clone, PartialEq, Eq)]
pub enum Step {
    /// Send an ioctl and use its response as `expect` says.
    Ioctl { request: IoctlRequest, expect: Expect },
    /// Let the given time pass.
    Delay { millis: u64 },
    /// Start listening for events, so that none is missed from here on.
    Subscribe,
    /// Report the Ethernet address, read earlier, to the network stack.
    SetEthernetAddress,
}

/// What a [`Step`] is, with payloads as sequences.
pub enum StepView {
    Ioctl { request: IoctlRequestView, expect: Expect },
    Delay { millis: u64 },
    Subscribe,
    SetEthernetAddress,
}

impl View for Step {
    type V = StepView;

    open spec fn view(&self) -> StepView {
        match *self {
            Step::Ioctl { request, expect } => StepView::Ioctl { request: request@, expect },
            Step::Delay { millis } => StepView::Delay { millis },
            Step::Subscribe => StepView::Subscribe,
            Step::SetEthernetAddress => StepView::SetEthernetAddress,
        }
    }
}

/// The views of the steps of a script, in order.
pub open spec fn step_views(steps: Seq<Step>) -> Seq<StepView> {
    Seq::new(steps.len(), |i: int| steps[i]@)
}

/// A step that sends `request` and does not look at the response.
pub open spec fn send(request: IoctlRequestView) -> StepView {
    StepView::Ioctl { request, expect: Expect::Nothing }
}

/// The step that lets the chip settle.
pub open spec fn settle() -> StepView {
    StepView::Delay { millis: SETTLE_MILLIS }
}

/// Into how many chunks a CLM of `len` bytes is cut.
pub open spec fn clm_chunks(len: int) -> int {
    (len + CLM_CHUNK_SIZE - 1) / (CLM_CHUNK_SIZE as int)
}

/// Where chunk `index` of a CLM of `len` bytes ends.
pub open spec fn clm_chunk_end(len: int, index: int) -> int {
    if (index + 1) * CLM_CHUNK_SIZE <= len {
        (index + 1) * CLM_CHUNK_SIZE
    } else {
        len
    }
}

/// Chunk `index` of `clm`.
pub open spec fn clm_chunk(clm: Seq<u8>, index: int) -> Seq<u8> {
    clm.subrange(index * CLM_CHUNK_SIZE, clm_chunk_end(clm.len() as int, index))
}

/// `flag` with the bits of `bit` added where `on` holds.
pub open spec fn with_flag(flag: u16, bit: u16, on: bool) -> u16 {
    if on {
        flag | bit
    } else {
        flag
    }
}

/// The flag of chunk `index` of a CLM of `len` bytes: the handler version,
/// the mark of the beginning on the first chunk, the mark of the end on the
/// last.
pub open spec fn clm_flag(len: int, index: int) -> u16 {
    with_flag(
        with_flag(DOWNLOAD_FLAG_HANDLER_VER, DOWNLOAD_FLAG_BEGIN, index == 0),
        DOWNLOAD_FLAG_END,
        clm_chunk_end(len, index) == len,
    )
}

/// The header that goes in front of chunk `index` of `clm`.
pub open spec fn clm_header(clm: Seq<u8>, index: int) -> DownloadHeader {
    DownloadHeader {
        flag: clm_flag(clm.len() as int, index),
        dload_type: DOWNLOAD_TYPE_CLM,
        len: clm_chunk(clm, index).len() as u32,
        crc: 0,
    }
}

/// The ioctl that uploads chunk `index` of `clm`: the variable `clmload`
/// with the header and the chunk as its value.
pub open spec fn clm_request(clm: Seq<u8>, index: int) -> IoctlRequestView {
    set_var("clmload".spec_bytes(), clm_header(clm, index).wire() + clm_chunk(clm, index))
}

/// The steps that upload `clm`, chunk by chunk.
pub open spec fn clm_script(clm: Seq<u8>) -> Seq<StepView> {
    Seq::new(clm_chunks(clm.len() as int) as nat, |i: int| send(clm_request(clm, i)))
}

/// The value that selects the country `code`, revision `rev`.
pub open spec fn country_payload(code: Seq<u8>, rev: i32) -> Seq<u8> {
    seq![code[0], code[1], 0u8, 0u8] + le32(i32_bits(rev)) + seq![code[0], code[1], 0u8, 0u8]
}

/// The events that the chip is asked to report: all but a few that come
/// often and matter to nobody.
pub open spec fn reported(n: u8) -> bool {
    n != Event::RADIO.spec_number() && n != Event::IF.spec_number() && n
        != Event::PROBREQ_MSG.spec_number() && n != Event::PROBREQ_MSG_RX.spec_number() && n
        != Event::PROBRESP_MSG.spec_number() && n != Event::ROAM.spec_number()
}

/// The bits of the event mask that asks for the [`reported`] events.
pub open spec fn event_mask_bits() -> Seq<u8> {
    seq![
        0xffu8, 0xff, 0xf7, 0xff, 0xff, 0xee, 0xbf, 0xff,
        0x7f, 0xff, 0xff, 0xff, 0xff, 0xff, 0xff, 0xff,
        0xff, 0xfd, 0xff, 0xff, 0xff, 0xff, 0xff, 0xff,
    ]
}

/// The parameters of a passive scan of all channels.
pub open spec fn escan_params() -> Seq<u8> {
    le32(1) + le16(1) + le16(1) + le32(0) + zeros(32) + seq![0xffu8, 0xff, 0xff, 0xff, 0xff, 0xff]
        + seq![2u8, 1u8] + le32(0xffff_ffff) + le32(0xffff_ffff) + le32(0xffff_ffff) + le32(
        0xffff_ffff,
    ) + le32(0) + le16(0) + seq![0u8, 0u8]
}

/// The ioctl that names the network to join.
pub open spec fn set_ssid(ssid: Seq<u8>) -> IoctlRequestView {
    IoctlRequestView {
        kind: IoctlType::Write,
        cmd: IOCTL_CMD_SET_SSID,
        iface: 0,
        buf: le32(ssid.len() as u32) + ssid + zeros(32 - ssid.len()),
    }
}

/// The ioctl that hands over the passphrase.
pub open spec fn set_passphrase(passphrase: Seq<u8>) -> IoctlRequestView {
    IoctlRequestView {
        kind: IoctlType::Write,
        cmd: IOCTL_CMD_SET_PASSPHRASE,
        iface: 0,
        buf: le16(passphrase.len() as u16) + le16(1) + passphrase + zeros(64 - passphrase.len()),
    }
}

/// What bringing the chip up says: the CLM, the check that it was accepted,
/// then the settings, with a pause after each group, and at last the
/// Ethernet address for the network stack.
pub open spec fn init_script(clm: Seq<u8>) -> Seq<StepView> {
    clm_script(clm) + seq![
        StepView::Ioctl {
            request: get_var("clmload_status".spec_bytes(), 4),
            expect: Expect::ClmStatus,
        },
        send(set_var_u32("bus:txglom".spec_bytes(), 0)),
        send(set_var_u32("apsta".spec_bytes(), 1)),
        StepView::Ioctl {
            request: get_var("cur_etheraddr".spec_bytes(), 6),
            expect: Expect::Address,
        },
        send(set_var("country".spec_bytes(), country_payload(seq![0x58u8, 0x58u8], -1i32))),
        settle(),
        send(set_u32(IOCTL_CMD_ANTDIV, 0, 0)),
        send(set_var_u32("bus:txglom".spec_bytes(), 0)),
        settle(),
        send(set_var_u32("ampdu_ba_wsize".spec_bytes(), 8)),
        settle(),
        send(set_var_u32("ampdu_mpdu".spec_bytes(), 4)),
        settle(),
        send(set_var("bsscfg:event_msgs".spec_bytes(), le32(0) + event_mask_bits())),
        settle(),
        send(
            IoctlRequestView {
                kind: IoctlType::Write,
                cmd: IOCTL_CMD_UP,
                iface: 0,
                buf: Seq::<u8>::empty(),
            },
        ),
        settle(),
        send(set_u32(IOCTL_CMD_SET_GMODE, 0, 1)),
        send(set_u32(IOCTL_CMD_SET_BAND, 0, 0)),
        settle(),
        StepView::SetEthernetAddress,
    ]
}

/// What configuring power management says: the four timing variables where
/// power is saved at all, then the mode.
pub open spec fn power_management_script(mode: PowerManagementMode) -> Seq<StepView> {
    (if mode.spec_mode() == 2 {
        seq![
            send(set_var_u32("pm2_sleep_ret".spec_bytes(), mode.spec_sleep_ret_ms() as u32)),
            send(set_var_u32("bcn_li_bcn".spec_bytes(), mode.spec_beacon_period() as u32)),
            send(set_var_u32("bcn_li_dtim".spec_bytes(), mode.spec_dtim_period() as u32)),
            send(set_var_u32("assoc_listen".spec_bytes(), mode.spec_assoc() as u32)),
        ]
    } else {
        Seq::<StepView>::empty()
    }) + seq![send(set_u32(IOCTL_CMD_SET_PM, 0, mode.spec_mode()))]
}

/// What joining an open network says before it waits for the chip to join.
pub open spec fn join_open_script(ssid: Seq<u8>) -> Seq<StepView> {
    seq![
        send(set_var_u32("ampdu_ba_wsize".spec_bytes(), 8)),
        send(set_u32(IOCTL_CMD_SET_WSEC, 0, WSEC_NONE)),
        send(set_var_u32x2("bsscfg:sup_wpa".spec_bytes(), 0, 0)),
        send(set_u32(IOCTL_CMD_SET_INFRA, 0, 1)),
        send(set_u32(IOCTL_CMD_SET_AUTH, 0, 0)),
        StepView::Subscribe,
        send(set_ssid(ssid)),
    ]
}

/// What joining a WPA2 network says before it waits for the chip to join.
pub open spec fn join_wpa2_script(ssid: Seq<u8>, passphrase: Seq<u8>) -> Seq<StepView> {
    seq![
        send(set_var_u32("ampdu_ba_wsize".spec_bytes(), 8)),
        send(set_u32(IOCTL_CMD_SET_WSEC, 0, WSEC_AES)),
        send(set_var_u32x2("bsscfg:sup_wpa".spec_bytes(), 0, 1)),
        send(set_var_u32x2("bsscfg:sup_wpa2_eapver".spec_bytes(), 0, 0xffff_ffff)),
        send(set_var_u32x2("bsscfg:sup_wpa_tmo".spec_bytes(), 0, 2500)),
        settle(),
        send(set_passphrase(passphrase)),
        send(set_u32(IOCTL_CMD_SET_INFRA, 0, 1)),
        send(set_u32(IOCTL_CMD_SET_AUTH, 0, 0)),
        send(set_u32(IOCTL_CMD_SET_WPA_AUTH, 0, WPA2_AUTH_PSK)),
        StepView::Subscribe,
        send(set_ssid(ssid)),
    ]
}

/// The bit that stands for the GPIO `gpio_n`.
pub open spec fn gpio_bit(gpio_n: u8) -> u32 {
    if gpio_n == 0 {
        1
    } else if gpio_n == 1 {
        2
    } else {
        4
    }
}

/// What setting a GPIO says: the mask that picks the pin, and the value.
pub open spec fn gpio_script(gpio_n: u8, gpio_en: bool) -> Seq<StepView> {
    seq![
        send(
            set_var_u32x2(
                "gpioout".spec_bytes(),
                gpio_bit(gpio_n),
                if gpio_en {
                    gpio_bit(gpio_n)
                } else {
                    0
                },
            ),
        ),
    ]
}

/// What a scan says before it waits for results.
pub open spec fn scan_script() -> Seq<StepView> {
    seq![StepView::Subscribe, send(set_var("escan".spec_bytes(), escan_params()))]
}

/// The lengths of the names that the scripts use.
pub proof fn lemma_iovar_names()
    ensures
        "clmload".spec_bytes().len() == 7,
        "clmload_status".spec_bytes().len() == 14,
        "bus:txglom".spec_bytes().len() == 10,
        "apsta".spec_bytes().len() == 5,
        "cur_etheraddr".spec_bytes().len() == 13,
        "country".spec_bytes().len() == 7,
        "ampdu_ba_wsize".spec_bytes().len() == 14,
        "ampdu_mpdu".spec_bytes().len() == 10,
        "bsscfg:event_msgs".spec_bytes().len() == 17,
        "pm2_sleep_ret".spec_bytes().len() == 13,
        "bcn_li_bcn".spec_bytes().len() == 10,
        "bcn_li_dtim".spec_bytes().len() == 11,
        "assoc_listen".spec_bytes().len() == 12,
        "bsscfg:sup_wpa".spec_bytes().len() == 14,
        "bsscfg:sup_wpa2_eapver".spec_bytes().len() == 22,
        "bsscfg:sup_wpa_tmo".spec_bytes().len() == 18,
        "gpioout".spec_bytes().len() == 7,
        "escan".spec_bytes().len() == 5,
{
    reveal_strlit("clmload");
    is_ascii_spec_bytes("clmload");
    reveal_strlit("clmload_status");
    is_ascii_spec_bytes("clmload_status");
    reveal_strlit("bus:txglom");
    is_ascii_spec_bytes("bus:txglom");
    reveal_strlit("apsta");
    is_ascii_spec_bytes("apsta");
    reveal_strlit("cur_etheraddr");
    is_ascii_spec_bytes("cur_etheraddr");
    reveal_strlit("country");
    is_ascii_spec_bytes("country");
    reveal_strlit("ampdu_ba_wsize");
    is_ascii_spec_bytes("ampdu_ba_wsize");
    reveal_strlit("ampdu_mpdu");
    is_ascii_spec_bytes("ampdu_mpdu");
    reveal_strlit("bsscfg:event_msgs");
    is_ascii_spec_bytes("bsscfg:event_msgs");
    reveal_strlit("pm2_sleep_ret");
    is_ascii_spec_bytes("pm2_sleep_ret");
    reveal_strlit("bcn_li_bcn");
    is_ascii_spec_bytes("bcn_li_bcn");
    reveal_strlit("bcn_li_dtim");
    is_ascii_spec_bytes("bcn_li_dtim");
    reveal_strlit("assoc_listen");
    is_ascii_spec_bytes("assoc_listen");
    reveal_strlit("bsscfg:sup_wpa");
    is_ascii_spec_bytes("bsscfg:sup_wpa");
    reveal_strlit("bsscfg:sup_wpa2_eapver");
    is_ascii_spec_bytes("bsscfg:sup_wpa2_eapver");
    reveal_strlit("bsscfg:sup_wpa_tmo");
    is_ascii_spec_bytes("bsscfg:sup_wpa_tmo");
    reveal_strlit("gpioout");
    is_ascii_spec_bytes("gpioout");
    reveal_strlit("escan");
    is_ascii_spec_bytes("escan");
}

/// The chunks of a CLM are the CLM, cut up: none is empty, none is longer
/// than a chunk may be, and byte for byte they are the CLM in its order.
pub proof fn lemma_clm_chunks_cover(clm: Seq<u8>, j: int)
    requires
        0 <= j < clm.len(),
    ensures
        0 <= j / 1024 < clm_chunks(clm.len() as int),
        0 < clm_chunk(clm, j / 1024).len() <= CLM_CHUNK_SIZE,
        j % 1024 < clm_chunk(clm, j / 1024).len(),
        clm_chunk(clm, j / 1024)[j % 1024] == clm[j],
        clm_chunk_end(clm.len() as int, clm_chunks(clm.len() as int) - 1) == clm.len(),
{
}

/// The flags of the chunks of a CLM, as numbers.
pub proof fn lemma_clm_flag_values(len: int, index: int)
    ensures
        clm_flag(len, index) == if index == 0 && clm_chunk_end(len, index) == len {
            0x1006u16
        } else if index == 0 {
            0x1002u16
        } else if clm_chunk_end(len, index) == len {
            0x1004u16
        } else {
            0x1000u16
        },
{
    assert(0x1000u16 | 0x0002u16 == 0x1002u16) by (bit_vector);
    assert(0x1000u16 | 0x0004u16 == 0x1004u16) by (bit_vector);
    assert(0x1002u16 | 0x0004u16 == 0x1006u16) by (bit_vector);
}

/// Appends a step to a script.
fn push_step(steps: &mut Vec<Step>, step: Step)
    ensures
        step_views(final(steps)@) == step_views(old(steps)@).push(step@),
{
    steps.push(step);
    assert(step_views(steps@) =~= step_views(old(steps)@).push(step@));
}

/// Appends to a script the step that sends `request` and does not look at
/// the response.
fn push_send(steps: &mut Vec<Step>, request: IoctlRequest)
    ensures
        step_views(final(steps)@) == step_views(old(steps)@).push(send(request@)),
{
    push_step(steps, Step::Ioctl { request, expect: Expect::Nothing });
}

/// Appends to a script the step that lets the chip settle.
fn push_settle(steps: &mut Vec<Step>)
    ensures
        step_views(final(steps)@) == step_views(old(steps)@).push(settle()),
{
    push_step(steps, Step::Delay { millis: SETTLE_MILLIS });
}

/// The ioctl that uploads chunk `index` of `clm`.
pub fn clm_chunk_request(clm: &[u8], index: usize) -> (r: IoctlRequest)
    requires
        index < clm_chunks(clm@.len() as int),
    ensures
        r@ == clm_request(clm@, index as int),
{
    let len: usize = clm.len();
    let start: usize = index * CLM_CHUNK_SIZE;
    let end: usize = if len - start >= CLM_CHUNK_SIZE {
        start + CLM_CHUNK_SIZE
    } else {
        len
    };
    let mut flag: u16 = DOWNLOAD_FLAG_HANDLER_VER;
    if index == 0 {
        flag |= DOWNLOAD_FLAG_BEGIN;
    }
    if end == len {
        flag |= DOWNLOAD_FLAG_END;
    }
    let header = DownloadHeader {
        flag,
        dload_type: DOWNLOAD_TYPE_CLM,
        len: (end - start) as u32,
        crc: 0,
    };
    let chunk: &[u8] = vstd::slice::slice_subrange(clm, start, end);
    assert(chunk@ == clm_chunk(clm@, index as int));
    assert(header == clm_header(clm@, index as int));
    let head: [u8; 12] = header.to_bytes();
    let mut val: Vec<u8> = Vec::new();
    append_bytes(&mut val, &head);
    append_bytes(&mut val, chunk);
    assert(val@ =~= header.wire() + chunk@);
    proof {
        lemma_iovar_names();
    }
    set_iovar_v::<CLM_BUF_SIZE>("clmload", val.as_slice())
}

/// The network name as the chip takes it: its length, and its bytes padded
/// with zeros.
pub fn ssid_info(ssid: &str) -> (info: SsidInfo)
    requires
        ssid.spec_bytes().len() <= 32,
    ensures
        info.wire() == set_ssid(ssid.spec_bytes()).buf,
{
    let bytes: &[u8] = ssid.as_bytes();
    let mut name: [u8; 32] = [0; 32];
    assert(name@ =~= zeros(32));
    put_bytes(&mut name, 0, bytes);
    let info = SsidInfo { len: bytes.len() as u32, ssid: name };
    assert(info.wire() =~= set_ssid(ssid.spec_bytes()).buf);
    info
}

/// The passphrase as the chip takes it: its length, the flag that marks it
/// as a passphrase, and its bytes padded with zeros.
pub fn passphrase_info(passphrase: &str) -> (info: PassphraseInfo)
    requires
        passphrase.spec_bytes().len() <= 64,
    ensures
        info.wire() == set_passphrase(passphrase.spec_bytes()).buf,
{
    let bytes: &[u8] = passphrase.as_bytes();
    let mut phrase: [u8; 64] = [0; 64];
    assert(phrase@ =~= zeros(64));
    put_bytes(&mut phrase, 0, bytes);
    let info = PassphraseInfo { len: bytes.len() as u16, flags: 1, passphrase: phrase };
    assert(info.wire() =~= set_passphrase(passphrase.spec_bytes()).buf);
    info
}

/// The ioctl that names the network to join.
pub fn set_ssid_request(ssid: &str) -> (r: IoctlRequest)
    requires
        ssid.spec_bytes().len() <= 32,
    ensures
        r@ == set_ssid(ssid.spec_bytes()),
{
    let bytes: [u8; 36] = ssid_info(ssid).to_bytes();
    IoctlRequest::new(IoctlType::Write, IOCTL_CMD_SET_SSID, 0, &bytes)
}

/// Which bits of the bytes of [`event_mask_bits`] are one.
proof fn lemma_mask_bytes(bit: u8)
    by (bit_vector)
    requires
        bit < 8,
    ensures
        bit_is_set(0xffu8, bit),
        bit_is_set(0xf7u8, bit) <==> bit != 3,
        bit_is_set(0xeeu8, bit) <==> bit != 0 && bit != 4,
        bit_is_set(0xbfu8, bit) <==> bit != 6,
        bit_is_set(0x7fu8, bit) <==> bit != 7,
        bit_is_set(0xfdu8, bit) <==> bit != 1,
{
}

/// The event mask of [`event_mask_bits`] asks for exactly the [`reported`]
/// events.
pub proof fn lemma_event_mask_bits(n: u8)
    requires
        n < 192,
    ensures
        event_mask_bits().len() == 24,
        bit_is_set(event_mask_bits()[n as int / 8], n % 8) <==> reported(n),
{
    lemma_mask_bytes(n % 8);
}

/// The event mask that asks for the [`reported`] events.
pub fn init_event_mask() -> (mask: EventMask)
    ensures
        mask.iface == 0,
        mask.events@ == event_mask_bits(),
{
    let mut mask = EventMask { iface: 0, events: [0xff; 24] };
    assert(bit_cleared(0xffu8, 0u8) == 0xfeu8) by (bit_vector);
    assert(bit_cleared(0xffu8, 6u8) == 0xbfu8) by (bit_vector);
    assert(bit_cleared(0xfeu8, 4u8) == 0xeeu8) by (bit_vector);
    assert(bit_cleared(0xffu8, 1u8) == 0xfdu8) by (bit_vector);
    assert(bit_cleared(0xffu8, 7u8) == 0x7fu8) by (bit_vector);
    assert(bit_cleared(0xffu8, 3u8) == 0xf7u8) by (bit_vector);
    mask.unset(Event::RADIO);
    mask.unset(Event::IF);
    mask.unset(Event::PROBREQ_MSG);
    mask.unset(Event::PROBREQ_MSG_RX);
    mask.unset(Event::PROBRESP_MSG);
    mask.unset(Event::ROAM);
    assert(mask.events@ =~= event_mask_bits());
    mask
}

/// The parameters of a passive scan of all channels.
pub fn init_scan_params() -> (params: ScanParams)
    ensures
        params.wire() == escan_params(),
{
    let params = ScanParams {
        version: 1,
        action: 1,
        sync_id: 1,
        ssid_len: 0,
        ssid: [0; 32],
        bssid: [0xff; 6],
        bss_type: 2,
        scan_type: 1,
        nprobes: 0xffff_ffff,
        active_time: 0xffff_ffff,
        passive_time: 0xffff_ffff,
        home_time: 0xffff_ffff,
        channel_num: 0,
        channel_list: [0; 1],
    };
    assert(params.ssid@ =~= zeros(32));
    assert(params.bssid@ =~= seq![0xffu8, 0xff, 0xff, 0xff, 0xff, 0xff]);
    assert(params.wire() =~= escan_params());
    params
}

/// The steps of [`init_script`].
pub fn init_steps(clm: &[u8]) -> (steps: Vec<Step>)
    ensures
        step_views(steps@) == init_script(clm@),
{
    proof {
        lemma_iovar_names();
    }
    let mut steps: Vec<Step> = Vec::new();
    let len: usize = clm.len();
    let count: usize = len / CLM_CHUNK_SIZE + if len % CLM_CHUNK_SIZE != 0 {
        1
    } else {
        0
    };
    assert(count == clm_chunks(len as int));
    let mut i: usize = 0;
    assert(step_views(steps@) =~= Seq::new(0, |j: int| send(clm_request(clm@, j))));
    while i < count
        invariant
            i <= count,
            count == clm_chunks(clm@.len() as int),
            step_views(steps@) == Seq::new(i as nat, |j: int| send(clm_request(clm@, j))),
        decreases count - i,
    {
        let request = clm_chunk_request(clm, i);
        push_send(&mut steps, request);
        i += 1;
        assert(step_views(steps@) =~= Seq::new(i as nat, |j: int| send(clm_request(clm@, j))));
    }
    let ghost uploaded = step_views(steps@);
    assert(uploaded == clm_script(clm@));
    push_step(
        &mut steps,
        Step::Ioctl { request: get_iovar_u32("clmload_status"), expect: Expect::ClmStatus },
    );
    push_send(&mut steps, set_iovar_u32("bus:txglom", 0));
    push_send(&mut steps, set_iovar_u32("apsta", 1));
    push_step(
        &mut steps,
        Step::Ioctl { request: get_iovar("cur_etheraddr", 6), expect: Expect::Address },
    );
    let country = world_wide_xx();
    let country_info = CountryInfo {
        country_abbrev: [country.code[0], country.code[1], 0, 0],
        country_code: [country.code[0], country.code[1], 0, 0],
        rev: if country.rev == 0 {
            -1
        } else {
            country.rev as i32
        },
    };
    assert(country_info.wire() =~= country_payload(seq![0x58u8, 0x58u8], -1i32));
    let country_bytes: [u8; 12] = country_info.to_bytes();
    push_send(&mut steps, set_iovar("country", &country_bytes));
    push_settle(&mut steps);
    push_send(&mut steps, ioctl_set_u32(IOCTL_CMD_ANTDIV, 0, 0));
    push_send(&mut steps, set_iovar_u32("bus:txglom", 0));
    push_settle(&mut steps);
    push_send(&mut steps, set_iovar_u32("ampdu_ba_wsize", 8));
    push_settle(&mut steps);
    push_send(&mut steps, set_iovar_u32("ampdu_mpdu", 4));
    push_settle(&mut steps);
    let mask_bytes: [u8; 28] = init_event_mask().to_bytes();
    push_send(&mut steps, set_iovar("bsscfg:event_msgs", &mask_bytes));
    push_settle(&mut steps);
    let nothing: [u8; 0] = [];
    assert(nothing@ =~= Seq::<u8>::empty());
    push_send(&mut steps, IoctlRequest::new(IoctlType::Write, IOCTL_CMD_UP, 0, &nothing));
    push_settle(&mut steps);
    push_send(&mut steps, ioctl_set_u32(IOCTL_CMD_SET_GMODE, 0, 1));
    push_send(&mut steps, ioctl_set_u32(IOCTL_CMD_SET_BAND, 0, 0));
    push_settle(&mut steps);
    push_step(&mut steps, Step::SetEthernetAddress);
    assert(step_views(steps@) =~= init_script(clm@));
    steps
}

/// The steps of [`power_management_script`].
pub fn power_management_steps(mode: PowerManagementMode) -> (steps: Vec<Step>)
    ensures
        step_views(steps@) == power_management_script(mode),
{
    proof {
        lemma_iovar_names();
    }
    let mut steps: Vec<Step> = Vec::new();
    assert(step_views(steps@) =~= Seq::<StepView>::empty());
    let mode_num: u32 = mode.mode();
    if mode_num == 2 {
        push_send(&mut steps, set_iovar_u32("pm2_sleep_ret", mode.sleep_ret_ms() as u32));
        push_send(&mut steps, set_iovar_u32("bcn_li_bcn", mode.beacon_period() as u32));
        push_send(&mut steps, set_iovar_u32("bcn_li_dtim", mode.dtim_period() as u32));
        push_send(&mut steps, set_iovar_u32("assoc_listen", mode.assoc() as u32));
    }
    push_send(&mut steps, ioctl_set_u32(IOCTL_CMD_SET_PM, 0, mode_num));
    assert(step_views(steps@) =~= power_management_script(mode));
    steps
}

/// The steps of [`join_open_script`].
pub fn join_open_steps(ssid: &str) -> (steps: Vec<Step>)
    requires
        ssid.spec_bytes().len() <= 32,
    ensures
        step_views(steps@) == join_open_script(ssid.spec_bytes()),
{
    proof {
        lemma_iovar_names();
    }
    let mut steps: Vec<Step> = Vec::new();
    assert(step_views(steps@) =~= Seq::<StepView>::empty());
    push_send(&mut steps, set_iovar_u32("ampdu_ba_wsize", 8));
    push_send(&mut steps, ioctl_set_u32(IOCTL_CMD_SET_WSEC, 0, WSEC_NONE));
    push_send(&mut steps, set_iovar_u32x2("bsscfg:sup_wpa", 0, 0));
    push_send(&mut steps, ioctl_set_u32(IOCTL_CMD_SET_INFRA, 0, 1));
    push_send(&mut steps, ioctl_set_u32(IOCTL_CMD_SET_AUTH, 0, 0));
    push_step(&mut steps, Step::Subscribe);
    push_send(&mut steps, set_ssid_request(ssid));
    assert(step_views(steps@) =~= join_open_script(ssid.spec_bytes()));
    steps
}

/// The steps of [`join_wpa2_script`].
pub fn join_wpa2_steps(ssid: &str, passphrase: &str) -> (steps: Vec<Step>)
    requires
        ssid.spec_bytes().len() <= 32,
        passphrase.spec_bytes().len() <= 64,
    ensures
        step_views(steps@) == join_wpa2_script(ssid.spec_bytes(), passphrase.spec_bytes()),
{
    proof {
        lemma_iovar_names();
    }
    let mut steps: Vec<Step> = Vec::new();
    assert(step_views(steps@) =~= Seq::<StepView>::empty());
    push_send(&mut steps, set_iovar_u32("ampdu_ba_wsize", 8));
    push_send(&mut steps, ioctl_set_u32(IOCTL_CMD_SET_WSEC, 0, WSEC_AES));
    push_send(&mut steps, set_iovar_u32x2("bsscfg:sup_wpa", 0, 1));
    push_send(&mut steps, set_iovar_u32x2("bsscfg:sup_wpa2_eapver", 0, 0xffff_ffff));
    push_send(&mut steps, set_iovar_u32x2("bsscfg:sup_wpa_tmo", 0, 2500));
    push_settle(&mut steps);
    let phrase: [u8; 68] = passphrase_info(passphrase).to_bytes();
    push_send(
        &mut steps,
        IoctlRequest::new(IoctlType::Write, IOCTL_CMD_SET_PASSPHRASE, 0, &phrase),
    );
    push_send(&mut steps, ioctl_set_u32(IOCTL_CMD_SET_INFRA, 0, 1));
    push_send(&mut steps, ioctl_set_u32(IOCTL_CMD_SET_AUTH, 0, 0));
    push_send(&mut steps, ioctl_set_u32(IOCTL_CMD_SET_WPA_AUTH, 0, WPA2_AUTH_PSK));
    push_step(&mut steps, Step::Subscribe);
    push_send(&mut steps, set_ssid_request(ssid));
    assert(step_views(steps@) =~= join_wpa2_script(ssid.spec_bytes(), passphrase.spec_bytes()));
    steps
}

/// The steps of [`gpio_script`].
pub fn gpio_steps(gpio_n: u8, gpio_en: bool) -> (steps: Vec<Step>)
    requires
        gpio_n < 3,
    ensures
        step_views(steps@) == gpio_script(gpio_n, gpio_en),
{
    proof {
        lemma_iovar_names();
    }
    let mut steps: Vec<Step> = Vec::new();
    assert(step_views(steps@) =~= Seq::<StepView>::empty());
    let bit: u32 = 1u32 << gpio_n;
    assert(bit == gpio_bit(gpio_n)) by (bit_vector)
        requires
            gpio_n < 3,
            bit == 1u32 << gpio_n,
    ;
    push_send(
        &mut steps,
        set_iovar_u32x2(
            "gpioout",
            bit,
            if gpio_en {
                bit
            } else {
                0
            },
        ),
    );
    assert(step_views(steps@) =~= gpio_script(gpio_n, gpio_en));
    steps
}

/// The steps of [`scan_script`].
pub fn scan_steps() -> (steps: Vec<Step>)
    ensures
        step_views(steps@) == scan_script(),
{
    proof {
        lemma_iovar_names();
    }
    let mut steps: Vec<Step> = Vec::new();
    assert(step_views(steps@) =~= Seq::<StepView>::empty());
    push_step(&mut steps, Step::Subscribe);
    let params: [u8; 76] = init_scan_params().to_bytes();
    push_send(&mut steps, set_iovar_v::<ESCAN_BUF_SIZE>("escan", &params));
    assert(step_views(steps@) =~= scan_script());
    steps
}

} // verus!
