//! The control plane: bringing the chip up, joining a network, scanning.
//!
//! Every operation is a conversation with the chip: ioctls that wait for
//! their response, pauses in which the chip settles, events that the chip
//! sends when it pleases. [`Control`] decides what is said next and leaves
//! the saying to its caller. Starting an operation returns the first
//! [`Action`]; the caller performs it and reports back with
//! [`Control::completed`], [`Control::response`] or [`Control::event`], each
//! of which returns the next action, until [`Action::Done`] or
//! [`Action::Failed`] ends the operation.
//!
//! What an operation says is fixed by its inputs alone and written down as a
//! script: [`init_script`], [`join_open_script`] and so on. What follows a
//! script, and what the chip's answers change, is the state machine of
//! [`ControlView`].

use crate::bytes::{get_bytes, get_u16, le16_value, le32_value, zeros};
use crate::consts::{ESCAN_STATUS_COMPLETE, IOCTL_CMD_SET_SSID};
use crate::events::Event;
use crate::ioctl::{
    IoctlError, IoctlRequest, IoctlRequestView, IoctlState, IoctlStateView, IoctlType, SlotView,
};
use crate::iovar::{get_var, iovar_u32};
use crate::power::PowerManagementMode;
use crate::scripts::{
    clm_script, gpio_script, gpio_steps, init_script, init_steps, join_open_script,
    join_open_steps, join_wpa2_script, join_wpa2_steps, power_management_script,
    power_management_steps, scan_script, scan_steps, set_ssid, set_ssid_request, step_views,
    Expect, Step, StepView,
};
use crate::structs::{BssInfo, EventMessage};
use vstd::prelude::*;
use vstd::string::StringSliceAdditionalSpecFns;

verus! {

/// Whether the chip is associated with a network.
#[derive(Debug, Clone, Copy, PartialEq, Eq, Structural)]
pub enum LinkState {
    /// Not associated.
    Down,
    /// Associated.
    Up,
}

/// Why an operation of the control plane ended without success.
#[derive(Debug, Clone, Copy, PartialEq, Eq, Structural)]
pub enum ControlError {
    /// Another operation is running.
    Busy,
    /// The caller reported something that the last action does not end in.
    Unexpected,
    /// The chip answered with fewer bytes than the value asked for has.
    ShortResponse,
    /// The chip did not accept the CLM; the status it reported is attached.
    ClmLoadFailed(u32),
    /// The chip answered an ioctl with a negative status, which is attached.
    IoctlFailed(i32),
    /// The chip reported that the join failed; the status of the event is
    /// attached.
    JoinFailed(u32),
}

/// What follows when a script has been said to its end.
#[derive(Debug, Clone, PartialEq, Eq)]
pub enum Tail {
    /// Nothing: the operation is done.
    Finish,
    /// Events are awaited until the chip has joined; the request is sent
    /// again whenever authentication fails.
    Join(IoctlRequest),
    /// Events are awaited until the scan is complete.
    Scan,
}

/// What a [`Tail`] is, with payloads as sequences.
pub enum TailView {
    Finish,
    Join(IoctlRequestView),
    Scan,
}

impl View for Tail {
    type V = TailView;

    open spec fn view(&self) -> TailView {
        match *self {
            Tail::Finish => TailView::Finish,
            Tail::Join(request) => TailView::Join(request@),
            Tail::Scan => TailView::Scan,
        }
    }
}

/// What the caller is to report next.
#[derive(Debug, Clone, Copy, PartialEq, Eq, Structural)]
pub enum Awaiting {
    /// Nothing: no operation is running.
    Nothing,
    /// That the last action was performed.
    Completion,
    /// The response to the ioctl that was asked for.
    Response(Expect),
    /// The next event.
    Event,
}

/// What the caller is asked to do.
#[derive(Debug, Clone, PartialEq, Eq)]
pub enum Action {
    /// Send the ioctl, wait for its response and hand it to
    /// [`Control::response`].
    Ioctl(IoctlRequest),
    /// Let the given time pass, then call [`Control::completed`].
    Delay { millis: u64 },
    /// Start listening for events, then call [`Control::completed`].
    Subscribe,
    /// Wait for the next event and hand it to [`Control::event`].
    NextEvent,
    /// Report the Ethernet address to the network stack, then call
    /// [`Control::completed`].
    SetEthernetAddress([u8; 6]),
    /// Report the link state to the network stack, then call
    /// [`Control::completed`].
    SetLinkState(LinkState),
    /// Hand the network that the scan found to whoever asked for the scan,
    /// then call [`Control::completed`].
    Found(BssInfo),
    /// Nothing more: the operation succeeded.
    Done,
    /// Nothing more: the operation failed.
    Failed(ControlError),
}

/// What an [`Action`] is, with payloads as sequences. A network that was
/// found stands as its encoding.
pub enum ActionView {
    Ioctl(IoctlRequestView),
    Delay { millis: u64 },
    Subscribe,
    NextEvent,
    SetEthernetAddress(Seq<u8>),
    SetLinkState(LinkState),
    Found(Seq<u8>),
    Done,
    Failed(ControlError),
}

impl View for Action {
    type V = ActionView;

    open spec fn view(&self) -> ActionView {
        match *self {
            Action::Ioctl(request) => ActionView::Ioctl(request@),
            Action::Delay { millis } => ActionView::Delay { millis },
            Action::Subscribe => ActionView::Subscribe,
            Action::NextEvent => ActionView::NextEvent,
            Action::SetEthernetAddress(address) => ActionView::SetEthernetAddress(address@),
            Action::SetLinkState(state) => ActionView::SetLinkState(state),
            Action::Found(bss) => ActionView::Found(bss.wire()),
            Action::Done => ActionView::Done,
            Action::Failed(e) => ActionView::Failed(e),
        }
    }
}

/// Hands `request` to the slot, for the bus owner to send.
///
/// An empty slot takes the request. A slot that holds anything refuses it
/// and stays as it is.
pub fn ioctl(slot: &mut IoctlState, request: &IoctlRequest) -> (r: Result<(), IoctlError>)
    ensures
        old(slot)@.slot is Idle ==> r is Ok && final(slot)@ == (IoctlStateView {
            slot: SlotView::Pending(request@),
            stale: old(slot)@.stale,
        }),
        !(old(slot)@.slot is Idle) ==> r == Err::<(), IoctlError>(IoctlError::Busy) && final(slot)@ == old(slot)@,
{
    slot.do_ioctl(request.kind, request.cmd, request.iface, request.buf.as_slice())
}

/// Whether the data of a scan event holds a network: the header of the
/// results says so, the record is all there, and its name is no longer than
/// a name can be.
pub open spec fn has_scan_result(data: Seq<u8>) -> bool {
    data.len() >= 64 && le16_value(data.subrange(10, 12)) >= 1 && data[30] <= 32
}

/// The encoding of the network that the data of a scan event holds.
pub open spec fn scan_result_wire(data: Seq<u8>) -> Seq<u8> {
    data.subrange(12, 63) + seq![0u8]
}

/// The first network in the data of a scan event, if there is one.
pub fn parse_scan_result(data: &[u8]) -> (r: Option<BssInfo>)
    ensures
        r.is_some() == has_scan_result(data@),
        r.is_some() ==> r.unwrap().wire() == scan_result_wire(data@),
{
    if data.len() < 64 {
        return None;
    }
    let bss_count: u16 = get_u16(data, 10);
    if bss_count < 1 {
        return None;
    }
    let mut record: [u8; 52] = [0; 52];
    get_bytes(&mut record, data, 12);
    let bss = BssInfo::from_bytes(&record);
    assert(bss.ssid_len == bss.wire()[18]);
    assert(bss.wire()[18] == bss.wire().subrange(0, 51)[18]);
    assert(bss.ssid_len == data@[30]);
    if bss.ssid_len > 32 {
        return None;
    }
    assert(bss.wire() =~= bss.wire().subrange(0, 51) + seq![0u8]);
    assert(record@.subrange(0, 51) =~= data@.subrange(12, 63));
    Some(bss)
}

/// What the control plane is and does, as mathematics: its state, and for
/// each thing that can be reported to it the state that follows and the
/// action that it asks for.
pub struct ControlView {
    /// The link state that was last reported to the network stack.
    pub link_state: LinkState,
    /// The Ethernet address that the chip gave, zeros before it did.
    pub address: Seq<u8>,
    /// The script of the running operation.
    pub script: Seq<StepView>,
    /// How many steps of the script were asked for.
    pub position: int,
    /// What follows the script.
    pub tail: TailView,
    /// What is to be reported next.
    pub awaiting: Awaiting,
}

/// The action that a step asks for, given the Ethernet address read so far.
pub open spec fn action_of(step: StepView, address: Seq<u8>) -> ActionView {
    match step {
        StepView::Ioctl { request, expect } => ActionView::Ioctl(request),
        StepView::Delay { millis } => ActionView::Delay { millis },
        StepView::Subscribe => ActionView::Subscribe,
        StepView::SetEthernetAddress => ActionView::SetEthernetAddress(address),
    }
}

/// What is to be reported once the action of a step was performed.
pub open spec fn awaiting_of(step: StepView) -> Awaiting {
    match step {
        StepView::Ioctl { request, expect } => Awaiting::Response(expect),
        _ => Awaiting::Completion,
    }
}

impl ControlView {
    /// Whether no operation is running.
    pub open spec fn idle(self) -> bool {
        self.awaiting is Nothing
    }

    /// Goes on with the operation: the next step of the script, and after
    /// the last what the tail says.
    pub open spec fn advance(self) -> (ControlView, ActionView) {
        if 0 <= self.position < self.script.len() {
            let step = self.script[self.position];
            (
                ControlView {
                    position: self.position + 1,
                    awaiting: awaiting_of(step),
                    ..self
                },
                action_of(step, self.address),
            )
        } else {
            match self.tail {
                TailView::Finish => (
                    ControlView { awaiting: Awaiting::Nothing, ..self },
                    ActionView::Done,
                ),
                _ => (ControlView { awaiting: Awaiting::Event, ..self }, ActionView::NextEvent),
            }
        }
    }

    /// Starts an operation, unless one is running.
    pub open spec fn begin(self, script: Seq<StepView>, tail: TailView) -> (
        ControlView,
        ActionView,
    ) {
        if self.idle() {
            (ControlView { script, position: 0, tail, ..self }).advance()
        } else {
            (self, ActionView::Failed(ControlError::Busy))
        }
    }

    /// Ends the operation without success.
    pub open spec fn fail(self, error: ControlError) -> (ControlView, ActionView) {
        (ControlView { awaiting: Awaiting::Nothing, ..self }, ActionView::Failed(error))
    }

    /// What follows the report that the last action was performed.
    pub open spec fn completed(self) -> (ControlView, ActionView) {
        if self.awaiting is Completion {
            self.advance()
        } else {
            (self, ActionView::Failed(ControlError::Unexpected))
        }
    }

    /// What follows the response to an ioctl.
    ///
    /// The status of the CLM load must be there and zero, and the Ethernet
    /// address must be there; it is kept. Any other response is not looked
    /// at.
    pub open spec fn response(self, response: Seq<u8>) -> (ControlView, ActionView) {
        match self.awaiting {
            Awaiting::Response(Expect::Nothing) => self.advance(),
            Awaiting::Response(Expect::ClmStatus) => {
                if response.len() < 4 {
                    self.fail(ControlError::ShortResponse)
                } else if le32_value(response.subrange(0, 4)) != 0 {
                    self.fail(ControlError::ClmLoadFailed(le32_value(response.subrange(0, 4))))
                } else {
                    self.advance()
                }
            },
            Awaiting::Response(Expect::Address) => {
                if response.len() < 6 {
                    self.fail(ControlError::ShortResponse)
                } else {
                    (ControlView { address: response.subrange(0, 6), ..self }).advance()
                }
            },
            _ => (self, ActionView::Failed(ControlError::Unexpected)),
        }
    }

    /// What follows an event while the chip is joining.
    ///
    /// A failed authentication has the join started again, with the same
    /// request. A successful join has the link reported as up, after which
    /// the operation is done. A failed join ends the operation without
    /// success. Any other event is passed over.
    pub open spec fn wait_for_join(self, request: IoctlRequestView, msg: EventMessage) -> (
        ControlView,
        ActionView,
    ) {
        if Event::AUTH.spec_matches(msg.event_type) && msg.status != 0 {
            (
                ControlView { awaiting: Awaiting::Response(Expect::Nothing), ..self },
                ActionView::Ioctl(request),
            )
        } else if Event::JOIN.spec_matches(msg.event_type) && msg.status == 0 {
            (
                ControlView {
                    link_state: LinkState::Up,
                    tail: TailView::Finish,
                    awaiting: Awaiting::Completion,
                    ..self
                },
                ActionView::SetLinkState(LinkState::Up),
            )
        } else if Event::JOIN.spec_matches(msg.event_type) {
            self.fail(ControlError::JoinFailed(msg.status))
        } else {
            (self, ActionView::NextEvent)
        }
    }

    /// What follows the report that the chip answered the ioctl with a
    /// negative status: the operation ends without success.
    pub open spec fn failed(self, status: i32) -> (ControlView, ActionView) {
        if self.awaiting is Response {
            self.fail(ControlError::IoctlFailed(status))
        } else {
            (self, ActionView::Failed(ControlError::Unexpected))
        }
    }

    /// What follows an event while the chip is scanning.
    ///
    /// A scan event with the status of completion ends the operation. Any
    /// other scan event that holds a network has it handed out. Any other
    /// event is passed over.
    pub open spec fn wait_for_scan(self, msg: EventMessage, data: Seq<u8>) -> (
        ControlView,
        ActionView,
    ) {
        if Event::ESCAN_RESULT.spec_matches(msg.event_type) && msg.status
            == ESCAN_STATUS_COMPLETE {
            (ControlView { awaiting: Awaiting::Nothing, ..self }, ActionView::Done)
        } else if Event::ESCAN_RESULT.spec_matches(msg.event_type) && has_scan_result(data) {
            (
                ControlView { awaiting: Awaiting::Completion, ..self },
                ActionView::Found(scan_result_wire(data)),
            )
        } else {
            (self, ActionView::NextEvent)
        }
    }

    /// What follows an event.
    pub open spec fn event(self, msg: EventMessage, data: Seq<u8>) -> (ControlView, ActionView) {
        if self.awaiting is Event {
            match self.tail {
                TailView::Join(request) => self.wait_for_join(request, msg),
                TailView::Scan => self.wait_for_scan(msg, data),
                TailView::Finish => self.advance(),
            }
        } else {
            (self, ActionView::Failed(ControlError::Unexpected))
        }
    }

    /// The state after an event that the chip sent on its own account: the
    /// link is down once the chip says that it left the network.
    pub open spec fn observed(self, msg: EventMessage) -> ControlView {
        if self.link_state == LinkState::Up && (Event::DISASSOC.spec_matches(msg.event_type)
            || Event::DISASSOC_IND.spec_matches(msg.event_type)) {
            ControlView { link_state: LinkState::Down, ..self }
        } else {
            self
        }
    }
}

/// The control plane of the driver.
pub struct Control {
    link_state: LinkState,
    address: [u8; 6],
    script: Vec<Step>,
    position: usize,
    tail: Tail,
    awaiting: Awaiting,
}

impl View for Control {
    type V = ControlView;

    closed spec fn view(&self) -> ControlView {
        ControlView {
            link_state: self.link_state,
            address: self.address@,
            script: step_views(self.script@),
            position: self.position as int,
            tail: self.tail@,
            awaiting: self.awaiting,
        }
    }
}

impl Control {
    /// A control plane that has done nothing yet: the link is down, the
    /// address is not known, no operation is running.
    pub fn new() -> (control: Control)
        ensures
            control@ == (ControlView {
                link_state: LinkState::Down,
                address: zeros(6),
                script: Seq::<StepView>::empty(),
                position: 0,
                tail: TailView::Finish,
                awaiting: Awaiting::Nothing,
            }),
    {
        let control = Control {
            link_state: LinkState::Down,
            address: [0; 6],
            script: Vec::new(),
            position: 0,
            tail: Tail::Finish,
            awaiting: Awaiting::Nothing,
        };
        assert(control.address@ =~= zeros(6));
        assert(step_views(control.script@) =~= Seq::<StepView>::empty());
        control
    }

    /// The link state that was last reported.
    pub fn link_state(&self) -> (state: LinkState)
        ensures
            state == self@.link_state,
    {
        self.link_state
    }

    /// The Ethernet address that the chip gave, zeros before it did.
    pub fn ethernet_address(&self) -> (address: [u8; 6])
        ensures
            address@ == self@.address,
    {
        self.address
    }

    /// Whether no operation is running.
    pub fn is_idle(&self) -> (idle: bool)
        ensures
            idle == self@.idle(),
    {
        match self.awaiting {
            Awaiting::Nothing => true,
            _ => false,
        }
    }

    /// What is to be reported next.
    pub fn awaiting(&self) -> (awaiting: Awaiting)
        ensures
            awaiting == self@.awaiting,
    {
        self.awaiting
    }

    /// Goes on with the operation.
    fn advance(&mut self) -> (action: Action)
        ensures
            (final(self)@, action@) == old(self)@.advance(),
    {
        if self.position < self.script.len() {
            let action = match &self.script[self.position] {
                Step::Ioctl { request, expect } => {
                    self.awaiting = Awaiting::Response(*expect);
                    Action::Ioctl(request.duplicate())
                },
                Step::Delay { millis } => {
                    self.awaiting = Awaiting::Completion;
                    Action::Delay { millis: *millis }
                },
                Step::Subscribe => {
                    self.awaiting = Awaiting::Completion;
                    Action::Subscribe
                },
                Step::SetEthernetAddress => {
                    self.awaiting = Awaiting::Completion;
                    Action::SetEthernetAddress(self.address)
                },
            };
            self.position = self.position + 1;
            action
        } else {
            match self.tail {
                Tail::Finish => {
                    self.awaiting = Awaiting::Nothing;
                    Action::Done
                },
                _ => {
                    self.awaiting = Awaiting::Event;
                    Action::NextEvent
                },
            }
        }
    }

    /// Starts an operation, unless one is running.
    fn begin(&mut self, script: Vec<Step>, tail: Tail) -> (action: Action)
        ensures
            (final(self)@, action@) == old(self)@.begin(step_views(script@), tail@),
    {
        if self.is_idle() {
            self.script = script;
            self.position = 0;
            self.tail = tail;
            self.advance()
        } else {
            Action::Failed(ControlError::Busy)
        }
    }

    /// Ends the operation without success.
    fn fail(&mut self, error: ControlError) -> (action: Action)
        ensures
            (final(self)@, action@) == old(self)@.fail(error),
    {
        self.awaiting = Awaiting::Nothing;
        Action::Failed(error)
    }

    /// Starts bringing the chip up with the CLM `clm`.
    ///
    /// Returns the first action of [`init_script`], or
    /// [`ControlError::Busy`] while another operation is running.
    pub fn init(&mut self, clm: &[u8]) -> (action: Action)
        ensures
            (final(self)@, action@) == old(self)@.begin(init_script(clm@), TailView::Finish),
    {
        let script = init_steps(clm);
        self.begin(script, Tail::Finish)
    }

    /// Starts configuring power management.
    ///
    /// Returns the first action of [`power_management_script`], or
    /// [`ControlError::Busy`] while another operation is running.
    pub fn set_power_management(&mut self, mode: PowerManagementMode) -> (action: Action)
        ensures
            (final(self)@, action@) == old(self)@.begin(
                power_management_script(mode),
                TailView::Finish,
            ),
    {
        let script = power_management_steps(mode);
        self.begin(script, Tail::Finish)
    }

    /// Starts joining the open network `ssid`.
    ///
    /// Returns the first action of [`join_open_script`], or
    /// [`ControlError::Busy`] while another operation is running. After the
    /// script the chip's events decide: see [`ControlView::wait_for_join`].
    pub fn join_open(&mut self, ssid: &str) -> (action: Action)
        requires
            ssid.spec_bytes().len() <= 32,
        ensures
            (final(self)@, action@) == old(self)@.begin(
                join_open_script(ssid.spec_bytes()),
                TailView::Join(set_ssid(ssid.spec_bytes())),
            ),
    {
        let script = join_open_steps(ssid);
        self.begin(script, Tail::Join(set_ssid_request(ssid)))
    }

    /// Starts joining the WPA2 network `ssid` with `passphrase`.
    ///
    /// Returns the first action of [`join_wpa2_script`], or
    /// [`ControlError::Busy`] while another operation is running. After the
    /// script the chip's events decide: see [`ControlView::wait_for_join`].
    pub fn join_wpa2(&mut self, ssid: &str, passphrase: &str) -> (action: Action)
        requires
            ssid.spec_bytes().len() <= 32,
            passphrase.spec_bytes().len() <= 64,
        ensures
            (final(self)@, action@) == old(self)@.begin(
                join_wpa2_script(ssid.spec_bytes(), passphrase.spec_bytes()),
                TailView::Join(set_ssid(ssid.spec_bytes())),
            ),
    {
        let script = join_wpa2_steps(ssid, passphrase);
        self.begin(script, Tail::Join(set_ssid_request(ssid)))
    }

    /// Starts setting the GPIO `gpio_n` of the chip to `gpio_en`.
    ///
    /// Returns the first action of [`gpio_script`], or
    /// [`ControlError::Busy`] while another operation is running.
    pub fn gpio_set(&mut self, gpio_n: u8, gpio_en: bool) -> (action: Action)
        requires
            gpio_n < 3,
        ensures
            (final(self)@, action@) == old(self)@.begin(
                gpio_script(gpio_n, gpio_en),
                TailView::Finish,
            ),
    {
        let script = gpio_steps(gpio_n, gpio_en);
        self.begin(script, Tail::Finish)
    }

    /// Starts a passive scan of all channels.
    ///
    /// Returns the first action of [`scan_script`], or
    /// [`ControlError::Busy`] while another operation is running. After the
    /// script the chip's events decide: see [`ControlView::wait_for_scan`].
    pub fn scan(&mut self) -> (action: Action)
        ensures
            (final(self)@, action@) == old(self)@.begin(scan_script(), TailView::Scan),
    {
        let script = scan_steps();
        self.begin(script, Tail::Scan)
    }

    /// Takes the report that the last action was performed, and returns the
    /// next action.
    pub fn completed(&mut self) -> (action: Action)
        ensures
            (final(self)@, action@) == old(self)@.completed(),
    {
        match self.awaiting {
            Awaiting::Completion => self.advance(),
            _ => Action::Failed(ControlError::Unexpected),
        }
    }

    /// Takes the response to the ioctl that was asked for, and returns the
    /// next action.
    pub fn response(&mut self, response: &[u8]) -> (action: Action)
        ensures
            (final(self)@, action@) == old(self)@.response(response@),
    {
        match self.awaiting {
            Awaiting::Response(Expect::Nothing) => self.advance(),
            Awaiting::Response(Expect::ClmStatus) => {
                match iovar_u32(response) {
                    None => self.fail(ControlError::ShortResponse),
                    Some(status) => {
                        if status != 0 {
                            self.fail(ControlError::ClmLoadFailed(status))
                        } else {
                            self.advance()
                        }
                    },
                }
            },
            Awaiting::Response(Expect::Address) => {
                if response.len() < 6 {
                    self.fail(ControlError::ShortResponse)
                } else {
                    let mut address: [u8; 6] = [0; 6];
                    get_bytes(&mut address, response, 0);
                    self.address = address;
                    self.advance()
                }
            },
            _ => Action::Failed(ControlError::Unexpected),
        }
    }

    /// Takes the report that the chip answered the ioctl that was asked
    /// for with the negative status `status`, and ends the operation.
    pub fn failed(&mut self, status: i32) -> (action: Action)
        ensures
            (final(self)@, action@) == old(self)@.failed(status),
    {
        match self.awaiting {
            Awaiting::Response(_) => self.fail(ControlError::IoctlFailed(status)),
            _ => Action::Failed(ControlError::Unexpected),
        }
    }

    /// Decides what an event means while the chip is joining.
    fn wait_for_join(&mut self, msg: &EventMessage) -> (action: Action)
        requires
            old(self)@.tail is Join,
        ensures
            (final(self)@, action@) == old(self)@.wait_for_join(old(self)@.tail->Join_0, *msg),
    {
        if Event::AUTH.matches(msg.event_type) && msg.status != 0 {
            let request = match &self.tail {
                Tail::Join(request) => request.duplicate(),
                _ => IoctlRequest::new(IoctlType::Write, IOCTL_CMD_SET_SSID, 0, &[]),
            };
            self.awaiting = Awaiting::Response(Expect::Nothing);
            Action::Ioctl(request)
        } else if Event::JOIN.matches(msg.event_type) && msg.status == 0 {
            self.link_state = LinkState::Up;
            self.tail = Tail::Finish;
            self.awaiting = Awaiting::Completion;
            Action::SetLinkState(LinkState::Up)
        } else if Event::JOIN.matches(msg.event_type) {
            self.fail(ControlError::JoinFailed(msg.status))
        } else {
            Action::NextEvent
        }
    }

    /// Decides what an event means while the chip is scanning.
    fn wait_for_scan(&mut self, msg: &EventMessage, data: &[u8]) -> (action: Action)
        ensures
            (final(self)@, action@) == old(self)@.wait_for_scan(*msg, data@),
    {
        if Event::ESCAN_RESULT.matches(msg.event_type) {
            if msg.status == ESCAN_STATUS_COMPLETE {
                self.awaiting = Awaiting::Nothing;
                return Action::Done;
            }
            match parse_scan_result(data) {
                Some(bss) => {
                    self.awaiting = Awaiting::Completion;
                    return Action::Found(bss);
                },
                None => {},
            }
        }
        Action::NextEvent
    }

    /// Takes the next event, in host byte order and with the data that
    /// followed it, and returns the next action.
    pub fn event(&mut self, msg: &EventMessage, data: &[u8]) -> (action: Action)
        ensures
            (final(self)@, action@) == old(self)@.event(*msg, data@),
    {
        match self.awaiting {
            Awaiting::Event => {
                let joining: bool = match self.tail {
                    Tail::Join(_) => true,
                    _ => false,
                };
                let scanning: bool = match self.tail {
                    Tail::Scan => true,
                    _ => false,
                };
                if joining {
                    self.wait_for_join(msg)
                } else if scanning {
                    self.wait_for_scan(msg, data)
                } else {
                    self.advance()
                }
            },
            _ => Action::Failed(ControlError::Unexpected),
        }
    }

    /// Takes note of an event that the chip sent on its own account.
    ///
    /// Returns the link state to report to the network stack where the
    /// event changed it: the link is down once the chip says that it left
    /// the network.
    pub fn observe(&mut self, msg: &EventMessage) -> (change: Option<LinkState>)
        ensures
            final(self)@ == old(self)@.observed(*msg),
            change == if final(self)@.link_state != old(self)@.link_state {
                Some(final(self)@.link_state)
            } else {
                None::<LinkState>
            },
    {
        let up: bool = match self.link_state {
            LinkState::Up => true,
            LinkState::Down => false,
        };
        if up && (Event::DISASSOC.matches(msg.event_type) || Event::DISASSOC_IND.matches(
            msg.event_type,
        )) {
            self.link_state = LinkState::Down;
            Some(LinkState::Down)
        } else {
            None
        }
    }
}

/// While the chip is joining, every failed authentication has the join
/// started again with the request it was started with, and the response to
/// that leads back to waiting for events.
pub proof fn lemma_join_retries(c: ControlView, msg: EventMessage, data: Seq<u8>, response: Seq<u8>)
    requires
        c.awaiting is Event,
        c.tail is Join,
        c.position >= c.script.len(),
        Event::AUTH.spec_matches(msg.event_type),
        msg.status != 0,
    ensures
        c.event(msg, data).1 == ActionView::Ioctl(c.tail->Join_0),
        c.event(msg, data).0.response(response) == (c, ActionView::NextEvent),
{
}

/// While the chip is joining, the event of a successful join has the link
/// reported as up, and with that report the operation is done.
pub proof fn lemma_join_succeeds(c: ControlView, msg: EventMessage, data: Seq<u8>)
    requires
        c.awaiting is Event,
        c.tail is Join,
        c.position >= c.script.len(),
        Event::JOIN.spec_matches(msg.event_type),
        msg.status == 0,
    ensures
        c.event(msg, data).1 == ActionView::SetLinkState(LinkState::Up),
        c.event(msg, data).0.link_state == LinkState::Up,
        c.event(msg, data).0.completed().1 == ActionView::Done,
        c.event(msg, data).0.completed().0.idle(),
        c.event(msg, data).0.completed().0.link_state == LinkState::Up,
{
    lemma_event_numbers();
}

/// While the chip is joining, the event of a failed join ends the operation
/// without success and leaves the link as it was.
pub proof fn lemma_join_fails(c: ControlView, msg: EventMessage, data: Seq<u8>)
    requires
        c.awaiting is Event,
        c.tail is Join,
        Event::JOIN.spec_matches(msg.event_type),
        msg.status != 0,
    ensures
        c.event(msg, data).1 == ActionView::Failed(ControlError::JoinFailed(msg.status)),
        c.event(msg, data).0.idle(),
        c.event(msg, data).0.link_state == c.link_state,
{
    lemma_event_numbers();
}

/// While the chip is joining, any event but a failed authentication and
/// the outcome of the join changes nothing and sends nothing.
pub proof fn lemma_join_ignores_other_events(c: ControlView, msg: EventMessage, data: Seq<u8>)
    requires
        c.awaiting is Event,
        c.tail is Join,
        !(Event::AUTH.spec_matches(msg.event_type) && msg.status != 0),
        !Event::JOIN.spec_matches(msg.event_type),
    ensures
        c.event(msg, data) == (c, ActionView::NextEvent),
{
}

/// While the chip is scanning, a result is handed out and the scan goes on
/// waiting; the event of completion ends it.
pub proof fn lemma_scan_yields_until_complete(c: ControlView, msg: EventMessage, data: Seq<u8>)
    requires
        c.awaiting is Event,
        c.tail is Scan,
        c.position >= c.script.len(),
        Event::ESCAN_RESULT.spec_matches(msg.event_type),
    ensures
        msg.status == ESCAN_STATUS_COMPLETE ==> c.event(msg, data).1 == ActionView::Done
            && c.event(msg, data).0.idle(),
        msg.status != ESCAN_STATUS_COMPLETE && has_scan_result(data) ==> c.event(msg, data).1
            == ActionView::Found(scan_result_wire(data)) && c.event(msg, data).0.completed() == (
            c,
            ActionView::NextEvent,
        ),
        msg.status != ESCAN_STATUS_COMPLETE && !has_scan_result(data) ==> c.event(msg, data) == (
            c,
            ActionView::NextEvent,
        ),
{
}

/// The Ethernet address that is reported to the network stack is the one
/// that the chip gave: the first six bytes of its response. So where none
/// of the first three bytes of the response is zero, none of the reported
/// address is.
pub proof fn lemma_reported_address_is_the_chips(c: ControlView, response: Seq<u8>)
    requires
        c.awaiting == Awaiting::Response(Expect::Address),
        response.len() >= 6,
    ensures
        c.response(response).0.address == response.subrange(0, 6),
        forall|i: int|
            0 <= i < 3 && response[i] != 0 ==> #[trigger] c.response(response).0.address[i] != 0,
        forall|d: ControlView|
            d.address == c.response(response).0.address && 0 <= d.position < d.script.len()
                && d.script[d.position] == StepView::SetEthernetAddress ==> #[trigger] d.advance().1
                == ActionView::SetEthernetAddress(response.subrange(0, 6)),
{
}

/// Nothing but the response that holds it changes the Ethernet address.
pub proof fn lemma_address_is_kept(c: ControlView, msg: EventMessage, data: Seq<u8>, response: Seq<u8>)
    ensures
        c.completed().0.address == c.address,
        c.failed(0).0.address == c.address,
        c.event(msg, data).0.address == c.address,
        c.observed(msg).address == c.address,
        c.awaiting != Awaiting::Response(Expect::Address) ==> c.response(response).0.address
            == c.address,
{
}

/// An operation is started only while none is running; otherwise the
/// control plane says that it is busy and stays as it is.
pub proof fn lemma_one_operation_at_a_time(c: ControlView, script: Seq<StepView>, tail: TailView)
    requires
        !c.idle(),
    ensures
        c.begin(script, tail) == (c, ActionView::Failed(ControlError::Busy)),
{
}

/// The numbers of the events that the control plane looks for.
pub proof fn lemma_event_numbers()
    ensures
        Event::JOIN.spec_number() == 1,
        Event::AUTH.spec_number() == 3,
        Event::DISASSOC.spec_number() == 11,
        Event::DISASSOC_IND.spec_number() == 12,
        Event::ESCAN_RESULT.spec_number() == 69,
{
}

/// What a caller reports to the control plane.
pub enum Report {
    /// That the last action was performed.
    Completed,
    /// The response to the ioctl that was asked for.
    Response(Seq<u8>),
    /// The negative status with which the chip answered the ioctl.
    Failed(i32),
    /// The next event, with its data.
    Event(EventMessage, Seq<u8>),
}

/// Whether `report` is what a well-behaved caller and a willing chip answer
/// to `step`: an ioctl is answered by a response, which has the status zero
/// where the status of the CLM load is asked for and six bytes at least
/// where the Ethernet address is; anything else is reported as performed.
pub open spec fn fits(step: StepView, report: Report) -> bool {
    match step {
        StepView::Ioctl { request, expect } => {
            &&& report is Response
            &&& match expect {
                Expect::Nothing => true,
                Expect::ClmStatus => report->Response_0.len() >= 4 && le32_value(
                    report->Response_0.subrange(0, 4),
                ) == 0,
                Expect::Address => report->Response_0.len() >= 6,
            }
        },
        _ => report is Completed,
    }
}

/// Whether the response to `step` holds the Ethernet address.
pub open spec fn reads_address(step: StepView) -> bool {
    step matches StepView::Ioctl { request, expect } && expect == Expect::Address
}

/// The Ethernet address that is known once the first `n` steps of `script`
/// were answered by `reports`: the one that the last response with an
/// address held, and `address` where there was none.
pub open spec fn address_after(
    address: Seq<u8>,
    script: Seq<StepView>,
    reports: Seq<Report>,
    n: int,
) -> Seq<u8>
    decreases n,
{
    if n <= 0 {
        address
    } else if reads_address(script[n - 1]) {
        reports[n - 1]->Response_0.subrange(0, 6)
    } else {
        address_after(address, script, reports, n - 1)
    }
}

impl ControlView {
    /// What follows a report.
    pub open spec fn step(self, report: Report) -> (ControlView, ActionView) {
        match report {
            Report::Completed => self.completed(),
            Report::Response(response) => self.response(response),
            Report::Failed(status) => self.failed(status),
            Report::Event(msg, data) => self.event(msg, data),
        }
    }

    /// Where the control plane stands, and what it asks for, once an
    /// operation was started and the first `n` of `reports` were made.
    pub open spec fn said(
        self,
        script: Seq<StepView>,
        tail: TailView,
        reports: Seq<Report>,
        n: int,
    ) -> (ControlView, ActionView)
        decreases n,
    {
        if n <= 0 {
            self.begin(script, tail)
        } else {
            self.said(script, tail, reports, n - 1).0.step(reports[n - 1])
        }
    }
}

/// An operation says its script, line by line.
///
/// Where every action is answered as it should be, the control plane asks
/// for the steps of the script in their order, each with the Ethernet
/// address that is known by then, and after the last step for what the
/// tail says: nothing more, or the next event.
pub proof fn lemma_script_is_said(
    c: ControlView,
    script: Seq<StepView>,
    tail: TailView,
    reports: Seq<Report>,
    n: int,
)
    requires
        c.idle(),
        0 <= n <= script.len(),
        n <= reports.len(),
        forall|i: int| 0 <= i < n ==> fits(script[i], #[trigger] reports[i]),
    ensures
        n < script.len() ==> c.said(script, tail, reports, n) == (
            ControlView {
                link_state: c.link_state,
                address: address_after(c.address, script, reports, n),
                script,
                position: n + 1,
                tail,
                awaiting: awaiting_of(script[n]),
            },
            action_of(script[n], address_after(c.address, script, reports, n)),
        ),
        n == script.len() ==> c.said(script, tail, reports, n) == (
            ControlView {
                link_state: c.link_state,
                address: address_after(c.address, script, reports, n),
                script,
                position: n,
                tail,
                awaiting: if tail is Finish {
                    Awaiting::Nothing
                } else {
                    Awaiting::Event
                },
            },
            if tail is Finish {
                ActionView::Done
            } else {
                ActionView::NextEvent
            },
        ),
    decreases n,
{
    if n > 0 {
        lemma_script_is_said(c, script, tail, reports, n - 1);
        let before = c.said(script, tail, reports, n - 1).0;
        assert(fits(script[n - 1], reports[n - 1]));
        assert(before.awaiting == awaiting_of(script[n - 1]));
        assert(before.position == n);
    }
}

/// Steps that read no address leave the address as it is.
pub proof fn lemma_address_after_other_steps(
    address: Seq<u8>,
    script: Seq<StepView>,
    reports: Seq<Report>,
    m: int,
    n: int,
)
    requires
        0 <= m <= n,
        forall|i: int| m <= i < n ==> !reads_address(#[trigger] script[i]),
    ensures
        address_after(address, script, reports, n) == address_after(address, script, reports, m),
    decreases n - m,
{
    if m < n {
        assert(!reads_address(script[n - 1]));
        lemma_address_after_other_steps(address, script, reports, m, n - 1);
    }
}

/// Bringing the chip up ends with the Ethernet address that the chip gave.
///
/// Where every action of [`init_script`] is answered as it should be, the
/// last thing asked for is to report, as the Ethernet address, the first
/// six bytes of what the chip answered when it was asked for its address.
/// So where none of the first three bytes of that answer is zero, none of
/// the first three bytes of the reported address is.
pub proof fn lemma_init_reports_the_chips_address(
    c: ControlView,
    clm: Seq<u8>,
    reports: Seq<Report>,
)
    requires
        c.idle(),
        reports.len() >= init_script(clm).len(),
        forall|i: int|
            0 <= i < init_script(clm).len() ==> fits(init_script(clm)[i], #[trigger] reports[i]),
    ensures
        ({
            let asked = clm_script(clm).len() as int + 3;
            let last = init_script(clm).len() as int - 1;
            let answer = reports[asked]->Response_0;
            &&& init_script(clm).len() == clm_script(clm).len() + 21
            &&& init_script(clm)[asked] == (StepView::Ioctl {
                request: get_var("cur_etheraddr".spec_bytes(), 6),
                expect: Expect::Address,
            })
            &&& answer.len() >= 6
            &&& c.said(init_script(clm), TailView::Finish, reports, last).1
                == ActionView::SetEthernetAddress(answer.subrange(0, 6))
            &&& c.said(init_script(clm), TailView::Finish, reports, last + 1).1 == ActionView::Done
            &&& c.said(init_script(clm), TailView::Finish, reports, last + 1).0.idle()
            &&& c.said(init_script(clm), TailView::Finish, reports, last + 1).0.address
                == answer.subrange(0, 6)
            &&& forall|i: int|
                0 <= i < 3 && answer[i] != 0 ==> #[trigger] answer.subrange(0, 6)[i] != 0
        }),
{
    let script = init_script(clm);
    let asked = clm_script(clm).len() as int + 3;
    let last = script.len() - 1;
    assert(script.len() == clm_script(clm).len() + 21);
    assert(script[asked] == (StepView::Ioctl {
        request: get_var("cur_etheraddr".spec_bytes(), 6),
        expect: Expect::Address,
    }));
    assert(script[last] == StepView::SetEthernetAddress);
    assert(fits(script[asked], reports[asked]));
    assert forall|i: int| asked + 1 <= i < script.len() implies !reads_address(
        #[trigger] script[i],
    ) by {
        let k = i - clm_script(clm).len();
        assert(4 <= k < 21);
        assert(script[i] == script.subrange(clm_script(clm).len() as int, script.len() as int)[k]);
    }
    lemma_address_after_other_steps(c.address, script, reports, asked + 1, last);
    lemma_address_after_other_steps(c.address, script, reports, asked + 1, last + 1);
    assert(reads_address(script[asked]));
    assert(address_after(c.address, script, reports, asked + 1) == reports[asked]->Response_0.subrange(
        0,
        6,
    ));
    lemma_script_is_said(c, script, TailView::Finish, reports, last);
    lemma_script_is_said(c, script, TailView::Finish, reports, last + 1);
}

} // verus!
