//! Ioctls, and the single slot through which they reach the bus owner.
//!
//! An ioctl is a request to the firmware that is answered by one response.
//! The control plane puts a request into the slot; the bus owner takes it
//! out, sends it under an identifier, and puts the response with that
//! identifier back; the control plane takes the response out. The slot holds
//! one ioctl at a time.

use crate::bytes::copy_bytes;
use vstd::prelude::*;

verus! {

/// Whether an ioctl reads or writes.
#[derive(Debug, Clone, Copy, PartialEq, Eq, Structural)]
pub enum IoctlType {
    /// The ioctl reads from the firmware: the protocol's "get".
    Read,
    /// The ioctl writes to the firmware: the protocol's "set".
    Write,
}

impl IoctlType {
    /// The number that the CDC header carries for this kind.
    pub open spec fn spec_number(&self) -> u16 {
        match *self {
            IoctlType::Read => 0,
            IoctlType::Write => 2,
        }
    }

    /// The number that the CDC header carries for this kind.
    #[verifier::when_used_as_spec(spec_number)]
    pub fn number(&self) -> (n: u16)
        ensures
            n == self.spec_number(),
    {
        match self {
            IoctlType::Read => 0,
            IoctlType::Write => 2,
        }
    }
}

/// An ioctl that is to be sent: its kind, its number, the interface it is
/// for and its payload.
#[derive(Debug, Clone, PartialEq, Eq)]
pub struct IoctlRequest {
    /// Whether the ioctl reads or writes.
    pub kind: IoctlType,
    /// Number of the ioctl.
    pub cmd: u32,
    /// Interface that the ioctl is for.
    pub iface: u32,
    /// Payload.
    pub buf: Vec<u8>,
}

/// What an [`IoctlRequest`] is, with its payload as a sequence.
pub struct IoctlRequestView {
    pub kind: IoctlType,
    pub cmd: u32,
    pub iface: u32,
    pub buf: Seq<u8>,
}

impl View for IoctlRequest {
    type V = IoctlRequestView;

    open spec fn view(&self) -> IoctlRequestView {
        IoctlRequestView { kind: self.kind, cmd: self.cmd, iface: self.iface, buf: self.buf@ }
    }
}

impl IoctlRequest {
    /// A request with a copy of `buf` as its payload.
    pub fn new(kind: IoctlType, cmd: u32, iface: u32, buf: &[u8]) -> (r: IoctlRequest)
        ensures
            r@ == (IoctlRequestView { kind, cmd, iface, buf: buf@ }),
    {
        IoctlRequest { kind, cmd, iface, buf: copy_bytes(buf) }
    }

    /// A copy of this request.
    pub fn duplicate(&self) -> (r: IoctlRequest)
        ensures
            r@ == self@,
    {
        IoctlRequest {
            kind: self.kind,
            cmd: self.cmd,
            iface: self.iface,
            buf: copy_bytes(self.buf.as_slice()),
        }
    }
}

/// Why an ioctl did not complete.
#[derive(Debug, Clone, Copy, PartialEq, Eq, Structural)]
pub enum IoctlError {
    /// The slot already holds an ioctl.
    Busy,
    /// The chip answered with a negative status.
    Failed(i32),
}

/// The signed reading of a CDC status, where negative means failure.
pub open spec fn status_value(status: u32) -> int {
    if status < 0x8000_0000 {
        status as int
    } else {
        status - 0x1_0000_0000
    }
}

/// What the slot holds.
pub enum Slot {
    /// Nothing.
    Idle,
    /// A request that the bus owner has not taken yet.
    Pending(IoctlRequest),
    /// The identifier under which the request was sent.
    Sent { id: u16 },
    /// The response, until the requester takes it.
    Done { status: u32, response: Vec<u8> },
}

/// What a [`Slot`] is, with payloads as sequences.
pub enum SlotView {
    Idle,
    Pending(IoctlRequestView),
    Sent { id: u16 },
    Done { status: u32, response: Seq<u8> },
}

impl View for Slot {
    type V = SlotView;

    open spec fn view(&self) -> SlotView {
        match *self {
            Slot::Idle => SlotView::Idle,
            Slot::Pending(r) => SlotView::Pending(r@),
            Slot::Sent { id } => SlotView::Sent { id },
            Slot::Done { status, response } => SlotView::Done { status, response: response@ },
        }
    }
}

/// What an [`IoctlState`] is: what the slot holds, and the identifier of a
/// cancelled ioctl whose response is still to come.
pub struct IoctlStateView {
    pub slot: SlotView,
    pub stale: Option<u16>,
}

impl IoctlStateView {
    /// How many ioctls are on their way: handed in and not answered yet.
    pub open spec fn in_flight(self) -> nat {
        match self.slot {
            SlotView::Pending(_) => 1,
            SlotView::Sent { .. } => 1,
            _ => 0,
        }
    }

    /// The slot after its ioctl was given up.
    pub open spec fn cancelled(self) -> IoctlStateView {
        match self.slot {
            SlotView::Sent { id } => IoctlStateView { slot: SlotView::Idle, stale: Some(id) },
            _ => IoctlStateView { slot: SlotView::Idle, stale: self.stale },
        }
    }

    /// The slot after a response with identifier `id` arrived.
    pub open spec fn answered(self, id: u16, status: u32, response: Seq<u8>) -> IoctlStateView {
        if self.accepts(id) {
            IoctlStateView { slot: SlotView::Done { status, response }, stale: self.stale }
        } else if self.stale == Some(id) {
            IoctlStateView { slot: self.slot, stale: None }
        } else {
            self
        }
    }

    /// Whether a response with identifier `id` answers the ioctl in the slot.
    pub open spec fn accepts(self, id: u16) -> bool {
        self.slot == (SlotView::Sent { id })
    }
}

/// The single slot through which ioctls reach the bus owner.
pub struct IoctlState {
    slot: Slot,
    stale: Option<u16>,
}

impl View for IoctlState {
    type V = IoctlStateView;

    closed spec fn view(&self) -> IoctlStateView {
        IoctlStateView { slot: self.slot@, stale: self.stale }
    }
}

impl IoctlState {
    /// An empty slot.
    pub fn new() -> (s: IoctlState)
        ensures
            s@ == (IoctlStateView { slot: SlotView::Idle, stale: None }),
    {
        IoctlState { slot: Slot::Idle, stale: None }
    }

    /// Whether the slot is empty.
    pub fn is_idle(&self) -> (b: bool)
        ensures
            b == (self@.slot is Idle),
    {
        match self.slot {
            Slot::Idle => true,
            _ => false,
        }
    }

    /// Whether the slot holds a request that the bus owner has not taken.
    pub fn is_pending(&self) -> (b: bool)
        ensures
            b == (self@.slot is Pending),
    {
        match self.slot {
            Slot::Pending(_) => true,
            _ => false,
        }
    }

    /// Whether the slot holds a response.
    pub fn is_done(&self) -> (b: bool)
        ensures
            b == (self@.slot is Done),
    {
        match self.slot {
            Slot::Done { .. } => true,
            _ => false,
        }
    }

    /// The identifier under which the ioctl in the slot was sent, if it was.
    pub fn sent_id(&self) -> (id: Option<u16>)
        ensures
            id == match self@.slot {
                SlotView::Sent { id } => Some(id),
                _ => None::<u16>,
            },
    {
        match self.slot {
            Slot::Sent { id } => Some(id),
            _ => None,
        }
    }

    /// Puts an ioctl into the slot.
    ///
    /// An empty slot takes the request. A slot that holds anything refuses
    /// it and stays as it is, so that never more than one ioctl is on its
    /// way.
    pub fn do_ioctl(&mut self, kind: IoctlType, cmd: u32, iface: u32, buf: &[u8]) -> (r: Result<
        (),
        IoctlError,
    >)
        ensures
            old(self)@.slot is Idle ==> r is Ok && final(self)@ == (IoctlStateView {
                slot: SlotView::Pending(IoctlRequestView { kind, cmd, iface, buf: buf@ }),
                stale: old(self)@.stale,
            }),
            !(old(self)@.slot is Idle) ==> r == Err::<(), IoctlError>(IoctlError::Busy) && final(self)@ == old(self)@,
            final(self)@.in_flight() <= 1,
    {
        if self.is_idle() {
            self.slot = Slot::Pending(IoctlRequest::new(kind, cmd, iface, buf));
            Ok(())
        } else {
            Err(IoctlError::Busy)
        }
    }

    /// Takes the pending request out, to send it under the identifier `id`.
    ///
    /// Returns the request where one is pending, and the slot then remembers
    /// `id`. Otherwise nothing is returned and nothing changes.
    pub fn wait_pending(&mut self, id: u16) -> (r: Option<IoctlRequest>)
        ensures
            match old(self)@.slot {
                SlotView::Pending(request) => r.is_some() && r.unwrap()@ == request && final(self)@ == (IoctlStateView { slot: SlotView::Sent { id }, stale: old(self)@.stale }),
                _ => r.is_none() && final(self)@ == old(self)@,
            },
    {
        if self.is_pending() {
            let mut taken: Slot = Slot::Sent { id };
            std::mem::swap(&mut self.slot, &mut taken);
            match taken {
                Slot::Pending(request) => Some(request),
                _ => None,
            }
        } else {
            None
        }
    }

    /// Hands in a response that arrived with the identifier `id`.
    ///
    /// The response is accepted, and `true` returned, where the slot holds
    /// an ioctl that was sent under `id`. Any other response is dropped; one
    /// that answers a cancelled ioctl clears the mark that the cancellation
    /// left.
    pub fn ioctl_done(&mut self, id: u16, status: u32, response: &[u8]) -> (accepted: bool)
        ensures
            accepted == old(self)@.accepts(id),
            final(self)@ == old(self)@.answered(id, status, response@),
    {
        let matches: bool = match self.slot {
            Slot::Sent { id: sent } => sent == id,
            _ => false,
        };
        if matches {
            self.slot = Slot::Done { status, response: copy_bytes(response) };
            true
        } else {
            let stale: bool = match self.stale {
                Some(s) => s == id,
                None => false,
            };
            if stale {
                self.stale = None;
            }
            false
        }
    }

    /// Takes the response out.
    ///
    /// Nothing is returned, and nothing changes, while the slot holds no
    /// response. A response empties the slot: its bytes are returned where
    /// the status is not negative, the status where it is.
    pub fn wait_complete(&mut self) -> (r: Option<Result<Vec<u8>, IoctlError>>)
        ensures
            match old(self)@.slot {
                SlotView::Done { status, response } => {
                    &&& final(self)@ == (IoctlStateView {
                        slot: SlotView::Idle,
                        stale: old(self)@.stale,
                    })
                    &&& r.is_some()
                    &&& if status_value(status) >= 0 {
                        r.unwrap() is Ok && r.unwrap().unwrap()@ == response
                    } else {
                        r.unwrap() == Err::<Vec<u8>, IoctlError>(
                            IoctlError::Failed(status_value(status) as i32),
                        )
                    }
                },
                _ => r.is_none() && final(self)@ == old(self)@,
            },
    {
        if self.is_done() {
            let mut taken: Slot = Slot::Idle;
            std::mem::swap(&mut self.slot, &mut taken);
            match taken {
                Slot::Done { status, response } => {
                    if status < 0x8000_0000 {
                        Some(Ok(response))
                    } else {
                        Some(Err(IoctlError::Failed((status as i64 - 0x1_0000_0000) as i32)))
                    }
                },
                _ => None,
            }
        } else {
            None
        }
    }

    /// Gives up the ioctl in the slot.
    ///
    /// The slot becomes empty. Where the ioctl was sent already, its
    /// identifier is remembered, so that its response is dropped when it
    /// comes.
    pub fn cancel_ioctl(&mut self)
        ensures
            final(self)@ == old(self)@.cancelled(),
            final(self)@.slot is Idle,
    {
        match self.slot {
            Slot::Sent { id } => {
                self.stale = Some(id);
            },
            _ => {},
        }
        self.slot = Slot::Idle;
    }
}

/// A slot that holds an ioctl on its way takes no second one.
pub proof fn lemma_one_ioctl_in_flight(s: IoctlStateView)
    ensures
        s.in_flight() <= 1,
        s.in_flight() == 1 ==> !(s.slot is Idle),
{
}

/// A response under another identifier than the one sent never completes
/// the ioctl in the slot.
pub proof fn lemma_stray_response_is_dropped(
    s: IoctlStateView,
    id: u16,
    status: u32,
    response: Seq<u8>,
)
    requires
        !s.accepts(id),
    ensures
        s.answered(id, status, response).slot == s.slot,
{
}

/// After a cancellation the slot takes a new ioctl, and the response to the
/// cancelled one does not complete it.
pub proof fn lemma_cancelled_then_reused(
    s: IoctlStateView,
    id: u16,
    next: IoctlRequestView,
    status: u32,
    response: Seq<u8>,
)
    requires
        s.slot == (SlotView::Sent { id }),
    ensures
        s.cancelled().slot is Idle,
        s.cancelled().stale == Some(id),
        (IoctlStateView { slot: SlotView::Pending(next), stale: s.cancelled().stale }).answered(
            id,
            status,
            response,
        ) == (IoctlStateView { slot: SlotView::Pending(next), stale: None }),
{
}

} // verus!
