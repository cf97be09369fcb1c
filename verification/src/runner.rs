//! What the owner of the bus decides on each pass of its loop.
//!
//! A pass first takes in what the chip has sent, frame by frame, and then
//! sends at most one frame: an ioctl that is pending, or an Ethernet frame
//! that the network stack has ready. Where both are ready they take turns,
//! the ioctl first.

use crate::events::{EventQueue, EventRecordView};
use crate::ioctl::IoctlState;
use crate::sdpcm::{holds, FrameKind, Received, Sdpcm};
use vstd::prelude::*;

verus! {

/// What is sent on a pass.
#[derive(Debug, Clone, Copy, PartialEq, Eq, Structural)]
pub enum Turn {
    /// The pending ioctl.
    Ioctl,
    /// The next Ethernet frame.
    Data,
    /// Nothing.
    Idle,
}

/// Where a received frame went.
#[derive(Debug, Clone, PartialEq, Eq)]
pub enum Delivery {
    /// Nowhere: the frame held nothing to pass on; `kind` says why.
    Dropped { kind: FrameKind },
    /// To the ioctl slot; `accepted` says whether the slot took it as the
    /// response to its ioctl.
    Response { accepted: bool },
    /// To the event queue.
    Event,
    /// To the network stack, which is handed the Ethernet frame.
    Data { frame: Vec<u8> },
}

/// What the owner of the bus keeps from pass to pass.
#[derive(Debug, Clone, Copy, PartialEq, Eq)]
pub struct Runner {
    /// Sequence numbers and the chip's limit.
    pub sdpcm: Sdpcm,
    /// Identifier of the ioctl that was sent last.
    pub ioctl_id: u16,
    /// Whether an Ethernet frame goes first the next time that both an
    /// ioctl and an Ethernet frame are ready.
    pub data_first: bool,
}

impl Runner {
    /// What is sent on a pass, given what is ready.
    ///
    /// Nothing is sent without credit. Of an ioctl and an Ethernet frame
    /// that are both ready, the one whose turn it is goes.
    pub open spec fn spec_turn(self, ioctl_pending: bool, tx_available: bool) -> Turn {
        if !self.sdpcm.spec_has_credit() {
            Turn::Idle
        } else if ioctl_pending && tx_available {
            if self.data_first {
                Turn::Data
            } else {
                Turn::Ioctl
            }
        } else if ioctl_pending {
            Turn::Ioctl
        } else if tx_available {
            Turn::Data
        } else {
            Turn::Idle
        }
    }

    /// The state at the start: no frame sent, no ioctl sent, and the ioctl
    /// first.
    pub fn new() -> (r: Runner)
        ensures
            r == (Runner {
                sdpcm: Sdpcm { tx_seq: 0, tx_seq_max: 1, rx_seq: 0 },
                ioctl_id: 0,
                data_first: false,
            }),
    {
        Runner { sdpcm: Sdpcm::new(), ioctl_id: 0, data_first: false }
    }

    /// Decides what is sent on this pass.
    ///
    /// Where both an ioctl and an Ethernet frame were ready, the other one
    /// goes first the next time.
    pub fn turn(&mut self, ioctl_pending: bool, tx_available: bool) -> (t: Turn)
        ensures
            t == old(self).spec_turn(ioctl_pending, tx_available),
            final(self).sdpcm == old(self).sdpcm,
            final(self).ioctl_id == old(self).ioctl_id,
            final(self).data_first == if ioctl_pending && tx_available && old(
                self,
            ).sdpcm.spec_has_credit() {
                !old(self).data_first
            } else {
                old(self).data_first
            },
    {
        if !self.sdpcm.has_credit() {
            Turn::Idle
        } else if ioctl_pending && tx_available {
            let data: bool = self.data_first;
            self.data_first = !data;
            if data {
                Turn::Data
            } else {
                Turn::Ioctl
            }
        } else if ioctl_pending {
            Turn::Ioctl
        } else if tx_available {
            Turn::Data
        } else {
            Turn::Idle
        }
    }

    /// The identifier for the next ioctl: one more than the last, starting
    /// over after the highest.
    pub fn next_ioctl_id(&mut self) -> (id: u16)
        ensures
            id == (old(self).ioctl_id + 1) % 0x1_0000,
            final(self).ioctl_id == id,
            final(self).sdpcm == old(self).sdpcm,
            final(self).data_first == old(self).data_first,
    {
        self.ioctl_id = if self.ioctl_id == 0xffff {
            0
        } else {
            self.ioctl_id + 1
        };
        self.ioctl_id
    }

    /// Takes in a frame that the chip sent.
    ///
    /// A response goes to the ioctl slot, which takes it where it answers
    /// the ioctl that is on its way and drops it otherwise. An event goes to
    /// the queue, in host byte order, unless the queue has counted as many
    /// events as it can count. An Ethernet frame is handed back for the
    /// network stack.
    pub fn receive(&mut self, slot: &mut IoctlState, queue: &mut EventQueue, frame: &[u8]) -> (d:
        Delivery)
        requires
            old(queue).wf(),
        ensures
            final(queue).wf(),
            final(self).ioctl_id == old(self).ioctl_id,
            final(self).data_first == old(self).data_first,
            exists|received: Received|
                {
                    &&& holds(frame@, received)
                    &&& #[trigger] delivered(
                        received,
                        d,
                        old(slot)@,
                        final(slot)@,
                        old(queue)@,
                        final(queue)@,
                    )
                },
            crate::sdpcm::frame_intact(frame@) ==> final(self).sdpcm == old(self).sdpcm.received(
                crate::sdpcm::frame_sequence(frame@),
                crate::sdpcm::frame_credit(frame@),
            ),
            !crate::sdpcm::frame_intact(frame@) ==> final(self).sdpcm == old(self).sdpcm,
    {
        let (_, received) = self.sdpcm.unpack(frame);
        let ghost taken = received;
        let d = match received {
            Received::Dropped { kind } => Delivery::Dropped { kind },
            Received::Control { header, response } => {
                let accepted: bool = slot.ioctl_done(header.id, header.status, response.as_slice());
                Delivery::Response { accepted }
            },
            Received::Event { packet, data } => {
                if queue.published_count() < u64::MAX {
                    queue.publish(packet.msg, data.as_slice());
                }
                Delivery::Event
            },
            Received::Data { frame } => Delivery::Data { frame },
        };
        assert(delivered(taken, d, old(slot)@, slot@, old(queue)@, queue@));
        d
    }
}

/// Whether `delivery` and the states after it are what delivering `received`
/// comes to.
pub open spec fn delivered(
    received: Received,
    delivery: Delivery,
    slot_before: crate::ioctl::IoctlStateView,
    slot_after: crate::ioctl::IoctlStateView,
    queue_before: crate::events::EventQueueView,
    queue_after: crate::events::EventQueueView,
) -> bool {
    match received {
        Received::Dropped { kind } => {
            &&& delivery == (Delivery::Dropped { kind })
            &&& slot_after == slot_before
            &&& queue_after == queue_before
        },
        Received::Control { header, response } => {
            &&& delivery == (Delivery::Response { accepted: slot_before.accepts(header.id) })
            &&& slot_after == slot_before.answered(header.id, header.status, response@)
            &&& queue_after == queue_before
        },
        Received::Event { packet, data } => {
            &&& delivery == Delivery::Event
            &&& slot_after == slot_before
            &&& queue_after == if queue_before.history.len() < u64::MAX {
                queue_before.published(EventRecordView { msg: packet.msg, data: data@ })
            } else {
                queue_before
            }
        },
        Received::Data { frame } => {
            &&& delivery matches Delivery::Data { frame: handed }
            &&& handed@ == frame@
            &&& slot_after == slot_before
            &&& queue_after == queue_before
        },
    }
}

/// Where an ioctl and an Ethernet frame are ready pass after pass, and
/// there is credit, they take turns.
pub proof fn lemma_turns_alternate(r: Runner)
    requires
        r.sdpcm.spec_has_credit(),
    ensures
        r.spec_turn(true, true) != (Runner { data_first: !r.data_first, ..r }).spec_turn(
            true,
            true,
        ),
        !r.data_first ==> r.spec_turn(true, true) == Turn::Ioctl,
{
}

/// Without credit nothing is sent, whatever is ready.
pub proof fn lemma_no_credit_no_turn(r: Runner, ioctl_pending: bool, tx_available: bool)
    requires
        !r.sdpcm.spec_has_credit(),
    ensures
        r.spec_turn(ioctl_pending, tx_available) == Turn::Idle,
{
}

} // verus!
