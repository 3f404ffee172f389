//! The request/wait engine as a pure state machine. The core owns the
//! subscription registry, an outbound frame queue, and the mailboxes of
//! fulfilled one-shot slots; the surrounding program performs the serial
//! reads and writes and feeds bytes and timeouts back in.
//!
//! A request that expects a reply installs its one-shot listener before
//! its frame joins the outbound queue, so a reply that arrives at any
//! point after the call wakes the requester: there is no lost-wakeup
//! window.
use crate::commands::{spec_fill, get_command_by_name, spec_command_by_name, CommandView};
use crate::coordinator::{SerialThreadError, ZigbeeEvent};
use crate::parameters::{ParameterError, ParameterValue};
use crate::slice_reader::le16_at;
use crate::slice_writer::SliceWriter;
use crate::subscription::{
    first_match_idx, lemma_first_match_idx, spec_notify, sub_matches, Action, Event,
    NotifyOutcome, Predicate, Subscription, SubscriptionService,
};
use crate::unpi::{
    LenTypeInfo, MessageType, Subsystem, UnpiPacket, UnpiPacketView, START_OF_FRAME,
};
use vstd::prelude::*;

verus! {

/// Failures of the packet-level request helpers.
#[derive(Debug, Clone, PartialEq)]
pub enum UnpiCommandError {
    NoCommandWithName,
    InvalidMessageType,
    SubscriptionError,
    Serial(SerialThreadError),
    Io,
    InvalidResponse,
    Parameter(ParameterError),
    PayloadTooLong,
}

/// The handler id of the built-in bridge translating `tc_device_index`
/// indications into device-announce events.
pub const TC_DEVICE_INDEX_HANDLER: u64 = 1;

/// What one inbound packet amounted to.
#[derive(Debug)]
pub enum Inbound {
    /// A one-shot requester was waiting: the packet now sits in its
    /// mailbox.
    Reply(u64),
    /// A built-in bridge translated the packet into a network event for
    /// the installed callback.
    Event(ZigbeeEvent),
    /// A bridge matched but the payload does not fit its schema; the
    /// packet is dropped and the error logged.
    HandlerError,
    /// Nothing was waiting for the packet; it is dropped with a warning.
    Unmatched,
}

/// Index of the first mailbox entry of `slot`, or -1.
pub open spec fn first_mailbox_idx(deliv: Seq<(u64, UnpiPacket)>, slot: u64) -> int
    decreases deliv.len(),
{
    if deliv.len() == 0 {
        -1
    } else if deliv[0].0 == slot {
        0
    } else {
        let rest = first_mailbox_idx(deliv.drop_first(), slot);
        if rest < 0 {
            -1
        } else {
            rest + 1
        }
    }
}

pub proof fn lemma_first_mailbox_idx(deliv: Seq<(u64, UnpiPacket)>, slot: u64)
    ensures
        first_mailbox_idx(deliv, slot) >= 0 ==> 0 <= first_mailbox_idx(deliv, slot) < deliv.len()
            && deliv[first_mailbox_idx(deliv, slot)].0 == slot && forall|j: int|
            0 <= j < first_mailbox_idx(deliv, slot) ==> deliv[j].0 != slot,
        first_mailbox_idx(deliv, slot) < 0 ==> forall|j: int|
            0 <= j < deliv.len() ==> deliv[j].0 != slot,
    decreases deliv.len(),
{
    if deliv.len() > 0 && deliv[0].0 != slot {
        lemma_first_mailbox_idx(deliv.drop_first(), slot);
        assert(forall|j: int| 1 <= j < deliv.len() ==> deliv[j] == deliv.drop_first()[j - 1]);
    }
}

/// Is this subscription the one-shot listener of `slot`?
pub open spec fn sub_has_slot(s: Subscription, slot: u64) -> bool {
    s matches Subscription::SingleShot(_, a) && a.slot == slot
}

/// Index of the first one-shot subscription of `slot`, or -1.
pub open spec fn first_sub_slot_idx(subs: Seq<Subscription>, slot: u64) -> int
    decreases subs.len(),
{
    if subs.len() == 0 {
        -1
    } else if sub_has_slot(subs[0], slot) {
        0
    } else {
        let rest = first_sub_slot_idx(subs.drop_first(), slot);
        if rest < 0 {
            -1
        } else {
            rest + 1
        }
    }
}

pub proof fn lemma_first_sub_slot_idx(subs: Seq<Subscription>, slot: u64)
    ensures
        first_sub_slot_idx(subs, slot) >= 0 ==> 0 <= first_sub_slot_idx(subs, slot) < subs.len()
            && sub_has_slot(subs[first_sub_slot_idx(subs, slot)], slot) && forall|j: int|
            0 <= j < first_sub_slot_idx(subs, slot) ==> !sub_has_slot(subs[j], slot),
        first_sub_slot_idx(subs, slot) < 0 ==> forall|j: int|
            0 <= j < subs.len() ==> !sub_has_slot(subs[j], slot),
    decreases subs.len(),
{
    if subs.len() > 0 && !sub_has_slot(subs[0], slot) {
        lemma_first_sub_slot_idx(subs.drop_first(), slot);
        assert(forall|j: int| 1 <= j < subs.len() ==> subs[j] == subs.drop_first()[j - 1]);
    }
}

/// The payload a named request encodes to: its parameters against the
/// catalog's request schema; a command without one takes no payload.
pub open spec fn spec_request_payload(
    c: CommandView,
    params: Seq<(&'static str, ParameterValue)>,
) -> Result<Seq<u8>, ParameterError> {
    match c.request {
        Some(sch) => spec_fill(params, sch),
        None => Ok(Seq::empty()),
    }
}

/// The driver core: the registry routing inbound packets, the outbound
/// frame queue the writer drains, the mailboxes of fulfilled one-shot
/// slots, and the next fresh slot number.
#[derive(Debug)]
pub struct CoordinatorCore {
    pub registry: SubscriptionService,
    pub outbound: Vec<UnpiPacket>,
    pub delivered: Vec<(u64, UnpiPacket)>,
    pub next_slot: u64,
}

impl CoordinatorCore {
    /// A fresh core with the built-in `tc_device_index` event bridge
    /// installed.
    pub fn new() -> (r: CoordinatorCore)
        ensures
            r.registry.subs() == seq![
                Subscription::Event(
                    Predicate {
                        message_type: MessageType::AREQ,
                        subsystem: Subsystem::Zdo,
                        command_id: 202,
                    },
                    Event { handler: TC_DEVICE_INDEX_HANDLER },
                ),
            ],
            r.outbound@ == Seq::<UnpiPacket>::empty(),
            r.delivered@ == Seq::<(u64, UnpiPacket)>::empty(),
            r.next_slot == 2,
    {
        let mut registry = SubscriptionService::new();
        registry.subscribe(
            Subscription::Event(
                Predicate {
                    message_type: MessageType::AREQ,
                    subsystem: Subsystem::Zdo,
                    command_id: 202,
                },
                Event { handler: TC_DEVICE_INDEX_HANDLER },
            ),
        );
        proof {
            assert(registry.subs() =~= seq![
                Subscription::Event(
                    Predicate {
                        message_type: MessageType::AREQ,
                        subsystem: Subsystem::Zdo,
                        command_id: 202,
                    },
                    Event { handler: TC_DEVICE_INDEX_HANDLER },
                ),
            ]);
        }
        CoordinatorCore { registry, outbound: Vec::new(), delivered: Vec::new(), next_slot: 2 }
    }

    /// Installs a one-shot listener for the given header and hands back
    /// its fresh completion slot. The listener stands in front of every
    /// older subscription.
    pub fn wait_for(
        &mut self,
        message_type: MessageType,
        subsystem: Subsystem,
        command_id: u8,
    ) -> (slot: u64)
        requires
            old(self).next_slot < u64::MAX,
        ensures
            slot == old(self).next_slot,
            final(self).next_slot == old(self).next_slot + 1,
            final(self).registry.subs() == seq![
                Subscription::SingleShot(
                    Predicate { message_type, subsystem, command_id },
                    Action { slot },
                ),
            ] + old(self).registry.subs(),
            final(self).outbound == old(self).outbound,
            final(self).delivered == old(self).delivered,
    {
        let slot = self.next_slot;
        self.next_slot = self.next_slot + 1;
        self.registry.subscribe(
            Subscription::SingleShot(
                Predicate { message_type, subsystem, command_id },
                Action { slot },
            ),
        );
        slot
    }

    /// Queues one already-framed packet for the writer.
    pub fn request_packet(&mut self, packet: UnpiPacket)
        ensures
            final(self).outbound@ == old(self).outbound@.push(packet),
            final(self).registry == old(self).registry,
            final(self).delivered == old(self).delivered,
            final(self).next_slot == old(self).next_slot,
    {
        self.outbound.push(packet);
    }

    /// Encodes a named request against the catalog and queues its frame,
    /// fire-and-forget.
    pub fn request(
        &mut self,
        name: &str,
        subsystem: Subsystem,
        parameters: &[(&'static str, ParameterValue)],
    ) -> (r: Result<(), UnpiCommandError>)
        requires
            forall|i: int| 0 <= i < parameters@.len() ==> (#[trigger] parameters@[i]).1.wf(),
        ensures
            final(self).registry == old(self).registry,
            final(self).delivered == old(self).delivered,
            final(self).next_slot == old(self).next_slot,
            spec_command_by_name(subsystem, name@) matches Some(c) ==> c.wf(),
            match spec_command_by_name(subsystem, name@) {
                None => r == Err::<(), UnpiCommandError>(UnpiCommandError::NoCommandWithName)
                    && final(self).outbound == old(self).outbound,
                Some(c) => match spec_request_payload(c, parameters@) {
                    Err(e) => r == Err::<(), UnpiCommandError>(UnpiCommandError::Parameter(e))
                        && final(self).outbound == old(self).outbound,
                    Ok(bytes) => if bytes.len() > 255 {
                        r == Err::<(), UnpiCommandError>(UnpiCommandError::PayloadTooLong) && final(self).outbound == old(self).outbound
                    } else {
                        r is Ok && final(self).outbound@.len() == old(self).outbound@.len() + 1
                            && final(self).outbound@.drop_last() == old(self).outbound@ && ({
                            let p = final(self).outbound@.last()@;
                            &&& p.wf()
                            &&& p.len.matches_info(LenTypeInfo::OneByte)
                            &&& p.payload == bytes
                            &&& p.type_subsystem == (c.command_type, subsystem)
                            &&& p.command == c.id
                        })
                    },
                },
            },
    {
        let command = match get_command_by_name(&subsystem, name) {
            Some(c) => c,
            None => {
                return Err(UnpiCommandError::NoCommandWithName);
            },
        };
        let mut writer = SliceWriter::new();
        match command.fill_and_write(parameters, &mut writer) {
            Ok(_) => {},
            Err(e) => {
                return Err(UnpiCommandError::Parameter(e));
            },
        }
        let payload = writer.into_bytes();
        if payload.len() > 255 {
            return Err(UnpiCommandError::PayloadTooLong);
        }
        let packet = UnpiPacket::from_payload(
            payload.as_slice(),
            LenTypeInfo::OneByte,
            (command.command_type, subsystem),
            command.id,
        );
        self.outbound.push(packet);
        proof {
            assert(final(self).outbound@.drop_last() =~= old(self).outbound@);
        }
        Ok(())
    }

    /// Encodes a named synchronous request, installs the listener for
    /// its paired response — before the frame joins the outbound queue —
    /// and hands back the completion slot to await.
    pub fn request_with_reply(
        &mut self,
        name: &str,
        subsystem: Subsystem,
        parameters: &[(&'static str, ParameterValue)],
    ) -> (r: Result<u64, UnpiCommandError>)
        requires
            old(self).next_slot < u64::MAX,
            forall|i: int| 0 <= i < parameters@.len() ==> (#[trigger] parameters@[i]).1.wf(),
        ensures
            final(self).delivered == old(self).delivered,
            r is Err ==> *final(self) == *old(self),
            spec_command_by_name(subsystem, name@) matches Some(c) ==> c.wf(),
            match spec_command_by_name(subsystem, name@) {
                None => r == Err::<u64, UnpiCommandError>(UnpiCommandError::NoCommandWithName),
                Some(c) => if c.command_type != MessageType::SREQ {
                    r == Err::<u64, UnpiCommandError>(UnpiCommandError::InvalidMessageType)
                } else {
                    match spec_request_payload(c, parameters@) {
                        Err(e) => r == Err::<u64, UnpiCommandError>(
                            UnpiCommandError::Parameter(e),
                        ),
                        Ok(bytes) => if bytes.len() > 255 {
                            r == Err::<u64, UnpiCommandError>(UnpiCommandError::PayloadTooLong)
                        } else {
                            &&& r == Ok::<u64, UnpiCommandError>(old(self).next_slot)
                            &&& final(self).next_slot == old(self).next_slot + 1
                            &&& final(self).registry.subs() == seq![
                                Subscription::SingleShot(
                                    Predicate {
                                        message_type: MessageType::SRESP,
                                        subsystem,
                                        command_id: c.id,
                                    },
                                    Action { slot: old(self).next_slot },
                                ),
                            ] + old(self).registry.subs()
                            &&& final(self).outbound@.len() == old(self).outbound@.len() + 1
                            &&& final(self).outbound@.drop_last() == old(self).outbound@
                            &&& ({
                                let p = final(self).outbound@.last()@;
                                &&& p.wf()
                                &&& p.len.matches_info(LenTypeInfo::OneByte)
                                &&& p.payload == bytes
                                &&& p.type_subsystem == (MessageType::SREQ, subsystem)
                                &&& p.command == c.id
                            })
                        },
                    }
                },
            },
    {
        let command = match get_command_by_name(&subsystem, name) {
            Some(c) => c,
            None => {
                return Err(UnpiCommandError::NoCommandWithName);
            },
        };
        match command.command_type {
            MessageType::SREQ => {},
            _ => {
                return Err(UnpiCommandError::InvalidMessageType);
            },
        }
        let mut writer = SliceWriter::new();
        match command.fill_and_write(parameters, &mut writer) {
            Ok(_) => {},
            Err(e) => {
                return Err(UnpiCommandError::Parameter(e));
            },
        }
        let payload = writer.into_bytes();
        if payload.len() > 255 {
            return Err(UnpiCommandError::PayloadTooLong);
        }
        // listen before write: the response listener is in place before
        // the request frame can reach the wire
        let slot = self.wait_for(MessageType::SRESP, subsystem, command.id);
        let packet = UnpiPacket::from_payload(
            payload.as_slice(),
            LenTypeInfo::OneByte,
            (MessageType::SREQ, subsystem),
            command.id,
        );
        self.outbound.push(packet);
        proof {
            assert(final(self).outbound@.drop_last() =~= old(self).outbound@);
        }
        Ok(slot)
    }

    /// Routes one decoded inbound packet: the newest waiting one-shot
    /// gets it in its mailbox, a persistent bridge turns it into a
    /// network event, and an unmatched packet is dropped.
    pub fn on_packet(&mut self, packet: UnpiPacket) -> (r: Inbound)
        ensures
            final(self).outbound == old(self).outbound,
            final(self).next_slot == old(self).next_slot,
            final(self).registry.subs() == spec_notify(old(self).registry.subs(), packet@).0,
            ({
                let outcome = spec_notify(old(self).registry.subs(), packet@).1;
                match outcome {
                    NotifyOutcome::Delivered(a) => final(self).delivered@ == old(
                        self,
                    ).delivered@.push((a.slot, packet)) && (r matches Inbound::Reply(s) && s
                        == a.slot),
                    NotifyOutcome::Handled(ev) => final(self).delivered == old(self).delivered && (
                    if ev.handler == TC_DEVICE_INDEX_HANDLER && packet@.payload.len() >= 12 {
                        r matches Inbound::Event(
                            ZigbeeEvent::DeviceAnnounce { network_address, ieee_address },
                        ) && network_address == le16_at(packet@.payload, 0) && ieee_address@
                            == packet@.payload.subrange(2, 10)
                    } else {
                        r is HandlerError
                    }),
                    NotifyOutcome::NoMatch => final(self).delivered == old(self).delivered && r
                        is Unmatched,
                }
            }),
    {
        match self.registry.notify(&packet) {
            NotifyOutcome::Delivered(action) => {
                let slot = action.slot;
                self.delivered.push((slot, packet));
                Inbound::Reply(slot)
            },
            NotifyOutcome::Handled(event) => {
                if event.handler == TC_DEVICE_INDEX_HANDLER && packet.payload.len() >= 12 {
                    let pl = &packet.payload;
                    let network_address: u16 = pl[0] as u16 + 256 * (pl[1] as u16);
                    let ieee_address: [u8; 8] = [
                        pl[2],
                        pl[3],
                        pl[4],
                        pl[5],
                        pl[6],
                        pl[7],
                        pl[8],
                        pl[9],
                    ];
                    proof {
                        assert(ieee_address@ =~= packet@.payload.subrange(2, 10));
                    }
                    Inbound::Event(ZigbeeEvent::DeviceAnnounce { network_address, ieee_address })
                } else {
                    Inbound::HandlerError
                }
            },
            NotifyOutcome::NoMatch => Inbound::Unmatched,
        }
    }

    /// The next frame owed to the wire, in the order the requests were
    /// made.
    pub fn take_outbound(&mut self) -> (r: Option<UnpiPacket>)
        ensures
            final(self).registry == old(self).registry,
            final(self).delivered == old(self).delivered,
            final(self).next_slot == old(self).next_slot,
            old(self).outbound@.len() == 0 ==> r is None && final(self).outbound == old(self).outbound,
            old(self).outbound@.len() > 0 ==> r == Some(old(self).outbound@[0]) && final(self).outbound@ == old(self).outbound@.drop_first(),
    {
        if self.outbound.len() == 0 {
            return None;
        }
        let p = self.outbound.remove(0);
        proof {
            assert(self.outbound@ =~= old(self).outbound@.drop_first());
        }
        Some(p)
    }

    /// The packet delivered to `slot`, removed from its mailbox.
    pub fn take_reply(&mut self, slot: u64) -> (r: Option<UnpiPacket>)
        ensures
            final(self).registry == old(self).registry,
            final(self).outbound == old(self).outbound,
            final(self).next_slot == old(self).next_slot,
            ({
                let idx = first_mailbox_idx(old(self).delivered@, slot);
                if idx < 0 {
                    r is None && final(self).delivered == old(self).delivered
                } else {
                    r == Some(old(self).delivered@[idx].1) && final(self).delivered@ == old(self).delivered@.remove(idx)
                }
            }),
    {
        proof {
            lemma_first_mailbox_idx(old(self).delivered@, slot);
        }
        let n = self.delivered.len();
        let mut i: usize = 0;
        while i < n
            invariant
                n == self.delivered@.len(),
                i <= n,
                *self == *old(self),
                forall|j: int| 0 <= j < i ==> self.delivered@[j].0 != slot,
            decreases n - i,
        {
            if self.delivered[i].0 == slot {
                proof {
                    lemma_first_mailbox_idx(old(self).delivered@, slot);
                }
                let entry = self.delivered.remove(i);
                return Some(entry.1);
            }
            i = i + 1;
        }
        proof {
            lemma_first_mailbox_idx(old(self).delivered@, slot);
        }
        None
    }

    /// Removes the one-shot listener of `slot`, as a timed-out requester
    /// does; says whether one was still installed. A reply that arrives
    /// later finds nothing and is dropped with a warning.
    pub fn cancel_request(&mut self, slot: u64) -> (r: bool)
        ensures
            final(self).outbound == old(self).outbound,
            final(self).delivered == old(self).delivered,
            final(self).next_slot == old(self).next_slot,
            ({
                let idx = first_sub_slot_idx(old(self).registry.subs(), slot);
                if idx < 0 {
                    !r && final(self).registry == old(self).registry
                } else {
                    r && final(self).registry.subs() == old(self).registry.subs().remove(idx)
                }
            }),
    {
        proof {
            lemma_first_sub_slot_idx(old(self).registry.subs(), slot);
        }
        let n = self.registry.subscriptions.len();
        let mut i: usize = 0;
        while i < n
            invariant
                n == self.registry.subs().len(),
                i <= n,
                *self == *old(self),
                forall|j: int| 0 <= j < i ==> !sub_has_slot(self.registry.subs()[j], slot),
            decreases n - i,
        {
            let hit = match &self.registry.subscriptions[i] {
                Subscription::SingleShot(_, a) => a.slot == slot,
                Subscription::Event(_, _) => false,
            };
            if hit {
                proof {
                    lemma_first_sub_slot_idx(old(self).registry.subs(), slot);
                }
                let _ = self.registry.subscriptions.remove(i);
                return true;
            }
            i = i + 1;
        }
        proof {
            lemma_first_sub_slot_idx(old(self).registry.subs(), slot);
        }
        false
    }
}

// ---------------------------------------------------------------------
// Laws of the engine.
// ---------------------------------------------------------------------
/// Listen-before-write: the listener a request installs stands in front
/// of the registry, so a reply with the awaited header — even one that
/// arrives before the request's frame reaches the wire — is delivered to
/// that requester's slot.
pub proof fn lemma_reply_wakes_waiter(
    subs: Seq<Subscription>,
    pred: Predicate,
    a: Action,
    p: UnpiPacketView,
)
    requires
        subs.len() > 0,
        subs[0] == Subscription::SingleShot(pred, a),
        pred.spec_matches(p),
    ensures
        spec_notify(subs, p) == (subs.remove(0), NotifyOutcome::Delivered(a)),
{
}

/// A reply that arrives after its request was cancelled finds no
/// matching subscription and is dropped; the registry is unchanged and
/// nothing fails.
pub proof fn lemma_late_reply_dropped(subs: Seq<Subscription>, p: UnpiPacketView)
    requires
        forall|j: int| 0 <= j < subs.len() ==> !sub_matches(subs[j], p),
    ensures
        spec_notify(subs, p) == (subs, NotifyOutcome::NoMatch),
{
    lemma_first_match_idx(subs, p);
}

} // verus!

verus! {

use crate::unpi::{spec_decode, spec_frame_len, MAX_FRAME_SIZE};

/// The reader worker's rolling buffer. Serial reads do not respect frame
/// boundaries, so bytes accumulate here until a whole frame can be
/// decoded; on a bad checksum, on junk before a start-of-frame byte, or
/// on overflow past the maximum frame size, the buffer resynchronizes at
/// the next start-of-frame byte.
#[derive(Debug)]
pub struct FrameBuffer {
    pub buf: Vec<u8>,
}

impl FrameBuffer {
    /// An empty buffer.
    pub fn new() -> (r: FrameBuffer)
        ensures
            r.buf@ == Seq::<u8>::empty(),
    {
        FrameBuffer { buf: Vec::new() }
    }

    /// Appends one chunk as it came off the wire.
    pub fn feed(&mut self, chunk: &[u8])
        ensures
            final(self).buf@ == old(self).buf@ + chunk@,
    {
        let mut i: usize = 0;
        while i < chunk.len()
            invariant
                i <= chunk@.len(),
                self.buf@ =~= old(self).buf@ + chunk@.subrange(0, i as int),
            decreases chunk@.len() - i,
        {
            self.buf.push(chunk[i]);
            i = i + 1;
            proof {
                assert(chunk@.subrange(0, i as int) =~= chunk@.subrange(0, i - 1).push(
                    chunk@[i - 1],
                ));
            }
        }
        proof {
            assert(chunk@.subrange(0, chunk@.len() as int) =~= chunk@);
        }
    }

    /// Drops the first `n` buffered bytes.
    fn drop_front(&mut self, n: usize)
        requires
            n <= old(self).buf@.len(),
        ensures
            final(self).buf@ == old(self).buf@.skip(n as int),
    {
        let rest = vstd::slice::slice_to_vec(
            vstd::slice::slice_subrange(self.buf.as_slice(), n, self.buf.len()),
        );
        self.buf = rest;
        proof {
            assert(self.buf@ =~= old(self).buf@.skip(n as int));
        }
    }

    /// Index of the first start-of-frame byte, if any.
    fn position_of_sof(&self) -> (r: Option<usize>)
        ensures
            r matches Some(i) ==> i < self.buf@.len() && self.buf@[i as int] == START_OF_FRAME
                && forall|j: int| 0 <= j < i ==> self.buf@[j] != START_OF_FRAME,
            r is None ==> forall|j: int| 0 <= j < self.buf@.len() ==> self.buf@[j] != START_OF_FRAME,
    {
        let mut i: usize = 0;
        while i < self.buf.len()
            invariant
                i <= self.buf@.len(),
                forall|j: int| 0 <= j < i ==> self.buf@[j] != START_OF_FRAME,
            decreases self.buf@.len() - i,
        {
            if self.buf[i] == START_OF_FRAME {
                return Some(i);
            }
            i = i + 1;
        }
        None
    }

    /// Extracts the next whole frame, exactly as `spec_next_frame` says:
    /// junk before a start-of-frame byte is dropped, a decodable frame
    /// at the front is consumed and returned, an incomplete frame within
    /// the size bound waits for more bytes, and anything else
    /// resynchronizes at the next possible frame start.
    pub fn next_frame(&mut self, len_type_info: LenTypeInfo) -> (r: Option<UnpiPacket>)
        ensures
            ({
                let step = spec_next_frame(old(self).buf@, len_type_info);
                &&& final(self).buf@ == step.0
                &&& (match step.1 {
                    None => r is None,
                    Some(pv) => r matches Some(p) && p@ == pv && pv.wf() && pv.len.matches_info(
                        len_type_info,
                    ),
                })
            }),
    {
        let ghost entry = old(self).buf@;
        loop
            invariant
                spec_next_frame(entry, len_type_info) == spec_next_frame(
                    self.buf@,
                    len_type_info,
                ),
                entry == old(self).buf@,
            decreases self.buf@.len(),
        {
            let ghost before = self.buf@;
            let sof_pos = match self.position_of_sof() {
                Some(i) => i,
                None => {
                    let n = self.buf.len();
                    proof {
                        lemma_spec_next_frame_skip(before, len_type_info, before.len() as int);
                        assert(before.skip(before.len() as int) =~= Seq::<u8>::empty());
                    }
                    self.drop_front(n);
                    return None;
                },
            };
            proof {
                lemma_spec_next_frame_skip(before, len_type_info, sof_pos as int);
            }
            self.drop_front(sof_pos);
            match UnpiPacket::from_bytes(self.buf.as_slice(), len_type_info) {
                Ok(p) => {
                    let ghost at_frame = self.buf@;
                    let lsz = len_type_info.byte_size();
                    let flen = 1 + lsz + 2 + p.payload.len() + 1;
                    proof {
                        assert(flen == spec_frame_len(at_frame, len_type_info));
                        assert(flen <= at_frame.len());
                    }
                    self.drop_front(flen);
                    return Some(p);
                },
                Err(e) => {
                    let incomplete = match e {
                        crate::unpi::UnpiPacketError::IoError => true,
                        _ => false,
                    };
                    if incomplete && self.buf.len() <= MAX_FRAME_SIZE {
                        // a frame may still be arriving: wait for more bytes
                        return None;
                    }
                    // bad frame or overflow: resynchronize past this SOF
                    let ghost at_sof = self.buf@;
                    self.drop_front(1);
                    proof {
                        assert(self.buf@ =~= at_sof.drop_first());
                    }
                },
            }
        }
    }
}

/// What one `next_frame` call yields and what it leaves behind, as
/// mathematics: junk before a start-of-frame byte is dropped; a
/// decodable frame at the front is consumed and handed out; an
/// incomplete frame within the size bound stays and waits; anything
/// else resynchronizes one byte further.
pub open spec fn spec_next_frame(buf: Seq<u8>, info: LenTypeInfo) -> (Seq<u8>, Option<
    UnpiPacketView,
>)
    decreases buf.len(),
{
    if buf.len() == 0 {
        (buf, None)
    } else if buf[0] != START_OF_FRAME {
        spec_next_frame(buf.drop_first(), info)
    } else {
        match spec_decode(buf, info) {
            Ok(p) => (buf.skip(spec_frame_len(buf, info)), Some(p)),
            Err(e) => if e is IoError && buf.len() <= MAX_FRAME_SIZE {
                (buf, None)
            } else {
                spec_next_frame(buf.drop_first(), info)
            },
        }
    }
}

/// Bytes before the first start-of-frame byte do not change what
/// `next_frame` yields.
pub proof fn lemma_spec_next_frame_skip(buf: Seq<u8>, info: LenTypeInfo, i: int)
    requires
        0 <= i <= buf.len(),
        forall|j: int| 0 <= j < i ==> buf[j] != START_OF_FRAME,
    ensures
        spec_next_frame(buf, info) == spec_next_frame(buf.skip(i), info),
    decreases i,
{
    if i > 0 {
        assert(forall|j: int|
            0 <= j < i - 1 ==> buf.drop_first()[j] == buf[j + 1] && buf[j + 1]
                != START_OF_FRAME);
        lemma_spec_next_frame_skip(buf.drop_first(), info, i - 1);
        assert(buf.drop_first().skip(i - 1) =~= buf.skip(i));
    } else {
        assert(buf.skip(0) =~= buf);
    }
}

/// A yielded frame consumes at least one byte; a waiting buffer never
/// grows.
pub proof fn lemma_spec_next_frame_consumes(buf: Seq<u8>, info: LenTypeInfo)
    ensures
        spec_next_frame(buf, info).1 is Some ==> spec_next_frame(buf, info).0.len() < buf.len(),
        spec_next_frame(buf, info).0.len() <= buf.len(),
    decreases buf.len(),
{
    if buf.len() > 0 && (buf[0] != START_OF_FRAME || (spec_decode(buf, info) matches Err(e)
        && !(e is IoError && buf.len() <= MAX_FRAME_SIZE))) {
        lemma_spec_next_frame_consumes(buf.drop_first(), info);
    }
}

} // verus!

verus! {

/// The registry after routing a run of frames, one notify per frame.
pub open spec fn spec_route_registry(
    subs: Seq<Subscription>,
    frames: Seq<UnpiPacketView>,
) -> Seq<Subscription>
    decreases frames.len(),
{
    if frames.len() == 0 {
        subs
    } else {
        spec_route_registry(spec_notify(subs, frames[0]).0, frames.drop_first())
    }
}

/// The mailbox images after routing a run of frames: each frame a
/// one-shot accepts joins the mailbox under that listener's slot.
pub open spec fn spec_route_mailbox(
    subs: Seq<Subscription>,
    mailbox: Seq<(u64, UnpiPacketView)>,
    frames: Seq<UnpiPacketView>,
) -> Seq<(u64, UnpiPacketView)>
    decreases frames.len(),
{
    if frames.len() == 0 {
        mailbox
    } else {
        let stepped = match spec_notify(subs, frames[0]).1 {
            NotifyOutcome::Delivered(a) => mailbox.push((a.slot, frames[0])),
            _ => mailbox,
        };
        spec_route_mailbox(spec_notify(subs, frames[0]).0, stepped, frames.drop_first())
    }
}

/// The images of the mailbox entries.
pub open spec fn mailbox_views(deliv: Seq<(u64, UnpiPacket)>) -> Seq<(u64, UnpiPacketView)> {
    deliv.map_values(|e: (u64, UnpiPacket)| (e.0, e.1@))
}

/// Is `ib` what routing `pv` through the registry must report? Exactly
/// the outcome clauses of `on_packet`.
pub open spec fn outcome_matches(subs: Seq<Subscription>, pv: UnpiPacketView, ib: Inbound) -> bool {
    match spec_notify(subs, pv).1 {
        NotifyOutcome::Delivered(a) => ib matches Inbound::Reply(slot) && slot == a.slot,
        NotifyOutcome::Handled(ev) => if ev.handler == TC_DEVICE_INDEX_HANDLER && pv.payload.len()
            >= 12 {
            ib matches Inbound::Event(
                ZigbeeEvent::DeviceAnnounce { network_address, ieee_address },
            ) && network_address == le16_at(pv.payload, 0) && ieee_address@ == pv.payload.subrange(
                2,
                10,
            )
        } else {
            ib is HandlerError
        },
        NotifyOutcome::NoMatch => ib is Unmatched,
    }
}

/// Every frame `next_frame` can pull out of the buffer, in order. (A
/// yielded frame always consumes bytes, so the guard on the recursion
/// never bites; it only keeps the definition total.)
pub open spec fn spec_frames(buf: Seq<u8>, info: LenTypeInfo) -> Seq<UnpiPacketView>
    decreases buf.len(),
{
    let step = spec_next_frame(buf, info);
    match step.1 {
        None => Seq::empty(),
        Some(p) => if step.0.len() < buf.len() {
            seq![p] + spec_frames(step.0, info)
        } else {
            seq![p]
        },
    }
}

/// What the buffer holds once every whole frame has been pulled out.
pub open spec fn spec_drained(buf: Seq<u8>, info: LenTypeInfo) -> Seq<u8>
    decreases buf.len(),
{
    let step = spec_next_frame(buf, info);
    match step.1 {
        None => step.0,
        Some(_) => if step.0.len() < buf.len() {
            spec_drained(step.0, info)
        } else {
            step.0
        },
    }
}

/// Appending one frame to a routed run routes it through the registry
/// the run left behind.
pub proof fn lemma_route_snoc(
    subs: Seq<Subscription>,
    mailbox: Seq<(u64, UnpiPacketView)>,
    frames: Seq<UnpiPacketView>,
    pv: UnpiPacketView,
)
    ensures
        spec_route_registry(subs, frames.push(pv)) == spec_notify(
            spec_route_registry(subs, frames),
            pv,
        ).0,
        spec_route_mailbox(subs, mailbox, frames.push(pv)) == (match spec_notify(
            spec_route_registry(subs, frames),
            pv,
        ).1 {
            NotifyOutcome::Delivered(a) => spec_route_mailbox(subs, mailbox, frames).push(
                (a.slot, pv),
            ),
            _ => spec_route_mailbox(subs, mailbox, frames),
        }),
    decreases frames.len(),
{
    if frames.len() == 0 {
        assert(frames.push(pv).drop_first() =~= Seq::<UnpiPacketView>::empty());
        assert(frames.push(pv)[0] == pv);
        let stepped = match spec_notify(subs, pv).1 {
            NotifyOutcome::Delivered(a) => mailbox.push((a.slot, pv)),
            _ => mailbox,
        };
        assert(spec_route_registry(
            spec_notify(subs, pv).0,
            Seq::<UnpiPacketView>::empty(),
        ) == spec_notify(subs, pv).0);
        assert(spec_route_mailbox(
            spec_notify(subs, pv).0,
            stepped,
            Seq::<UnpiPacketView>::empty(),
        ) == stepped);
        assert(spec_route_registry(subs, frames) == subs);
        assert(spec_route_mailbox(subs, mailbox, frames) == mailbox);
    } else {
        let subs2 = spec_notify(subs, frames[0]).0;
        let mailbox2 = match spec_notify(subs, frames[0]).1 {
            NotifyOutcome::Delivered(a) => mailbox.push((a.slot, frames[0])),
            _ => mailbox,
        };
        lemma_route_snoc(subs2, mailbox2, frames.drop_first(), pv);
        assert(frames.push(pv).drop_first() =~= frames.drop_first().push(pv));
        assert(frames.push(pv)[0] == frames[0]);
    }
}

impl CoordinatorCore {
    /// One reader-worker step: the chunk joins the rolling buffer, every
    /// whole frame in it is extracted per `spec_next_frame` and routed
    /// per `on_packet`, and the outcomes come back in arrival order for
    /// the caller to act on.
    pub fn on_bytes(&mut self, buffer: &mut FrameBuffer, chunk: &[u8], len_type_info: LenTypeInfo)
        -> (r: Vec<Inbound>)
        ensures
            final(self).outbound == old(self).outbound,
            final(self).next_slot == old(self).next_slot,
            ({
                let all = old(buffer).buf@ + chunk@;
                let frames = spec_frames(all, len_type_info);
                &&& final(buffer).buf@ == spec_drained(all, len_type_info)
                &&& final(self).registry.subs() == spec_route_registry(
                    old(self).registry.subs(),
                    frames,
                )
                &&& mailbox_views(final(self).delivered@) == spec_route_mailbox(
                    old(self).registry.subs(),
                    mailbox_views(old(self).delivered@),
                    frames,
                )
                &&& r@.len() == frames.len()
                &&& forall|k: int|
                    0 <= k < frames.len() ==> outcome_matches(
                        spec_route_registry(old(self).registry.subs(), frames.take(k)),
                        frames[k],
                        #[trigger] r@[k],
                    )
            }),
    {
        let ghost all = old(buffer).buf@ + chunk@;
        let ghost subs0 = old(self).registry.subs();
        let ghost mbox0 = mailbox_views(old(self).delivered@);
        buffer.feed(chunk);
        let mut outcomes: Vec<Inbound> = Vec::new();
        let ghost mut frames_done: Seq<UnpiPacketView> = Seq::empty();
        proof {
            assert(spec_frames(all, len_type_info) == frames_done + spec_frames(
                all,
                len_type_info,
            )) by {
                assert(frames_done + spec_frames(all, len_type_info) =~= spec_frames(
                    all,
                    len_type_info,
                ));
            }
        }
        loop
            invariant
                self.outbound == old(self).outbound,
                self.next_slot == old(self).next_slot,
                all == old(buffer).buf@ + chunk@,
                subs0 == old(self).registry.subs(),
                mbox0 == mailbox_views(old(self).delivered@),
                spec_frames(all, len_type_info) == frames_done + spec_frames(
                    buffer.buf@,
                    len_type_info,
                ),
                spec_drained(all, len_type_info) == spec_drained(buffer.buf@, len_type_info),
                self.registry.subs() == spec_route_registry(subs0, frames_done),
                mailbox_views(self.delivered@) == spec_route_mailbox(subs0, mbox0, frames_done),
                outcomes@.len() == frames_done.len(),
                forall|k: int|
                    0 <= k < frames_done.len() ==> outcome_matches(
                        spec_route_registry(subs0, frames_done.take(k)),
                        frames_done[k],
                        #[trigger] outcomes@[k],
                    ),
            decreases buffer.buf@.len(),
        {
            let ghost before = buffer.buf@;
            proof {
                lemma_spec_next_frame_consumes(before, len_type_info);
            }
            let packet = match buffer.next_frame(len_type_info) {
                Some(p) => p,
                None => {
                    proof {
                        assert(spec_frames(before, len_type_info) =~= Seq::<
                            UnpiPacketView,
                        >::empty());
                        assert(frames_done + Seq::<UnpiPacketView>::empty() =~= frames_done);
                        assert(spec_frames(all, len_type_info).take(frames_done.len() as int)
                            =~= frames_done);
                    }
                    return outcomes;
                },
            };
            let ghost pv = packet@;
            let ghost mbox_before = mailbox_views(self.delivered@);
            let ghost frames_prev = frames_done;
            proof {
                lemma_route_snoc(subs0, mbox0, frames_prev, pv);
            }
            outcomes.push(self.on_packet(packet));
            proof {
                frames_done = frames_prev.push(pv);
                assert(frames_prev + (seq![pv] + spec_frames(buffer.buf@, len_type_info))
                    =~= frames_done + spec_frames(buffer.buf@, len_type_info));
                assert(mailbox_views(self.delivered@) == spec_route_mailbox(
                    subs0,
                    mbox0,
                    frames_done,
                )) by {
                    if spec_notify(spec_route_registry(subs0, frames_prev), pv).1
                        is Delivered {
                        let a = spec_notify(
                            spec_route_registry(subs0, frames_prev),
                            pv,
                        ).1->Delivered_0;
                        assert(mailbox_views(self.delivered@) =~= mbox_before.push(
                            (a.slot, pv),
                        ));
                    }
                }
                assert forall|k: int|
                    0 <= k < frames_done.len() implies outcome_matches(
                    spec_route_registry(subs0, frames_done.take(k)),
                    frames_done[k],
                    #[trigger] outcomes@[k],
                ) by {
                    assert(frames_done.take(frames_done.len() - 1) =~= frames_prev);
                    if k < frames_done.len() - 1 {
                        assert(frames_done.take(k) =~= frames_prev.take(k));
                        assert(frames_done[k] == frames_prev[k]);
                        assert(outcomes@[k] == outcomes@.drop_last()[k]);
                    }
                }
            }
        }
    }
}

} // verus!
