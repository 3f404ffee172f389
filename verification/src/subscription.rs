//! The subscription registry: predicate-keyed one-shot and persistent
//! listeners over inbound packets. The newest subscription is considered
//! first; at most one subscription sees any given packet; a matched
//! one-shot subscription leaves the registry before its delivery.
use crate::unpi::{MessageType, Subsystem, UnpiPacket, UnpiPacketView};
use vstd::prelude::*;

verus! {

/// What a subscription waits for: packets with one message type,
/// subsystem and command id.
#[derive(Debug, Clone, Copy, PartialEq, Eq, Structural)]
pub struct Predicate {
    pub message_type: MessageType,
    pub subsystem: Subsystem,
    pub command_id: u8,
}

impl Predicate {
    pub open spec fn spec_matches(self, p: UnpiPacketView) -> bool {
        &&& p.type_subsystem == (self.message_type, self.subsystem)
        &&& p.command == self.command_id
    }

    /// Does the packet carry this predicate's header?
    pub fn matches(&self, packet: &UnpiPacket) -> (r: bool)
        ensures
            r == self.spec_matches(packet@),
    {
        packet.type_subsystem.0 == self.message_type && packet.type_subsystem.1 == self.subsystem
            && packet.command == self.command_id
    }
}

/// Where a matched one-shot packet is delivered: the completion slot of
/// the requester awaiting it.
#[derive(Debug, Clone, Copy, PartialEq, Eq, Structural)]
pub struct Action {
    pub slot: u64,
}

/// The persistent handler a matching packet is handed to.
#[derive(Debug, Clone, Copy, PartialEq, Eq, Structural)]
pub struct Event {
    pub handler: u64,
}

/// A listener over inbound packets: consumed on its first match, or
/// invoked on every match.
#[derive(Debug, Clone, Copy, PartialEq, Eq, Structural)]
pub enum Subscription {
    SingleShot(Predicate, Action),
    Event(Predicate, Event),
}

impl Subscription {
    pub open spec fn spec_is_single_shot(self) -> bool {
        self is SingleShot
    }

    pub fn is_single_shot(&self) -> (r: bool)
        ensures
            r == self.spec_is_single_shot(),
    {
        match self {
            Subscription::SingleShot(_, _) => true,
            Subscription::Event(_, _) => false,
        }
    }

    /// The predicate and completion slot of a one-shot subscription.
    pub fn into_action(self) -> (r: Option<(Predicate, Action)>)
        ensures
            self matches Subscription::SingleShot(p, a) ==> r == Some((p, a)),
            self is Event ==> r is None,
    {
        match self {
            Subscription::SingleShot(predicate, action) => Some((predicate, action)),
            _ => None,
        }
    }
}

/// Does the subscription's predicate accept the packet?
pub open spec fn sub_matches(s: Subscription, p: UnpiPacketView) -> bool {
    match s {
        Subscription::SingleShot(pred, _) => pred.spec_matches(p),
        Subscription::Event(pred, _) => pred.spec_matches(p),
    }
}

/// Index of the first subscription accepting `p`, or -1.
pub open spec fn first_match_idx(subs: Seq<Subscription>, p: UnpiPacketView) -> int
    decreases subs.len(),
{
    if subs.len() == 0 {
        -1
    } else if sub_matches(subs[0], p) {
        0
    } else {
        let rest = first_match_idx(subs.drop_first(), p);
        if rest < 0 {
            -1
        } else {
            rest + 1
        }
    }
}

/// What `first_match_idx` finds: either the first accepting
/// subscription, or that none accepts.
pub proof fn lemma_first_match_idx(subs: Seq<Subscription>, p: UnpiPacketView)
    ensures
        first_match_idx(subs, p) >= 0 ==> 0 <= first_match_idx(subs, p) < subs.len()
            && sub_matches(subs[first_match_idx(subs, p)], p) && forall|j: int|
            0 <= j < first_match_idx(subs, p) ==> !sub_matches(subs[j], p),
        first_match_idx(subs, p) < 0 ==> forall|j: int|
            0 <= j < subs.len() ==> !sub_matches(subs[j], p),
    decreases subs.len(),
{
    if subs.len() > 0 && !sub_matches(subs[0], p) {
        lemma_first_match_idx(subs.drop_first(), p);
        assert(forall|j: int| 1 <= j < subs.len() ==> subs[j] == subs.drop_first()[j - 1]);
    }
}

/// What one `notify` does and returns.
#[derive(Debug, Clone, Copy, PartialEq, Eq, Structural)]
pub enum NotifyOutcome {
    /// A one-shot subscription matched: it was removed, and the packet
    /// is owed to this completion slot.
    Delivered(Action),
    /// A persistent subscription matched: it stays, and the packet is
    /// owed to this handler.
    Handled(Event),
    /// No subscription matched; the packet is dropped with a warning.
    NoMatch,
}

/// The registry after one notify, and what the notify returns: the
/// newest accepting subscription wins; a one-shot winner is removed, a
/// persistent winner stays, and with no winner nothing changes.
pub open spec fn spec_notify(subs: Seq<Subscription>, p: UnpiPacketView) -> (
    Seq<Subscription>,
    NotifyOutcome,
) {
    let idx = first_match_idx(subs, p);
    if idx < 0 {
        (subs, NotifyOutcome::NoMatch)
    } else {
        match subs[idx] {
            Subscription::SingleShot(_, action) => (
                subs.remove(idx),
                NotifyOutcome::Delivered(action),
            ),
            Subscription::Event(_, event) => (subs, NotifyOutcome::Handled(event)),
        }
    }
}

/// Failures a registry can report to its callers.
#[derive(Debug, Clone, Copy, PartialEq, Eq, Structural)]
pub enum SubscriptionError {
    MissingSubscription,
    NotAction,
    Unreachable,
    Send,
}

/// The registry: subscriptions ordered newest first.
#[derive(Debug)]
pub struct SubscriptionService {
    pub subscriptions: Vec<Subscription>,
}

impl SubscriptionService {
    pub open spec fn subs(self) -> Seq<Subscription> {
        self.subscriptions@
    }

    /// An empty registry.
    pub fn new() -> (r: SubscriptionService)
        ensures
            r.subs() == Seq::<Subscription>::empty(),
    {
        SubscriptionService { subscriptions: Vec::new() }
    }

    /// Installs a subscription in front of all existing ones.
    pub fn subscribe(&mut self, subscription: Subscription)
        ensures
            final(self).subs() == seq![subscription] + old(self).subs(),
    {
        self.subscriptions.insert(0, subscription);
        proof {
            assert(self.subs() =~= seq![subscription] + old(self).subs());
        }
    }

    /// Scans newest-first for the one subscription that accepts the
    /// packet, removing it when it is one-shot; exactly `spec_notify`.
    pub fn notify(&mut self, packet: &UnpiPacket) -> (r: NotifyOutcome)
        ensures
            (final(self).subs(), r) == spec_notify(old(self).subs(), packet@),
    {
        proof {
            lemma_first_match_idx(old(self).subs(), packet@);
        }
        let n = self.subscriptions.len();
        let mut i: usize = 0;
        while i < n
            invariant
                n == self.subs().len(),
                i <= n,
                *self == *old(self),
                forall|j: int| 0 <= j < i ==> !sub_matches(self.subs()[j], packet@),
            decreases n - i,
        {
            let hit = match &self.subscriptions[i] {
                Subscription::SingleShot(pred, _) => pred.matches(packet),
                Subscription::Event(pred, _) => pred.matches(packet),
            };
            if hit {
                proof {
                    lemma_first_match_idx(old(self).subs(), packet@);
                }
                let is_single = self.subscriptions[i].is_single_shot();
                if is_single {
                    let removed = self.subscriptions.remove(i);
                    match removed.into_action() {
                        Some((_, action)) => {
                            return NotifyOutcome::Delivered(action);
                        },
                        None => {
                            proof {
                                assert(false);
                            }
                            return NotifyOutcome::NoMatch;
                        },
                    }
                } else {
                    match &self.subscriptions[i] {
                        Subscription::Event(_, event) => {
                            return NotifyOutcome::Handled(*event);
                        },
                        Subscription::SingleShot(_, _) => {
                            proof {
                                assert(false);
                            }
                            return NotifyOutcome::NoMatch;
                        },
                    }
                }
            }
            i = i + 1;
        }
        proof {
            lemma_first_match_idx(old(self).subs(), packet@);
        }
        NotifyOutcome::NoMatch
    }
}

// ---------------------------------------------------------------------
// Laws of the registry.
// ---------------------------------------------------------------------
/// Newest-first fairness: when the subscription in front accepts the
/// packet, a notify serves it and no older one. Since `subscribe` puts
/// the newest subscription in front, of two one-shot subscriptions that
/// both accept a packet, the most recently installed wins.
pub proof fn lemma_newest_match_wins(subs: Seq<Subscription>, p: UnpiPacketView)
    requires
        subs.len() > 0,
        sub_matches(subs[0], p),
    ensures
        first_match_idx(subs, p) == 0,
        subs[0] matches Subscription::SingleShot(_, action) ==> spec_notify(subs, p) == (
            subs.remove(0),
            NotifyOutcome::Delivered(action),
        ),
{
}

/// A matched one-shot subscription is consumed: when nothing else
/// accepts the packet, notifying again after the match finds nothing.
pub proof fn lemma_single_shot_consumed(subs: Seq<Subscription>, p: UnpiPacketView)
    requires
        first_match_idx(subs, p) >= 0,
        subs[first_match_idx(subs, p)] is SingleShot,
        forall|j: int|
            0 <= j < subs.len() && j != first_match_idx(subs, p) ==> !sub_matches(subs[j], p),
    ensures
        spec_notify(subs, p).0 == subs.remove(first_match_idx(subs, p)),
        spec_notify(spec_notify(subs, p).0, p).1 == NotifyOutcome::NoMatch,
        spec_notify(spec_notify(subs, p).0, p).0 == spec_notify(subs, p).0,
{
    let idx = first_match_idx(subs, p);
    lemma_first_match_idx(subs, p);
    let rest = subs.remove(idx);
    assert forall|j: int| 0 <= j < rest.len() implies !sub_matches(rest[j], p) by {
        if j < idx {
            assert(rest[j] == subs[j]);
        } else {
            assert(rest[j] == subs[j + 1]);
        }
    }
    lemma_first_match_idx(rest, p);
}

/// How `n` notifies with the same packet unfold: the registry after
/// them, and how many were handled by a persistent subscription.
pub open spec fn spec_notify_n(subs: Seq<Subscription>, p: UnpiPacketView, n: nat) -> (
    Seq<Subscription>,
    nat,
)
    decreases n,
{
    if n == 0 {
        (subs, 0)
    } else {
        let (after_one, outcome) = spec_notify(subs, p);
        let (after_rest, handled) = spec_notify_n(after_one, p, (n - 1) as nat);
        (after_rest, handled + (if outcome is Handled { 1nat } else { 0nat }))
    }
}

/// A persistent subscription survives its matches: when the first
/// accepting subscription is persistent, every one of `n` notifies
/// invokes its handler and the registry never changes.
pub proof fn lemma_persistent_survives(subs: Seq<Subscription>, p: UnpiPacketView, n: nat)
    requires
        first_match_idx(subs, p) >= 0,
        subs[first_match_idx(subs, p)] is Event,
    ensures
        spec_notify_n(subs, p, n) == (subs, n),
    decreases n,
{
    if n > 0 {
        lemma_persistent_survives(subs, p, (n - 1) as nat);
    }
}

} // verus!
