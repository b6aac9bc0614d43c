//! The shutdown broadcaster: one signal, fanned out to every subscriber.
//!
//! A subscriber sees the signal once it has been fired and never a second
//! time. The fired state is retained, so a subscription made after the signal
//! was fired sees it at once.

use std::collections::HashMap;
use tokio::sync::broadcast::Sender;
use vstd::prelude::*;

verus! {

broadcast use vstd::std_specs::hash::group_hash_axioms;

/// The sending half of a `tokio::sync::broadcast` channel. Nothing is known
/// of what is inside.
#[verifier::external_type_specification]
#[verifier::external_body]
#[verifier::reject_recursive_types(T)]
pub struct ExSender<T>(Sender<T>);

/// Calls `tokio::sync::broadcast::Sender::new`, which makes a channel that
/// has no receivers yet. It panics on a capacity of zero or of more than
/// half of `usize::MAX`, so those are not admitted. Nothing is claimed of the
/// sender that comes back.
#[verifier::external_body]
fn new_bell(capacity: usize) -> (bell: Sender<()>)
    requires
        0 < capacity <= usize::MAX / 2,
{
    Sender::new(capacity)
}

/// Calls `tokio::sync::broadcast::Sender::send` with the unit value, which
/// wakes the receivers that wait. It returns the number of receivers there
/// were, or `None` if there was none; which of the two depends on what other
/// tasks have done, so nothing is claimed of it.
#[verifier::external_body]
fn ring(bell: &Sender<()>) -> (receivers: Option<usize>) {
    bell.send(()).ok()
}

/// The state of a broadcaster as a mathematical value.
pub struct BroadcastState {
    /// Whether the signal has been fired.
    pub fired: bool,
    /// How many subscriptions were ever made; also the next identifier.
    pub issued: nat,
    /// The live subscriptions, each with whether it has already seen the
    /// signal.
    pub observed: Map<nat, bool>,
}

impl BroadcastState {
    /// A fresh broadcaster: not fired, nobody subscribed.
    pub open spec fn initial() -> Self {
        BroadcastState { fired: false, issued: 0, observed: Map::empty() }
    }

    /// Identifiers are handed out in order, so every live one is below the
    /// count of those issued.
    pub open spec fn wf(self) -> bool {
        &&& self.observed.dom().finite()
        &&& forall|id: nat| self.observed.contains_key(id) ==> id < self.issued
    }

    /// Whether `id` names a subscription that has not been given up.
    pub open spec fn is_live(self, id: nat) -> bool {
        self.observed.contains_key(id)
    }

    /// Whether the signal is waiting to be seen by `id`.
    pub open spec fn signaled(self, id: nat) -> bool {
        self.fired && self.is_live(id) && !self.observed[id]
    }

    /// The state after the signal is fired.
    pub open spec fn fire(self) -> Self {
        BroadcastState { fired: true, ..self }
    }

    /// The state after one more subscription, which gets the identifier
    /// `self.issued`.
    pub open spec fn subscribe(self) -> Self {
        BroadcastState {
            issued: self.issued + 1,
            observed: self.observed.insert(self.issued, false),
            ..self
        }
    }

    /// The state after `id` has looked for the signal.
    pub open spec fn observe(self, id: nat) -> Self {
        if self.signaled(id) {
            BroadcastState { observed: self.observed.insert(id, true), ..self }
        } else {
            self
        }
    }

    /// The state after `id` has been given up.
    pub open spec fn unsubscribe(self, id: nat) -> Self {
        BroadcastState { observed: self.observed.remove(id), ..self }
    }

    /// The state after one operation.
    pub open spec fn apply(self, op: Operation) -> Self {
        match op {
            Operation::Fire => self.fire(),
            Operation::Subscribe => self.subscribe(),
            Operation::Observe(id) => self.observe(id),
            Operation::Unsubscribe(id) => self.unsubscribe(id),
        }
    }

    /// The state after a run of operations, first to last.
    pub open spec fn apply_all(self, ops: Seq<Operation>) -> Self
        decreases ops.len(),
    {
        if ops.len() == 0 {
            self
        } else {
            self.apply_all(ops.drop_last()).apply(ops.last())
        }
    }
}

/// One thing that can happen to a broadcaster.
pub enum Operation {
    /// The signal is fired.
    Fire,
    /// A subscriber is registered.
    Subscribe,
    /// The subscriber with this identifier looks for the signal.
    Observe(nat),
    /// The subscription with this identifier is given up.
    Unsubscribe(nat),
}

/// Whether `op` is `id` taking the signal or leaving.
pub open spec fn consumes(op: Operation, id: nat) -> bool {
    op == Operation::Observe(id) || op == Operation::Unsubscribe(id)
}

/// A handle bound to one subscriber of a [`Broadcaster`].
///
/// It cannot be copied: whoever holds it is the subscriber.
#[derive(Debug)]
pub struct ShutdownSubscription {
    id: u64,
}

impl ShutdownSubscription {
    /// The identifier under which the broadcaster knows this subscription.
    pub closed spec fn id(&self) -> nat {
        self.id as nat
    }

    /// The identifier as a number, for logs and tests.
    pub fn number(&self) -> (n: u64)
        ensures
            n == self.id(),
    {
        self.id
    }
}

/// The source of the shutdown signal and the registry of its subscribers.
///
/// The registry decides who is signaled. The bell only wakes the tasks that
/// wait for it, so that they come and [`observe`](Broadcaster::observe).
pub struct Broadcaster {
    fired: bool,
    issued: u64,
    observed: HashMap<u64, bool>,
    bell: Sender<()>,
}

impl View for Broadcaster {
    type V = BroadcastState;

    closed spec fn view(&self) -> BroadcastState {
        BroadcastState {
            fired: self.fired,
            issued: self.issued as nat,
            observed: Map::new(
                |id: nat| id <= u64::MAX && self.observed@.contains_key(id as u64),
                |id: nat| self.observed@[id as u64],
            ),
        }
    }
}

impl Broadcaster {
    /// A broadcaster that has not fired and has no subscribers.
    pub fn new() -> (b: Broadcaster)
        ensures
            b@ == BroadcastState::initial(),
            b@.wf(),
    {
        let b = Broadcaster {
            fired: false,
            issued: 0,
            observed: HashMap::new(),
            bell: new_bell(1),
        };
        assert(b@.observed =~= Map::empty());
        b
    }

    /// The bell that is rung when the signal is fired.
    pub closed spec fn spec_bell(&self) -> &Sender<()> {
        &self.bell
    }

    /// The bell that is rung when the signal is fired. A task that wants to
    /// be woken takes its receiver from here.
    #[verifier::when_used_as_spec(spec_bell)]
    pub fn bell(&self) -> (bell: &Sender<()>)
        ensures
            bell == self.spec_bell(),
    {
        &self.bell
    }

    /// Whether the signal has been fired.
    pub fn is_fired(&self) -> (fired: bool)
        ensures
            fired == self@.fired,
    {
        self.fired
    }

    /// Fires the signal and, the first time, rings the bell. Firing again
    /// changes nothing.
    pub fn fire(&mut self)
        ensures
            final(self)@ == old(self)@.fire(),
            old(self)@.wf() ==> final(self)@.wf(),
            final(self).bell() == old(self).bell(),
    {
        if !self.fired {
            self.fired = true;
            let _ = ring(&self.bell);
        }
    }

    /// Registers one more subscriber and hands out its handle.
    ///
    /// If the signal has already been fired, the new subscriber finds it
    /// waiting. `None` comes back only when every identifier has been used.
    pub fn subscribe(&mut self) -> (subscription: Option<ShutdownSubscription>)
        ensures
            match subscription {
                Some(s) => {
                    &&& old(self)@.issued < u64::MAX
                    &&& s.id() == old(self)@.issued
                    &&& final(self)@ == old(self)@.subscribe()
                },
                None => old(self)@.issued == u64::MAX && final(self)@ == old(self)@,
            },
            old(self)@.wf() ==> final(self)@.wf(),
            final(self).bell() == old(self).bell(),
    {
        if self.issued == u64::MAX {
            return None;
        }
        let id = self.issued;
        self.issued = id + 1;
        self.observed.insert(id, false);
        assert(final(self)@.observed =~= old(self)@.observed.insert(id as nat, false));
        Some(ShutdownSubscription { id })
    }

    /// Whether `subscription` is still registered here.
    pub fn is_live(&self, subscription: &ShutdownSubscription) -> (live: bool)
        ensures
            live == self@.is_live(subscription.id()),
    {
        self.observed.contains_key(&subscription.id)
    }

    /// Looks for the signal on behalf of `subscription`.
    ///
    /// The answer is `true` exactly once per subscription: the first time
    /// this is called after the signal was fired.
    pub fn observe(&mut self, subscription: &ShutdownSubscription) -> (seen: bool)
        ensures
            seen == old(self)@.signaled(subscription.id()),
            final(self)@ == old(self)@.observe(subscription.id()),
            old(self)@.wf() ==> final(self)@.wf(),
            final(self).bell() == old(self).bell(),
    {
        let id = subscription.id;
        if !self.fired {
            return false;
        }
        let waiting = match self.observed.get(&id) {
            Some(seen_before) => !*seen_before,
            None => false,
        };
        if waiting {
            self.observed.insert(id, true);
            assert(final(self)@.observed =~= old(self)@.observed.insert(id as nat, true));
        }
        waiting
    }

    /// Gives up `subscription`. The others are not affected.
    pub fn unsubscribe(&mut self, subscription: ShutdownSubscription)
        ensures
            final(self)@ == old(self)@.unsubscribe(subscription.id()),
            old(self)@.wf() ==> final(self)@.wf(),
            final(self).bell() == old(self).bell(),
    {
        let id = subscription.id;
        self.observed.remove(&id);
        assert(final(self)@.observed =~= old(self)@.observed.remove(id as nat));
    }

    /// The number of live subscriptions.
    pub fn live_count(&self) -> (count: usize)
        ensures
            count == self@.observed.dom().len(),
    {
        proof {
            let ids = self.observed@.dom();
            let widen = |id: u64| id as nat;
            assert(self@.observed.dom() =~= ids.map(widen)) by {
                assert forall|n: nat| self@.observed.dom().contains(n) implies ids.map(
                    widen,
                ).contains(n) by {
                    assert(ids.contains(n as u64) && widen(n as u64) == n);
                }
            }
            vstd::set_lib::lemma_map_size(ids, ids.map(widen), widen);
        }
        self.observed.len()
    }
}

/// Every operation keeps a well-formed state well-formed, and never takes
/// back an identifier that was issued.
pub proof fn operations_keep_state_well_formed(s: BroadcastState, ops: Seq<Operation>)
    requires
        s.wf(),
    ensures
        s.apply_all(ops).wf(),
        s.issued <= s.apply_all(ops).issued,
        s.fired ==> s.apply_all(ops).fired,
    decreases ops.len(),
{
    if ops.len() > 0 {
        operations_keep_state_well_formed(s, ops.drop_last());
    }
}

/// Firing reaches every subscriber at once: whoever is registered and has not
/// yet seen the signal finds it waiting afterwards, however many there are.
/// A subscriber registered just before the signal is fired is among them.
pub proof fn fire_signals_every_waiting_subscriber(s: BroadcastState)
    requires
        s.wf(),
    ensures
        forall|id: nat| s.is_live(id) && !s.observed[id] ==> #[trigger] s.fire().signaled(id),
        s.subscribe().fire().signaled(s.issued),
{
}

/// A waiting signal is seen exactly once: the first look finds it, and the
/// subscriber is still registered but no longer signaled afterwards.
pub proof fn signal_is_seen_once(s: BroadcastState, id: nat)
    requires
        s.wf(),
        s.signaled(id),
    ensures
        s.observe(id).is_live(id),
        !s.observe(id).signaled(id),
        s.observe(id).observe(id) == s.observe(id),
{
}

/// No wake-up is lost: a signal that waits for a subscriber keeps waiting
/// through whatever else happens, until that subscriber takes it or leaves.
pub proof fn signal_waits_until_seen(s: BroadcastState, ops: Seq<Operation>, id: nat)
    requires
        s.wf(),
        s.signaled(id),
        forall|i: int| 0 <= i < ops.len() ==> !consumes(#[trigger] ops[i], id),
    ensures
        s.apply_all(ops).signaled(id),
    decreases ops.len(),
{
    if ops.len() > 0 {
        let before = ops.drop_last();
        signal_waits_until_seen(s, before, id);
        operations_keep_state_well_formed(s, before);
        assert(!consumes(ops[ops.len() - 1], id));
    }
}

/// No subscriber is signaled twice: once it has seen the signal, nothing that
/// happens later, firing again included, makes the signal wait for it again.
pub proof fn signal_is_never_seen_twice(s: BroadcastState, ops: Seq<Operation>, id: nat)
    requires
        s.wf(),
        s.is_live(id),
        s.observed[id],
    ensures
        !s.apply_all(ops).signaled(id),
        s.apply_all(ops).is_live(id) ==> s.apply_all(ops).observed[id],
    decreases ops.len(),
{
    if ops.len() > 0 {
        let before = ops.drop_last();
        signal_is_never_seen_twice(s, before, id);
        operations_keep_state_well_formed(s, before);
    }
}

/// A subscription made after the signal was fired finds it waiting at once.
pub proof fn late_subscriber_is_signaled(s: BroadcastState)
    requires
        s.wf(),
        s.fired,
    ensures
        s.subscribe().signaled(s.issued),
{
}

/// Firing twice is the same as firing once, and firing a fired broadcaster
/// changes nothing.
pub proof fn fire_is_idempotent(s: BroadcastState)
    ensures
        s.fire().fire() == s.fire(),
        s.fired ==> s.fire() == s,
{
}

/// Subscribers do not affect one another: one of them taking the signal or
/// leaving does not change what another finds.
pub proof fn subscribers_are_independent(s: BroadcastState, a: nat, b: nat)
    requires
        a != b,
    ensures
        s.observe(a).signaled(b) == s.signaled(b),
        s.unsubscribe(a).signaled(b) == s.signaled(b),
        s.observe(a).is_live(b) == s.is_live(b),
        s.unsubscribe(a).is_live(b) == s.is_live(b),
{
}

} // verus!
