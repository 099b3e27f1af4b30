//! The client fan-out registry and the broadcaster.
//!
//! The registry maps each connected client's identifier to the sending half
//! of that client's outbound channel. Identifiers come from a strictly
//! increasing allocator, so a registered client's id is always below the
//! allocator's next value, and a freshly allocated id is never in use.
//!
//! Broadcasting walks a snapshot of the registry, hands the message to each
//! client's channel without blocking, and afterwards prunes every client
//! whose channel was found closed. A slow client only accumulates backlog in
//! its own channel; a dead one is dropped on the broadcast that detects it.

use vstd::prelude::*;

use dashmap::DashMap;
use std::collections::hash_map::RandomState;
use tokio::sync::mpsc::UnboundedSender;

verus! {

#[verifier::external_type_specification]
#[verifier::external_body]
#[verifier::reject_recursive_types(K)]
#[verifier::reject_recursive_types(V)]
#[verifier::reject_recursive_types(S)]
pub struct ExDashMap<K, V, S>(DashMap<K, V, S>);

#[verifier::external_type_specification]
#[verifier::external_body]
#[verifier::reject_recursive_types(T)]
pub struct ExUnboundedSender<T>(UnboundedSender<T>);

/// The map a registry keeps its clients in.
pub type ClientMap = DashMap<u64, UnboundedSender<String>, RandomState>;

/// The identifiers of the clients a registry map currently holds.
pub uninterp spec fn client_ids(m: ClientMap) -> Set<u64>;

/// Relies on `DashMap::new`: a freshly created map holds no entries.
#[verifier::external_body]
fn new_client_map() -> (m: ClientMap)
    ensures
        client_ids(m) == Set::<u64>::empty(),
{
    DashMap::new()
}

/// Relies on `DashMap::insert`: afterwards the key is present, and no other
/// key appears or disappears.
#[verifier::external_body]
fn map_insert(m: &mut ClientMap, id: u64, tx: UnboundedSender<String>)
    ensures
        client_ids(*final(m)) == client_ids(*old(m)).insert(id),
{
    m.insert(id, tx);
}

/// Relies on `DashMap::remove`: afterwards the key is absent, and no other
/// key appears or disappears. Removing an absent key is a no-op.
#[verifier::external_body]
fn map_remove(m: &mut ClientMap, id: u64)
    ensures
        client_ids(*final(m)) == client_ids(*old(m)).remove(id),
{
    m.remove(&id);
}

/// Relies on `DashMap::contains_key`.
#[verifier::external_body]
fn map_contains(m: &ClientMap, id: u64) -> (r: bool)
    ensures
        r == client_ids(*m).contains(id),
{
    m.contains_key(&id)
}

/// Relies on `DashMap::len`: the number of entries the map holds.
#[verifier::external_body]
fn map_len(m: &ClientMap) -> (n: usize)
    ensures
        n == client_ids(*m).len(),
{
    m.len()
}

/// Relies on `DashMap::iter`: one uncontended pass yields each entry exactly
/// once. Each yielded sender is produced by `UnboundedSender::clone`, which
/// hands out another sending handle to the same channel.
#[verifier::external_body]
fn map_entries(m: &ClientMap) -> (v: Vec<(u64, UnboundedSender<String>)>)
    ensures
        v@.len() == client_ids(*m).len(),
        forall|i: int| 0 <= i < v@.len() ==> client_ids(*m).contains(#[trigger] v@[i].0),
        forall|id: u64| client_ids(*m).contains(id)
            ==> exists|i: int| 0 <= i < v@.len() && #[trigger] v@[i].0 == id,
        forall|i: int, j: int| 0 <= i < j < v@.len() ==> v@[i].0 != v@[j].0,
{
    m.iter().map(|entry| (*entry.key(), entry.value().clone())).collect()
}

/// Relies on `UnboundedSender::send`: queues the message behind the
/// channel's earlier messages and returns `true` when the receiving half is
/// still open; returns `false` without queueing anything when it has been
/// dropped. Never blocks. Which of the two happens depends on the peer at
/// run time, so nothing more is promised.
#[verifier::external_body]
fn channel_send(tx: &UnboundedSender<String>, message: &str) -> (ok: bool)
{
    tx.send(message.to_string()).is_ok()
}

/// The client fan-out registry: each connected client's id, mapped to the
/// sending half of that client's outbound channel, plus the id allocator.
pub struct WsServer {
    clients: ClientMap,
    next_client_id: u64,
}

impl WsServer {
    /// The identifiers of the currently registered clients.
    pub closed spec fn ids(&self) -> Set<u64> {
        client_ids(self.clients)
    }

    /// The id the allocator hands out next.
    pub closed spec fn next_id(&self) -> u64 {
        self.next_client_id
    }

    /// Every registered id was allocated earlier, so it lies below the
    /// allocator's next value.
    pub open spec fn wf(&self) -> bool {
        &&& self.ids().finite()
        &&& forall|id: u64| self.ids().contains(id) ==> id < self.next_id()
    }

    /// An empty registry whose allocator starts at zero.
    pub fn new() -> (s: Self)
        ensures
            s.wf(),
            s.ids() == Set::<u64>::empty(),
            s.next_id() == 0,
    {
        WsServer { clients: new_client_map(), next_client_id: 0 }
    }

    /// How many clients are registered.
    pub fn client_count(&self) -> (n: usize)
        ensures
            n == self.ids().len(),
    {
        map_len(&self.clients)
    }

    /// Whether a client is registered under this id.
    pub fn contains_client(&self, id: u64) -> (r: bool)
        ensures
            r == self.ids().contains(id),
    {
        map_contains(&self.clients, id)
    }

    /// The id the allocator hands out next; lets a caller see that the id
    /// space is not exhausted before asking for one.
    pub fn peek_next_id(&self) -> (id: u64)
        ensures
            id == self.next_id(),
    {
        self.next_client_id
    }

    /// Hand out a fresh client id. Ids are strictly increasing from zero,
    /// so the returned id is not registered to anyone.
    pub fn alloc_client_id(&mut self) -> (id: u64)
        requires
            old(self).wf(),
            old(self).next_id() < u64::MAX,
        ensures
            final(self).wf(),
            id == old(self).next_id(),
            final(self).next_id() == id + 1,
            final(self).ids() == old(self).ids(),
            !final(self).ids().contains(id),
    {
        let id = self.next_client_id;
        self.next_client_id = self.next_client_id + 1;
        id
    }

    /// Register a client's outbound channel under a freshly allocated id.
    /// The entry becomes visible to every later broadcast.
    pub fn register(&mut self, id: u64, tx: UnboundedSender<String>)
        requires
            old(self).wf(),
            !old(self).ids().contains(id),
            id < old(self).next_id(),
        ensures
            final(self).wf(),
            final(self).ids() == old(self).ids().insert(id),
            final(self).next_id() == old(self).next_id(),
    {
        map_insert(&mut self.clients, id, tx);
    }

    /// Drop a client's registry entry. Unregistering an id that is absent
    /// (or was already unregistered) is a no-op, not an error.
    pub fn unregister(&mut self, id: u64)
        requires
            old(self).wf(),
        ensures
            final(self).wf(),
            final(self).ids() == old(self).ids().remove(id),
            final(self).next_id() == old(self).next_id(),
    {
        map_remove(&mut self.clients, id);
    }

    /// What the registry does with one client's send outcome: a client
    /// whose channel took the message stays; one whose channel was found
    /// closed is dropped.
    fn prune_outcome(&mut self, id: u64, ok: bool)
        requires
            old(self).wf(),
        ensures
            final(self).wf(),
            final(self).next_id() == old(self).next_id(),
            final(self).ids() == if ok {
                old(self).ids()
            } else {
                old(self).ids().remove(id)
            },
    {
        if !ok {
            self.unregister(id);
        }
    }

    /// Deliver one message to every registered client, without blocking on
    /// any of them, and prune every client whose channel turned out closed.
    /// The call always completes: a client that cannot be reached is
    /// dropped, never an error. The returned vector holds one entry per
    /// client that was registered — its id, and whether its channel took
    /// the message — and afterwards the registry holds exactly the clients
    /// whose send succeeded. Removal is batched after the full delivery
    /// pass; no client's failure touches any other client's entry.
    pub fn broadcast(&mut self, message: &str) -> (outcomes: Vec<(u64, bool)>)
        requires
            old(self).wf(),
        ensures
            final(self).wf(),
            final(self).next_id() == old(self).next_id(),
            outcomes@.len() == old(self).ids().len(),
            forall|a: int, b: int| 0 <= a < b < outcomes@.len() ==> outcomes@[a].0
                != outcomes@[b].0,
            forall|a: int| 0 <= a < outcomes@.len() ==> old(self).ids().contains(
                #[trigger] outcomes@[a].0,
            ),
            forall|id: u64| old(self).ids().contains(id) ==> exists|a: int|
                0 <= a < outcomes@.len() && #[trigger] outcomes@[a].0 == id,
            final(self).ids() == old(self).ids().difference(failed_ids(outcomes@)),
            forall|a: int| 0 <= a < outcomes@.len() ==> (final(self).ids().contains(
                #[trigger] outcomes@[a].0,
            ) <==> outcomes@[a].1),
    {
        let entries = map_entries(&self.clients);
        let ghost ids0 = self.ids();

        let mut outcomes: Vec<(u64, bool)> = Vec::new();
        let mut i: usize = 0;
        while i < entries.len()
            invariant
                i <= entries.len(),
                *self == *old(self),
                entries@.len() == ids0.len(),
                forall|a: int| 0 <= a < entries@.len() ==> ids0.contains(#[trigger] entries@[a].0),
                forall|id: u64| ids0.contains(id) ==> exists|b: int|
                    0 <= b < entries@.len() && #[trigger] entries@[b].0 == id,
                forall|a: int, b: int| 0 <= a < b < entries@.len() ==> entries@[a].0
                    != entries@[b].0,
                outcomes@.len() == i,
                forall|a: int| 0 <= a < i ==> (#[trigger] outcomes@[a]).0 == entries@[a].0,
            decreases entries.len() - i,
        {
            let id = entries[i].0;
            let ok = channel_send(&entries[i].1, message);
            outcomes.push((id, ok));
            i = i + 1;
        }

        proof {
            assert forall|id: u64| ids0.contains(id) implies exists|a: int|
                0 <= a < outcomes@.len() && #[trigger] outcomes@[a].0 == id by {
                let b = choose|b: int| 0 <= b < entries@.len() && #[trigger] entries@[b].0 == id;
                assert(outcomes@[b].0 == id);
            }
        }

        let mut j: usize = 0;
        while j < outcomes.len()
            invariant
                j <= outcomes.len(),
                self.next_id() == old(self).next_id(),
                self.wf(),
                outcomes@.len() == ids0.len(),
                forall|a: int| 0 <= a < outcomes@.len() ==> ids0.contains(
                    #[trigger] outcomes@[a].0,
                ),
                forall|a: int, b: int| 0 <= a < b < outcomes@.len() ==> outcomes@[a].0
                    != outcomes@[b].0,
                forall|id: u64| ids0.contains(id) ==> exists|a: int|
                    0 <= a < outcomes@.len() && #[trigger] outcomes@[a].0 == id,
                self.ids() == ids0.difference(failed_ids(outcomes@.take(j as int))),
            decreases outcomes.len() - j,
        {
            let (id, ok) = (outcomes[j].0, outcomes[j].1);
            self.prune_outcome(id, ok);
            proof {
                let t = outcomes@.take(j as int);
                let t1 = outcomes@.take(j + 1 as int);
                assert(t1.drop_last() =~= t);
                assert(t1.last() == outcomes@[j as int]);
                if ok {
                    assert(failed_ids(t1) == failed_ids(t));
                } else {
                    assert(failed_ids(t1) == failed_ids(t).insert(id));
                    assert(ids0.difference(failed_ids(t)).remove(id) =~= ids0.difference(
                        failed_ids(t).insert(id),
                    ));
                }
                assert(self.ids() =~= ids0.difference(failed_ids(t1)));
            }
            j = j + 1;
        }

        proof {
            assert(outcomes@.take(outcomes@.len() as int) =~= outcomes@);
            assert(final(self).ids() =~= old(self).ids().difference(failed_ids(outcomes@)));
            assert forall|a: int| 0 <= a < outcomes@.len() implies (final(self).ids().contains(
                (#[trigger] outcomes@[a]).0,
            ) <==> outcomes@[a].1) by {
                let id = outcomes@[a].0;
                lemma_failed_ids_membership(outcomes@, id);
                if outcomes@[a].1 {
                    if failed_ids(outcomes@).contains(id) {
                        let k = choose|k: int|
                            0 <= k < outcomes@.len() && #[trigger] outcomes@[k] == (id, false);
                        assert(outcomes@[k].0 == outcomes@[a].0);
                        assert(false);
                    }
                } else {
                    assert(outcomes@[a] == (id, false));
                }
            }
        }
        outcomes
    }
}

/// The clients whose channel did not take a broadcast's message: the ids a
/// delivery pass paired with `false`.
pub open spec fn failed_ids(outcomes: Seq<(u64, bool)>) -> Set<u64>
    decreases outcomes.len(),
{
    if outcomes.len() == 0 {
        Set::empty()
    } else {
        let rest = failed_ids(outcomes.drop_last());
        if !outcomes.last().1 {
            rest.insert(outcomes.last().0)
        } else {
            rest
        }
    }
}

/// An id is among the failed ones exactly when some outcome pairs it with
/// `false`.
pub proof fn lemma_failed_ids_membership(outcomes: Seq<(u64, bool)>, id: u64)
    ensures
        failed_ids(outcomes).contains(id) <==> exists|i: int|
            0 <= i < outcomes.len() && #[trigger] outcomes[i] == (id, false),
    decreases outcomes.len(),
{
    if outcomes.len() == 0 {
    } else {
        let rest = outcomes.drop_last();
        lemma_failed_ids_membership(rest, id);
        if outcomes.last() == (id, false) {
            assert(outcomes[outcomes.len() - 1] == (id, false));
        }
        if failed_ids(rest).contains(id) {
            let i = choose|i: int| 0 <= i < rest.len() && #[trigger] rest[i] == (id, false);
            assert(outcomes[i] == (id, false));
        }
        if exists|i: int| 0 <= i < outcomes.len() && #[trigger] outcomes[i] == (id, false) {
            let i = choose|i: int|
                0 <= i < outcomes.len() && #[trigger] outcomes[i] == (id, false);
            if i < outcomes.len() - 1 {
                assert(rest[i] == (id, false));
            } else {
                assert(outcomes.last() == (id, false));
            }
        }
    }
}

/// Where a connection stands in its life: performing the protocol
/// handshake, serving its two duties, winding down after a duty ended, or
/// fully torn down.
#[derive(Clone, Copy, Debug, PartialEq, Eq, Structural)]
pub enum ConnPhase {
    Handshaking,
    Active,
    Closing,
    Terminated,
}

/// What happened to a connection: the handshake settled one way or the
/// other, one of the two duties (send or receive) ended, or the handler as
/// a whole wound up.
#[derive(Clone, Copy, Debug, PartialEq, Eq, Structural)]
pub enum ConnEvent {
    HandshakeOk,
    HandshakeFailed,
    DutyEnded,
    HandlerDone,
}

/// What the connection's driver must do next to the registry.
#[derive(Clone, Copy, Debug, PartialEq, Eq, Structural)]
pub enum ConnAction {
    DoRegister,
    DoUnregister,
    DoNothing,
}

/// One step of the connection life cycle: from a phase and an event to the
/// next phase and the registry action owed for it.
///
/// A connection registers exactly when its handshake succeeds, and owes one
/// unregister exactly when the handler winds up after having registered —
/// whether a duty ended first or the handler was torn down from `Active`.
/// A handshake failure terminates the connection without ever registering,
/// and a terminated connection reacts to nothing.
pub open spec fn conn_step(phase: ConnPhase, ev: ConnEvent) -> (ConnPhase, ConnAction) {
    match (phase, ev) {
        (ConnPhase::Handshaking, ConnEvent::HandshakeOk) => (
            ConnPhase::Active,
            ConnAction::DoRegister,
        ),
        (ConnPhase::Handshaking, ConnEvent::HandshakeFailed) => (
            ConnPhase::Terminated,
            ConnAction::DoNothing,
        ),
        (ConnPhase::Handshaking, ConnEvent::HandlerDone) => (
            ConnPhase::Terminated,
            ConnAction::DoNothing,
        ),
        (ConnPhase::Active, ConnEvent::DutyEnded) => (ConnPhase::Closing, ConnAction::DoNothing),
        (ConnPhase::Active, ConnEvent::HandlerDone) => (
            ConnPhase::Terminated,
            ConnAction::DoUnregister,
        ),
        (ConnPhase::Closing, ConnEvent::DutyEnded) => (ConnPhase::Closing, ConnAction::DoNothing),
        (ConnPhase::Closing, ConnEvent::HandlerDone) => (
            ConnPhase::Terminated,
            ConnAction::DoUnregister,
        ),
        _ => (phase, ConnAction::DoNothing),
    }
}

/// Whether a connection in this phase holds a registry entry.
pub open spec fn conn_registered(phase: ConnPhase) -> bool {
    phase == ConnPhase::Active || phase == ConnPhase::Closing
}

/// The life of one connection, driven by the code that owns the socket: it
/// reports each event and performs the registry action the step returns.
pub struct ConnLifecycle {
    phase: ConnPhase,
}

impl ConnLifecycle {
    /// The phase the connection is in.
    pub closed spec fn phase(&self) -> ConnPhase {
        self.phase
    }

    /// A connection starts in the handshake.
    pub fn new() -> (c: Self)
        ensures
            c.phase() == ConnPhase::Handshaking,
    {
        ConnLifecycle { phase: ConnPhase::Handshaking }
    }

    /// Report an event; the result is the registry action owed for it.
    pub fn step(&mut self, ev: ConnEvent) -> (act: ConnAction)
        ensures
            (final(self).phase(), act) == conn_step(old(self).phase(), ev),
            act == ConnAction::DoRegister <==> (old(self).phase() == ConnPhase::Handshaking
                && ev == ConnEvent::HandshakeOk),
            act == ConnAction::DoUnregister <==> (conn_registered(old(self).phase())
                && ev == ConnEvent::HandlerDone),
            conn_registered(final(self).phase()) <==> (conn_registered(old(self).phase())
                && ev != ConnEvent::HandlerDone) || act == ConnAction::DoRegister,
    {
        let (next, act) = match (self.phase, ev) {
            (ConnPhase::Handshaking, ConnEvent::HandshakeOk) => (
                ConnPhase::Active,
                ConnAction::DoRegister,
            ),
            (ConnPhase::Handshaking, ConnEvent::HandshakeFailed) => (
                ConnPhase::Terminated,
                ConnAction::DoNothing,
            ),
            (ConnPhase::Handshaking, ConnEvent::HandlerDone) => (
                ConnPhase::Terminated,
                ConnAction::DoNothing,
            ),
            (ConnPhase::Active, ConnEvent::DutyEnded) => (
                ConnPhase::Closing,
                ConnAction::DoNothing,
            ),
            (ConnPhase::Active, ConnEvent::HandlerDone) => (
                ConnPhase::Terminated,
                ConnAction::DoUnregister,
            ),
            (ConnPhase::Closing, ConnEvent::DutyEnded) => (
                ConnPhase::Closing,
                ConnAction::DoNothing,
            ),
            (ConnPhase::Closing, ConnEvent::HandlerDone) => (
                ConnPhase::Terminated,
                ConnAction::DoUnregister,
            ),
            (p, _) => (p, ConnAction::DoNothing),
        };
        self.phase = next;
        act
    }

    /// Whether this connection currently holds a registry entry.
    pub fn is_registered(&self) -> (r: bool)
        ensures
            r == conn_registered(self.phase()),
    {
        match self.phase {
            ConnPhase::Active => true,
            ConnPhase::Closing => true,
            _ => false,
        }
    }
}

/// The phase a connection ends in after reporting a run of events.
pub open spec fn conn_run_phase(phase: ConnPhase, evs: Seq<ConnEvent>) -> ConnPhase
    decreases evs.len(),
{
    if evs.len() == 0 {
        phase
    } else {
        conn_run_phase(conn_step(phase, evs[0]).0, evs.drop_first())
    }
}

/// The registry actions a run of events obliges, in order.
pub open spec fn conn_run_actions(phase: ConnPhase, evs: Seq<ConnEvent>) -> Seq<ConnAction>
    decreases evs.len(),
{
    if evs.len() == 0 {
        Seq::empty()
    } else {
        seq![conn_step(phase, evs[0]).1] + conn_run_actions(
            conn_step(phase, evs[0]).0,
            evs.drop_first(),
        )
    }
}

/// How many of the actions are the given one.
pub open spec fn count_actions(acts: Seq<ConnAction>, which: ConnAction) -> nat
    decreases acts.len(),
{
    if acts.len() == 0 {
        0
    } else {
        (if acts[0] == which {
            1nat
        } else {
            0nat
        }) + count_actions(acts.drop_first(), which)
    }
}

/// One if a connection in this phase holds a registry entry, else zero.
pub open spec fn conn_entry_count(phase: ConnPhase) -> nat {
    if conn_registered(phase) {
        1nat
    } else {
        0nat
    }
}

/// The life cycle's bookkeeping balance: over any run of events, a
/// connection registers at most once (and only out of the handshake), and
/// the unregisters performed plus the registry entry still held at the end
/// equal the entry held at the start plus the registers performed.
pub proof fn lemma_conn_actions_balance(phase: ConnPhase, evs: Seq<ConnEvent>)
    ensures
        ({
            let acts = conn_run_actions(phase, evs);
            let regs = count_actions(acts, ConnAction::DoRegister);
            let unregs = count_actions(acts, ConnAction::DoUnregister);
            &&& regs <= (if phase == ConnPhase::Handshaking {
                1nat
            } else {
                0nat
            })
            &&& unregs + conn_entry_count(conn_run_phase(phase, evs)) == conn_entry_count(phase)
                + regs
        }),
    decreases evs.len(),
{
    if evs.len() == 0 {
    } else {
        let first_act = conn_step(phase, evs[0]).1;
        let next = conn_step(phase, evs[0]).0;
        let rest_acts = conn_run_actions(next, evs.drop_first());
        lemma_conn_actions_balance(next, evs.drop_first());
        assert((seq![first_act] + rest_acts).drop_first() =~= rest_acts);
        assert((seq![first_act] + rest_acts)[0] == first_act);
    }
}

/// Every connection unregisters exactly once, on every exit path.
/// Starting from the handshake: a run never unregisters more than once,
/// never unregisters without having registered first, and a run that ends
/// fully torn down has unregistered exactly as often as it registered —
/// once if the handshake succeeded, never if it failed before registering.
pub proof fn lemma_unregister_exactly_once(evs: Seq<ConnEvent>)
    ensures
        ({
            let acts = conn_run_actions(ConnPhase::Handshaking, evs);
            let regs = count_actions(acts, ConnAction::DoRegister);
            let unregs = count_actions(acts, ConnAction::DoUnregister);
            &&& unregs <= 1
            &&& unregs <= regs
            &&& regs <= 1
            &&& conn_run_phase(ConnPhase::Handshaking, evs) == ConnPhase::Terminated ==> unregs
                == regs
        }),
{
    lemma_conn_actions_balance(ConnPhase::Handshaking, evs);
}

/// Two registrations, in whichever order the two connections interleave,
/// lose neither: both ids are present once both `register` calls have
/// returned, and the resulting registry does not depend on the order.
/// Each `register` call takes the registry from `ids` to `ids.insert(id)`.
pub proof fn lemma_register_two_keeps_both(ids: Set<u64>, id1: u64, id2: u64)
    ensures
        ids.insert(id1).insert(id2).contains(id1),
        ids.insert(id1).insert(id2).contains(id2),
        ids.insert(id1).insert(id2) == ids.insert(id2).insert(id1),
{
    assert(ids.insert(id1).insert(id2) =~= ids.insert(id2).insert(id1));
}

/// A client whose channel failed a broadcast's send holds no registry
/// entry once that broadcast returns, so a later broadcast — whose
/// outcomes cover exactly the ids registered when it starts — never
/// attempts to deliver to it again. `broadcast` takes the registry from
/// `ids` to `ids.difference(failed_ids(outcomes))`.
pub proof fn lemma_failed_client_stays_gone(ids: Set<u64>, outcomes: Seq<(u64, bool)>, i: int)
    requires
        0 <= i < outcomes.len(),
        !outcomes[i].1,
    ensures
        !ids.difference(failed_ids(outcomes)).contains(outcomes[i].0),
{
    lemma_failed_ids_membership(outcomes, outcomes[i].0);
    assert(outcomes[i] == (outcomes[i].0, false));
}

} // verus!
