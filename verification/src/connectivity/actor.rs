//! The connectivity actor: the single owner of the peer pool. It is driven
//! one input at a time and answers each with the actions to take.

use crate::connectivity::error::TransportError;
use crate::connectivity::model::{
    dial_replies, dial_reply, is_other_request, is_request, online_reply, satisfied_by,
    status_events, unsatisfied_by, wait_of, wait_of_other, waits_for, waits_for_other, Action,
    ActorState, ConnectivityConfig, ConnectivityEvent, DialOutcome, DialWaiter, DisconnectReason,
    Input, OnlineOutcome, OnlineWaiter,
};
use crate::connectivity::peer::{
    Backoff, ConnectionHandle, ManagedPeer, PeerId, PeerState, RequestId,
};
use crate::connectivity::pool::{connected_peers, entry_of, state_of, PeerPool};
use crate::connectivity::preservation::law_step_preserves_wf;
use crate::connectivity::status::ConnectivityStatus;
use vstd::prelude::*;

verus! {

proof fn lemma_take_next<A>(s: Seq<A>, i: int)
    requires
        0 <= i < s.len(),
    ensures
        s.take(i + 1) == s.take(i).push(s[i]),
{
    assert(s.take(i + 1) =~= s.take(i).push(s[i]));
}

/// Takes the waiters for the dial of `peer` out of `waiters` and appends an
/// answer with `outcome` for each of them, oldest first.
fn answer_dial_waiters(
    waiters: &mut Vec<DialWaiter>,
    peer: PeerId,
    outcome: DialOutcome,
    actions: &mut Vec<Action>,
)
    ensures
        final(waiters)@ == old(waiters)@.filter(waits_for_other(peer)),
        final(actions)@ == old(actions)@ + dial_replies(old(waiters)@, peer, outcome),
{
    let ghost all = waiters@;
    let ghost done = actions@;
    let mut kept: Vec<DialWaiter> = Vec::new();
    let mut i: usize = 0;
    proof {
        reveal(Seq::filter);
        assert(all.take(0).filter(waits_for_other(peer)) =~= Seq::<DialWaiter>::empty());
        assert(all.take(0).filter(waits_for(peer)) =~= Seq::<DialWaiter>::empty());
        assert(done + all.take(0).filter(waits_for(peer)).map_values(dial_reply(outcome))
            =~= done);
    }
    while i < waiters.len()
        invariant
            waiters@ == all,
            i <= all.len(),
            kept@ == all.take(i as int).filter(waits_for_other(peer)),
            actions@ == done + all.take(i as int).filter(waits_for(peer)).map_values(
                dial_reply(outcome),
            ),
        decreases all.len() - i,
    {
        let waiter = waiters[i];
        proof {
            lemma_take_next(all, i as int);
            all.take(i as int).lemma_filter_push(waiter, waits_for_other(peer));
            all.take(i as int).lemma_filter_push(waiter, waits_for(peer));
        }
        if waiter.peer == peer {
            actions.push(Action::DialReply { caller: waiter.caller, outcome });
            assert(actions@ =~= done + all.take(i + 1).filter(waits_for(peer)).map_values(
                dial_reply(outcome),
            ));
        } else {
            kept.push(waiter);
        }
        i += 1;
    }
    assert(all.take(all.len() as int) =~= all);
    *waiters = kept;
}

/// Takes the requests of `caller` to dial `peer` out of `waiters` and
/// appends an answer with `outcome` for each of them.
fn answer_dial_request(
    waiters: &mut Vec<DialWaiter>,
    caller: RequestId,
    peer: PeerId,
    outcome: DialOutcome,
    actions: &mut Vec<Action>,
)
    ensures
        final(waiters)@ == old(waiters)@.filter(is_other_request(caller, peer)),
        final(actions)@ == old(actions)@ + old(waiters)@.filter(
            is_request(caller, peer),
        ).map_values(dial_reply(outcome)),
{
    let ghost all = waiters@;
    let ghost done = actions@;
    let mut kept: Vec<DialWaiter> = Vec::new();
    let mut i: usize = 0;
    proof {
        reveal(Seq::filter);
        assert(all.take(0).filter(is_other_request(caller, peer)) =~= Seq::<DialWaiter>::empty());
        assert(all.take(0).filter(is_request(caller, peer)) =~= Seq::<DialWaiter>::empty());
        assert(done + all.take(0).filter(is_request(caller, peer)).map_values(
            dial_reply(outcome),
        ) =~= done);
    }
    while i < waiters.len()
        invariant
            waiters@ == all,
            i <= all.len(),
            kept@ == all.take(i as int).filter(is_other_request(caller, peer)),
            actions@ == done + all.take(i as int).filter(is_request(caller, peer)).map_values(
                dial_reply(outcome),
            ),
        decreases all.len() - i,
    {
        let waiter = waiters[i];
        proof {
            lemma_take_next(all, i as int);
            all.take(i as int).lemma_filter_push(waiter, is_other_request(caller, peer));
            all.take(i as int).lemma_filter_push(waiter, is_request(caller, peer));
        }
        if waiter.caller == caller && waiter.peer == peer {
            actions.push(Action::DialReply { caller: waiter.caller, outcome });
            assert(actions@ =~= done + all.take(i + 1).filter(
                is_request(caller, peer),
            ).map_values(dial_reply(outcome)));
        } else {
            kept.push(waiter);
        }
        i += 1;
    }
    assert(all.take(all.len() as int) =~= all);
    *waiters = kept;
}

/// Whether anybody in `waiters` waits for the dial of `peer`.
fn has_dial_waiter(waiters: &Vec<DialWaiter>, peer: PeerId) -> (found: bool)
    ensures
        found == (waiters@.filter(waits_for(peer)).len() > 0),
{
    let mut i: usize = 0;
    proof {
        reveal(Seq::filter);
        assert(waiters@.take(0).filter(waits_for(peer)) =~= Seq::<DialWaiter>::empty());
    }
    while i < waiters.len()
        invariant
            i <= waiters@.len(),
            waiters@.take(i as int).filter(waits_for(peer)).len() == 0,
        decreases waiters@.len() - i,
    {
        proof {
            lemma_take_next(waiters@, i as int);
            waiters@.take(i as int).lemma_filter_push(waiters@[i as int], waits_for(peer));
        }
        if waiters[i].peer == peer {
            proof {
                let rest = waiters@.skip(i + 1);
                assert(waiters@ =~= waiters@.take(i + 1) + rest);
                Seq::filter_distributes_over_add(waiters@.take(i + 1), rest, waits_for(peer));
            }
            return true;
        }
        i += 1;
    }
    assert(waiters@.take(waiters@.len() as int) =~= waiters@);
    false
}

/// Takes the waiters that `count` connected peers are enough for out of
/// `waiters` and appends the good news for each of them, oldest first.
fn release_online_waiters(waiters: &mut Vec<OnlineWaiter>, count: usize, actions: &mut Vec<Action>)
    ensures
        final(waiters)@ == old(waiters)@.filter(unsatisfied_by(count as nat)),
        final(actions)@ == old(actions)@ + old(waiters)@.filter(
            satisfied_by(count as nat),
        ).map_values(online_reply(OnlineOutcome::Online)),
{
    let ghost all = waiters@;
    let ghost done = actions@;
    let ghost reply = online_reply(OnlineOutcome::Online);
    let mut kept: Vec<OnlineWaiter> = Vec::new();
    let mut i: usize = 0;
    proof {
        reveal(Seq::filter);
        assert(all.take(0).filter(unsatisfied_by(count as nat)) =~= Seq::<OnlineWaiter>::empty());
        assert(all.take(0).filter(satisfied_by(count as nat)) =~= Seq::<OnlineWaiter>::empty());
        assert(done + all.take(0).filter(satisfied_by(count as nat)).map_values(reply) =~= done);
    }
    while i < waiters.len()
        invariant
            waiters@ == all,
            i <= all.len(),
            reply == online_reply(OnlineOutcome::Online),
            kept@ == all.take(i as int).filter(unsatisfied_by(count as nat)),
            actions@ == done + all.take(i as int).filter(satisfied_by(count as nat)).map_values(
                reply,
            ),
        decreases all.len() - i,
    {
        let waiter = waiters[i];
        proof {
            lemma_take_next(all, i as int);
            all.take(i as int).lemma_filter_push(waiter, unsatisfied_by(count as nat));
            all.take(i as int).lemma_filter_push(waiter, satisfied_by(count as nat));
        }
        if waiter.min_peers <= count {
            actions.push(Action::OnlineReply { caller: waiter.caller, outcome: OnlineOutcome::Online });
            assert(actions@ =~= done + all.take(i + 1).filter(
                satisfied_by(count as nat),
            ).map_values(reply));
        } else {
            kept.push(waiter);
        }
        i += 1;
    }
    assert(all.take(all.len() as int) =~= all);
    *waiters = kept;
}

/// Takes the waits of `caller` out of `waiters` and appends an answer with
/// `outcome` for each of them.
fn answer_online_waiter(
    waiters: &mut Vec<OnlineWaiter>,
    caller: RequestId,
    outcome: OnlineOutcome,
    actions: &mut Vec<Action>,
)
    ensures
        final(waiters)@ == old(waiters)@.filter(wait_of_other(caller)),
        final(actions)@ == old(actions)@ + old(waiters)@.filter(wait_of(caller)).map_values(
            online_reply(outcome),
        ),
{
    let ghost all = waiters@;
    let ghost done = actions@;
    let mut kept: Vec<OnlineWaiter> = Vec::new();
    let mut i: usize = 0;
    proof {
        reveal(Seq::filter);
        assert(all.take(0).filter(wait_of_other(caller)) =~= Seq::<OnlineWaiter>::empty());
        assert(all.take(0).filter(wait_of(caller)) =~= Seq::<OnlineWaiter>::empty());
        assert(done + all.take(0).filter(wait_of(caller)).map_values(online_reply(outcome))
            =~= done);
    }
    while i < waiters.len()
        invariant
            waiters@ == all,
            i <= all.len(),
            kept@ == all.take(i as int).filter(wait_of_other(caller)),
            actions@ == done + all.take(i as int).filter(wait_of(caller)).map_values(
                online_reply(outcome),
            ),
        decreases all.len() - i,
    {
        let waiter = waiters[i];
        proof {
            lemma_take_next(all, i as int);
            all.take(i as int).lemma_filter_push(waiter, wait_of_other(caller));
            all.take(i as int).lemma_filter_push(waiter, wait_of(caller));
        }
        if waiter.caller == caller {
            actions.push(Action::OnlineReply { caller: waiter.caller, outcome });
            assert(actions@ =~= done + all.take(i + 1).filter(wait_of(caller)).map_values(
                online_reply(outcome),
            ));
        } else {
            kept.push(waiter);
        }
        i += 1;
    }
    assert(all.take(all.len() as int) =~= all);
    *waiters = kept;
}

fn one(action: Action) -> (actions: Vec<Action>)
    ensures
        actions@ == seq![action],
{
    let mut actions = Vec::new();
    actions.push(action);
    assert(actions@ =~= seq![action]);
    actions
}

/// The single owner of the peer pool. Nothing else touches the pool: every
/// request and every event goes through [`ConnectivityActor::handle`], one at
/// a time, and comes back as a list of actions.
pub struct ConnectivityActor {
    config: ConnectivityConfig,
    pool: PeerPool,
    dial_waiters: Vec<DialWaiter>,
    online_waiters: Vec<OnlineWaiter>,
    status: ConnectivityStatus,
}

impl View for ConnectivityActor {
    type V = ActorState;

    closed spec fn view(&self) -> ActorState {
        ActorState {
            config: self.config,
            peers: self.pool@,
            dial_waiters: self.dial_waiters@,
            online_waiters: self.online_waiters@,
            status: self.status,
        }
    }
}

impl ConnectivityActor {
    /// The actor's state is well-formed, and so is the pool that holds it.
    pub closed spec fn wf(&self) -> bool {
        &&& self.pool.wf()
        &&& self@.wf()
    }

    /// What a well-formed actor guarantees of its view.
    pub proof fn lemma_wf(&self)
        requires
            self.wf(),
        ensures
            self@.wf(),
            self@.connected() <= usize::MAX,
    {
        self.pool.lemma_view();
    }

    /// An actor that knows no peer yet. The configuration is accepted if and
    /// only if it is well-formed.
    pub fn new(config: ConnectivityConfig) -> (actor: Option<Self>)
        ensures
            actor is Some <==> config.wf(),
            actor matches Some(a) ==> a.wf() && a@ == ActorState::initial(config),
    {
        if !config.is_valid() {
            return None;
        }
        let actor = ConnectivityActor {
            config,
            pool: PeerPool::new(),
            dial_waiters: Vec::new(),
            online_waiters: Vec::new(),
            status: ConnectivityStatus::Offline,
        };
        proof {
            assert(connected_peers(actor.pool@) =~= Set::<
                PeerId,
            >::empty());
            assert(actor@.dial_waiters =~= Seq::<DialWaiter>::empty());
            assert(actor@.online_waiters =~= Seq::<OnlineWaiter>::empty());
        }
        Some(actor)
    }

    /// The status as last announced.
    pub fn status(&self) -> (status: ConnectivityStatus)
        ensures
            status == self@.status,
    {
        self.status
    }

    /// The number of connected peers.
    pub fn connected_peers(&self) -> (count: usize)
        requires
            self.wf(),
        ensures
            count == self@.connected(),
    {
        self.pool.connected()
    }

    /// The state of a peer.
    pub fn peer_state(&self, peer: PeerId) -> (state: PeerState)
        requires
            self.wf(),
        ensures
            state == state_of(self@.peers, peer),
    {
        match self.pool.get(peer) {
            Some(entry) => entry.state,
            None => PeerState::Unknown,
        }
    }

    /// The entry of a peer, if the pool holds one.
    pub fn peer(&self, peer: PeerId) -> (entry: Option<ManagedPeer>)
        requires
            self.wf(),
        ensures
            entry == entry_of(self@.peers, peer),
    {
        self.pool.get(peer)
    }

    /// The number of callers that wait for a dial.
    pub fn pending_dials(&self) -> (count: usize)
        ensures
            count == self@.dial_waiters.len(),
    {
        self.dial_waiters.len()
    }

    /// The number of callers that wait for connectivity.
    pub fn pending_waits(&self) -> (count: usize)
        ensures
            count == self@.online_waiters.len(),
    {
        self.online_waiters.len()
    }

    fn settle(&mut self, actions: &mut Vec<Action>)
        requires
            old(self).pool.wf(),
        ensures
            final(self).pool.wf(),
            final(self)@ == old(self)@.settle(old(self)@.peers, old(actions)@).state,
            final(actions)@ == old(self)@.settle(old(self)@.peers, old(actions)@).actions,
    {
        let ghost done = actions@;
        let count = self.pool.connected();
        let status = self.config.thresholds.derive(count);
        if status != self.status {
            actions.push(Action::Emit(ConnectivityEvent::StatusChanged(status)));
        }
        assert(actions@ =~= done + status_events(self.status, status));
        self.status = status;
        release_online_waiters(&mut self.online_waiters, count, actions);
    }

    fn on_request_dial(&mut self, caller: RequestId, peer: PeerId) -> (actions: Vec<Action>)
        requires
            old(self).wf(),
        ensures
            final(self).pool.wf(),
            final(self)@ == old(self)@.request_dial(caller, peer).state,
            actions@ == old(self)@.request_dial(caller, peer).actions,
    {
        let waiter = DialWaiter { caller, peer };
        let managed = match self.pool.get(peer) {
            Some(entry) => match entry.state {
                PeerState::Banned => {
                    return one(Action::DialReply { caller, outcome: DialOutcome::Banned });
                },
                PeerState::Connected => {
                    return one(
                        Action::DialReply {
                            caller,
                            outcome: DialOutcome::Connected(entry.connection.unwrap()),
                        },
                    );
                },
                PeerState::Dialing => {
                    self.dial_waiters.push(waiter);
                    return Vec::new();
                },
                PeerState::Disconnected => true,
                PeerState::Unknown => false,
            },
            None => false,
        };
        self.pool.put(ManagedPeer::dialing(peer, managed));
        self.dial_waiters.push(waiter);
        one(Action::Dial(peer))
    }

    fn on_get_connection(&self, caller: RequestId, peer: PeerId) -> (actions: Vec<Action>)
        requires
            self.wf(),
        ensures
            actions@ == self@.get_connection(caller, peer).actions,
    {
        let connection = match self.pool.get(peer) {
            Some(entry) => entry.connection,
            None => None,
        };
        one(Action::ConnectionReply { caller, connection })
    }

    fn on_wait_for_online(&mut self, caller: RequestId, min_peers: usize, timeout_ms: u64) -> (actions:
        Vec<Action>)
        requires
            old(self).wf(),
        ensures
            final(self).pool.wf(),
            final(self)@ == old(self)@.wait_for_online(caller, min_peers, timeout_ms).state,
            actions@ == old(self)@.wait_for_online(caller, min_peers, timeout_ms).actions,
    {
        if min_peers <= self.pool.connected() {
            one(Action::OnlineReply { caller, outcome: OnlineOutcome::Online })
        } else {
            self.online_waiters.push(OnlineWaiter { caller, min_peers });
            one(Action::ExpireAfter { caller, timeout_ms })
        }
    }

    fn on_wait_expired(&mut self, caller: RequestId) -> (actions: Vec<Action>)
        requires
            old(self).wf(),
        ensures
            final(self).pool.wf(),
            final(self)@ == old(self)@.wait_expired(caller).state,
            actions@ == old(self)@.wait_expired(caller).actions,
    {
        let count = self.pool.connected();
        let mut actions = Vec::new();
        answer_online_waiter(
            &mut self.online_waiters,
            caller,
            OnlineOutcome::TimedOut(count),
            &mut actions,
        );
        assert(actions@ =~= old(self)@.wait_expired(caller).actions);
        actions
    }

    fn on_cancel_wait(&mut self, caller: RequestId) -> (actions: Vec<Action>)
        requires
            old(self).wf(),
        ensures
            final(self).pool.wf(),
            final(self)@ == old(self)@.cancel_wait(caller).state,
            actions@ == old(self)@.cancel_wait(caller).actions,
    {
        let mut actions = Vec::new();
        answer_online_waiter(
            &mut self.online_waiters,
            caller,
            OnlineOutcome::Cancelled,
            &mut actions,
        );
        assert(actions@ =~= old(self)@.cancel_wait(caller).actions);
        actions
    }

    fn on_cancel_dial(&mut self, caller: RequestId, peer: PeerId) -> (actions: Vec<Action>)
        requires
            old(self).wf(),
        ensures
            final(self).pool.wf(),
            final(self)@ == old(self)@.cancel_dial(caller, peer).state,
            actions@ == old(self)@.cancel_dial(caller, peer).actions,
    {
        let mut actions = Vec::new();
        answer_dial_request(
            &mut self.dial_waiters,
            caller,
            peer,
            DialOutcome::Cancelled,
            &mut actions,
        );
        let ghost replies = old(self)@.dial_waiters.filter(is_request(caller, peer)).map_values(
            dial_reply(DialOutcome::Cancelled),
        );
        assert(actions@ =~= replies);
        if actions.len() > 0 {
            let orphaned = match self.pool.get(peer) {
                Some(entry) => match entry.state {
                    PeerState::Dialing => !entry.managed && !has_dial_waiter(
                        &self.dial_waiters,
                        peer,
                    ),
                    _ => false,
                },
                None => false,
            };
            assert(orphaned == old(self)@.is_orphaned(peer, self.dial_waiters@));
            if orphaned {
                self.pool.remove(peer);
                actions.push(Action::AbandonDial(peer));
                assert(actions@ =~= replies + seq![Action::AbandonDial(peer)]);
            }
        }
        actions
    }

    fn on_manage_peer(&mut self, peer: PeerId) -> (actions: Vec<Action>)
        requires
            old(self).wf(),
        ensures
            final(self).pool.wf(),
            final(self)@ == old(self)@.manage_peer(peer).state,
            actions@ == old(self)@.manage_peer(peer).actions,
    {
        match self.pool.get(peer) {
            Some(entry) => match entry.state {
                PeerState::Dialing | PeerState::Connected => {
                    self.pool.put(ManagedPeer { managed: true, ..entry });
                    Vec::new()
                },
                PeerState::Unknown => {
                    self.pool.put(ManagedPeer::dialing(peer, true));
                    one(Action::Dial(peer))
                },
                _ => Vec::new(),
            },
            None => {
                self.pool.put(ManagedPeer::dialing(peer, true));
                one(Action::Dial(peer))
            },
        }
    }

    fn on_unmanage_peer(&mut self, peer: PeerId) -> (actions: Vec<Action>)
        requires
            old(self).wf(),
        ensures
            final(self).pool.wf(),
            final(self)@ == old(self)@.unmanage_peer(peer).state,
            actions@ == old(self)@.unmanage_peer(peer).actions,
    {
        match self.pool.get(peer) {
            Some(entry) => match entry.state {
                PeerState::Disconnected => {
                    self.pool.remove(peer);
                    one(Action::AbandonDial(peer))
                },
                PeerState::Connected => {
                    self.pool.put(ManagedPeer { managed: false, ..entry });
                    Vec::new()
                },
                PeerState::Dialing => {
                    if has_dial_waiter(&self.dial_waiters, peer) {
                        self.pool.put(ManagedPeer { managed: false, ..entry });
                        Vec::new()
                    } else {
                        self.pool.remove(peer);
                        one(Action::AbandonDial(peer))
                    }
                },
                _ => Vec::new(),
            },
            None => Vec::new(),
        }
    }

    fn on_connected(&mut self, peer: PeerId, connection: ConnectionHandle) -> (actions: Vec<Action>)
        requires
            old(self).wf(),
        ensures
            final(self).pool.wf(),
            final(self)@ == old(self)@.peer_connected(peer, connection).state,
            actions@ == old(self)@.peer_connected(peer, connection).actions,
    {
        let managed = match self.pool.get(peer) {
            Some(entry) => match entry.state {
                PeerState::Banned => {
                    return one(Action::Close(connection));
                },
                PeerState::Connected => {
                    let current = entry.connection.unwrap();
                    if current == connection {
                        return Vec::new();
                    }
                    self.pool.put(ManagedPeer { connection: Some(connection), ..entry });
                    let mut actions = one(Action::Close(current));
                    actions.push(Action::Emit(ConnectivityEvent::PeerConnected(peer)));
                    assert(actions@ =~= seq![
                        Action::Close(current),
                        Action::Emit(ConnectivityEvent::PeerConnected(peer)),
                    ]);
                    return actions;
                },
                PeerState::Unknown => false,
                _ => entry.managed,
            },
            None => false,
        };
        let mut actions = Vec::new();
        answer_dial_waiters(
            &mut self.dial_waiters,
            peer,
            DialOutcome::Connected(connection),
            &mut actions,
        );
        actions.push(Action::Emit(ConnectivityEvent::PeerConnected(peer)));
        assert(actions@ =~= dial_replies(
            old(self)@.dial_waiters,
            peer,
            DialOutcome::Connected(connection),
        ) + seq![Action::Emit(ConnectivityEvent::PeerConnected(peer))]);
        self.pool.put(ManagedPeer::connected(peer, connection, managed));
        self.settle(&mut actions);
        actions
    }

    fn on_disconnected(&mut self, peer: PeerId, reason: DisconnectReason) -> (actions: Vec<Action>)
        requires
            old(self).wf(),
        ensures
            final(self).pool.wf(),
            final(self)@ == old(self)@.peer_disconnected(peer, reason).state,
            actions@ == old(self)@.peer_disconnected(peer, reason).actions,
    {
        let managed = match self.pool.get(peer) {
            Some(entry) => match entry.state {
                PeerState::Connected => entry.managed,
                _ => {
                    return Vec::new();
                },
            },
            None => {
                return Vec::new();
            },
        };
        let mut actions = one(Action::Emit(ConnectivityEvent::PeerDisconnected(peer, reason)));
        if managed {
            self.pool.put(ManagedPeer::dialing(peer, true));
            actions.push(Action::Dial(peer));
            assert(actions@ =~= seq![
                Action::Emit(ConnectivityEvent::PeerDisconnected(peer, reason)),
                Action::Dial(peer),
            ]);
        } else {
            self.pool.remove(peer);
        }
        self.settle(&mut actions);
        actions
    }

    fn on_dial_failed(&mut self, peer: PeerId, reason: TransportError) -> (actions: Vec<Action>)
        requires
            old(self).wf(),
        ensures
            final(self).pool.wf(),
            final(self)@ == old(self)@.dial_failed(peer, reason).state,
            actions@ == old(self)@.dial_failed(peer, reason).actions,
    {
        let entry = match self.pool.get(peer) {
            Some(entry) => match entry.state {
                PeerState::Dialing => {
                    if entry.backoff.armed {
                        return Vec::new();
                    }
                    entry
                },
                _ => {
                    return Vec::new();
                },
            },
            None => {
                return Vec::new();
            },
        };
        assert(entry.wf(self.config.max_dial_attempts));
        let attempts: u32 = entry.backoff.attempts + 1;
        if attempts < self.config.max_dial_attempts {
            self.pool.put(ManagedPeer { backoff: Backoff { attempts, armed: true }, ..entry });
            return one(Action::RetryAfter { peer, delay_ms: self.config.delay_ms(attempts) });
        }
        let mut actions = Vec::new();
        answer_dial_waiters(
            &mut self.dial_waiters,
            peer,
            DialOutcome::Failed(reason),
            &mut actions,
        );
        let ghost replies = dial_replies(old(self)@.dial_waiters, peer, DialOutcome::Failed(reason));
        assert(actions@ =~= replies);
        if entry.managed {
            self.pool.put(ManagedPeer::resting(peer));
            let delay_ms = self.config.delay_ms(self.config.max_dial_attempts);
            actions.push(Action::RetryAfter { peer, delay_ms });
            assert(actions@ =~= replies + seq![Action::RetryAfter { peer, delay_ms }]);
        } else {
            self.pool.remove(peer);
        }
        actions
    }

    fn on_retry_due(&mut self, peer: PeerId) -> (actions: Vec<Action>)
        requires
            old(self).wf(),
        ensures
            final(self).pool.wf(),
            final(self)@ == old(self)@.retry_due(peer).state,
            actions@ == old(self)@.retry_due(peer).actions,
    {
        match self.pool.get(peer) {
            Some(entry) => {
                if entry.backoff.armed {
                    self.pool.put(
                        ManagedPeer {
                            state: PeerState::Dialing,
                            backoff: Backoff { attempts: entry.backoff.attempts, armed: false },
                            ..entry
                        },
                    );
                    one(Action::Dial(peer))
                } else {
                    Vec::new()
                }
            },
            None => Vec::new(),
        }
    }

    fn on_ban(&mut self, peer: PeerId) -> (actions: Vec<Action>)
        requires
            old(self).wf(),
        ensures
            final(self).pool.wf(),
            final(self)@ == old(self)@.ban(peer).state,
            actions@ == old(self)@.ban(peer).actions,
    {
        let mut actions = Vec::new();
        match self.pool.get(peer) {
            Some(entry) => match entry.state {
                PeerState::Banned => {
                    return Vec::new();
                },
                PeerState::Connected => {
                    actions.push(Action::Close(entry.connection.unwrap()));
                },
                PeerState::Dialing | PeerState::Disconnected => {
                    actions.push(Action::AbandonDial(peer));
                },
                PeerState::Unknown => {},
            },
            None => {},
        }
        assert(actions@ =~= old(self)@.severed(peer));
        answer_dial_waiters(&mut self.dial_waiters, peer, DialOutcome::Banned, &mut actions);
        actions.push(Action::Emit(ConnectivityEvent::PeerBanned(peer)));
        assert(actions@ =~= old(self)@.severed(peer) + dial_replies(
            old(self)@.dial_waiters,
            peer,
            DialOutcome::Banned,
        ) + seq![Action::Emit(ConnectivityEvent::PeerBanned(peer))]);
        self.pool.put(ManagedPeer::banned(peer));
        self.settle(&mut actions);
        actions
    }

    /// Takes one input and says what is to be done about it. The new state
    /// and the actions are exactly those of the transition system, and the
    /// actor stays well-formed.
    pub fn handle(&mut self, input: Input) -> (actions: Vec<Action>)
        requires
            old(self).wf(),
        ensures
            final(self).wf(),
            final(self)@ == old(self)@.step(input).state,
            actions@ == old(self)@.step(input).actions,
    {
        proof {
            law_step_preserves_wf(self@, input);
        }
        match input {
            Input::RequestDial { caller, peer } => self.on_request_dial(caller, peer),
            Input::GetConnection { caller, peer } => self.on_get_connection(caller, peer),
            Input::WaitForOnline { caller, min_peers, timeout_ms } => self.on_wait_for_online(
                caller,
                min_peers,
                timeout_ms,
            ),
            Input::ManagePeer { peer } => self.on_manage_peer(peer),
            Input::UnmanagePeer { peer } => self.on_unmanage_peer(peer),
            Input::CancelDial { caller, peer } => self.on_cancel_dial(caller, peer),
            Input::CancelWait { caller } => self.on_cancel_wait(caller),
            Input::WaitExpired { caller } => self.on_wait_expired(caller),
            Input::RetryDue { peer } => self.on_retry_due(peer),
            Input::Connected { peer, connection } => self.on_connected(peer, connection),
            Input::Disconnected { peer, reason } => self.on_disconnected(peer, reason),
            Input::DialFailed { peer, reason } => self.on_dial_failed(peer, reason),
            Input::Ban { peer } => self.on_ban(peer),
        }
    }
}

} // verus!
