//! What holds of the actor whatever happens to it.

use crate::connectivity::error::TransportError;
use crate::connectivity::model::{
    dial_replies, dial_reply, is_other_request, is_request, online_reply, satisfied_by,
    status_events, wait_of, wait_of_other, waits_for, waits_for_other, Action, ActorState,
    ConnectivityConfig, ConnectivityEvent, DialOutcome, DialWaiter, DisconnectReason, Input,
    OnlineOutcome, OnlineWaiter,
};
use crate::connectivity::peer::{ConnectionHandle, ManagedPeer, PeerId, PeerState, RequestId};
use crate::connectivity::pool::{
    connected_count, entry_of, lemma_connected_insert, lemma_connected_remove, state_of,
};
use crate::connectivity::preservation::{
    law_run_preserves_wf, law_step_preserves_wf, lemma_filter_keeps,
};
use crate::connectivity::status::ConnectivityStatus;
use vstd::prelude::*;

verus! {

/// The requests of a number of callers to dial one and the same peer.
pub open spec fn dial_requests(callers: Seq<RequestId>, peer: PeerId) -> Seq<Input> {
    callers.map_values(|caller: RequestId| Input::RequestDial { caller, peer })
}

/// The callers, as waiters for the dial of one peer.
pub open spec fn as_dial_waiters(callers: Seq<RequestId>, peer: PeerId) -> Seq<DialWaiter> {
    callers.map_values(|caller: RequestId| DialWaiter { caller, peer })
}

/// Dial coalescing, the asking half: however many callers ask for a peer
/// that is neither connected, nor being dialed, nor banned, their requests
/// together start exactly one dial, and all of them wait for it. While that
/// dial is under way, further requests start none.
pub proof fn law_concurrent_dials_share_one_attempt(
    state: ActorState,
    peer: PeerId,
    callers: Seq<RequestId>,
)
    requires
        state.wf(),
        callers.len() >= 1,
        state_of(state.peers, peer) is Unknown || state_of(state.peers, peer) is Disconnected
            || state_of(state.peers, peer) is Dialing,
    ensures
        state.run(dial_requests(callers, peer)).state.wf(),
        state.run(dial_requests(callers, peer)).actions == if state_of(state.peers, peer)
            is Dialing {
            Seq::<Action>::empty()
        } else {
            seq![Action::Dial(peer)]
        },
        state_of(state.run(dial_requests(callers, peer)).state.peers, peer) is Dialing,
        state.run(dial_requests(callers, peer)).state.dial_waiters == state.dial_waiters
            + as_dial_waiters(callers, peer),
    decreases callers.len(),
{
    let inputs = dial_requests(callers, peer);
    let earlier = callers.drop_last();
    assert(inputs.drop_last() =~= dial_requests(earlier, peer));
    assert(inputs.last() == Input::RequestDial { caller: callers.last(), peer });
    law_run_preserves_wf(state, inputs);
    if earlier.len() == 0 {
        assert(state.run(inputs.drop_last()).state == state);
        assert(state.run(inputs.drop_last()).actions =~= Seq::<Action>::empty());
        let last = state.step(inputs.last());
        assert(state.run(inputs).actions =~= last.actions);
        assert(state.dial_waiters.push(DialWaiter { caller: callers.last(), peer })
            =~= state.dial_waiters + as_dial_waiters(callers, peer));
    } else {
        law_concurrent_dials_share_one_attempt(state, peer, earlier);
        let before = state.run(inputs.drop_last());
        let last = before.state.step(inputs.last());
        assert(last.actions =~= Seq::<Action>::empty());
        assert(state.run(inputs).actions =~= before.actions);
        assert(before.state.dial_waiters.push(DialWaiter { caller: callers.last(), peer })
            =~= state.dial_waiters + as_dial_waiters(callers, peer));
    }
}

/// Everyone who waits for the dial of a peer gets an answer with the same
/// outcome, nobody else gets one, and nobody is left waiting for that peer.
pub proof fn lemma_dial_replies_are_uniform(
    waiters: Seq<DialWaiter>,
    peer: PeerId,
    outcome: DialOutcome,
)
    ensures
        forall|i: int|
            0 <= i < waiters.len() && (#[trigger] waiters[i]).peer == peer ==> dial_replies(
                waiters,
                peer,
                outcome,
            ).contains(Action::DialReply { caller: waiters[i].caller, outcome }),
        forall|j: int|
            0 <= j < dial_replies(waiters, peer, outcome).len() ==> exists|i: int|
                0 <= i < waiters.len() && waiters[i].peer == peer && #[trigger] dial_replies(
                    waiters,
                    peer,
                    outcome,
                )[j] == (Action::DialReply { caller: (#[trigger] waiters[i]).caller, outcome }),
        forall|i: int|
            0 <= i < waiters.filter(waits_for_other(peer)).len() ==> (#[trigger] waiters.filter(
                waits_for_other(peer),
            )[i]).peer != peer,
{
    let waiting = waiters.filter(waits_for(peer));
    let replies = dial_replies(waiters, peer, outcome);
    lemma_filter_keeps(waiters, waits_for(peer));
    lemma_filter_keeps(waiters, waits_for_other(peer));
    assert forall|i: int| 0 <= i < waiters.len() && (#[trigger] waiters[i]).peer
        == peer implies replies.contains(
        Action::DialReply { caller: waiters[i].caller, outcome },
    ) by {
        assert(waits_for(peer)(waiters[i]));
        assert(waiting.contains(waiters[i]));
        let k = choose|k: int| 0 <= k < waiting.len() && waiting[k] == waiters[i];
        assert(replies[k] == dial_reply(outcome)(waiting[k]));
    }
    assert forall|j: int| 0 <= j < replies.len() implies exists|i: int|
        0 <= i < waiters.len() && waiters[i].peer == peer && #[trigger] replies[j]
            == (Action::DialReply { caller: (#[trigger] waiters[i]).caller, outcome }) by {
        let w = waiting[j];
        assert(waits_for(peer)(w));
        assert(waiters.contains(w));
        let i = choose|i: int| 0 <= i < waiters.len() && waiters[i] == w;
        assert(replies[j] == dial_reply(outcome)(waiting[j]));
        assert(replies[j] == (Action::DialReply { caller: waiters[i].caller, outcome }));
    }
    assert forall|i: int| 0 <= i < waiters.filter(waits_for_other(peer)).len() implies (#[trigger] waiters.filter(
        waits_for_other(peer),
    )[i]).peer != peer by {
        assert(waits_for_other(peer)(waiters.filter(waits_for_other(peer))[i]));
    }
}

/// Dial coalescing, the answering half: when the dial of a peer ends, be it
/// in a connection, in the last failure, or in a ban, the answers to its
/// waiters come first among the actions, one for each waiter and all with
/// the same outcome, and nobody is left waiting for the peer.
pub proof fn law_dial_outcome_is_shared(
    state: ActorState,
    peer: PeerId,
    connection: ConnectionHandle,
    reason: TransportError,
)
    requires
        state.wf(),
        state_of(state.peers, peer) is Dialing,
    ensures
        ({
            let ended = state.step(Input::Connected { peer, connection });
            let replies = dial_replies(
                state.dial_waiters,
                peer,
                DialOutcome::Connected(connection),
            );
            &&& ended.actions.take(replies.len() as int) == replies
            &&& ended.state.dial_waiters == state.dial_waiters.filter(waits_for_other(peer))
            &&& state_of(ended.state.peers, peer) is Connected
            &&& ended.state.peers[peer].connection == Some(connection)
        }),
        !state.peers[peer].backoff.armed && state.peers[peer].backoff.attempts + 1
            >= state.config.max_dial_attempts ==> ({
            let ended = state.step(Input::DialFailed { peer, reason });
            let replies = dial_replies(state.dial_waiters, peer, DialOutcome::Failed(reason));
            &&& ended.actions.take(replies.len() as int) == replies
            &&& ended.state.dial_waiters == state.dial_waiters.filter(waits_for_other(peer))
            &&& !(state_of(ended.state.peers, peer) is Dialing)
        }),
        !state.peers[peer].backoff.armed && state.peers[peer].backoff.attempts + 1
            < state.config.max_dial_attempts ==> ({
            let retried = state.step(Input::DialFailed { peer, reason });
            &&& retried.state.dial_waiters == state.dial_waiters
            &&& state_of(retried.state.peers, peer) is Dialing
            &&& retried.actions == seq![
                Action::RetryAfter {
                    peer,
                    delay_ms: state.config.retry_delay(
                        (state.peers[peer].backoff.attempts + 1) as nat,
                    ) as u64,
                },
            ]
        }),
        ({
            let ended = state.step(Input::Ban { peer });
            let replies = dial_replies(state.dial_waiters, peer, DialOutcome::Banned);
            &&& ended.actions.skip(1).take(replies.len() as int) == replies
            &&& ended.state.dial_waiters == state.dial_waiters.filter(waits_for_other(peer))
            &&& state_of(ended.state.peers, peer) is Banned
        }),
{
    let connected = state.step(Input::Connected { peer, connection });
    let replies = dial_replies(state.dial_waiters, peer, DialOutcome::Connected(connection));
    assert(connected.actions.take(replies.len() as int) =~= replies);
    if !state.peers[peer].backoff.armed && state.peers[peer].backoff.attempts + 1
        >= state.config.max_dial_attempts {
        let failed = state.step(Input::DialFailed { peer, reason });
        let replies = dial_replies(state.dial_waiters, peer, DialOutcome::Failed(reason));
        assert(failed.actions.take(replies.len() as int) =~= replies);
    }
    let banned = state.step(Input::Ban { peer });
    let replies = dial_replies(state.dial_waiters, peer, DialOutcome::Banned);
    assert(banned.actions.skip(1).take(replies.len() as int) =~= replies);
}

/// Dial coalescing: any number of callers that ask for a peer to which no
/// connection exists cause exactly one dial, and when that dial ends in a
/// connection every one of them is handed that same connection.
pub proof fn law_dial_coalescing(
    state: ActorState,
    peer: PeerId,
    callers: Seq<RequestId>,
    connection: ConnectionHandle,
)
    requires
        state.wf(),
        callers.len() >= 1,
        state_of(state.peers, peer) is Unknown || state_of(state.peers, peer) is Disconnected,
    ensures
        state.run(dial_requests(callers, peer)).actions == seq![Action::Dial(peer)],
        forall|i: int|
            0 <= i < callers.len() ==> state.run(dial_requests(callers, peer)).state.step(
                Input::Connected { peer, connection },
            ).actions.contains(
                Action::DialReply {
                    caller: #[trigger] callers[i],
                    outcome: DialOutcome::Connected(connection),
                },
            ),
{
    law_concurrent_dials_share_one_attempt(state, peer, callers);
    let asked = state.run(dial_requests(callers, peer)).state;
    let outcome = DialOutcome::Connected(connection);
    law_dial_outcome_is_shared(asked, peer, connection, TransportError { code: 0 });
    lemma_dial_replies_are_uniform(asked.dial_waiters, peer, outcome);
    let ended = asked.step(Input::Connected { peer, connection });
    let replies = dial_replies(asked.dial_waiters, peer, outcome);
    assert forall|i: int| 0 <= i < callers.len() implies ended.actions.contains(
        Action::DialReply { caller: #[trigger] callers[i], outcome },
    ) by {
        let k = state.dial_waiters.len() + i;
        assert(asked.dial_waiters[k] == DialWaiter { caller: callers[i], peer });
        assert(asked.dial_waiters[k].peer == peer);
        let reply = Action::DialReply { caller: callers[i], outcome };
        assert(replies.contains(reply));
        let j = choose|j: int| 0 <= j < replies.len() && replies[j] == reply;
        assert(ended.actions.take(replies.len() as int)[j] == reply);
        assert(ended.actions[j] == reply);
    }
}

/// Waiting for connectivity, the asking half: with enough peers connected
/// the caller is answered at once and nothing else happens; otherwise the
/// caller is kept waiting and only a timer for its timeout is set.
pub proof fn law_wait_for_online(
    state: ActorState,
    caller: RequestId,
    min_peers: usize,
    timeout_ms: u64,
)
    requires
        state.wf(),
    ensures
        min_peers <= state.connected() ==> state.step(
            Input::WaitForOnline { caller, min_peers, timeout_ms },
        ) == state.answer(Action::OnlineReply { caller, outcome: OnlineOutcome::Online }),
        min_peers > state.connected() ==> ({
            let waiting = state.step(Input::WaitForOnline { caller, min_peers, timeout_ms });
            &&& waiting.actions == seq![Action::ExpireAfter { caller, timeout_ms }]
            &&& waiting.state.online_waiters == state.online_waiters.push(
                OnlineWaiter { caller, min_peers },
            )
            &&& waiting.state.peers == state.peers
            &&& waiting.state.status == state.status
        }),
{
}

/// Waiting for connectivity, the expiring half: a caller that still waits
/// when its timeout is over is told the number of peers connected at that
/// moment, and this number is below what the caller asked for. Nobody else
/// is told anything, and the caller waits no more.
pub proof fn law_wait_expires_with_count(state: ActorState, caller: RequestId, waiter: int)
    requires
        state.wf(),
        0 <= waiter < state.online_waiters.len(),
        state.online_waiters[waiter].caller == caller,
    ensures
        state.connected() < state.online_waiters[waiter].min_peers,
        state.step(Input::WaitExpired { caller }).actions.contains(
            Action::OnlineReply {
                caller,
                outcome: OnlineOutcome::TimedOut(state.connected() as usize),
            },
        ),
        forall|j: int|
            0 <= j < state.step(Input::WaitExpired { caller }).actions.len() ==> #[trigger] state.step(
                Input::WaitExpired { caller },
            ).actions[j] == (Action::OnlineReply {
                caller,
                outcome: OnlineOutcome::TimedOut(state.connected() as usize),
            }),
        forall|j: int|
            0 <= j < state.step(Input::WaitExpired { caller }).state.online_waiters.len()
                ==> (#[trigger] state.step(
                Input::WaitExpired { caller },
            ).state.online_waiters[j]).caller != caller,
{
    let expired = state.step(Input::WaitExpired { caller });
    let outcome = OnlineOutcome::TimedOut(state.connected() as usize);
    let own = state.online_waiters.filter(wait_of(caller));
    lemma_filter_keeps(state.online_waiters, wait_of(caller));
    lemma_filter_keeps(state.online_waiters, wait_of_other(caller));
    assert(wait_of(caller)(state.online_waiters[waiter]));
    assert(own.contains(state.online_waiters[waiter]));
    let k = choose|k: int| 0 <= k < own.len() && own[k] == state.online_waiters[waiter];
    assert(expired.actions[k] == online_reply(outcome)(own[k]));
    assert forall|j: int| 0 <= j < expired.actions.len() implies #[trigger] expired.actions[j]
        == (Action::OnlineReply { caller, outcome }) by {
        assert(wait_of(caller)(own[j]));
        assert(expired.actions[j] == online_reply(outcome)(own[j]));
    }
    assert forall|j: int| 0 <= j < expired.state.online_waiters.len() implies (#[trigger] expired.state.online_waiters[j]).caller
        != caller by {
        assert(wait_of_other(caller)(expired.state.online_waiters[j]));
    }
}

/// The status that an action announces, if it announces one.
pub open spec fn status_change() -> spec_fn(Action) -> Option<ConnectivityStatus> {
    |action: Action|
        match action {
            Action::Emit(ConnectivityEvent::StatusChanged(status)) => Some(status),
            _ => None,
        }
}

/// The statuses that a series of actions announces, in order.
pub open spec fn announced(actions: Seq<Action>) -> Seq<ConnectivityStatus> {
    actions.filter_map(status_change())
}

/// What is announced when the status goes from `last` to `now`: the new
/// status if it differs, nothing if it does not.
pub open spec fn changes(last: ConnectivityStatus, now: ConnectivityStatus) -> Seq<
    ConnectivityStatus,
> {
    if last == now {
        Seq::empty()
    } else {
        seq![now]
    }
}

/// No action of the series announces a status.
pub open spec fn quiet(actions: Seq<Action>) -> bool {
    forall|i: int| 0 <= i < actions.len() ==> status_change()(#[trigger] actions[i]) is None
}

proof fn lemma_announced_add(a: Seq<Action>, b: Seq<Action>)
    ensures
        announced(a + b) == announced(a) + announced(b),
    decreases b.len(),
{
    if b.len() == 0 {
        assert(a + b =~= a);
        assert(announced(a) + announced(b) =~= announced(a));
    } else {
        lemma_announced_add(a, b.drop_last());
        assert((a + b).drop_last() =~= a + b.drop_last());
        assert((a + b).last() == b.last());
        assert(announced(a + b) =~= announced(a) + announced(b));
    }
}

proof fn lemma_announced_quiet(actions: Seq<Action>)
    requires
        quiet(actions),
    ensures
        announced(actions) == Seq::<ConnectivityStatus>::empty(),
    decreases actions.len(),
{
    if actions.len() > 0 {
        assert(status_change()(actions[actions.len() - 1]) is None);
        assert forall|i: int| 0 <= i < actions.drop_last().len() implies status_change()(
            #[trigger] actions.drop_last()[i],
        ) is None by {
            assert(actions.drop_last()[i] == actions[i]);
        }
        lemma_announced_quiet(actions.drop_last());
    }
}

proof fn lemma_announced_events(last: ConnectivityStatus, now: ConnectivityStatus)
    ensures
        announced(status_events(last, now)) == changes(last, now),
{
    let events = status_events(last, now);
    if last != now {
        assert(events.drop_last() =~= Seq::<Action>::empty());
        assert(announced(events.drop_last()) =~= Seq::<ConnectivityStatus>::empty());
        assert(announced(events) =~= seq![now]);
    }
}

proof fn lemma_settle_announces(
    state: ActorState,
    peers: Map<PeerId, ManagedPeer>,
    done: Seq<Action>,
)
    requires
        quiet(done),
    ensures
        announced(state.settle(peers, done).actions) == changes(
            state.status,
            state.settle(peers, done).state.status,
        ),
{
    let settled = state.settle(peers, done);
    let events = status_events(state.status, settled.state.status);
    let replies = state.online_waiters.filter(
        satisfied_by(connected_count(peers)),
    ).map_values(online_reply(OnlineOutcome::Online));
    assert(quiet(replies));
    lemma_announced_quiet(done);
    lemma_announced_quiet(replies);
    lemma_announced_events(state.status, settled.state.status);
    lemma_announced_add(done, events);
    lemma_announced_add(done + events, replies);
    assert(announced(settled.actions) =~= changes(state.status, settled.state.status));
}

/// One step announces a status exactly if the status changed in it, and
/// then it announces the new one, once.
pub proof fn law_step_announces_changes(state: ActorState, input: Input)
    requires
        state.wf(),
    ensures
        announced(state.step(input).actions) == changes(
            state.status,
            state.step(input).state.status,
        ),
{
    let next = state.step(input);
    match input {
        Input::Connected { peer, connection } => {
            let replies = dial_replies(
                state.dial_waiters,
                peer,
                DialOutcome::Connected(connection),
            );
            let done = replies + seq![Action::Emit(ConnectivityEvent::PeerConnected(peer))];
            assert(quiet(done));
            let left = ActorState {
                dial_waiters: state.dial_waiters.filter(waits_for_other(peer)),
                ..state
            };
            if state.peers.contains_key(peer) {
                lemma_settle_announces(
                    left,
                    state.peers.insert(
                        peer,
                        ManagedPeer::spec_connected(
                            peer,
                            connection,
                            state.peers[peer].managed,
                        ),
                    ),
                    done,
                );
            }
            lemma_settle_announces(
                left,
                state.peers.insert(
                    peer,
                    ManagedPeer::spec_connected(peer, connection, false),
                ),
                done,
            );
            if next.state.status == state.status && next.actions.len() <= 2 {
                assert(quiet(next.actions));
                lemma_announced_quiet(next.actions);
            }
        },
        Input::Disconnected { peer, reason } => {
            if state_of(state.peers, peer) is Connected {
                let first = seq![Action::Emit(ConnectivityEvent::PeerDisconnected(peer, reason))];
                let both = seq![
                    Action::Emit(ConnectivityEvent::PeerDisconnected(peer, reason)),
                    Action::Dial(peer),
                ];
                assert(quiet(first));
                assert(quiet(both));
                lemma_settle_announces(state, state.peers.remove(peer), first);
                lemma_settle_announces(
                    state,
                    state.peers.insert(
                        peer,
                        ManagedPeer::spec_dialing(peer, true),
                    ),
                    both,
                );
            } else {
                lemma_announced_quiet(next.actions);
            }
        },
        Input::Ban { peer } => {
            if state_of(state.peers, peer) is Banned {
                lemma_announced_quiet(next.actions);
            } else {
                let done = state.severed(peer) + dial_replies(
                    state.dial_waiters,
                    peer,
                    DialOutcome::Banned,
                ) + seq![Action::Emit(ConnectivityEvent::PeerBanned(peer))];
                assert(quiet(done));
                let left = ActorState {
                    dial_waiters: state.dial_waiters.filter(waits_for_other(peer)),
                    ..state
                };
                lemma_settle_announces(
                    left,
                    state.peers.insert(
                        peer,
                        ManagedPeer::spec_banned(peer),
                    ),
                    done,
                );
            }
        },
        _ => {
            assert(quiet(next.actions));
            lemma_announced_quiet(next.actions);
        },
    }
}

/// The statuses that a listener hears in a row: the one it starts with and
/// every one announced after it.
pub open spec fn heard(first: ConnectivityStatus, actions: Seq<Action>) -> Seq<ConnectivityStatus> {
    seq![first] + announced(actions)
}

/// No status is announced twice in a row: through any series of inputs,
/// each announced status differs from the one before it, starting from the
/// status the actor had; and the last one heard is the status the actor
/// ends with, which is the one its number of connected peers gives.
pub proof fn law_no_duplicate_status_events(state: ActorState, inputs: Seq<Input>)
    requires
        state.wf(),
    ensures
        forall|i: int|
            0 <= i < heard(state.status, state.run(inputs).actions).len() - 1 ==> #[trigger] heard(
                state.status,
                state.run(inputs).actions,
            )[i] != heard(state.status, state.run(inputs).actions)[i + 1],
        heard(state.status, state.run(inputs).actions).last() == state.run(inputs).state.status,
        state.run(inputs).state.status == state.config.thresholds.status_of(
            state.run(inputs).state.connected(),
        ),
    decreases inputs.len(),
{
    law_run_preserves_wf(state, inputs);
    if inputs.len() == 0 {
        assert(announced(state.run(inputs).actions) =~= Seq::<ConnectivityStatus>::empty());
        assert(heard(state.status, state.run(inputs).actions) =~= seq![state.status]);
    } else {
        let before = state.run(inputs.drop_last());
        let last = before.state.step(inputs.last());
        law_no_duplicate_status_events(state, inputs.drop_last());
        law_run_preserves_wf(state, inputs.drop_last());
        law_step_announces_changes(before.state, inputs.last());
        lemma_announced_add(before.actions, last.actions);
        let earlier = heard(state.status, before.actions);
        let all = heard(state.status, state.run(inputs).actions);
        assert(all =~= earlier + changes(before.state.status, last.state.status));
        assert forall|i: int| 0 <= i < all.len() - 1 implies #[trigger] all[i] != all[i + 1] by {
            if i < earlier.len() - 1 {
                assert(earlier[i] != earlier[i + 1]);
            }
        }
    }
}

/// The wait before a retry grows with every failed attempt.
pub proof fn law_backoff_increases(
    config: ConnectivityConfig,
    fewer: nat,
    more: nat,
)
    requires
        config.wf(),
        fewer < more,
    ensures
        config.retry_delay(fewer) < config.retry_delay(more),
        config.retry_delay(0) == 0,
{
    assert(fewer * (config.backoff_step_ms as nat) < more * (config.backoff_step_ms as nat))
        by (nonlinear_arith)
        requires
            fewer < more,
            config.backoff_step_ms >= 1,
    ;
}

/// Nothing is started for the peer: no dial and no retry timer.
pub open spec fn leaves_alone(actions: Seq<Action>, peer: PeerId) -> bool {
    forall|i: int|
        0 <= i < actions.len() ==> match #[trigger] actions[i] {
            Action::Dial(dialed) => dialed != peer,
            Action::RetryAfter { peer: retried, .. } => retried != peer,
            _ => true,
        }
}

proof fn lemma_leaves_alone_add(a: Seq<Action>, b: Seq<Action>, peer: PeerId)
    requires
        leaves_alone(a, peer),
        leaves_alone(b, peer),
    ensures
        leaves_alone(a + b, peer),
{
    assert forall|i: int| 0 <= i < (a + b).len() implies match #[trigger] (a + b)[i] {
        Action::Dial(dialed) => dialed != peer,
        Action::RetryAfter { peer: retried, .. } => retried != peer,
        _ => true,
    } by {
        if i < a.len() {
            assert((a + b)[i] == a[i]);
        } else {
            assert((a + b)[i] == b[i - a.len()]);
        }
    }
}

proof fn lemma_replies_leave_alone(
    waiters: Seq<DialWaiter>,
    of: PeerId,
    outcome: DialOutcome,
    peer: PeerId,
)
    ensures
        leaves_alone(dial_replies(waiters, of, outcome), peer),
{
    let replies = dial_replies(waiters, of, outcome);
    assert forall|i: int| 0 <= i < replies.len() implies match #[trigger] replies[i] {
        Action::Dial(dialed) => dialed != peer,
        Action::RetryAfter { peer: retried, .. } => retried != peer,
        _ => true,
    } by {
        assert(replies[i] == dial_reply(outcome)(waiters.filter(waits_for(of))[i]));
    }
}

proof fn lemma_settle_leaves_alone(
    state: ActorState,
    peers: Map<PeerId, ManagedPeer>,
    done: Seq<Action>,
    peer: PeerId,
)
    requires
        leaves_alone(done, peer),
    ensures
        leaves_alone(state.settle(peers, done).actions, peer),
{
    let settled = state.settle(peers, done);
    let events = status_events(state.status, settled.state.status);
    let replies = state.online_waiters.filter(
        satisfied_by(connected_count(peers)),
    ).map_values(online_reply(OnlineOutcome::Online));
    assert(leaves_alone(events, peer));
    assert(leaves_alone(replies, peer)) by {
        assert forall|i: int| 0 <= i < replies.len() implies match #[trigger] replies[i] {
            Action::Dial(dialed) => dialed != peer,
            Action::RetryAfter { peer: retried, .. } => retried != peer,
            _ => true,
        } by {
            assert(replies[i] == online_reply(OnlineOutcome::Online)(
                state.online_waiters.filter(
                    satisfied_by(connected_count(peers)),
                )[i],
            ));
        }
    }
    lemma_leaves_alone_add(done, events, peer);
    lemma_leaves_alone_add(done + events, replies, peer);
}

proof fn lemma_ban_holds_when_connecting(
    state: ActorState,
    peer: PeerId,
    other: PeerId,
    connection: ConnectionHandle,
)
    requires
        state.wf(),
        state_of(state.peers, peer) is Banned,
        other != peer,
    ensures
        state.peer_connected(other, connection).state.peers[peer] == state.peers[peer],
        state.peer_connected(other, connection).state.peers.contains_key(peer),
        leaves_alone(state.peer_connected(other, connection).actions, peer),
{
    let replies = dial_replies(state.dial_waiters, other, DialOutcome::Connected(connection));
    let done = replies + seq![Action::Emit(ConnectivityEvent::PeerConnected(other))];
    lemma_replies_leave_alone(state.dial_waiters, other, DialOutcome::Connected(connection), peer);
    lemma_leaves_alone_add(
        replies,
        seq![Action::Emit(ConnectivityEvent::PeerConnected(other))],
        peer,
    );
    let left = ActorState {
        dial_waiters: state.dial_waiters.filter(waits_for_other(other)),
        ..state
    };
    if state.peers.contains_key(other) {
        lemma_settle_leaves_alone(
            left,
            state.peers.insert(
                other,
                ManagedPeer::spec_connected(
                    other,
                    connection,
                    state.peers[other].managed,
                ),
            ),
            done,
            peer,
        );
    }
    lemma_settle_leaves_alone(
        left,
        state.peers.insert(
            other,
            ManagedPeer::spec_connected(other, connection, false),
        ),
        done,
        peer,
    );
}

proof fn lemma_ban_holds_when_disconnecting(
    state: ActorState,
    peer: PeerId,
    other: PeerId,
    reason: DisconnectReason,
)
    requires
        state.wf(),
        state_of(state.peers, peer) is Banned,
        other != peer,
    ensures
        state.peer_disconnected(other, reason).state.peers[peer] == state.peers[peer],
        state.peer_disconnected(other, reason).state.peers.contains_key(peer),
        leaves_alone(state.peer_disconnected(other, reason).actions, peer),
{
    let first = seq![Action::Emit(ConnectivityEvent::PeerDisconnected(other, reason))];
    let both = seq![
        Action::Emit(ConnectivityEvent::PeerDisconnected(other, reason)),
        Action::Dial(other),
    ];
    lemma_settle_leaves_alone(state, state.peers.remove(other), first, peer);
    lemma_settle_leaves_alone(
        state,
        state.peers.insert(other, ManagedPeer::spec_dialing(other, true)),
        both,
        peer,
    );
}

proof fn lemma_ban_holds_when_banning(state: ActorState, peer: PeerId, other: PeerId)
    requires
        state.wf(),
        state_of(state.peers, peer) is Banned,
        other != peer,
    ensures
        state.ban(other).state.peers[peer] == state.peers[peer],
        state.ban(other).state.peers.contains_key(peer),
        leaves_alone(state.ban(other).actions, peer),
{
    let replies = dial_replies(state.dial_waiters, other, DialOutcome::Banned);
    let last = seq![Action::Emit(ConnectivityEvent::PeerBanned(other))];
    lemma_replies_leave_alone(state.dial_waiters, other, DialOutcome::Banned, peer);
    assert(leaves_alone(state.severed(other), peer));
    lemma_leaves_alone_add(state.severed(other), replies, peer);
    lemma_leaves_alone_add(state.severed(other) + replies, last, peer);
    let left = ActorState {
        dial_waiters: state.dial_waiters.filter(waits_for_other(other)),
        ..state
    };
    lemma_settle_leaves_alone(
        left,
        state.peers.insert(other, ManagedPeer::spec_banned(other)),
        state.severed(other) + replies + last,
        peer,
    );
}

proof fn lemma_ban_holds_when_failing(
    state: ActorState,
    peer: PeerId,
    other: PeerId,
    reason: TransportError,
)
    requires
        state.wf(),
        state_of(state.peers, peer) is Banned,
        other != peer,
    ensures
        state.dial_failed(other, reason).state.peers[peer] == state.peers[peer],
        state.dial_failed(other, reason).state.peers.contains_key(peer),
        leaves_alone(state.dial_failed(other, reason).actions, peer),
{
    let replies = dial_replies(state.dial_waiters, other, DialOutcome::Failed(reason));
    lemma_replies_leave_alone(state.dial_waiters, other, DialOutcome::Failed(reason), peer);
    let retry = seq![
        Action::RetryAfter {
            peer: other,
            delay_ms: state.config.retry_delay(state.config.max_dial_attempts as nat) as u64,
        },
    ];
    lemma_leaves_alone_add(replies, retry, peer);
}

proof fn lemma_ban_holds_when_cancelling(
    state: ActorState,
    peer: PeerId,
    caller: RequestId,
    other: PeerId,
)
    requires
        state.wf(),
        state_of(state.peers, peer) is Banned,
    ensures
        state.cancel_dial(caller, other).state.peers[peer] == state.peers[peer],
        state.cancel_dial(caller, other).state.peers.contains_key(peer),
        leaves_alone(state.cancel_dial(caller, other).actions, peer),
        leaves_alone(state.cancel_wait(caller).actions, peer),
        leaves_alone(state.wait_expired(caller).actions, peer),
{
    let replies = state.dial_waiters.filter(
        is_request(caller, other),
    ).map_values(dial_reply(DialOutcome::Cancelled));
    assert(leaves_alone(replies, peer)) by {
        assert forall|i: int| 0 <= i < replies.len() implies match #[trigger] replies[i] {
            Action::Dial(dialed) => dialed != peer,
            Action::RetryAfter { peer: retried, .. } => retried != peer,
            _ => true,
        } by {
            assert(replies[i] == dial_reply(DialOutcome::Cancelled)(
                state.dial_waiters.filter(is_request(caller, other))[i],
            ));
        }
    }
    lemma_leaves_alone_add(replies, seq![Action::AbandonDial(other)], peer);
    let cancelled = state.cancel_wait(caller).actions;
    assert forall|i: int| 0 <= i < cancelled.len() implies match #[trigger] cancelled[i] {
        Action::Dial(dialed) => dialed != peer,
        Action::RetryAfter { peer: retried, .. } => retried != peer,
        _ => true,
    } by {
        assert(cancelled[i] == online_reply(OnlineOutcome::Cancelled)(
            state.online_waiters.filter(wait_of(caller))[i],
        ));
    }
    let expired = state.wait_expired(caller).actions;
    assert forall|i: int| 0 <= i < expired.len() implies match #[trigger] expired[i] {
        Action::Dial(dialed) => dialed != peer,
        Action::RetryAfter { peer: retried, .. } => retried != peer,
        _ => true,
    } by {
        assert(expired[i] == online_reply(OnlineOutcome::TimedOut(state.connected() as usize))(
            state.online_waiters.filter(wait_of(caller))[i],
        ));
    }
}

/// One step leaves a banned peer banned and starts nothing for it; a
/// connection that still arrives for it is closed, and a request to dial it
/// is refused.
pub proof fn law_ban_holds_for_a_step(state: ActorState, peer: PeerId, input: Input)
    requires
        state.wf(),
        state_of(state.peers, peer) is Banned,
    ensures
        state_of(state.step(input).state.peers, peer) is Banned,
        state.step(input).state.peers[peer] == state.peers[peer],
        leaves_alone(state.step(input).actions, peer),
        forall|connection: ConnectionHandle|
            input == (Input::Connected { peer, connection }) ==> state.step(input).actions
                == seq![Action::Close(connection)],
        forall|caller: RequestId|
            input == (Input::RequestDial { caller, peer }) ==> state.step(input).actions
                == seq![Action::DialReply { caller, outcome: DialOutcome::Banned }],
{
    match input {
        Input::Connected { peer: other, connection } => {
            if other != peer {
                lemma_ban_holds_when_connecting(state, peer, other, connection);
            }
        },
        Input::Disconnected { peer: other, reason } => {
            if other != peer {
                lemma_ban_holds_when_disconnecting(state, peer, other, reason);
            }
        },
        Input::Ban { peer: other } => {
            if other != peer {
                lemma_ban_holds_when_banning(state, peer, other);
            }
        },
        Input::DialFailed { peer: other, reason } => {
            if other != peer {
                lemma_ban_holds_when_failing(state, peer, other, reason);
            }
        },
        Input::CancelDial { caller, peer: other } => {
            lemma_ban_holds_when_cancelling(state, peer, caller, other);
        },
        Input::CancelWait { caller } => {
            lemma_ban_holds_when_cancelling(state, peer, caller, peer);
        },
        Input::WaitExpired { caller } => {
            lemma_ban_holds_when_cancelling(state, peer, caller, peer);
        },
        _ => {},
    }
}

/// A ban is final: whatever happens after it, the peer stays banned and
/// nothing is ever started for it again.
pub proof fn law_ban_is_absorbing(state: ActorState, peer: PeerId, inputs: Seq<Input>)
    requires
        state.wf(),
        state_of(state.peers, peer) is Banned,
    ensures
        state_of(state.run(inputs).state.peers, peer) is Banned,
        leaves_alone(state.run(inputs).actions, peer),
    decreases inputs.len(),
{
    if inputs.len() > 0 {
        law_ban_is_absorbing(state, peer, inputs.drop_last());
        law_run_preserves_wf(state, inputs.drop_last());
        let before = state.run(inputs.drop_last());
        law_ban_holds_for_a_step(before.state, peer, inputs.last());
        let last = before.state.step(inputs.last());
        let all = state.run(inputs).actions;
        assert forall|i: int| 0 <= i < all.len() implies match #[trigger] all[i] {
            Action::Dial(dialed) => dialed != peer,
            Action::RetryAfter { peer: retried, .. } => retried != peer,
            _ => true,
        } by {
            if i < before.actions.len() {
                assert(all[i] == before.actions[i]);
            } else {
                assert(all[i] == last.actions[i - before.actions.len()]);
            }
        }
    }
}

/// A ban takes effect at once: the peer is banned, its connection is closed
/// or its dial abandoned, and it no longer counts as connected.
pub proof fn law_ban_takes_effect(state: ActorState, peer: PeerId)
    requires
        state.wf(),
        !(state_of(state.peers, peer) is Banned),
    ensures
        state_of(state.step(Input::Ban { peer }).state.peers, peer) is Banned,
        state.step(Input::Ban { peer }).state.peers[peer].connection is None,
        state_of(state.peers, peer) is Connected ==> state.step(Input::Ban { peer }).actions[0]
            == Action::Close(state.peers[peer].connection->0),
        state.step(Input::Ban { peer }).actions.contains(
            Action::Emit(ConnectivityEvent::PeerBanned(peer)),
        ),
{
    let next = state.step(Input::Ban { peer });
    let done = state.severed(peer) + dial_replies(state.dial_waiters, peer, DialOutcome::Banned)
        + seq![Action::Emit(ConnectivityEvent::PeerBanned(peer))];
    assert(next.actions[done.len() - 1] == Action::Emit(ConnectivityEvent::PeerBanned(peer)));
}

/// A caller that gives up its request to dial is the only one to hear of
/// it. Every other waiter stays where it was, and as long as one of them
/// waits for the peer, the dial goes on.
pub proof fn law_cancel_affects_only_caller(state: ActorState, caller: RequestId, peer: PeerId)
    requires
        state.wf(),
    ensures
        ({
            let next = state.step(Input::CancelDial { caller, peer });
            &&& next.state.dial_waiters == state.dial_waiters.filter(
                is_other_request(caller, peer),
            )
            &&& forall|j: int|
                0 <= j < next.actions.len() ==> #[trigger] next.actions[j] == (Action::DialReply {
                    caller,
                    outcome: DialOutcome::Cancelled,
                }) || next.actions[j] == Action::AbandonDial(peer)
            &&& forall|i: int|
                0 <= i < state.dial_waiters.len() && (#[trigger] state.dial_waiters[i]).caller
                    != caller ==> next.state.dial_waiters.contains(state.dial_waiters[i])
            &&& (exists|i: int|
                0 <= i < state.dial_waiters.len() && (#[trigger] state.dial_waiters[i]).peer == peer
                    && state.dial_waiters[i].caller != caller) ==> state_of(
                next.state.peers,
                peer,
            ) is Dialing && !next.actions.contains(Action::AbandonDial(peer))
            &&& forall|other: PeerId|
                other != peer ==> state_of(next.state.peers, other) == state_of(
                    state.peers,
                    other,
                )
        }),
{
    let next = state.step(Input::CancelDial { caller, peer });
    let own = is_request(caller, peer);
    let others = is_other_request(caller, peer);
    let left = state.dial_waiters.filter(others);
    let replies = state.dial_waiters.filter(own).map_values(dial_reply(DialOutcome::Cancelled));
    lemma_filter_keeps(state.dial_waiters, own);
    lemma_filter_keeps(state.dial_waiters, others);
    lemma_filter_keeps(left, waits_for(peer));
    assert forall|j: int| 0 <= j < next.actions.len() implies #[trigger] next.actions[j]
        == (Action::DialReply { caller, outcome: DialOutcome::Cancelled }) || next.actions[j]
        == Action::AbandonDial(peer) by {
        if j < replies.len() {
            let w = state.dial_waiters.filter(own)[j];
            assert(own(w));
            assert(next.actions[j] == replies[j]);
            assert(replies[j] == dial_reply(DialOutcome::Cancelled)(w));
        }
    }
    assert forall|i: int|
        0 <= i < state.dial_waiters.len() && (#[trigger] state.dial_waiters[i]).caller
            != caller implies next.state.dial_waiters.contains(state.dial_waiters[i]) by {
        assert(others(state.dial_waiters[i]));
    }
    if exists|i: int|
        0 <= i < state.dial_waiters.len() && (#[trigger] state.dial_waiters[i]).peer == peer
            && state.dial_waiters[i].caller != caller {
        let i = choose|i: int|
            0 <= i < state.dial_waiters.len() && (#[trigger] state.dial_waiters[i]).peer == peer
                && state.dial_waiters[i].caller != caller;
        let w = state.dial_waiters[i];
        assert(others(w));
        assert(left.contains(w));
        let k = choose|k: int| 0 <= k < left.len() && left[k] == w;
        assert(waits_for(peer)(left[k]));
        assert(left.filter(waits_for(peer)).contains(left[k]));
        assert(!state.is_orphaned(peer, left));
        assert(state_of(state.peers, w.peer) is Dialing);
        if next.actions.contains(Action::AbandonDial(peer)) {
            let j = choose|j: int|
                0 <= j < next.actions.len() && next.actions[j] == Action::AbandonDial(peer);
            assert(next.actions[j] == replies[j]);
            assert(replies[j] == dial_reply(DialOutcome::Cancelled)(
                state.dial_waiters.filter(own)[j],
            ));
        }
    }
}

/// A peer has at most one connection: a new one takes the place of the old
/// one, and the old one is closed first. The number of connected peers does
/// not change by it.
pub proof fn law_new_connection_supersedes(
    state: ActorState,
    peer: PeerId,
    connection: ConnectionHandle,
)
    requires
        state.wf(),
        state_of(state.peers, peer) is Connected,
        state.peers[peer].connection != Some(connection),
    ensures
        ({
            let next = state.step(Input::Connected { peer, connection });
            &&& next.actions == seq![
                Action::Close(state.peers[peer].connection->0),
                Action::Emit(ConnectivityEvent::PeerConnected(peer)),
            ]
            &&& next.state.peers[peer].connection == Some(connection)
            &&& next.state.connected() == state.connected()
            &&& next.state.status == state.status
        }),
{
    lemma_connected_insert(
        state.peers,
        ManagedPeer {
            connection: Some(connection),
            ..state.peers[peer]
        },
    );
}

/// A lookup changes nothing and tells the truth: the connection of a
/// connected peer, and none for any other.
pub proof fn law_lookup_is_pure(state: ActorState, caller: RequestId, peer: PeerId)
    requires
        state.wf(),
    ensures
        state.step(Input::GetConnection { caller, peer }).state == state,
        state.step(Input::GetConnection { caller, peer }).actions == seq![
            Action::ConnectionReply {
                caller,
                connection: if state_of(state.peers, peer) is Connected {
                    state.peers[peer].connection
                } else {
                    None
                },
            },
        ],
        state_of(state.peers, peer) is Connected ==> state.peers[peer].connection is Some,
{
}

/// A managed peer is dialed again as soon as its connection is lost; any
/// other peer is forgotten.
pub proof fn law_managed_peer_is_redialed(
    state: ActorState,
    peer: PeerId,
    reason: DisconnectReason,
)
    requires
        state.wf(),
        state_of(state.peers, peer) is Connected,
    ensures
        ({
            let next = state.step(Input::Disconnected { peer, reason });
            &&& next.actions[0] == Action::Emit(ConnectivityEvent::PeerDisconnected(peer, reason))
            &&& state.peers[peer].managed ==> state_of(next.state.peers, peer) is Dialing
                && next.actions[1] == Action::Dial(peer)
            &&& !state.peers[peer].managed ==> state_of(next.state.peers, peer) is Unknown
            &&& next.state.connected() == state.connected() - 1
        }),
{
    lemma_connected_insert(
        state.peers,
        ManagedPeer::spec_dialing(peer, true),
    );
    lemma_connected_remove(state.peers, peer);
}

/// The ways a peer can go in one step. A peer stays where it is or moves
/// along `Unknown → Dialing → Connected`. A lost connection leads on to
/// `Dialing` for a managed peer and back to `Unknown` for any other. A dial
/// that is given up leads to `Disconnected` for a managed peer and back to
/// `Unknown` for any other. A connection may come in at any time. `Banned`
/// is reached from everywhere and left for nowhere.
pub open spec fn may_follow(before: PeerState, after: PeerState) -> bool {
    match before {
        PeerState::Unknown | PeerState::Connected => !(after is Disconnected),
        PeerState::Dialing | PeerState::Disconnected => true,
        PeerState::Banned => after is Banned,
    }
}

/// The peer that an input is about, if it is about one.
pub open spec fn subject(input: Input) -> Option<PeerId> {
    match input {
        Input::RequestDial { peer, .. } => Some(peer),
        Input::GetConnection { peer, .. } => Some(peer),
        Input::ManagePeer { peer } => Some(peer),
        Input::UnmanagePeer { peer } => Some(peer),
        Input::CancelDial { peer, .. } => Some(peer),
        Input::RetryDue { peer } => Some(peer),
        Input::Connected { peer, .. } => Some(peer),
        Input::Disconnected { peer, .. } => Some(peer),
        Input::DialFailed { peer, .. } => Some(peer),
        Input::Ban { peer } => Some(peer),
        Input::WaitForOnline { .. } => None,
        Input::CancelWait { .. } => None,
        Input::WaitExpired { .. } => None,
    }
}

/// What one step may do to one peer: nothing if the input is about another
/// peer, and else a move that `may_follow` allows; only a managed peer ever
/// rests in `Disconnected`.
pub open spec fn moves_rightly(state: ActorState, next: ActorState, about: Option<PeerId>, peer: PeerId) -> bool {
    &&& about != Some(peer) ==> entry_of(next.peers, peer) == entry_of(state.peers, peer)
    &&& may_follow(state_of(state.peers, peer), state_of(next.peers, peer))
    &&& state_of(next.peers, peer) is Disconnected ==> next.peers[peer].managed
}

proof fn lemma_moves_on_requests(state: ActorState, caller: RequestId, about: PeerId, peer: PeerId)
    requires
        state.wf(),
    ensures
        moves_rightly(state, state.request_dial(caller, about).state, Some(about), peer),
        moves_rightly(state, state.get_connection(caller, about).state, Some(about), peer),
        moves_rightly(state, state.cancel_dial(caller, about).state, Some(about), peer),
        moves_rightly(state, state.manage_peer(about).state, Some(about), peer),
        moves_rightly(state, state.unmanage_peer(about).state, Some(about), peer),
        moves_rightly(state, state.retry_due(about).state, Some(about), peer),
{
}

proof fn lemma_moves_on_waits(
    state: ActorState,
    caller: RequestId,
    min_peers: usize,
    timeout_ms: u64,
    peer: PeerId,
)
    requires
        state.wf(),
    ensures
        moves_rightly(
            state,
            state.wait_for_online(caller, min_peers, timeout_ms).state,
            None,
            peer,
        ),
        moves_rightly(state, state.cancel_wait(caller).state, None, peer),
        moves_rightly(state, state.wait_expired(caller).state, None, peer),
{
}

proof fn lemma_moves_on_events(
    state: ActorState,
    about: PeerId,
    connection: ConnectionHandle,
    reason: DisconnectReason,
    cause: TransportError,
    peer: PeerId,
)
    requires
        state.wf(),
    ensures
        moves_rightly(state, state.peer_connected(about, connection).state, Some(about), peer),
        moves_rightly(state, state.peer_disconnected(about, reason).state, Some(about), peer),
        moves_rightly(state, state.dial_failed(about, cause).state, Some(about), peer),
        moves_rightly(state, state.ban(about).state, Some(about), peer),
{
}

/// One step moves one peer at most, the one the input is about, and moves
/// it only along the ways that `may_follow` allows. Only a managed peer ever
/// rests in `Disconnected`.
pub proof fn law_peers_move_along_their_states(state: ActorState, input: Input, peer: PeerId)
    requires
        state.wf(),
    ensures
        moves_rightly(state, state.step(input).state, subject(input), peer),
{
    let reason = DisconnectReason { code: 0 };
    let cause = TransportError { code: 0 };
    let connection = ConnectionHandle { id: 0 };
    let caller = RequestId { id: 0 };
    match input {
        Input::RequestDial { caller, peer: about } => lemma_moves_on_requests(
            state,
            caller,
            about,
            peer,
        ),
        Input::GetConnection { caller, peer: about } => lemma_moves_on_requests(
            state,
            caller,
            about,
            peer,
        ),
        Input::CancelDial { caller, peer: about } => lemma_moves_on_requests(
            state,
            caller,
            about,
            peer,
        ),
        Input::ManagePeer { peer: about } => lemma_moves_on_requests(state, caller, about, peer),
        Input::UnmanagePeer { peer: about } => lemma_moves_on_requests(state, caller, about, peer),
        Input::RetryDue { peer: about } => lemma_moves_on_requests(state, caller, about, peer),
        Input::WaitForOnline { caller, min_peers, timeout_ms } => lemma_moves_on_waits(
            state,
            caller,
            min_peers,
            timeout_ms,
            peer,
        ),
        Input::CancelWait { caller } => lemma_moves_on_waits(state, caller, 0, 0, peer),
        Input::WaitExpired { caller } => lemma_moves_on_waits(state, caller, 0, 0, peer),
        Input::Connected { peer: about, connection } => lemma_moves_on_events(
            state,
            about,
            connection,
            reason,
            cause,
            peer,
        ),
        Input::Disconnected { peer: about, reason } => lemma_moves_on_events(
            state,
            about,
            connection,
            reason,
            cause,
            peer,
        ),
        Input::DialFailed { peer: about, reason: cause } => lemma_moves_on_events(
            state,
            about,
            connection,
            reason,
            cause,
            peer,
        ),
        Input::Ban { peer: about } => lemma_moves_on_events(
            state,
            about,
            connection,
            reason,
            cause,
            peer,
        ),
    }
}

} // verus!
