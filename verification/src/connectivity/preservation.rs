//! Every step of the actor keeps its state well-formed.

use crate::connectivity::error::TransportError;
use crate::connectivity::model::{
    is_other_request, unsatisfied_by, wait_of_other, waits_for, waits_for_other, Action,
    ActorState, DialWaiter, DisconnectReason, Input,
};
use crate::connectivity::peer::{ConnectionHandle, ManagedPeer, PeerId, RequestId};
use crate::connectivity::pool::{
    connected_count, keyed, lemma_connected_insert, lemma_connected_remove, state_of,
};
use vstd::prelude::*;

verus! {

/// What a filter keeps: only what passes, only what was there, and all of
/// what passes.
pub proof fn lemma_filter_keeps<A>(s: Seq<A>, pred: spec_fn(A) -> bool)
    ensures
        forall|i: int|
            0 <= i < s.filter(pred).len() ==> pred(#[trigger] s.filter(pred)[i]) && s.contains(
                s.filter(pred)[i],
            ),
        forall|i: int| 0 <= i < s.len() && pred(s[i]) ==> s.filter(pred).contains(#[trigger] s[i]),
        s.filter(pred).len() <= s.len(),
{
    broadcast use vstd::seq_lib::group_filter_ensures;

    assert forall|i: int| 0 <= i < s.filter(pred).len() implies pred(#[trigger] s.filter(pred)[i])
        && s.contains(s.filter(pred)[i]) by {
        let kept = s.filter(pred)[i];
        assert(s.filter(pred).contains(kept));
        s.lemma_filter_contains_rev(pred, kept);
    }
}

/// Waiters for other peers are not touched when the entry of one peer is.
proof fn lemma_other_waiters(
    before: Map<PeerId, ManagedPeer>,
    after: Map<PeerId, ManagedPeer>,
    waiters: Seq<DialWaiter>,
    peer: PeerId,
)
    requires
        forall|id: PeerId| id != peer ==> state_of(after, id) == state_of(before, id),
        forall|i: int|
            0 <= i < waiters.len() ==> state_of(before, (#[trigger] waiters[i]).peer) is Dialing,
    ensures
        forall|i: int|
            0 <= i < waiters.filter(waits_for_other(peer)).len() ==> state_of(
                after,
                (#[trigger] waiters.filter(waits_for_other(peer))[i]).peer,
            ) is Dialing,
{
    lemma_filter_keeps(waiters, waits_for_other(peer));
    let left = waiters.filter(waits_for_other(peer));
    assert forall|i: int| 0 <= i < left.len() implies state_of(after, (#[trigger] left[i]).peer)
        is Dialing by {
        let w = left[i];
        assert(waits_for_other(peer)(w));
        assert(waiters.contains(w));
        let k = choose|k: int| 0 <= k < waiters.len() && waiters[k] == w;
        assert(state_of(before, waiters[k].peer) is Dialing);
    }
}

/// The end of a step leaves a well-formed state behind, if the new pool is
/// consistent and everyone who still waits for a dial waits for a peer that
/// is being dialed.
proof fn lemma_settle(state: ActorState, peers: Map<PeerId, ManagedPeer>, done: Seq<
    Action,
>)
    requires
        state.config.wf(),
        keyed(peers),
        forall|id: PeerId| #[trigger]
            peers.contains_key(id) ==> peers[id].wf(state.config.max_dial_attempts),
        forall|i: int|
            0 <= i < state.dial_waiters.len() ==> state_of(
                peers,
                (#[trigger] state.dial_waiters[i]).peer,
            ) is Dialing,
    ensures
        state.settle(peers, done).state.wf(),
{
    lemma_filter_keeps(state.online_waiters, unsatisfied_by(connected_count(peers)));
}

proof fn lemma_request_dial(state: ActorState, caller: RequestId, peer: PeerId)
    requires
        state.wf(),
    ensures
        state.request_dial(caller, peer).state.wf(),
{
    let next = state.request_dial(caller, peer).state;
    lemma_connected_insert(state.peers, ManagedPeer::spec_dialing(peer, false));
    lemma_connected_insert(state.peers, ManagedPeer::spec_dialing(peer, true));
    assert forall|i: int| 0 <= i < next.dial_waiters.len() implies state_of(
        next.peers,
        (#[trigger] next.dial_waiters[i]).peer,
    ) is Dialing by {
        if i < state.dial_waiters.len() {
            assert(next.dial_waiters[i] == state.dial_waiters[i]);
        }
    }
}

proof fn lemma_wait_for_online(state: ActorState, caller: RequestId, min_peers: usize, timeout_ms: u64)
    requires
        state.wf(),
    ensures
        state.wait_for_online(caller, min_peers, timeout_ms).state.wf(),
{
    let next = state.wait_for_online(caller, min_peers, timeout_ms).state;
    assert forall|i: int| 0 <= i < next.online_waiters.len() implies connected_count(next.peers)
        < (#[trigger] next.online_waiters[i]).min_peers by {
        if i < state.online_waiters.len() {
            assert(next.online_waiters[i] == state.online_waiters[i]);
        }
    }
}

proof fn lemma_drop_waits(state: ActorState, caller: RequestId)
    requires
        state.wf(),
    ensures
        state.wait_expired(caller).state.wf(),
        state.cancel_wait(caller).state.wf(),
{
    lemma_filter_keeps(state.online_waiters, wait_of_other(caller));
    let left = state.online_waiters.filter(wait_of_other(caller));
    assert forall|i: int| 0 <= i < left.len() implies connected_count(state.peers) < (#[trigger] left[i]).min_peers by {
        let w = left[i];
        assert(state.online_waiters.contains(w));
        let k = choose|k: int| 0 <= k < state.online_waiters.len() && state.online_waiters[k] == w;
        assert(connected_count(state.peers) < state.online_waiters[k].min_peers);
    }
}

proof fn lemma_cancel_dial(state: ActorState, caller: RequestId, peer: PeerId)
    requires
        state.wf(),
    ensures
        state.cancel_dial(caller, peer).state.wf(),
{
    let next = state.cancel_dial(caller, peer).state;
    let left = state.dial_waiters.filter(is_other_request(caller, peer));
    lemma_filter_keeps(state.dial_waiters, is_other_request(caller, peer));
    lemma_filter_keeps(left, waits_for(peer));
    lemma_connected_remove(state.peers, peer);
    assert forall|i: int| 0 <= i < left.len() implies state_of(next.peers, (#[trigger] left[i]).peer)
        is Dialing by {
        let w = left[i];
        assert(state.dial_waiters.contains(w));
        let k = choose|k: int| 0 <= k < state.dial_waiters.len() && state.dial_waiters[k] == w;
        assert(state_of(state.peers, state.dial_waiters[k].peer) is Dialing);
        if w.peer == peer && next.peers != state.peers {
            assert(waits_for(peer)(left[i]));
            assert(left.filter(waits_for(peer)).contains(left[i]));
        }
    }
}

proof fn lemma_manage(state: ActorState, peer: PeerId)
    requires
        state.wf(),
    ensures
        state.manage_peer(peer).state.wf(),
        state.unmanage_peer(peer).state.wf(),
{
    lemma_connected_insert(state.peers, ManagedPeer::spec_dialing(peer, true));
    lemma_connected_remove(state.peers, peer);
    if state.peers.contains_key(peer) {
        lemma_connected_insert(state.peers, ManagedPeer { managed: true, ..state.peers[peer] });
        lemma_connected_insert(state.peers, ManagedPeer { managed: false, ..state.peers[peer] });
    }
    let managed = state.manage_peer(peer).state;
    assert forall|i: int| 0 <= i < managed.dial_waiters.len() implies state_of(
        managed.peers,
        (#[trigger] managed.dial_waiters[i]).peer,
    ) is Dialing by {
        assert(state_of(state.peers, state.dial_waiters[i].peer) is Dialing);
    }
    let unmanaged = state.unmanage_peer(peer).state;
    lemma_filter_keeps(state.dial_waiters, waits_for(peer));
    assert forall|i: int| 0 <= i < unmanaged.dial_waiters.len() implies state_of(
        unmanaged.peers,
        (#[trigger] unmanaged.dial_waiters[i]).peer,
    ) is Dialing by {
        assert(state_of(state.peers, state.dial_waiters[i].peer) is Dialing);
        if state.dial_waiters[i].peer == peer {
            assert(waits_for(peer)(state.dial_waiters[i]));
            assert(state.dial_waiters.filter(waits_for(peer)).contains(state.dial_waiters[i]));
        }
    }
}

proof fn lemma_peer_connected(state: ActorState, peer: PeerId, connection: ConnectionHandle)
    requires
        state.wf(),
    ensures
        state.peer_connected(peer, connection).state.wf(),
{
    let left = ActorState {
        dial_waiters: state.dial_waiters.filter(waits_for_other(peer)),
        ..state
    };
    let done = Seq::<Action>::empty();
    if state.peers.contains_key(peer) {
        let entry = state.peers[peer];
        let replaced = ManagedPeer { connection: Some(connection), ..entry };
        lemma_connected_insert(state.peers, replaced);
        let fresh = ManagedPeer::spec_connected(peer, connection, entry.managed);
        lemma_other_waiters(state.peers, state.peers.insert(peer, fresh), state.dial_waiters, peer);
        lemma_settle(left, state.peers.insert(peer, fresh), done);
        let next = state.peer_connected(peer, connection).state;
        assert forall|i: int| 0 <= i < next.dial_waiters.len() && state_of(state.peers, peer)
            is Connected implies state_of(next.peers, (#[trigger] next.dial_waiters[i]).peer)
            is Dialing by {
            assert(state_of(state.peers, state.dial_waiters[i].peer) is Dialing);
        }
    } else {
        let fresh = ManagedPeer::spec_connected(peer, connection, false);
        lemma_other_waiters(state.peers, state.peers.insert(peer, fresh), state.dial_waiters, peer);
        lemma_settle(left, state.peers.insert(peer, fresh), done);
    }
}

proof fn lemma_peer_disconnected(state: ActorState, peer: PeerId, reason: DisconnectReason)
    requires
        state.wf(),
    ensures
        state.peer_disconnected(peer, reason).state.wf(),
{
    let done = Seq::<Action>::empty();
    if state_of(state.peers, peer) is Connected {
        let peers = if state.peers[peer].managed {
            state.peers.insert(peer, ManagedPeer::spec_dialing(peer, true))
        } else {
            state.peers.remove(peer)
        };
        assert forall|i: int| 0 <= i < state.dial_waiters.len() implies state_of(
            peers,
            (#[trigger] state.dial_waiters[i]).peer,
        ) is Dialing by {
            assert(state_of(state.peers, state.dial_waiters[i].peer) is Dialing);
        }
        lemma_settle(state, peers, done);
    }
}

proof fn lemma_dial_failed(state: ActorState, peer: PeerId, reason: TransportError)
    requires
        state.wf(),
    ensures
        state.dial_failed(peer, reason).state.wf(),
{
    if state_of(state.peers, peer) is Dialing && !state.peers[peer].backoff.armed {
        let entry = state.peers[peer];
        let next = state.dial_failed(peer, reason).state;
        lemma_connected_insert(state.peers, next.peers[peer]);
        lemma_connected_insert(state.peers, ManagedPeer::spec_resting(peer));
        lemma_connected_remove(state.peers, peer);
        lemma_other_waiters(state.peers, next.peers, state.dial_waiters, peer);
        assert forall|i: int| 0 <= i < next.dial_waiters.len() implies state_of(
            next.peers,
            (#[trigger] next.dial_waiters[i]).peer,
        ) is Dialing by {
            if next.dial_waiters == state.dial_waiters {
                assert(state_of(state.peers, state.dial_waiters[i].peer) is Dialing);
            }
        }
    }
}

proof fn lemma_retry_due(state: ActorState, peer: PeerId)
    requires
        state.wf(),
    ensures
        state.retry_due(peer).state.wf(),
{
    let next = state.retry_due(peer).state;
    if state.peers.contains_key(peer) && state.peers[peer].backoff.armed {
        lemma_connected_insert(state.peers, next.peers[peer]);
        assert forall|i: int| 0 <= i < next.dial_waiters.len() implies state_of(
            next.peers,
            (#[trigger] next.dial_waiters[i]).peer,
        ) is Dialing by {
            assert(state_of(state.peers, state.dial_waiters[i].peer) is Dialing);
        }
    }
}

proof fn lemma_ban(state: ActorState, peer: PeerId)
    requires
        state.wf(),
    ensures
        state.ban(peer).state.wf(),
{
    if !(state_of(state.peers, peer) is Banned) {
        let left = ActorState {
            dial_waiters: state.dial_waiters.filter(waits_for_other(peer)),
            ..state
        };
        let peers = state.peers.insert(peer, ManagedPeer::spec_banned(peer));
        lemma_other_waiters(state.peers, peers, state.dial_waiters, peer);
        lemma_settle(left, peers, Seq::empty());
    }
}

/// Whatever happens to a well-formed actor, it stays well-formed, and its
/// policy stays what it was.
pub proof fn law_step_preserves_wf(state: ActorState, input: Input)
    requires
        state.wf(),
    ensures
        state.step(input).state.wf(),
        state.step(input).state.config == state.config,
{
    match input {
        Input::RequestDial { caller, peer } => lemma_request_dial(state, caller, peer),
        Input::GetConnection { caller, peer } => {},
        Input::WaitForOnline { caller, min_peers, timeout_ms } => lemma_wait_for_online(
            state,
            caller,
            min_peers,
            timeout_ms,
        ),
        Input::ManagePeer { peer } => lemma_manage(state, peer),
        Input::UnmanagePeer { peer } => lemma_manage(state, peer),
        Input::CancelDial { caller, peer } => lemma_cancel_dial(state, caller, peer),
        Input::CancelWait { caller } => lemma_drop_waits(state, caller),
        Input::WaitExpired { caller } => lemma_drop_waits(state, caller),
        Input::RetryDue { peer } => lemma_retry_due(state, peer),
        Input::Connected { peer, connection } => lemma_peer_connected(state, peer, connection),
        Input::Disconnected { peer, reason } => lemma_peer_disconnected(state, peer, reason),
        Input::DialFailed { peer, reason } => lemma_dial_failed(state, peer, reason),
        Input::Ban { peer } => lemma_ban(state, peer),
    }
}

/// A well-formed actor stays well-formed through any series of inputs, and
/// its policy stays what it was.
pub proof fn law_run_preserves_wf(state: ActorState, inputs: Seq<Input>)
    requires
        state.wf(),
    ensures
        state.run(inputs).state.wf(),
        state.run(inputs).state.config == state.config,
    decreases inputs.len(),
{
    if inputs.len() > 0 {
        law_run_preserves_wf(state, inputs.drop_last());
        law_step_preserves_wf(state.run(inputs.drop_last()).state, inputs.last());
    }
}

} // verus!
