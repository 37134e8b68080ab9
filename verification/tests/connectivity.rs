use p2p_core::connectivity::actor::ConnectivityActor;
use p2p_core::connectivity::error::{
    ConnectionManagerError, ConnectivityError, PeerConnectionError, PeerManagerError,
    TransportError,
};
use p2p_core::connectivity::model::{
    Action, ConnectivityConfig, ConnectivityEvent, DialOutcome, DisconnectReason, Input,
    OnlineOutcome,
};
use p2p_core::connectivity::peer::{
    Backoff, ConnectionHandle, ManagedPeer, PeerId, PeerState, RequestId,
};
use p2p_core::connectivity::pool::PeerPool;
use p2p_core::connectivity::status::{ConnectivityStatus, StatusThresholds};

fn peer(key: u128) -> PeerId {
    PeerId { key }
}

fn caller(id: u64) -> RequestId {
    RequestId { id }
}

fn handle(id: u64) -> ConnectionHandle {
    ConnectionHandle { id }
}

fn config(degraded: usize, online: usize, max_dial_attempts: u32) -> ConnectivityConfig {
    ConnectivityConfig {
        thresholds: StatusThresholds::new(degraded, online).unwrap(),
        max_dial_attempts,
        backoff_step_ms: 100,
    }
}

fn actor() -> ConnectivityActor {
    ConnectivityActor::new(config(1, 3, 3)).unwrap()
}

fn connect(actor: &mut ConnectivityActor, key: u128) -> Vec<Action> {
    actor.handle(Input::Connected { peer: peer(key), connection: handle(key as u64) })
}

fn status_changes(actions: &[Action]) -> Vec<ConnectivityStatus> {
    let mut changes = Vec::new();
    for action in actions {
        if let Action::Emit(ConnectivityEvent::StatusChanged(status)) = action {
            changes.push(*status);
        }
    }
    changes
}

#[test]
fn thresholds_are_accepted_only_in_order_and_above_zero() {
    assert!(StatusThresholds::new(0, 1).is_none());
    assert!(StatusThresholds::new(2, 1).is_none());
    assert!(StatusThresholds::new(0, 0).is_none());
    let thresholds = StatusThresholds::new(1, 3).unwrap();
    assert_eq!(thresholds.degraded(), 1);
    assert_eq!(thresholds.online(), 3);
    assert!(StatusThresholds::new(2, 2).is_some());
}

#[test]
fn status_is_derived_from_the_number_of_connected_peers() {
    let thresholds = StatusThresholds::new(1, 3).unwrap();
    assert_eq!(thresholds.derive(0), ConnectivityStatus::Offline);
    assert_eq!(thresholds.derive(1), ConnectivityStatus::Degraded);
    assert_eq!(thresholds.derive(2), ConnectivityStatus::Degraded);
    assert_eq!(thresholds.derive(3), ConnectivityStatus::Online);
    assert_eq!(thresholds.derive(4), ConnectivityStatus::Online);
    assert_eq!(thresholds.derive(usize::MAX), ConnectivityStatus::Online);

    let strict = StatusThresholds::new(2, 2).unwrap();
    assert_eq!(strict.derive(1), ConnectivityStatus::Offline);
    assert_eq!(strict.derive(2), ConnectivityStatus::Online);
}

#[test]
fn configuration_is_checked() {
    assert!(config(1, 3, 3).is_valid());
    assert!(!config(1, 3, 0).is_valid());
    let mut no_wait = config(1, 3, 3);
    no_wait.backoff_step_ms = 0;
    assert!(!no_wait.is_valid());
    let mut too_long = config(1, 3, 2);
    too_long.backoff_step_ms = u64::MAX;
    assert!(!too_long.is_valid());
    assert!(ConnectivityActor::new(too_long).is_none());
    assert!(ConnectivityActor::new(config(1, 3, 1)).is_some());
}

#[test]
fn each_retry_waits_longer_than_the_one_before() {
    let config = config(1, 3, 3);
    assert_eq!(config.delay_ms(0), 0);
    assert_eq!(config.delay_ms(1), 100);
    assert_eq!(config.delay_ms(2), 200);
    assert_eq!(config.delay_ms(3), 300);
}

#[test]
fn new_actor_is_offline_and_knows_nobody() {
    let actor = actor();
    assert_eq!(actor.status(), ConnectivityStatus::Offline);
    assert_eq!(actor.connected_peers(), 0);
    assert_eq!(actor.peer_state(peer(1)), PeerState::Unknown);
    assert_eq!(actor.peer(peer(1)), None);
    assert_eq!(actor.pending_dials(), 0);
    assert_eq!(actor.pending_waits(), 0);
}

#[test]
fn concurrent_dials_of_one_peer_share_one_attempt_and_one_outcome() {
    let mut actor = actor();
    let first = actor.handle(Input::RequestDial { caller: caller(1), peer: peer(7) });
    assert_eq!(first, vec![Action::Dial(peer(7))]);
    let second = actor.handle(Input::RequestDial { caller: caller(2), peer: peer(7) });
    assert_eq!(second, vec![]);
    let third = actor.handle(Input::RequestDial { caller: caller(3), peer: peer(7) });
    assert_eq!(third, vec![]);
    assert_eq!(actor.peer_state(peer(7)), PeerState::Dialing);
    assert_eq!(actor.pending_dials(), 3);

    let done = actor.handle(Input::Connected { peer: peer(7), connection: handle(70) });
    let outcome = DialOutcome::Connected(handle(70));
    assert_eq!(
        done,
        vec![
            Action::DialReply { caller: caller(1), outcome },
            Action::DialReply { caller: caller(2), outcome },
            Action::DialReply { caller: caller(3), outcome },
            Action::Emit(ConnectivityEvent::PeerConnected(peer(7))),
            Action::Emit(ConnectivityEvent::StatusChanged(ConnectivityStatus::Degraded)),
        ]
    );
    assert_eq!(actor.pending_dials(), 0);
    assert_eq!(actor.peer_state(peer(7)), PeerState::Connected);

    let later = actor.handle(Input::RequestDial { caller: caller(4), peer: peer(7) });
    assert_eq!(later, vec![Action::DialReply { caller: caller(4), outcome }]);
}

#[test]
fn dials_of_different_peers_are_not_shared() {
    let mut actor = actor();
    assert_eq!(
        actor.handle(Input::RequestDial { caller: caller(1), peer: peer(1) }),
        vec![Action::Dial(peer(1))]
    );
    assert_eq!(
        actor.handle(Input::RequestDial { caller: caller(2), peer: peer(2) }),
        vec![Action::Dial(peer(2))]
    );
    let done = actor.handle(Input::Connected { peer: peer(2), connection: handle(20) });
    assert_eq!(
        done[0],
        Action::DialReply { caller: caller(2), outcome: DialOutcome::Connected(handle(20)) }
    );
    assert_eq!(actor.pending_dials(), 1);
    assert_eq!(actor.peer_state(peer(1)), PeerState::Dialing);
}

#[test]
fn failed_dial_is_retried_with_growing_waits_and_then_given_up() {
    let mut actor = actor();
    let cause = TransportError { code: 5 };
    actor.handle(Input::RequestDial { caller: caller(1), peer: peer(7) });

    let first = actor.handle(Input::DialFailed { peer: peer(7), reason: cause });
    assert_eq!(first, vec![Action::RetryAfter { peer: peer(7), delay_ms: 100 }]);
    assert_eq!(
        actor.peer(peer(7)).unwrap().backoff,
        Backoff { attempts: 1, armed: true }
    );
    assert_eq!(actor.handle(Input::DialFailed { peer: peer(7), reason: cause }), vec![]);
    assert_eq!(actor.handle(Input::RetryDue { peer: peer(7) }), vec![Action::Dial(peer(7))]);
    assert_eq!(actor.handle(Input::RetryDue { peer: peer(7) }), vec![]);

    assert_eq!(actor.handle(Input::RequestDial { caller: caller(2), peer: peer(7) }), vec![]);

    let second = actor.handle(Input::DialFailed { peer: peer(7), reason: cause });
    assert_eq!(second, vec![Action::RetryAfter { peer: peer(7), delay_ms: 200 }]);
    assert_eq!(actor.handle(Input::RetryDue { peer: peer(7) }), vec![Action::Dial(peer(7))]);

    let last = TransportError { code: 9 };
    let third = actor.handle(Input::DialFailed { peer: peer(7), reason: last });
    assert_eq!(
        third,
        vec![
            Action::DialReply { caller: caller(1), outcome: DialOutcome::Failed(last) },
            Action::DialReply { caller: caller(2), outcome: DialOutcome::Failed(last) },
        ]
    );
    assert_eq!(actor.peer_state(peer(7)), PeerState::Unknown);
    assert_eq!(actor.pending_dials(), 0);

    let again = actor.handle(Input::RequestDial { caller: caller(3), peer: peer(7) });
    assert_eq!(again, vec![Action::Dial(peer(7))]);
    assert_eq!(actor.pending_dials(), 1);
}

#[test]
fn single_attempt_budget_fails_at_the_first_failure() {
    let mut actor = ConnectivityActor::new(config(1, 3, 1)).unwrap();
    let cause = TransportError { code: 1 };
    actor.handle(Input::RequestDial { caller: caller(1), peer: peer(7) });
    assert_eq!(
        actor.handle(Input::DialFailed { peer: peer(7), reason: cause }),
        vec![Action::DialReply { caller: caller(1), outcome: DialOutcome::Failed(cause) }]
    );
}

#[test]
fn managed_peer_is_dialed_at_once_and_again_after_it_is_lost() {
    let mut actor = actor();
    assert_eq!(actor.handle(Input::ManagePeer { peer: peer(7) }), vec![Action::Dial(peer(7))]);
    assert_eq!(actor.handle(Input::ManagePeer { peer: peer(7) }), vec![]);
    assert_eq!(actor.peer(peer(7)), Some(ManagedPeer {
        peer_id: peer(7),
        connection: None,
        managed: true,
        state: PeerState::Dialing,
        backoff: Backoff { attempts: 0, armed: false },
    }));
    assert_eq!(
        connect(&mut actor, 7),
        vec![
            Action::Emit(ConnectivityEvent::PeerConnected(peer(7))),
            Action::Emit(ConnectivityEvent::StatusChanged(ConnectivityStatus::Degraded)),
        ]
    );
    let reason = DisconnectReason { code: 3 };
    assert_eq!(
        actor.handle(Input::Disconnected { peer: peer(7), reason }),
        vec![
            Action::Emit(ConnectivityEvent::PeerDisconnected(peer(7), reason)),
            Action::Dial(peer(7)),
            Action::Emit(ConnectivityEvent::StatusChanged(ConnectivityStatus::Offline)),
        ]
    );
    assert_eq!(actor.peer_state(peer(7)), PeerState::Dialing);
    assert_eq!(actor.connected_peers(), 0);
}

#[test]
fn managed_peer_rests_after_its_budget_and_starts_a_new_round() {
    let mut actor = actor();
    let cause = TransportError { code: 5 };
    actor.handle(Input::ManagePeer { peer: peer(7) });
    actor.handle(Input::DialFailed { peer: peer(7), reason: cause });
    actor.handle(Input::RetryDue { peer: peer(7) });
    actor.handle(Input::DialFailed { peer: peer(7), reason: cause });
    actor.handle(Input::RetryDue { peer: peer(7) });
    let given_up = actor.handle(Input::DialFailed { peer: peer(7), reason: cause });
    assert_eq!(given_up, vec![Action::RetryAfter { peer: peer(7), delay_ms: 300 }]);
    assert_eq!(actor.peer_state(peer(7)), PeerState::Disconnected);
    assert_eq!(actor.handle(Input::ManagePeer { peer: peer(7) }), vec![]);

    assert_eq!(actor.handle(Input::RetryDue { peer: peer(7) }), vec![Action::Dial(peer(7))]);
    assert_eq!(actor.peer(peer(7)), Some(ManagedPeer {
        peer_id: peer(7),
        connection: None,
        managed: true,
        state: PeerState::Dialing,
        backoff: Backoff { attempts: 0, armed: false },
    }));
}

#[test]
fn request_for_a_resting_peer_starts_its_dial() {
    let mut actor = ConnectivityActor::new(config(1, 3, 1)).unwrap();
    actor.handle(Input::ManagePeer { peer: peer(7) });
    actor.handle(Input::DialFailed { peer: peer(7), reason: TransportError { code: 5 } });
    assert_eq!(actor.peer_state(peer(7)), PeerState::Disconnected);
    assert_eq!(
        actor.handle(Input::RequestDial { caller: caller(1), peer: peer(7) }),
        vec![Action::Dial(peer(7))]
    );
    assert!(actor.peer(peer(7)).unwrap().managed);
    assert_eq!(actor.handle(Input::RetryDue { peer: peer(7) }), vec![]);
}

#[test]
fn unmanaged_peer_is_forgotten_when_it_is_lost() {
    let mut actor = actor();
    connect(&mut actor, 7);
    assert!(!actor.peer(peer(7)).unwrap().managed);
    let reason = DisconnectReason { code: 1 };
    assert_eq!(
        actor.handle(Input::Disconnected { peer: peer(7), reason }),
        vec![
            Action::Emit(ConnectivityEvent::PeerDisconnected(peer(7), reason)),
            Action::Emit(ConnectivityEvent::StatusChanged(ConnectivityStatus::Offline)),
        ]
    );
    assert_eq!(actor.peer_state(peer(7)), PeerState::Unknown);
    assert_eq!(actor.handle(Input::Disconnected { peer: peer(7), reason }), vec![]);
}

#[test]
fn unmanaging_keeps_what_is_in_use() {
    let mut actor = actor();
    assert_eq!(actor.handle(Input::UnmanagePeer { peer: peer(1) }), vec![]);

    actor.handle(Input::ManagePeer { peer: peer(1) });
    assert_eq!(
        actor.handle(Input::UnmanagePeer { peer: peer(1) }),
        vec![Action::AbandonDial(peer(1))]
    );
    assert_eq!(actor.peer_state(peer(1)), PeerState::Unknown);

    actor.handle(Input::ManagePeer { peer: peer(2) });
    actor.handle(Input::RequestDial { caller: caller(1), peer: peer(2) });
    assert_eq!(actor.handle(Input::UnmanagePeer { peer: peer(2) }), vec![]);
    assert_eq!(actor.peer_state(peer(2)), PeerState::Dialing);
    assert!(!actor.peer(peer(2)).unwrap().managed);

    actor.handle(Input::ManagePeer { peer: peer(3) });
    connect(&mut actor, 3);
    assert_eq!(actor.handle(Input::UnmanagePeer { peer: peer(3) }), vec![]);
    assert_eq!(actor.peer_state(peer(3)), PeerState::Connected);
    assert!(!actor.peer(peer(3)).unwrap().managed);
}

#[test]
fn unmanaging_a_resting_peer_forgets_it() {
    let mut actor = ConnectivityActor::new(config(1, 3, 1)).unwrap();
    actor.handle(Input::ManagePeer { peer: peer(7) });
    actor.handle(Input::DialFailed { peer: peer(7), reason: TransportError { code: 5 } });
    assert_eq!(
        actor.handle(Input::UnmanagePeer { peer: peer(7) }),
        vec![Action::AbandonDial(peer(7))]
    );
    assert_eq!(actor.peer_state(peer(7)), PeerState::Unknown);
    assert_eq!(actor.handle(Input::RetryDue { peer: peer(7) }), vec![]);
}

#[test]
fn lookup_does_not_wait_and_does_not_dial() {
    let mut actor = actor();
    assert_eq!(
        actor.handle(Input::GetConnection { caller: caller(1), peer: peer(7) }),
        vec![Action::ConnectionReply { caller: caller(1), connection: None }]
    );
    assert_eq!(actor.peer_state(peer(7)), PeerState::Unknown);
    actor.handle(Input::RequestDial { caller: caller(2), peer: peer(7) });
    assert_eq!(
        actor.handle(Input::GetConnection { caller: caller(1), peer: peer(7) }),
        vec![Action::ConnectionReply { caller: caller(1), connection: None }]
    );
    connect(&mut actor, 7);
    assert_eq!(
        actor.handle(Input::GetConnection { caller: caller(1), peer: peer(7) }),
        vec![Action::ConnectionReply { caller: caller(1), connection: Some(handle(7)) }]
    );
}

#[test]
fn wait_for_three_peers_returns_at_once_when_three_are_connected() {
    let mut actor = actor();
    connect(&mut actor, 1);
    connect(&mut actor, 2);
    connect(&mut actor, 3);
    assert_eq!(
        actor.handle(Input::WaitForOnline { caller: caller(9), min_peers: 3, timeout_ms: 5000 }),
        vec![Action::OnlineReply { caller: caller(9), outcome: OnlineOutcome::Online }]
    );
    assert_eq!(actor.pending_waits(), 0);
    assert_eq!(
        actor.handle(Input::WaitForOnline { caller: caller(9), min_peers: 0, timeout_ms: 1 }),
        vec![Action::OnlineReply { caller: caller(9), outcome: OnlineOutcome::Online }]
    );
}

#[test]
fn wait_for_three_peers_times_out_with_the_count_at_expiry() {
    let mut actor = actor();
    connect(&mut actor, 1);
    assert_eq!(
        actor.handle(Input::WaitForOnline { caller: caller(9), min_peers: 3, timeout_ms: 5000 }),
        vec![Action::ExpireAfter { caller: caller(9), timeout_ms: 5000 }]
    );
    assert_eq!(actor.pending_waits(), 1);
    connect(&mut actor, 2);
    assert_eq!(actor.pending_waits(), 1);
    assert_eq!(
        actor.handle(Input::WaitExpired { caller: caller(9) }),
        vec![Action::OnlineReply { caller: caller(9), outcome: OnlineOutcome::TimedOut(2) }]
    );
    assert_eq!(actor.pending_waits(), 0);
    assert_eq!(actor.handle(Input::WaitExpired { caller: caller(9) }), vec![]);
}

#[test]
fn waiters_are_released_when_enough_peers_are_connected() {
    let mut actor = actor();
    actor.handle(Input::WaitForOnline { caller: caller(1), min_peers: 2, timeout_ms: 10 });
    actor.handle(Input::WaitForOnline { caller: caller(2), min_peers: 3, timeout_ms: 10 });
    actor.handle(Input::WaitForOnline { caller: caller(3), min_peers: 1, timeout_ms: 10 });
    assert_eq!(
        connect(&mut actor, 1),
        vec![
            Action::Emit(ConnectivityEvent::PeerConnected(peer(1))),
            Action::Emit(ConnectivityEvent::StatusChanged(ConnectivityStatus::Degraded)),
            Action::OnlineReply { caller: caller(3), outcome: OnlineOutcome::Online },
        ]
    );
    assert_eq!(
        connect(&mut actor, 2),
        vec![
            Action::Emit(ConnectivityEvent::PeerConnected(peer(2))),
            Action::OnlineReply { caller: caller(1), outcome: OnlineOutcome::Online },
        ]
    );
    assert_eq!(actor.pending_waits(), 1);
    assert_eq!(actor.handle(Input::WaitExpired { caller: caller(1) }), vec![]);
    assert_eq!(
        connect(&mut actor, 3),
        vec![
            Action::Emit(ConnectivityEvent::PeerConnected(peer(3))),
            Action::Emit(ConnectivityEvent::StatusChanged(ConnectivityStatus::Online)),
            Action::OnlineReply { caller: caller(2), outcome: OnlineOutcome::Online },
        ]
    );
    assert_eq!(actor.pending_waits(), 0);
}

#[test]
fn cancelled_wait_is_answered_to_its_caller_only() {
    let mut actor = actor();
    actor.handle(Input::WaitForOnline { caller: caller(1), min_peers: 2, timeout_ms: 10 });
    actor.handle(Input::WaitForOnline { caller: caller(2), min_peers: 2, timeout_ms: 10 });
    assert_eq!(
        actor.handle(Input::CancelWait { caller: caller(1) }),
        vec![Action::OnlineReply { caller: caller(1), outcome: OnlineOutcome::Cancelled }]
    );
    assert_eq!(actor.pending_waits(), 1);
    assert_eq!(actor.handle(Input::CancelWait { caller: caller(1) }), vec![]);
}

#[test]
fn status_is_announced_once_per_threshold_crossed() {
    let mut actor = actor();
    let mut heard = vec![actor.status()];
    for key in 1..=5u128 {
        heard.extend(status_changes(&connect(&mut actor, key)));
    }
    assert_eq!(
        heard,
        vec![ConnectivityStatus::Offline, ConnectivityStatus::Degraded, ConnectivityStatus::Online]
    );
    assert_eq!(actor.status(), ConnectivityStatus::Online);
    assert_eq!(actor.connected_peers(), 5);

    let reason = DisconnectReason { code: 0 };
    let mut heard = vec![actor.status()];
    for key in 1..=5u128 {
        heard.extend(status_changes(&actor.handle(Input::Disconnected { peer: peer(key), reason })));
    }
    assert_eq!(
        heard,
        vec![ConnectivityStatus::Online, ConnectivityStatus::Degraded, ConnectivityStatus::Offline]
    );
    assert_eq!(actor.status(), ConnectivityStatus::Offline);
}

#[test]
fn status_is_not_announced_when_nothing_changed() {
    let mut actor = actor();
    connect(&mut actor, 1);
    let again = connect(&mut actor, 1);
    assert_eq!(again, vec![]);
    let replaced = actor.handle(Input::Connected { peer: peer(1), connection: handle(99) });
    assert_eq!(status_changes(&replaced), vec![]);
    assert_eq!(status_changes(&connect(&mut actor, 2)), vec![]);
    assert_eq!(status_changes(&actor.handle(Input::ManagePeer { peer: peer(8) })), vec![]);
    assert_eq!(
        status_changes(&actor.handle(Input::RequestDial { caller: caller(1), peer: peer(9) })),
        vec![]
    );
}

#[test]
fn new_connection_takes_the_place_of_the_old_one() {
    let mut actor = actor();
    connect(&mut actor, 7);
    assert_eq!(
        actor.handle(Input::Connected { peer: peer(7), connection: handle(8) }),
        vec![
            Action::Close(handle(7)),
            Action::Emit(ConnectivityEvent::PeerConnected(peer(7))),
        ]
    );
    assert_eq!(actor.peer(peer(7)).unwrap().connection, Some(handle(8)));
    assert_eq!(actor.connected_peers(), 1);
}

#[test]
fn ban_is_final() {
    let mut actor = actor();
    connect(&mut actor, 7);
    assert_eq!(
        actor.handle(Input::Ban { peer: peer(7) }),
        vec![
            Action::Close(handle(7)),
            Action::Emit(ConnectivityEvent::PeerBanned(peer(7))),
            Action::Emit(ConnectivityEvent::StatusChanged(ConnectivityStatus::Offline)),
        ]
    );
    assert_eq!(actor.peer(peer(7)), Some(ManagedPeer {
        peer_id: peer(7),
        connection: None,
        managed: false,
        state: PeerState::Banned,
        backoff: Backoff { attempts: 0, armed: false },
    }));
    assert_eq!(actor.connected_peers(), 0);

    assert_eq!(actor.handle(Input::Ban { peer: peer(7) }), vec![]);
    assert_eq!(
        actor.handle(Input::RequestDial { caller: caller(1), peer: peer(7) }),
        vec![Action::DialReply { caller: caller(1), outcome: DialOutcome::Banned }]
    );
    assert_eq!(
        actor.handle(Input::Connected { peer: peer(7), connection: handle(8) }),
        vec![Action::Close(handle(8))]
    );
    assert_eq!(actor.handle(Input::ManagePeer { peer: peer(7) }), vec![]);
    assert_eq!(actor.handle(Input::UnmanagePeer { peer: peer(7) }), vec![]);
    assert_eq!(actor.handle(Input::RetryDue { peer: peer(7) }), vec![]);
    assert_eq!(
        actor.handle(Input::DialFailed { peer: peer(7), reason: TransportError { code: 1 } }),
        vec![]
    );
    assert_eq!(
        actor.handle(Input::GetConnection { caller: caller(1), peer: peer(7) }),
        vec![Action::ConnectionReply { caller: caller(1), connection: None }]
    );
    assert_eq!(actor.peer_state(peer(7)), PeerState::Banned);
    assert_eq!(actor.connected_peers(), 0);
}

#[test]
fn ban_ends_a_dial_for_everyone_who_waits_for_it() {
    let mut actor = actor();
    actor.handle(Input::RequestDial { caller: caller(1), peer: peer(7) });
    actor.handle(Input::RequestDial { caller: caller(2), peer: peer(8) });
    actor.handle(Input::RequestDial { caller: caller(3), peer: peer(7) });
    assert_eq!(
        actor.handle(Input::Ban { peer: peer(7) }),
        vec![
            Action::AbandonDial(peer(7)),
            Action::DialReply { caller: caller(1), outcome: DialOutcome::Banned },
            Action::DialReply { caller: caller(3), outcome: DialOutcome::Banned },
            Action::Emit(ConnectivityEvent::PeerBanned(peer(7))),
        ]
    );
    assert_eq!(actor.pending_dials(), 1);
    assert_eq!(actor.peer_state(peer(8)), PeerState::Dialing);
}

#[test]
fn ban_of_an_unknown_peer_is_remembered() {
    let mut actor = actor();
    assert_eq!(
        actor.handle(Input::Ban { peer: peer(7) }),
        vec![Action::Emit(ConnectivityEvent::PeerBanned(peer(7)))]
    );
    assert_eq!(actor.peer_state(peer(7)), PeerState::Banned);
}

#[test]
fn cancelled_dial_is_answered_to_its_caller_only() {
    let mut actor = actor();
    actor.handle(Input::RequestDial { caller: caller(1), peer: peer(7) });
    actor.handle(Input::RequestDial { caller: caller(2), peer: peer(7) });
    assert_eq!(
        actor.handle(Input::CancelDial { caller: caller(1), peer: peer(7) }),
        vec![Action::DialReply { caller: caller(1), outcome: DialOutcome::Cancelled }]
    );
    assert_eq!(actor.peer_state(peer(7)), PeerState::Dialing);
    assert_eq!(actor.handle(Input::CancelDial { caller: caller(1), peer: peer(7) }), vec![]);
    assert_eq!(
        connect(&mut actor, 7),
        vec![
            Action::DialReply {
                caller: caller(2),
                outcome: DialOutcome::Connected(handle(7)),
            },
            Action::Emit(ConnectivityEvent::PeerConnected(peer(7))),
            Action::Emit(ConnectivityEvent::StatusChanged(ConnectivityStatus::Degraded)),
        ]
    );
}

#[test]
fn dial_is_abandoned_when_every_caller_cancelled() {
    let mut actor = actor();
    actor.handle(Input::RequestDial { caller: caller(1), peer: peer(7) });
    actor.handle(Input::RequestDial { caller: caller(2), peer: peer(7) });
    actor.handle(Input::CancelDial { caller: caller(1), peer: peer(7) });
    assert_eq!(
        actor.handle(Input::CancelDial { caller: caller(2), peer: peer(7) }),
        vec![
            Action::DialReply { caller: caller(2), outcome: DialOutcome::Cancelled },
            Action::AbandonDial(peer(7)),
        ]
    );
    assert_eq!(actor.peer_state(peer(7)), PeerState::Unknown);
}

#[test]
fn dial_of_a_managed_peer_outlives_its_callers() {
    let mut actor = actor();
    actor.handle(Input::ManagePeer { peer: peer(7) });
    actor.handle(Input::RequestDial { caller: caller(1), peer: peer(7) });
    assert_eq!(
        actor.handle(Input::CancelDial { caller: caller(1), peer: peer(7) }),
        vec![Action::DialReply { caller: caller(1), outcome: DialOutcome::Cancelled }]
    );
    assert_eq!(actor.peer_state(peer(7)), PeerState::Dialing);
}

#[test]
fn cancel_of_one_peer_leaves_other_peers_alone() {
    let mut actor = actor();
    actor.handle(Input::RequestDial { caller: caller(1), peer: peer(7) });
    actor.handle(Input::RequestDial { caller: caller(1), peer: peer(8) });
    actor.handle(Input::CancelDial { caller: caller(1), peer: peer(7) });
    assert_eq!(actor.peer_state(peer(8)), PeerState::Dialing);
    assert_eq!(actor.pending_dials(), 1);
}

#[test]
fn inbound_connection_of_an_unknown_peer_is_taken_in() {
    let mut actor = actor();
    assert_eq!(
        connect(&mut actor, 7),
        vec![
            Action::Emit(ConnectivityEvent::PeerConnected(peer(7))),
            Action::Emit(ConnectivityEvent::StatusChanged(ConnectivityStatus::Degraded)),
        ]
    );
    assert_eq!(actor.peer(peer(7)), Some(ManagedPeer {
        peer_id: peer(7),
        connection: Some(handle(7)),
        managed: false,
        state: PeerState::Connected,
        backoff: Backoff { attempts: 0, armed: false },
    }));
}

#[test]
fn stray_events_are_ignored() {
    let mut actor = actor();
    assert_eq!(actor.handle(Input::RetryDue { peer: peer(7) }), vec![]);
    assert_eq!(
        actor.handle(Input::DialFailed { peer: peer(7), reason: TransportError { code: 1 } }),
        vec![]
    );
    assert_eq!(
        actor.handle(Input::Disconnected { peer: peer(7), reason: DisconnectReason { code: 1 } }),
        vec![]
    );
    assert_eq!(actor.handle(Input::CancelDial { caller: caller(1), peer: peer(7) }), vec![]);
    assert_eq!(actor.handle(Input::WaitExpired { caller: caller(1) }), vec![]);
    assert_eq!(actor.peer_state(peer(7)), PeerState::Unknown);
}

#[test]
fn pool_holds_one_entry_for_each_peer() {
    let mut pool = PeerPool::new();
    assert_eq!(pool.get(peer(1)), None);
    assert_eq!(pool.connected(), 0);
    pool.put(ManagedPeer::dialing(peer(1), false));
    pool.put(ManagedPeer::connected(peer(2), handle(2), true));
    assert_eq!(pool.connected(), 1);
    pool.put(ManagedPeer::connected(peer(1), handle(1), false));
    assert_eq!(pool.connected(), 2);
    assert_eq!(pool.get(peer(1)), Some(ManagedPeer::connected(peer(1), handle(1), false)));
    pool.put(ManagedPeer::resting(peer(2)));
    assert_eq!(pool.connected(), 1);
    assert_eq!(pool.get(peer(2)).unwrap().state, PeerState::Disconnected);
    pool.remove(peer(1));
    assert_eq!(pool.get(peer(1)), None);
    assert_eq!(pool.connected(), 0);
    pool.remove(peer(1));
    pool.put(ManagedPeer::banned(peer(2)));
    assert_eq!(pool.get(peer(2)).unwrap().state, PeerState::Banned);
}

#[test]
fn dial_outcomes_read_as_results() {
    assert_eq!(DialOutcome::Connected(handle(1)).into_result(peer(7)), Ok(handle(1)));
    assert_eq!(
        DialOutcome::Failed(TransportError { code: 4 }).into_result(peer(7)),
        Err(ConnectivityError::ConnectionFailed(ConnectionManagerError::Transport(
            TransportError { code: 4 }
        )))
    );
    assert_eq!(
        DialOutcome::Cancelled.into_result(peer(7)),
        Err(ConnectivityError::DialCancelled)
    );
    assert_eq!(
        DialOutcome::Banned.into_result(peer(7)),
        Err(ConnectivityError::PeerManagerError(PeerManagerError::BannedPeer(peer(7))))
    );
}

#[test]
fn online_outcomes_read_as_results() {
    assert_eq!(OnlineOutcome::Online.into_result(), Ok(()));
    assert_eq!(
        OnlineOutcome::TimedOut(2).into_result(),
        Err(ConnectivityError::OnlineWaitTimeout(2))
    );
    assert_eq!(
        OnlineOutcome::Cancelled.into_result(),
        Err(ConnectivityError::ClientCancelled("wait for connectivity".to_string()))
    );
}

#[test]
fn connection_manager_errors_become_connectivity_errors() {
    assert_eq!(
        ConnectivityError::from(ConnectionManagerError::DialCancelled),
        ConnectivityError::DialCancelled
    );
    let transport = ConnectionManagerError::Transport(TransportError { code: 2 });
    assert_eq!(ConnectivityError::from(transport), ConnectivityError::ConnectionFailed(transport));
    assert_eq!(
        ConnectivityError::from(PeerManagerError::PeerNotFound(peer(1))),
        ConnectivityError::PeerManagerError(PeerManagerError::PeerNotFound(peer(1)))
    );
    assert_eq!(
        ConnectivityError::from(PeerConnectionError::ConnectionClosed),
        ConnectivityError::PeerConnectionError(PeerConnectionError::ConnectionClosed)
    );
}

#[test]
fn only_a_lost_actor_is_fatal() {
    assert!(ConnectivityError::ActorDisconnected.is_fatal());
    assert!(!ConnectivityError::ActorResponseCancelled.is_fatal());
    assert!(!ConnectivityError::DialCancelled.is_fatal());
    assert!(!ConnectivityError::OnlineWaitTimeout(0).is_fatal());
    assert!(!ConnectivityError::ConnectivityEventStreamClosed.is_fatal());
    assert!(!ConnectivityError::ClientCancelled("x".to_string()).is_fatal());
}
