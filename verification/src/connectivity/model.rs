//! The connectivity actor as a transition system: what it holds, what can
//! happen to it, and what it does about each thing that happens.

use crate::connectivity::error::{
    ConnectionManagerError, ConnectivityError, PeerManagerError, TransportError,
};
use crate::connectivity::peer::{Backoff, ConnectionHandle, ManagedPeer, PeerId, PeerState, RequestId};
use crate::connectivity::pool::{connected_count, entry_of, keyed, state_of};
use crate::connectivity::status::{ConnectivityStatus, StatusThresholds};
use vstd::prelude::*;
use vstd::string::*;

verus! {

/// The policy of the actor.
#[derive(Clone, Copy, Debug)]
pub struct ConnectivityConfig {
    pub thresholds: StatusThresholds,
    /// How many attempts one dial may take before it is given up.
    pub max_dial_attempts: u32,
    /// The wait before the first retry; the n-th retry waits n times as long.
    pub backoff_step_ms: u64,
}

impl ConnectivityConfig {
    /// A dial gets at least one attempt, retries wait, and the longest wait
    /// fits the timer.
    pub open spec fn wf(&self) -> bool {
        &&& self.thresholds.wf()
        &&& self.max_dial_attempts >= 1
        &&& self.backoff_step_ms >= 1
        &&& self.max_dial_attempts * self.backoff_step_ms <= u64::MAX
    }

    /// The wait after the given number of failed attempts.
    pub open spec fn retry_delay(&self, attempts: nat) -> nat {
        attempts * (self.backoff_step_ms as nat)
    }

    pub fn is_valid(&self) -> (valid: bool)
        ensures
            valid == self.wf(),
    {
        let longest = (self.max_dial_attempts as u64).checked_mul(self.backoff_step_ms);
        1 <= self.thresholds.degraded() && self.thresholds.degraded() <= self.thresholds.online()
            && self.max_dial_attempts >= 1 && self.backoff_step_ms >= 1 && longest.is_some()
    }

    /// The wait, in milliseconds, after the given number of failed attempts.
    pub fn delay_ms(&self, attempts: u32) -> (delay: u64)
        requires
            self.wf(),
            attempts <= self.max_dial_attempts,
        ensures
            delay == self.retry_delay(attempts as nat),
    {
        assert(attempts * self.backoff_step_ms <= self.max_dial_attempts * self.backoff_step_ms)
            by (nonlinear_arith)
            requires
                attempts <= self.max_dial_attempts,
        ;
        (attempts as u64) * self.backoff_step_ms
    }
}

/// A caller that waits for the dial of a peer to end.
#[derive(Clone, Copy, Debug, PartialEq, Eq, Structural)]
pub struct DialWaiter {
    pub caller: RequestId,
    pub peer: PeerId,
}

/// A caller that waits for the node to have enough peers.
#[derive(Clone, Copy, Debug, PartialEq, Eq, Structural)]
pub struct OnlineWaiter {
    pub caller: RequestId,
    pub min_peers: usize,
}

/// Why a connection ended.
#[derive(Clone, Copy, Debug, PartialEq, Eq, Structural)]
pub struct DisconnectReason {
    pub code: u32,
}

/// What the actor announces to whoever listens.
#[derive(Clone, Copy, Debug, PartialEq, Eq)]
pub enum ConnectivityEvent {
    PeerConnected(PeerId),
    PeerDisconnected(PeerId, DisconnectReason),
    PeerBanned(PeerId),
    StatusChanged(ConnectivityStatus),
}

/// How a request to dial ended.
#[derive(Clone, Copy, Debug, PartialEq, Eq)]
pub enum DialOutcome {
    Connected(ConnectionHandle),
    /// The dial ran out of attempts; this was the last failure.
    Failed(TransportError),
    /// The caller itself gave the request up.
    Cancelled,
    /// The peer is banned.
    Banned,
}

/// How a wait for connectivity ended.
#[derive(Clone, Copy, Debug, PartialEq, Eq)]
pub enum OnlineOutcome {
    Online,
    /// The wait expired with this many peers connected.
    TimedOut(usize),
    /// The caller itself gave the wait up.
    Cancelled,
}

impl DialOutcome {
    /// The outcome as the caller of a dial sees it: the connection, or the
    /// error that stands for the way the dial ended.
    pub open spec fn spec_into_result(self, peer: PeerId) -> Result<
        ConnectionHandle,
        ConnectivityError,
    > {
        match self {
            DialOutcome::Connected(connection) => Ok(connection),
            DialOutcome::Failed(cause) => Err(
                ConnectivityError::ConnectionFailed(ConnectionManagerError::Transport(cause)),
            ),
            DialOutcome::Cancelled => Err(ConnectivityError::DialCancelled),
            DialOutcome::Banned => Err(
                ConnectivityError::PeerManagerError(PeerManagerError::BannedPeer(peer)),
            ),
        }
    }

    pub fn into_result(self, peer: PeerId) -> (result: Result<ConnectionHandle, ConnectivityError>)
        ensures
            result == self.spec_into_result(peer),
    {
        match self {
            DialOutcome::Connected(connection) => Ok(connection),
            DialOutcome::Failed(cause) => Err(
                ConnectivityError::from(ConnectionManagerError::Transport(cause)),
            ),
            DialOutcome::Cancelled => Err(
                ConnectivityError::from(ConnectionManagerError::DialCancelled),
            ),
            DialOutcome::Banned => Err(ConnectivityError::from(PeerManagerError::BannedPeer(peer))),
        }
    }
}

/// What a caller reads when it gave up its own wait for connectivity.
pub open spec fn wait_cancelled_text() -> Seq<char> {
    "wait for connectivity"@
}

impl OnlineOutcome {
    /// The outcome as the caller of a wait sees it. A wait that timed out
    /// carries the number of peers that were connected when it did.
    pub fn into_result(self) -> (result: Result<(), ConnectivityError>)
        ensures
            match self {
                OnlineOutcome::Online => result is Ok,
                OnlineOutcome::TimedOut(count) => result matches Err(
                    ConnectivityError::OnlineWaitTimeout(reported),
                ) && reported == count,
                OnlineOutcome::Cancelled => result matches Err(
                    ConnectivityError::ClientCancelled(text),
                ) && text@ == wait_cancelled_text(),
            },
    {
        match self {
            OnlineOutcome::Online => Ok(()),
            OnlineOutcome::TimedOut(count) => Err(ConnectivityError::OnlineWaitTimeout(count)),
            OnlineOutcome::Cancelled => Err(
                ConnectivityError::ClientCancelled(String::from_str("wait for connectivity")),
            ),
        }
    }
}

/// What can happen to the actor.
#[derive(Clone, Copy, Debug, PartialEq, Eq)]
pub enum Input {
    /// A caller wants a connection to a peer.
    RequestDial { caller: RequestId, peer: PeerId },
    /// A caller asks for the connection to a peer, if there is one.
    GetConnection { caller: RequestId, peer: PeerId },
    /// A caller wants to be told when enough peers are connected.
    WaitForOnline { caller: RequestId, min_peers: usize, timeout_ms: u64 },
    /// The peer is to be redialed whenever its connection is lost.
    ManagePeer { peer: PeerId },
    /// The peer is no longer to be redialed.
    UnmanagePeer { peer: PeerId },
    /// A caller gave up its request to dial a peer.
    CancelDial { caller: RequestId, peer: PeerId },
    /// A caller gave up its wait for connectivity.
    CancelWait { caller: RequestId },
    /// The time a caller gave its wait for connectivity is over.
    WaitExpired { caller: RequestId },
    /// The wait before the next dial of a peer is over.
    RetryDue { peer: PeerId },
    /// The connection manager holds a new connection to a peer.
    Connected { peer: PeerId, connection: ConnectionHandle },
    /// The connection manager lost the connection to a peer.
    Disconnected { peer: PeerId, reason: DisconnectReason },
    /// A dial attempt failed.
    DialFailed { peer: PeerId, reason: TransportError },
    /// The peer was banned.
    Ban { peer: PeerId },
}

/// What the actor asks of its surroundings.
#[derive(Clone, Copy, Debug, PartialEq, Eq)]
pub enum Action {
    /// Start a dial attempt.
    Dial(PeerId),
    /// Stop the dial attempt and the retry timer of a peer.
    AbandonDial(PeerId),
    /// Report `RetryDue` for the peer after the delay.
    RetryAfter { peer: PeerId, delay_ms: u64 },
    /// Report `WaitExpired` for the caller after the timeout.
    ExpireAfter { caller: RequestId, timeout_ms: u64 },
    /// Close a connection that is no longer the peer's.
    Close(ConnectionHandle),
    DialReply { caller: RequestId, outcome: DialOutcome },
    ConnectionReply { caller: RequestId, connection: Option<ConnectionHandle> },
    OnlineReply { caller: RequestId, outcome: OnlineOutcome },
    Emit(ConnectivityEvent),
}

/// Everything the actor holds.
pub struct ActorState {
    pub config: ConnectivityConfig,
    pub peers: Map<PeerId, ManagedPeer>,
    /// The callers that wait for a dial, oldest first.
    pub dial_waiters: Seq<DialWaiter>,
    /// The callers that wait for connectivity, oldest first.
    pub online_waiters: Seq<OnlineWaiter>,
    /// The status as last announced.
    pub status: ConnectivityStatus,
}

/// A state and what was done on the way to it.
pub struct Step {
    pub state: ActorState,
    pub actions: Seq<Action>,
}

impl ActorState {
    /// The state of an actor that has seen nothing yet.
    pub open spec fn initial(config: ConnectivityConfig) -> Self {
        ActorState {
            config,
            peers: Map::empty(),
            dial_waiters: Seq::empty(),
            online_waiters: Seq::empty(),
            status: ConnectivityStatus::Offline,
        }
    }

    /// What holds of the actor between any two steps:
    /// the pool is keyed by peer and every entry is consistent; whoever
    /// waits for a dial waits for a peer that is being dialed; whoever waits
    /// for connectivity wants more peers than are connected; and the status
    /// is the one that the number of connected peers gives.
    pub open spec fn wf(&self) -> bool {
        &&& self.config.wf()
        &&& keyed(self.peers)
        &&& forall|id: PeerId| #[trigger]
            self.peers.contains_key(id) ==> self.peers[id].wf(self.config.max_dial_attempts)
        &&& forall|i: int|
            0 <= i < self.dial_waiters.len() ==> state_of(
                self.peers,
                (#[trigger] self.dial_waiters[i]).peer,
            ) is Dialing
        &&& forall|i: int|
            0 <= i < self.online_waiters.len() ==> connected_count(self.peers)
                < (#[trigger] self.online_waiters[i]).min_peers
        &&& self.status == self.config.thresholds.status_of(connected_count(self.peers))
    }

    /// The number of connected peers.
    pub open spec fn connected(&self) -> nat {
        connected_count(self.peers)
    }

    /// Nothing changes and nothing is done.
    pub open spec fn idle(self) -> Step {
        Step { state: self, actions: Seq::empty() }
    }

    /// Nothing changes, and one thing is done.
    pub open spec fn answer(self, action: Action) -> Step {
        Step { state: self, actions: seq![action] }
    }
}

/// The waiters for the dial of one peer.
pub open spec fn waits_for(peer: PeerId) -> spec_fn(DialWaiter) -> bool {
    |w: DialWaiter| w.peer == peer
}

/// The waiters for the dial of any other peer.
pub open spec fn waits_for_other(peer: PeerId) -> spec_fn(DialWaiter) -> bool {
    |w: DialWaiter| w.peer != peer
}

/// The answer that one waiter for a dial gets.
pub open spec fn dial_reply(outcome: DialOutcome) -> spec_fn(DialWaiter) -> Action {
    |w: DialWaiter| Action::DialReply { caller: w.caller, outcome }
}

/// The answers to everyone who waits for the dial of `peer`, oldest waiter
/// first: all of them get the same outcome.
pub open spec fn dial_replies(waiters: Seq<DialWaiter>, peer: PeerId, outcome: DialOutcome) -> Seq<
    Action,
> {
    waiters.filter(waits_for(peer)).map_values(dial_reply(outcome))
}

/// The one request of `caller` to dial `peer`.
pub open spec fn is_request(caller: RequestId, peer: PeerId) -> spec_fn(DialWaiter) -> bool {
    |w: DialWaiter| w.caller == caller && w.peer == peer
}

/// Every request but that of `caller` to dial `peer`.
pub open spec fn is_other_request(caller: RequestId, peer: PeerId) -> spec_fn(DialWaiter) -> bool {
    |w: DialWaiter| !(w.caller == caller && w.peer == peer)
}

/// The waiters that `count` connected peers are enough for.
pub open spec fn satisfied_by(count: nat) -> spec_fn(OnlineWaiter) -> bool {
    |w: OnlineWaiter| w.min_peers <= count
}

/// The waiters that `count` connected peers are not enough for.
pub open spec fn unsatisfied_by(count: nat) -> spec_fn(OnlineWaiter) -> bool {
    |w: OnlineWaiter| w.min_peers > count
}

/// The waits of one caller.
pub open spec fn wait_of(caller: RequestId) -> spec_fn(OnlineWaiter) -> bool {
    |w: OnlineWaiter| w.caller == caller
}

/// The waits of every other caller.
pub open spec fn wait_of_other(caller: RequestId) -> spec_fn(OnlineWaiter) -> bool {
    |w: OnlineWaiter| w.caller != caller
}

/// The answer that one waiter for connectivity gets.
pub open spec fn online_reply(outcome: OnlineOutcome) -> spec_fn(OnlineWaiter) -> Action {
    |w: OnlineWaiter| Action::OnlineReply { caller: w.caller, outcome }
}

/// The announcement of a status, made only if it differs from the last one.
pub open spec fn status_events(last: ConnectivityStatus, now: ConnectivityStatus) -> Seq<Action> {
    if last == now {
        Seq::empty()
    } else {
        seq![Action::Emit(ConnectivityEvent::StatusChanged(now))]
    }
}

impl ActorState {
    /// The end of every step that touches the pool: the pool is replaced,
    /// the status is derived anew and announced if it changed, and every
    /// waiter that now has enough peers is told so and forgotten.
    pub open spec fn settle(self, peers: Map<PeerId, ManagedPeer>, done: Seq<Action>) -> Step {
        let count = connected_count(peers);
        let status = self.config.thresholds.status_of(count);
        Step {
            state: ActorState {
                peers,
                status,
                online_waiters: self.online_waiters.filter(unsatisfied_by(count)),
                ..self
            },
            actions: done + status_events(self.status, status) + self.online_waiters.filter(
                satisfied_by(count),
            ).map_values(online_reply(OnlineOutcome::Online)),
        }
    }

    /// A request to dial. A banned peer is refused and a connected peer is
    /// answered at once. A peer that is being dialed gets one more waiter and
    /// no second dial. Any other peer gets an entry, a dial, and a waiter.
    pub open spec fn request_dial(self, caller: RequestId, peer: PeerId) -> Step {
        let waiter = DialWaiter { caller, peer };
        match state_of(self.peers, peer) {
            PeerState::Banned => self.answer(
                Action::DialReply { caller, outcome: DialOutcome::Banned },
            ),
            PeerState::Connected => self.answer(
                Action::DialReply {
                    caller,
                    outcome: DialOutcome::Connected(self.peers[peer].connection->0),
                },
            ),
            PeerState::Dialing => Step {
                state: ActorState { dial_waiters: self.dial_waiters.push(waiter), ..self },
                actions: Seq::empty(),
            },
            PeerState::Unknown => Step {
                state: ActorState {
                    peers: self.peers.insert(peer, ManagedPeer::spec_dialing(peer, false)),
                    dial_waiters: self.dial_waiters.push(waiter),
                    ..self
                },
                actions: seq![Action::Dial(peer)],
            },
            PeerState::Disconnected => Step {
                state: ActorState {
                    peers: self.peers.insert(peer, ManagedPeer::spec_dialing(peer, true)),
                    dial_waiters: self.dial_waiters.push(waiter),
                    ..self
                },
                actions: seq![Action::Dial(peer)],
            },
        }
    }

    /// A lookup: the connection of the peer if it is connected, none
    /// otherwise. Nothing changes.
    pub open spec fn get_connection(self, caller: RequestId, peer: PeerId) -> Step {
        self.answer(
            Action::ConnectionReply {
                caller,
                connection: match entry_of(self.peers, peer) {
                    Some(entry) => entry.connection,
                    None => None,
                },
            },
        )
    }

    /// A wait for connectivity: answered at once if enough peers are
    /// connected, else kept, with a timer for its timeout.
    pub open spec fn wait_for_online(self, caller: RequestId, min_peers: usize, timeout_ms: u64) -> Step {
        if min_peers <= self.connected() {
            self.answer(Action::OnlineReply { caller, outcome: OnlineOutcome::Online })
        } else {
            Step {
                state: ActorState {
                    online_waiters: self.online_waiters.push(OnlineWaiter { caller, min_peers }),
                    ..self
                },
                actions: seq![Action::ExpireAfter { caller, timeout_ms }],
            }
        }
    }

    /// The timeout of a wait: if the caller still waits, it is told how many
    /// peers are connected now, and forgotten.
    pub open spec fn wait_expired(self, caller: RequestId) -> Step {
        Step {
            state: ActorState {
                online_waiters: self.online_waiters.filter(wait_of_other(caller)),
                ..self
            },
            actions: self.online_waiters.filter(wait_of(caller)).map_values(
                online_reply(OnlineOutcome::TimedOut(self.connected() as usize)),
            ),
        }
    }

    /// A caller gave up its wait: it is told so, and forgotten.
    pub open spec fn cancel_wait(self, caller: RequestId) -> Step {
        Step {
            state: ActorState {
                online_waiters: self.online_waiters.filter(wait_of_other(caller)),
                ..self
            },
            actions: self.online_waiters.filter(wait_of(caller)).map_values(
                online_reply(OnlineOutcome::Cancelled),
            ),
        }
    }

    /// Whether the dial of a peer has become nobody's business: the peer is
    /// being dialed, is not managed, and nobody in `waiters` waits for it.
    pub open spec fn is_orphaned(self, peer: PeerId, waiters: Seq<DialWaiter>) -> bool {
        &&& state_of(self.peers, peer) is Dialing
        &&& !self.peers[peer].managed
        &&& waiters.filter(waits_for(peer)).len() == 0
    }

    /// A caller gave up its request to dial: it alone is told so. The dial
    /// goes on for whoever else waits for it, and for a managed peer; if
    /// nobody is left, it is abandoned and the peer forgotten.
    pub open spec fn cancel_dial(self, caller: RequestId, peer: PeerId) -> Step {
        let left = self.dial_waiters.filter(is_other_request(caller, peer));
        let replies = self.dial_waiters.filter(is_request(caller, peer)).map_values(
            dial_reply(DialOutcome::Cancelled),
        );
        if replies.len() > 0 && self.is_orphaned(peer, left) {
            Step {
                state: ActorState { peers: self.peers.remove(peer), dial_waiters: left, ..self },
                actions: replies + seq![Action::AbandonDial(peer)],
            }
        } else {
            Step { state: ActorState { dial_waiters: left, ..self }, actions: replies }
        }
    }

    /// A peer becomes managed. A banned peer stays banned. A peer without an
    /// entry gets one and is dialed at once.
    pub open spec fn manage_peer(self, peer: PeerId) -> Step {
        match state_of(self.peers, peer) {
            PeerState::Banned | PeerState::Disconnected => self.idle(),
            PeerState::Unknown => Step {
                state: ActorState {
                    peers: self.peers.insert(peer, ManagedPeer::spec_dialing(peer, true)),
                    ..self
                },
                actions: seq![Action::Dial(peer)],
            },
            PeerState::Dialing | PeerState::Connected => Step {
                state: ActorState {
                    peers: self.peers.insert(
                        peer,
                        ManagedPeer { managed: true, ..self.peers[peer] },
                    ),
                    ..self
                },
                actions: Seq::empty(),
            },
        }
    }

    /// A peer stops being managed. A connection it has stays. A dial goes on
    /// only while somebody waits for it. A peer that merely waited for its
    /// next round is forgotten.
    pub open spec fn unmanage_peer(self, peer: PeerId) -> Step {
        match state_of(self.peers, peer) {
            PeerState::Banned | PeerState::Unknown => self.idle(),
            PeerState::Disconnected => Step {
                state: ActorState { peers: self.peers.remove(peer), ..self },
                actions: seq![Action::AbandonDial(peer)],
            },
            PeerState::Connected => Step {
                state: ActorState {
                    peers: self.peers.insert(
                        peer,
                        ManagedPeer { managed: false, ..self.peers[peer] },
                    ),
                    ..self
                },
                actions: Seq::empty(),
            },
            PeerState::Dialing => if self.dial_waiters.filter(waits_for(peer)).len() == 0 {
                Step {
                    state: ActorState { peers: self.peers.remove(peer), ..self },
                    actions: seq![Action::AbandonDial(peer)],
                }
            } else {
                Step {
                    state: ActorState {
                        peers: self.peers.insert(
                            peer,
                            ManagedPeer { managed: false, ..self.peers[peer] },
                        ),
                        ..self
                    },
                    actions: Seq::empty(),
                }
            },
        }
    }

    /// A new connection. To a banned peer it is closed. To a connected peer
    /// it takes the place of the old connection, which is closed. To any
    /// other peer it ends the dial: everyone who waits for it gets the
    /// connection, and the peer counts as connected.
    pub open spec fn peer_connected(self, peer: PeerId, connection: ConnectionHandle) -> Step {
        match state_of(self.peers, peer) {
            PeerState::Banned => self.answer(Action::Close(connection)),
            PeerState::Connected => if self.peers[peer].connection == Some(connection) {
                self.idle()
            } else {
                Step {
                    state: ActorState {
                        peers: self.peers.insert(
                            peer,
                            ManagedPeer { connection: Some(connection), ..self.peers[peer] },
                        ),
                        ..self
                    },
                    actions: seq![
                        Action::Close(self.peers[peer].connection->0),
                        Action::Emit(ConnectivityEvent::PeerConnected(peer)),
                    ],
                }
            },
            PeerState::Unknown => ActorState {
                dial_waiters: self.dial_waiters.filter(waits_for_other(peer)),
                ..self
            }.settle(
                self.peers.insert(peer, ManagedPeer::spec_connected(peer, connection, false)),
                dial_replies(self.dial_waiters, peer, DialOutcome::Connected(connection))
                    + seq![Action::Emit(ConnectivityEvent::PeerConnected(peer))],
            ),
            PeerState::Dialing | PeerState::Disconnected => ActorState {
                dial_waiters: self.dial_waiters.filter(waits_for_other(peer)),
                ..self
            }.settle(
                self.peers.insert(
                    peer,
                    ManagedPeer::spec_connected(peer, connection, self.peers[peer].managed),
                ),
                dial_replies(self.dial_waiters, peer, DialOutcome::Connected(connection))
                    + seq![Action::Emit(ConnectivityEvent::PeerConnected(peer))],
            ),
        }
    }

    /// A lost connection. A managed peer is dialed again at once; any other
    /// peer is forgotten.
    pub open spec fn peer_disconnected(self, peer: PeerId, reason: DisconnectReason) -> Step {
        if state_of(self.peers, peer) is Connected {
            if self.peers[peer].managed {
                self.settle(
                    self.peers.insert(peer, ManagedPeer::spec_dialing(peer, true)),
                    seq![
                        Action::Emit(ConnectivityEvent::PeerDisconnected(peer, reason)),
                        Action::Dial(peer),
                    ],
                )
            } else {
                self.settle(
                    self.peers.remove(peer),
                    seq![Action::Emit(ConnectivityEvent::PeerDisconnected(peer, reason))],
                )
            }
        } else {
            self.idle()
        }
    }

    /// A failed dial attempt. While attempts are left, the next one is
    /// scheduled, each after a longer wait than the one before. After the
    /// last, everyone who waits for the dial gets the failure; a managed
    /// peer rests until its next round, any other peer is forgotten.
    pub open spec fn dial_failed(self, peer: PeerId, reason: TransportError) -> Step {
        if state_of(self.peers, peer) is Dialing && !self.peers[peer].backoff.armed {
            let entry = self.peers[peer];
            let attempts = (entry.backoff.attempts + 1) as u32;
            if attempts < self.config.max_dial_attempts {
                Step {
                    state: ActorState {
                        peers: self.peers.insert(
                            peer,
                            ManagedPeer { backoff: Backoff { attempts, armed: true }, ..entry },
                        ),
                        ..self
                    },
                    actions: seq![
                        Action::RetryAfter {
                            peer,
                            delay_ms: self.config.retry_delay(attempts as nat) as u64,
                        },
                    ],
                }
            } else {
                let replies = dial_replies(self.dial_waiters, peer, DialOutcome::Failed(reason));
                let left = self.dial_waiters.filter(waits_for_other(peer));
                if entry.managed {
                    Step {
                        state: ActorState {
                            peers: self.peers.insert(peer, ManagedPeer::spec_resting(peer)),
                            dial_waiters: left,
                            ..self
                        },
                        actions: replies + seq![
                            Action::RetryAfter {
                                peer,
                                delay_ms: self.config.retry_delay(
                                    self.config.max_dial_attempts as nat,
                                ) as u64,
                            },
                        ],
                    }
                } else {
                    Step {
                        state: ActorState {
                            peers: self.peers.remove(peer),
                            dial_waiters: left,
                            ..self
                        },
                        actions: replies,
                    }
                }
            }
        } else {
            self.idle()
        }
    }

    /// A retry timer ran out. It counts only if one is running for the
    /// peer: then the peer is dialed.
    pub open spec fn retry_due(self, peer: PeerId) -> Step {
        if self.peers.contains_key(peer) && self.peers[peer].backoff.armed {
            let entry = self.peers[peer];
            Step {
                state: ActorState {
                    peers: self.peers.insert(
                        peer,
                        ManagedPeer {
                            state: PeerState::Dialing,
                            backoff: Backoff { attempts: entry.backoff.attempts, armed: false },
                            ..entry
                        },
                    ),
                    ..self
                },
                actions: seq![Action::Dial(peer)],
            }
        } else {
            self.idle()
        }
    }

    /// What has to be undone for a peer that is banned: its connection is
    /// closed, its dial abandoned.
    pub open spec fn severed(self, peer: PeerId) -> Seq<Action> {
        match entry_of(self.peers, peer) {
            Some(entry) => match entry.state {
                PeerState::Connected => seq![Action::Close(entry.connection->0)],
                PeerState::Dialing | PeerState::Disconnected => seq![Action::AbandonDial(peer)],
                _ => Seq::empty(),
            },
            None => Seq::empty(),
        }
    }

    /// A ban. It is final: the peer loses its connection and its dial,
    /// everyone who waits for it is told, and nothing will be done for the
    /// peer again.
    pub open spec fn ban(self, peer: PeerId) -> Step {
        if state_of(self.peers, peer) is Banned {
            self.idle()
        } else {
            ActorState {
                dial_waiters: self.dial_waiters.filter(waits_for_other(peer)),
                ..self
            }.settle(
                self.peers.insert(peer, ManagedPeer::spec_banned(peer)),
                self.severed(peer) + dial_replies(self.dial_waiters, peer, DialOutcome::Banned)
                    + seq![Action::Emit(ConnectivityEvent::PeerBanned(peer))],
            )
        }
    }

    /// What the actor does about one thing that happens to it.
    pub open spec fn step(self, input: Input) -> Step {
        match input {
            Input::RequestDial { caller, peer } => self.request_dial(caller, peer),
            Input::GetConnection { caller, peer } => self.get_connection(caller, peer),
            Input::WaitForOnline { caller, min_peers, timeout_ms } => self.wait_for_online(
                caller,
                min_peers,
                timeout_ms,
            ),
            Input::ManagePeer { peer } => self.manage_peer(peer),
            Input::UnmanagePeer { peer } => self.unmanage_peer(peer),
            Input::CancelDial { caller, peer } => self.cancel_dial(caller, peer),
            Input::CancelWait { caller } => self.cancel_wait(caller),
            Input::WaitExpired { caller } => self.wait_expired(caller),
            Input::RetryDue { peer } => self.retry_due(peer),
            Input::Connected { peer, connection } => self.peer_connected(peer, connection),
            Input::Disconnected { peer, reason } => self.peer_disconnected(peer, reason),
            Input::DialFailed { peer, reason } => self.dial_failed(peer, reason),
            Input::Ban { peer } => self.ban(peer),
        }
    }

    /// What the actor does about a series of things, one after the other.
    pub open spec fn run(self, inputs: Seq<Input>) -> Step
        decreases inputs.len(),
    {
        if inputs.len() == 0 {
            self.idle()
        } else {
            let before = self.run(inputs.drop_last());
            let last = before.state.step(inputs.last());
            Step { state: last.state, actions: before.actions + last.actions }
        }
    }
}

} // verus!
