use vstd::prelude::*;

verus! {

/// An opaque, fixed-width identifier of a remote peer. It is derived from
/// the peer's public key outside this crate; here it is only ever compared.
#[derive(Clone, Copy, Debug, PartialEq, Eq, Hash, Structural)]
pub struct PeerId {
    pub key: u128,
}

/// A live connection to a peer, as handed out by the connection manager.
#[derive(Clone, Copy, Debug, PartialEq, Eq, Structural)]
pub struct ConnectionHandle {
    pub id: u64,
}

/// Identifies one pending request, so that its answer finds its caller.
#[derive(Clone, Copy, Debug, PartialEq, Eq, Structural)]
pub struct RequestId {
    pub id: u64,
}

/// Where a peer stands. A peer the pool holds no entry for is `Unknown`.
#[derive(Clone, Copy, Debug, PartialEq, Eq, Structural)]
pub enum PeerState {
    Unknown,
    Dialing,
    Connected,
    Disconnected,
    Banned,
}

/// The retry bookkeeping of a peer's dial.
#[derive(Clone, Copy, Debug, PartialEq, Eq, Structural)]
pub struct Backoff {
    /// Failed attempts of the dial in progress.
    pub attempts: u32,
    /// Whether a retry timer is running for the peer.
    pub armed: bool,
}

/// One entry of the peer pool.
#[derive(Clone, Copy, Debug, PartialEq, Eq)]
pub struct ManagedPeer {
    pub peer_id: PeerId,
    pub connection: Option<ConnectionHandle>,
    /// Whether the peer is redialed when its connection is lost.
    pub managed: bool,
    pub state: PeerState,
    pub backoff: Backoff,
}

impl ManagedPeer {
    /// An entry is consistent when it holds a connection exactly while it is
    /// connected, when only a managed peer rests in `Disconnected`, when a
    /// banned peer holds nothing, and when a retry timer runs only for a
    /// peer that is being dialed or waits to be dialed again. `Unknown` is
    /// the state of a peer without an entry.
    pub open spec fn wf(&self, max_attempts: u32) -> bool {
        &&& !(self.state is Unknown)
        &&& self.connection is Some <==> self.state is Connected
        &&& self.state is Disconnected ==> self.managed
        &&& self.state is Banned ==> !self.managed
        &&& self.backoff.armed ==> self.state is Dialing || self.state is Disconnected
        &&& self.backoff.attempts > 0 ==> self.state is Dialing
        &&& self.backoff.attempts < max_attempts
    }

    /// The entry of a peer whose first dial attempt has just been started.
    pub open spec fn spec_dialing(peer_id: PeerId, managed: bool) -> Self {
        ManagedPeer {
            peer_id,
            connection: None,
            managed,
            state: PeerState::Dialing,
            backoff: Backoff { attempts: 0, armed: false },
        }
    }

    /// The entry of a connected peer.
    pub open spec fn spec_connected(
        peer_id: PeerId,
        connection: ConnectionHandle,
        managed: bool,
    ) -> Self {
        ManagedPeer {
            peer_id,
            connection: Some(connection),
            managed,
            state: PeerState::Connected,
            backoff: Backoff { attempts: 0, armed: false },
        }
    }

    /// The entry of a managed peer whose dial ran out of attempts and that
    /// waits for its next round.
    pub open spec fn spec_resting(peer_id: PeerId) -> Self {
        ManagedPeer {
            peer_id,
            connection: None,
            managed: true,
            state: PeerState::Disconnected,
            backoff: Backoff { attempts: 0, armed: true },
        }
    }

    /// What is left of a banned peer.
    pub open spec fn spec_banned(peer_id: PeerId) -> Self {
        ManagedPeer {
            peer_id,
            connection: None,
            managed: false,
            state: PeerState::Banned,
            backoff: Backoff { attempts: 0, armed: false },
        }
    }

    pub fn dialing(peer_id: PeerId, managed: bool) -> (entry: Self)
        ensures
            entry == Self::spec_dialing(peer_id, managed),
    {
        ManagedPeer {
            peer_id,
            connection: None,
            managed,
            state: PeerState::Dialing,
            backoff: Backoff { attempts: 0, armed: false },
        }
    }

    pub fn connected(peer_id: PeerId, connection: ConnectionHandle, managed: bool) -> (entry: Self)
        ensures
            entry == Self::spec_connected(peer_id, connection, managed),
    {
        ManagedPeer {
            peer_id,
            connection: Some(connection),
            managed,
            state: PeerState::Connected,
            backoff: Backoff { attempts: 0, armed: false },
        }
    }

    pub fn resting(peer_id: PeerId) -> (entry: Self)
        ensures
            entry == Self::spec_resting(peer_id),
    {
        ManagedPeer {
            peer_id,
            connection: None,
            managed: true,
            state: PeerState::Disconnected,
            backoff: Backoff { attempts: 0, armed: true },
        }
    }

    pub fn banned(peer_id: PeerId) -> (entry: Self)
        ensures
            entry == Self::spec_banned(peer_id),
    {
        ManagedPeer {
            peer_id,
            connection: None,
            managed: false,
            state: PeerState::Banned,
            backoff: Backoff { attempts: 0, armed: false },
        }
    }
}

} // verus!
