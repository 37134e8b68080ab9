use crate::connectivity::peer::PeerId;
use vstd::prelude::*;

verus! {

/// A failure of the transport below the connection manager, by its code.
#[derive(Clone, Copy, Debug, PartialEq, Eq, Structural)]
pub struct TransportError {
    pub code: u32,
}

/// Why the connection manager could not produce a connection.
#[derive(Clone, Copy, Debug, PartialEq, Eq, Structural)]
pub enum ConnectionManagerError {
    /// The dial was cancelled before it completed.
    DialCancelled,
    /// The dial ran and failed in the transport.
    Transport(TransportError),
}

/// Why the peer manager refused a peer.
#[derive(Clone, Copy, Debug, PartialEq, Eq, Structural)]
pub enum PeerManagerError {
    /// The peer is banned.
    BannedPeer(PeerId),
    /// The peer is not known.
    PeerNotFound(PeerId),
}

/// Why an established connection could not be used.
#[derive(Clone, Copy, Debug, PartialEq, Eq, Structural)]
pub enum PeerConnectionError {
    /// The connection was closed while a request was in flight.
    ConnectionClosed,
}

/// Errors of the connectivity actor.
#[derive(Clone, Debug, PartialEq, Eq)]
pub enum ConnectivityError {
    /// The request could not be sent because the actor is gone.
    ActorDisconnected,
    /// The actor dropped the request without answering it.
    ActorResponseCancelled,
    PeerManagerError(PeerManagerError),
    PeerConnectionError(PeerConnectionError),
    /// The dial ran out of attempts.
    ConnectionFailed(ConnectionManagerError),
    /// The stream of connectivity events ended.
    ConnectivityEventStreamClosed,
    /// The node did not come online in time; this many peers were connected
    /// when the wait expired.
    OnlineWaitTimeout(usize),
    /// The pending dial was cancelled.
    DialCancelled,
    /// The client gave up on its request.
    ClientCancelled(String),
}

impl ConnectivityError {
    /// A cancelled dial is reported as such; every other failure of the
    /// connection manager is a failed connection that carries the cause.
    pub open spec fn spec_from_connection_manager(err: ConnectionManagerError) -> Self {
        match err {
            ConnectionManagerError::DialCancelled => ConnectivityError::DialCancelled,
            _ => ConnectivityError::ConnectionFailed(err),
        }
    }

    /// Whether the actor is gone for good: every later request fails the
    /// same way.
    pub open spec fn spec_is_fatal(&self) -> bool {
        self is ActorDisconnected
    }

    pub fn is_fatal(&self) -> (fatal: bool)
        ensures
            fatal == self.spec_is_fatal(),
    {
        match self {
            ConnectivityError::ActorDisconnected => true,
            _ => false,
        }
    }
}

impl From<ConnectionManagerError> for ConnectivityError {
    fn from(err: ConnectionManagerError) -> (error: Self) {
        match err {
            ConnectionManagerError::DialCancelled => ConnectivityError::DialCancelled,
            err => ConnectivityError::ConnectionFailed(err),
        }
    }
}

impl vstd::std_specs::convert::FromSpecImpl<ConnectionManagerError> for ConnectivityError {
    open spec fn obeys_from_spec() -> bool {
        true
    }

    open spec fn from_spec(err: ConnectionManagerError) -> Self {
        Self::spec_from_connection_manager(err)
    }
}

impl From<PeerManagerError> for ConnectivityError {
    fn from(err: PeerManagerError) -> (error: Self) {
        ConnectivityError::PeerManagerError(err)
    }
}

impl vstd::std_specs::convert::FromSpecImpl<PeerManagerError> for ConnectivityError {
    open spec fn obeys_from_spec() -> bool {
        true
    }

    open spec fn from_spec(err: PeerManagerError) -> Self {
        ConnectivityError::PeerManagerError(err)
    }
}

impl From<PeerConnectionError> for ConnectivityError {
    fn from(err: PeerConnectionError) -> (error: Self) {
        ConnectivityError::PeerConnectionError(err)
    }
}

impl vstd::std_specs::convert::FromSpecImpl<PeerConnectionError> for ConnectivityError {
    open spec fn obeys_from_spec() -> bool {
        true
    }

    open spec fn from_spec(err: PeerConnectionError) -> Self {
        ConnectivityError::PeerConnectionError(err)
    }
}

} // verus!
