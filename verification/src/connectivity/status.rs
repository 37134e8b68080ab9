use vstd::prelude::*;

verus! {

/// How well the node is connected, judged by the number of connected peers.
#[derive(Clone, Copy, Debug, PartialEq, Eq, Structural)]
pub enum ConnectivityStatus {
    Offline,
    Degraded,
    Online,
}

impl ConnectivityStatus {
    /// The position of a status on the scale from `Offline` to `Online`.
    pub open spec fn rank(self) -> int {
        match self {
            ConnectivityStatus::Offline => 0,
            ConnectivityStatus::Degraded => 1,
            ConnectivityStatus::Online => 2,
        }
    }
}

/// The peer counts at which the status changes: with fewer than `degraded`
/// connected peers the node is offline, from `online` peers on it is online,
/// and degraded in between.
#[derive(Clone, Copy, Debug, PartialEq, Eq)]
pub struct StatusThresholds {
    degraded: usize,
    online: usize,
}

impl StatusThresholds {
    /// The least number of connected peers at which the node is not offline.
    pub closed spec fn spec_degraded(&self) -> nat {
        self.degraded as nat
    }

    /// The least number of connected peers at which the node is online.
    pub closed spec fn spec_online(&self) -> nat {
        self.online as nat
    }

    /// A node with no peers is offline, and the online threshold is not below
    /// the degraded one.
    pub open spec fn wf(&self) -> bool {
        1 <= self.spec_degraded() <= self.spec_online()
    }

    /// The status at a given number of connected peers.
    pub open spec fn status_of(&self, connected: nat) -> ConnectivityStatus {
        if connected >= self.spec_online() {
            ConnectivityStatus::Online
        } else if connected >= self.spec_degraded() {
            ConnectivityStatus::Degraded
        } else {
            ConnectivityStatus::Offline
        }
    }

    /// Thresholds are accepted if and only if the degraded threshold is at
    /// least one and the online threshold is not below it.
    pub fn new(degraded: usize, online: usize) -> (thresholds: Option<Self>)
        ensures
            thresholds is Some <==> 1 <= degraded <= online,
            thresholds matches Some(t) ==> t.wf() && t.spec_degraded() == degraded
                && t.spec_online() == online,
    {
        if 1 <= degraded && degraded <= online {
            Some(StatusThresholds { degraded, online })
        } else {
            None
        }
    }

    pub fn degraded(&self) -> (degraded: usize)
        ensures
            degraded == self.spec_degraded(),
    {
        self.degraded
    }

    pub fn online(&self) -> (online: usize)
        ensures
            online == self.spec_online(),
    {
        self.online
    }

    /// Derives the status from the number of connected peers.
    pub fn derive(&self, connected: usize) -> (status: ConnectivityStatus)
        ensures
            status == self.status_of(connected as nat),
    {
        if connected >= self.online {
            ConnectivityStatus::Online
        } else if connected >= self.degraded {
            ConnectivityStatus::Degraded
        } else {
            ConnectivityStatus::Offline
        }
    }
}

/// The status never falls when the number of connected peers rises.
pub proof fn law_status_monotone(thresholds: StatusThresholds, fewer: nat, more: nat)
    requires
        thresholds.wf(),
        fewer <= more,
    ensures
        thresholds.status_of(fewer).rank() <= thresholds.status_of(more).rank(),
{
}

/// The status changes only where the count crosses a threshold: one more
/// peer changes it exactly when the new count is one of the two thresholds,
/// and then it rises.
pub proof fn law_status_follows_thresholds(thresholds: StatusThresholds, connected: nat)
    requires
        thresholds.wf(),
    ensures
        thresholds.status_of(connected) != thresholds.status_of(connected + 1) <==> (connected
            + 1 == thresholds.spec_degraded() || connected + 1 == thresholds.spec_online()),
        thresholds.status_of(0) == ConnectivityStatus::Offline,
        thresholds.status_of(connected) == ConnectivityStatus::Online <==> connected
            >= thresholds.spec_online(),
        thresholds.status_of(connected) == ConnectivityStatus::Offline <==> connected
            < thresholds.spec_degraded(),
{
}

} // verus!
