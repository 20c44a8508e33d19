//! Peer and chain counters tracked by the UI.

use vstd::prelude::*;
use crate::backend::events::{SpvEvent, SpvEventView};
use crate::backend::types::{ManagerId, ManagerProgress};

verus! {

/// Network info tracked by the UI.
#[derive(Debug, Clone, Copy, PartialEq, Eq, Structural)]
pub struct NetworkInfo {
    pub connected_peers: u32,
    pub best_height: u32,
    pub chain_tip: u32,
}

impl Default for NetworkInfo {
    fn default() -> (r: Self)
        ensures
            r == (NetworkInfo { connected_peers: 0, best_height: 0, chain_tip: 0 }),
    {
        NetworkInfo { connected_peers: 0, best_height: 0, chain_tip: 0 }
    }
}

/// Chain tip after scanning manager reports: the current height of the
/// last headers manager entry, or `tip` if there is none.
pub open spec fn headers_tip(managers: Seq<ManagerProgress>, tip: u32) -> u32
    decreases managers.len(),
{
    if managers.len() == 0 {
        tip
    } else {
        let t = if managers[0].manager == ManagerId::Headers {
            managers[0].current_height
        } else {
            tip
        };
        headers_tip(managers.drop_first(), t)
    }
}

/// Whether [`NetworkInfo::apply_event`] can apply `e` to `info` (a peer
/// connection must not overflow the peer counter).
pub open spec fn network_event_applicable(info: NetworkInfo, e: SpvEventView) -> bool {
    e is PeerConnected ==> info.connected_peers < u32::MAX
}

/// The network info after applying event `e`.
pub open spec fn network_after(info: NetworkInfo, e: SpvEventView) -> NetworkInfo {
    match e {
        SpvEventView::PeerConnected(_) => NetworkInfo {
            connected_peers: (info.connected_peers + 1) as u32,
            ..info
        },
        SpvEventView::PeerDisconnected(_) => NetworkInfo {
            connected_peers: if info.connected_peers > 0 {
                (info.connected_peers - 1) as u32
            } else {
                0
            },
            ..info
        },
        SpvEventView::PeersUpdated { count, best_height } => NetworkInfo {
            connected_peers: count,
            best_height,
            ..info
        },
        SpvEventView::HeadersSynced { tip_height } => NetworkInfo { chain_tip: tip_height, ..info },
        SpvEventView::SyncComplete { tip_height, .. } => NetworkInfo {
            chain_tip: tip_height,
            ..info
        },
        SpvEventView::SyncProgressUpdated(p) => NetworkInfo {
            chain_tip: headers_tip(p.managers, info.chain_tip),
            ..info
        },
        _ => info,
    }
}

impl NetworkInfo {
    /// Apply an SPV event to update network info.
    pub fn apply_event(&mut self, event: &SpvEvent)
        requires
            network_event_applicable(*old(self), event@),
        ensures
            *final(self) == network_after(*old(self), event@),
    {
        match event {
            SpvEvent::PeerConnected(_) => {
                self.connected_peers = self.connected_peers + 1;
            },
            SpvEvent::PeerDisconnected(_) => {
                self.connected_peers = self.connected_peers.saturating_sub(1);
            },
            SpvEvent::PeersUpdated { count, best_height } => {
                self.connected_peers = *count;
                self.best_height = *best_height;
            },
            SpvEvent::HeadersSynced { tip_height } => {
                self.chain_tip = *tip_height;
            },
            SpvEvent::SyncComplete { tip_height, .. } => {
                self.chain_tip = *tip_height;
            },
            SpvEvent::SyncProgressUpdated(progress) => {
                let managers = &progress.managers;
                let mut i: usize = 0;
                assert(managers@.skip(0) =~= managers@);
                while i < managers.len()
                    invariant
                        i <= managers@.len(),
                        managers@ == event@->SyncProgressUpdated_0.managers,
                        headers_tip(managers@.skip(i as int), self.chain_tip) == headers_tip(
                            managers@,
                            old(self).chain_tip,
                        ),
                        self.connected_peers == old(self).connected_peers,
                        self.best_height == old(self).best_height,
                    decreases managers.len() - i,
                {
                    assert(managers@.skip(i as int).drop_first() =~= managers@.skip(i + 1));
                    if managers[i].manager == ManagerId::Headers {
                        self.chain_tip = managers[i].current_height;
                    }
                    i = i + 1;
                }
            },
            _ => {},
        }
    }
}

/// A peer that connects and then disconnects leaves the peer count as it was.
pub proof fn law_peer_connect_disconnect_restores(info: NetworkInfo, a: Seq<char>, b: Seq<char>)
    requires
        info.connected_peers < u32::MAX,
    ensures
        network_after(
            network_after(info, SpvEventView::PeerConnected(a)),
            SpvEventView::PeerDisconnected(b),
        ) == info,
{
}

/// A disconnect never takes the peer count below zero, and lowers it by one
/// when peers are connected.
pub proof fn law_peer_disconnect_saturates(info: NetworkInfo, a: Seq<char>)
    ensures
        network_after(info, SpvEventView::PeerDisconnected(a)).connected_peers == if info.connected_peers
            == 0 {
            0
        } else {
            info.connected_peers - 1
        },
{
}

} // verus!
