//! Events emitted by an SPV backend.

use vstd::prelude::*;
use crate::backend::types::{
    ManagerId, SyncProgress, SyncProgressModel, TransactionInfo, TransactionInfoView,
    WalletCoreBalance,
};

verus! {

/// Events emitted by the SPV backend.
#[derive(Debug, PartialEq)]
pub enum SpvEvent {
    // Sync events
    SyncProgressUpdated(Box<SyncProgress>),
    SyncStarted { manager: ManagerId },
    HeadersSynced { tip_height: u32 },
    FiltersSynced { tip_height: u32 },
    BlockProcessed { height: u32, new_addresses: u32 },
    SyncComplete { tip_height: u32, cycle: u32 },
    // Network events
    PeerConnected(String),
    PeerDisconnected(String),
    PeersUpdated { count: u32, best_height: u32 },
    // Wallet events
    TransactionReceived(Box<TransactionInfo>),
    BalanceUpdated(WalletCoreBalance),
    // Validation events
    ChainLockReceived { height: u32, validated: bool },
    InstantLockReceived { txid: [u8; 32], validated: bool },
    // Errors
    Error(String),
}

/// Mathematical model of an [`SpvEvent`].
pub enum SpvEventView {
    SyncProgressUpdated(SyncProgressModel),
    SyncStarted { manager: ManagerId },
    HeadersSynced { tip_height: u32 },
    FiltersSynced { tip_height: u32 },
    BlockProcessed { height: u32, new_addresses: u32 },
    SyncComplete { tip_height: u32, cycle: u32 },
    PeerConnected(Seq<char>),
    PeerDisconnected(Seq<char>),
    PeersUpdated { count: u32, best_height: u32 },
    TransactionReceived(TransactionInfoView),
    BalanceUpdated(WalletCoreBalance),
    ChainLockReceived { height: u32, validated: bool },
    InstantLockReceived { txid: [u8; 32], validated: bool },
    Error(Seq<char>),
}

impl View for SpvEvent {
    type V = SpvEventView;

    open spec fn view(&self) -> SpvEventView {
        match self {
            SpvEvent::SyncProgressUpdated(p) => SpvEventView::SyncProgressUpdated(p@),
            SpvEvent::SyncStarted { manager } => SpvEventView::SyncStarted { manager: *manager },
            SpvEvent::HeadersSynced { tip_height } => SpvEventView::HeadersSynced {
                tip_height: *tip_height,
            },
            SpvEvent::FiltersSynced { tip_height } => SpvEventView::FiltersSynced {
                tip_height: *tip_height,
            },
            SpvEvent::BlockProcessed { height, new_addresses } => SpvEventView::BlockProcessed {
                height: *height,
                new_addresses: *new_addresses,
            },
            SpvEvent::SyncComplete { tip_height, cycle } => SpvEventView::SyncComplete {
                tip_height: *tip_height,
                cycle: *cycle,
            },
            SpvEvent::PeerConnected(a) => SpvEventView::PeerConnected(a@),
            SpvEvent::PeerDisconnected(a) => SpvEventView::PeerDisconnected(a@),
            SpvEvent::PeersUpdated { count, best_height } => SpvEventView::PeersUpdated {
                count: *count,
                best_height: *best_height,
            },
            SpvEvent::TransactionReceived(t) => SpvEventView::TransactionReceived(t@),
            SpvEvent::BalanceUpdated(b) => SpvEventView::BalanceUpdated(*b),
            SpvEvent::ChainLockReceived { height, validated } => SpvEventView::ChainLockReceived {
                height: *height,
                validated: *validated,
            },
            SpvEvent::InstantLockReceived { txid, validated } => SpvEventView::InstantLockReceived {
                txid: *txid,
                validated: *validated,
            },
            SpvEvent::Error(m) => SpvEventView::Error(m@),
        }
    }
}

impl Clone for SpvEvent {
    fn clone(&self) -> (r: Self)
        ensures
            r@ == self@,
    {
        match self {
            SpvEvent::SyncProgressUpdated(p) => SpvEvent::SyncProgressUpdated(
                Box::new((**p).clone()),
            ),
            SpvEvent::SyncStarted { manager } => SpvEvent::SyncStarted { manager: *manager },
            SpvEvent::HeadersSynced { tip_height } => SpvEvent::HeadersSynced {
                tip_height: *tip_height,
            },
            SpvEvent::FiltersSynced { tip_height } => SpvEvent::FiltersSynced {
                tip_height: *tip_height,
            },
            SpvEvent::BlockProcessed { height, new_addresses } => SpvEvent::BlockProcessed {
                height: *height,
                new_addresses: *new_addresses,
            },
            SpvEvent::SyncComplete { tip_height, cycle } => SpvEvent::SyncComplete {
                tip_height: *tip_height,
                cycle: *cycle,
            },
            SpvEvent::PeerConnected(a) => SpvEvent::PeerConnected(a.clone()),
            SpvEvent::PeerDisconnected(a) => SpvEvent::PeerDisconnected(a.clone()),
            SpvEvent::PeersUpdated { count, best_height } => SpvEvent::PeersUpdated {
                count: *count,
                best_height: *best_height,
            },
            SpvEvent::TransactionReceived(t) => SpvEvent::TransactionReceived(
                Box::new((**t).clone()),
            ),
            SpvEvent::BalanceUpdated(b) => SpvEvent::BalanceUpdated(*b),
            SpvEvent::ChainLockReceived { height, validated } => SpvEvent::ChainLockReceived {
                height: *height,
                validated: *validated,
            },
            SpvEvent::InstantLockReceived { txid, validated } => SpvEvent::InstantLockReceived {
                txid: *txid,
                validated: *validated,
            },
            SpvEvent::Error(m) => SpvEvent::Error(m.clone()),
        }
    }
}

/// The models of a sequence of events.
pub open spec fn events_view(events: Seq<SpvEvent>) -> Seq<SpvEventView> {
    events.map_values(|e: SpvEvent| e@)
}

} // verus!
