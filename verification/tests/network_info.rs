use dash_spv_ui::backend::events::SpvEvent;
use dash_spv_ui::backend::types::{
    ManagerId, ManagerProgress, SyncProgress, SyncState, WalletCoreBalance,
};
use dash_spv_ui::state::network::NetworkInfo;

#[test]
fn network_default_state() {
    let info = NetworkInfo::default();
    assert_eq!(info.connected_peers, 0);
    assert_eq!(info.best_height, 0);
    assert_eq!(info.chain_tip, 0);
}

#[test]
fn peer_connect_disconnect() {
    let mut info = NetworkInfo::default();

    info.apply_event(&SpvEvent::PeerConnected("1.2.3.4".into()));
    assert_eq!(info.connected_peers, 1);

    info.apply_event(&SpvEvent::PeerConnected("5.6.7.8".into()));
    assert_eq!(info.connected_peers, 2);

    info.apply_event(&SpvEvent::PeerDisconnected("1.2.3.4".into()));
    assert_eq!(info.connected_peers, 1);
}

#[test]
fn disconnect_does_not_underflow() {
    let mut info = NetworkInfo::default();
    info.apply_event(&SpvEvent::PeerDisconnected("1.2.3.4".into()));
    assert_eq!(info.connected_peers, 0);
}

#[test]
fn peers_updated_overrides_count() {
    let mut info = NetworkInfo {
        connected_peers: 5,
        ..Default::default()
    };

    info.apply_event(&SpvEvent::PeersUpdated {
        count: 3,
        best_height: 50000,
    });
    assert_eq!(info.connected_peers, 3);
    assert_eq!(info.best_height, 50000);
}

#[test]
fn headers_synced_updates_chain_tip() {
    let mut info = NetworkInfo::default();
    info.apply_event(&SpvEvent::HeadersSynced { tip_height: 42000 });
    assert_eq!(info.chain_tip, 42000);
}

#[test]
fn sync_complete_updates_chain_tip() {
    let mut info = NetworkInfo::default();
    info.apply_event(&SpvEvent::SyncComplete {
        tip_height: 50000,
        cycle: 1,
    });
    assert_eq!(info.chain_tip, 50000);
}

#[test]
fn progress_updates_chain_tip_from_headers_manager() {
    let mut info = NetworkInfo::default();
    let progress = SyncProgress {
        state: SyncState::Syncing,
        percentage_bp: 5000,
        is_synced: false,
        managers: vec![ManagerProgress {
            manager: ManagerId::Headers,
            state: SyncState::Syncing,
            current_height: 25000,
            target_height: 50000,
            percentage_bp: 5000,
        }],
    };
    info.apply_event(&SpvEvent::SyncProgressUpdated(Box::new(progress)));
    assert_eq!(info.chain_tip, 25000);
}

#[test]
fn network_unrelated_events_are_ignored() {
    let mut info = NetworkInfo::default();
    info.apply_event(&SpvEvent::BalanceUpdated(WalletCoreBalance::default()));
    assert_eq!(info, NetworkInfo::default());
}

#[test]
fn progress_without_headers_manager_keeps_chain_tip() {
    let mut info = NetworkInfo {
        chain_tip: 7,
        ..Default::default()
    };
    let progress = SyncProgress {
        state: SyncState::Syncing,
        percentage_bp: 100,
        is_synced: false,
        managers: vec![ManagerProgress {
            manager: ManagerId::Filters,
            state: SyncState::Syncing,
            current_height: 99,
            target_height: 100,
            percentage_bp: 9900,
        }],
    };
    info.apply_event(&SpvEvent::SyncProgressUpdated(Box::new(progress)));
    assert_eq!(info.chain_tip, 7);
}

#[test]
fn connect_then_disconnect_restores_count() {
    let mut info = NetworkInfo {
        connected_peers: 4,
        best_height: 10,
        chain_tip: 9,
    };
    let before = info;
    info.apply_event(&SpvEvent::PeerConnected("a".into()));
    info.apply_event(&SpvEvent::PeerDisconnected("a".into()));
    assert_eq!(info, before);
}
