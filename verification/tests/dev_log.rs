use dash_spv_ui::backend::events::SpvEvent;
use dash_spv_ui::backend::mock::mock_transaction;
use dash_spv_ui::backend::types::{TransactionDirection, WalletCoreBalance};
use dash_spv_ui::state::dev_log::{categorize_event, DevLog, EventCategory, MAX_ENTRIES};

#[test]
fn push_and_retrieve() {
    let mut log = DevLog::default();
    assert!(log.is_empty());

    log.push(&SpvEvent::PeerConnected("1.2.3.4".into()));
    assert_eq!(log.len(), 1);

    let entries = log.entries(None);
    assert_eq!(entries.len(), 1);
    assert_eq!(entries[0].category, EventCategory::Network);
    assert!(entries[0].message.contains("1.2.3.4"));
}

#[test]
fn filter_by_category() {
    let mut log = DevLog::default();
    log.push(&SpvEvent::PeerConnected("1.2.3.4".into()));
    log.push(&SpvEvent::HeadersSynced { tip_height: 1000 });
    log.push(&SpvEvent::BalanceUpdated(WalletCoreBalance::default()));
    log.push(&SpvEvent::Error("test error".into()));

    assert_eq!(log.entries(Some(EventCategory::Network)).len(), 1);
    assert_eq!(log.entries(Some(EventCategory::Sync)).len(), 1);
    assert_eq!(log.entries(Some(EventCategory::Wallet)).len(), 1);
    assert_eq!(log.entries(Some(EventCategory::Error)).len(), 1);
    assert_eq!(log.entries(None).len(), 4);
}

#[test]
fn max_entries_enforced() {
    let mut log = DevLog::default();
    for i in 0..1100 {
        log.push(&SpvEvent::HeadersSynced { tip_height: i });
    }
    assert_eq!(log.len(), MAX_ENTRIES);
}

#[test]
fn oldest_entries_evicted() {
    let mut log = DevLog::default();
    for i in 0..1005 {
        log.push(&SpvEvent::HeadersSynced { tip_height: i });
    }
    let entries = log.entries(None);
    // The first entry should be from i=5 (the 6th push), not i=0
    assert!(entries[0].message.contains("5"));
}

#[test]
fn clear_removes_all() {
    let mut log = DevLog::default();
    log.push(&SpvEvent::PeerConnected("1.2.3.4".into()));
    log.push(&SpvEvent::PeerConnected("5.6.7.8".into()));
    assert_eq!(log.len(), 2);

    log.clear();
    assert!(log.is_empty());
}

#[test]
fn categorize_all_event_types() {
    let events = vec![
        (SpvEvent::PeerConnected("x".into()), EventCategory::Network),
        (SpvEvent::PeerDisconnected("x".into()), EventCategory::Network),
        (
            SpvEvent::PeersUpdated {
                count: 1,
                best_height: 0,
            },
            EventCategory::Network,
        ),
        (SpvEvent::HeadersSynced { tip_height: 0 }, EventCategory::Sync),
        (SpvEvent::FiltersSynced { tip_height: 0 }, EventCategory::Sync),
        (
            SpvEvent::BlockProcessed {
                height: 0,
                new_addresses: 0,
            },
            EventCategory::Sync,
        ),
        (
            SpvEvent::SyncComplete {
                tip_height: 0,
                cycle: 0,
            },
            EventCategory::Sync,
        ),
        (SpvEvent::BalanceUpdated(WalletCoreBalance::default()), EventCategory::Wallet),
        (
            SpvEvent::TransactionReceived(Box::new(mock_transaction(
                0,
                TransactionDirection::Incoming,
                0,
            ))),
            EventCategory::Wallet,
        ),
        (SpvEvent::Error("e".into()), EventCategory::Error),
        (
            SpvEvent::ChainLockReceived {
                height: 0,
                validated: true,
            },
            EventCategory::Sync,
        ),
        (
            SpvEvent::InstantLockReceived {
                txid: [0; 32],
                validated: true,
            },
            EventCategory::Sync,
        ),
    ];

    for (event, expected_cat) in events {
        let (cat, _) = categorize_event(&event);
        assert_eq!(cat, expected_cat, "wrong category for {event:?}");
    }
}

#[test]
fn filtered_entries_keep_push_order() {
    let mut log = DevLog::default();
    log.push_at(&SpvEvent::HeadersSynced { tip_height: 1 }, 10);
    log.push_at(&SpvEvent::PeerConnected("p".into()), 11);
    log.push_at(&SpvEvent::HeadersSynced { tip_height: 2 }, 12);
    let sync = log.entries(Some(EventCategory::Sync));
    assert_eq!(sync.len(), 2);
    assert_eq!(sync[0].timestamp, 10);
    assert_eq!(sync[1].timestamp, 12);
}

#[test]
fn instant_lock_message_shows_txid_hex() {
    let mut txid = [0u8; 32];
    txid[0] = 0xAB;
    let (cat, message) = categorize_event(&SpvEvent::InstantLockReceived { txid, validated: false });
    assert_eq!(cat, EventCategory::Sync);
    assert!(message.contains("ab000000"), "message: {message}");
}
