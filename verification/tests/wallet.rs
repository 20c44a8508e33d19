use dash_spv_ui::backend::events::SpvEvent;
use dash_spv_ui::backend::types::{
    TransactionDirection, TransactionInfo, TransactionType, WalletCoreBalance,
};
use dash_spv_ui::state::wallet::{sort_transactions, WalletState};

fn info(
    txid_byte: u8,
    amount: i64,
    direction: TransactionDirection,
    addresses: Vec<String>,
    height: Option<u32>,
    timestamp: u64,
) -> TransactionInfo {
    TransactionInfo {
        txid: [txid_byte; 32],
        amount,
        direction,
        transaction_type: TransactionType::Standard,
        timestamp,
        height,
        fee: None,
        addresses,
        block_hash: None,
        is_instant_send: false,
        is_chain_locked: false,
        label: None,
        inputs: Vec::new(),
        outputs: Vec::new(),
    }
}

fn tx_event(
    txid_byte: u8,
    amount: i64,
    direction: TransactionDirection,
    addresses: Vec<String>,
    height: Option<u32>,
    timestamp: u64,
) -> SpvEvent {
    SpvEvent::TransactionReceived(Box::new(info(
        txid_byte, amount, direction, addresses, height, timestamp,
    )))
}

fn status_event(
    txid_byte: u8,
    height: Option<u32>,
    timestamp: u64,
    is_instant_send: bool,
    is_chain_locked: bool,
) -> SpvEvent {
    let mut t = info(
        txid_byte,
        0,
        TransactionDirection::Incoming,
        Vec::new(),
        height,
        timestamp,
    );
    t.is_instant_send = is_instant_send;
    t.is_chain_locked = is_chain_locked;
    SpvEvent::TransactionReceived(Box::new(t))
}

fn plain(txid_byte: u8, amount: i64, timestamp: u64, height: Option<u32>) -> TransactionInfo {
    info(txid_byte, amount, TransactionDirection::Incoming, vec![], height, timestamp)
}

#[test]
fn wallet_default_state() {
    let state = WalletState::default();
    assert_eq!(state.balance, WalletCoreBalance::default());
    assert!(state.transactions.is_empty());
    assert_eq!(state.receive_address, None);
}

#[test]
fn balance_updated_event() {
    let mut state = WalletState::default();
    let balance = WalletCoreBalance::new(1_000_000, 50_000, 0, 0);
    state.apply_event(&SpvEvent::BalanceUpdated(balance));
    assert_eq!(state.balance, balance);
}

#[test]
fn transaction_received_events_sorted_by_timestamp() {
    let mut state = WalletState::default();

    state.apply_event(&tx_event(
        1,
        100_000,
        TransactionDirection::Incoming,
        vec!["Xaddr1".into()],
        None,
        1000,
    ));
    assert_eq!(state.transactions.len(), 1);
    assert_eq!(state.transactions[0].direction, TransactionDirection::Incoming);

    state.apply_event(&tx_event(
        2,
        -50_000,
        TransactionDirection::Outgoing,
        vec!["Xaddr2".into()],
        None,
        2000,
    ));
    assert_eq!(state.transactions.len(), 2);
    // Newer unconfirmed tx sorts first
    assert_eq!(state.transactions[0].txid, [2u8; 32]);
    assert_eq!(state.transactions[0].direction, TransactionDirection::Outgoing);
}

#[test]
fn transaction_received_with_confirmation_data() {
    let mut state = WalletState::default();

    let mut t = info(
        3,
        200_000,
        TransactionDirection::Incoming,
        vec!["Xaddr3".into()],
        Some(1000),
        1700000000,
    );
    t.is_chain_locked = true;
    state.apply_event(&SpvEvent::TransactionReceived(Box::new(t)));

    assert_eq!(state.transactions.len(), 1);
    let tx = &state.transactions[0];
    assert_eq!(tx.height, Some(1000));
    assert_eq!(tx.timestamp, 1700000000);
    assert!(tx.is_chain_locked);
    assert!(!tx.is_instant_send);
}

#[test]
fn transaction_received_instant_send() {
    let mut state = WalletState::default();

    let mut t = info(4, 50_000, TransactionDirection::Incoming, vec!["Xaddr4".into()], None, 0);
    t.is_instant_send = true;
    state.apply_event(&SpvEvent::TransactionReceived(Box::new(t)));

    assert_eq!(state.transactions.len(), 1);
    assert!(state.transactions[0].is_instant_send);
    assert!(!state.transactions[0].is_chain_locked);
    assert_eq!(state.transactions[0].height, None);
}

#[test]
fn duplicate_txid_updates_instead_of_inserting() {
    let mut state = WalletState::default();

    // First: mempool tx
    state.apply_event(&tx_event(
        5,
        100_000,
        TransactionDirection::Incoming,
        vec!["Xaddr5".into()],
        None,
        1700000000,
    ));
    assert_eq!(state.transactions.len(), 1);
    assert_eq!(state.transactions[0].height, None);
    assert!(!state.transactions[0].is_chain_locked);

    // Second: same txid confirmed in chain-locked block (status update)
    state.apply_event(&status_event(5, Some(2000), 1700001000, false, true));

    // Should still be one transaction, not two
    assert_eq!(state.transactions.len(), 1);
    let tx = &state.transactions[0];
    assert_eq!(tx.height, Some(2000));
    assert_eq!(tx.timestamp, 1700001000);
    assert!(tx.is_chain_locked);
    // The first amount/addresses are kept (the status update had amount=0)
    assert_eq!(tx.amount, 100_000);
    assert_eq!(tx.addresses, vec!["Xaddr5".to_string()]);
}

#[test]
fn status_update_preserves_direction_and_type() {
    let mut state = WalletState::default();

    // An outgoing CoinJoin tx with a label
    let mut t = info(6, -75_000, TransactionDirection::CoinJoin, vec!["Xmix1".into()], None, 1700000000);
    t.transaction_type = TransactionType::CoinJoin;
    t.fee = Some(100);
    t.label = Some("my mix".into());
    state.apply_event(&SpvEvent::TransactionReceived(Box::new(t)));

    // Status update with hardcoded Incoming/Standard fallbacks (amount=0)
    state.apply_event(&status_event(6, Some(3000), 1700002000, false, true));

    assert_eq!(state.transactions.len(), 1);
    let tx = &state.transactions[0];
    assert_eq!(tx.direction, TransactionDirection::CoinJoin);
    assert_eq!(tx.transaction_type, TransactionType::CoinJoin);
    assert_eq!(tx.label, Some("my mix".into()));
    assert_eq!(tx.amount, -75_000);
    assert_eq!(tx.height, Some(3000));
    assert!(tx.is_chain_locked);
}

#[test]
fn status_update_does_not_overwrite_timestamp_with_zero() {
    let mut state = WalletState::default();

    state.apply_event(&tx_event(
        8,
        100_000,
        TransactionDirection::Incoming,
        vec!["Xaddr8".into()],
        None,
        1700000000,
    ));
    assert_eq!(state.transactions[0].timestamp, 1700000000);

    // Status update with timestamp 0 should not overwrite
    state.apply_event(&status_event(8, Some(500), 0, false, true));

    assert_eq!(state.transactions[0].timestamp, 1700000000);
    assert_eq!(state.transactions[0].height, Some(500));
    assert!(state.transactions[0].is_chain_locked);
}

#[test]
fn set_transactions_sorts_newest_first() {
    let mut state = WalletState::default();
    let txs = vec![plain(1, 100, 1000, Some(500)), plain(2, 200, 2000, Some(600))];
    state.set_transactions(txs);
    assert_eq!(state.transactions[0].timestamp, 2000);
    assert_eq!(state.transactions[1].timestamp, 1000);
}

#[test]
fn wallet_unrelated_events_are_ignored() {
    let mut state = WalletState::default();
    state.apply_event(&SpvEvent::PeerConnected("1.2.3.4".into()));
    state.apply_event(&SpvEvent::HeadersSynced { tip_height: 1000 });
    assert_eq!(state, WalletState::default());
}

#[test]
fn unconfirmed_sorts_before_confirmed() {
    let mut state = WalletState::default();
    let txs = vec![plain(1, 100, 5000, Some(500)), plain(2, 200, 1000, None)];
    state.set_transactions(txs);
    // Unconfirmed tx sorts first despite having an older timestamp
    assert_eq!(state.transactions[0].height, None);
    assert_eq!(state.transactions[1].height, Some(500));
}

#[test]
fn apply_event_maintains_sort_order() {
    let mut state = WalletState::default();

    // Add a confirmed tx with a recent timestamp
    state.apply_event(&tx_event(
        1,
        100_000,
        TransactionDirection::Incoming,
        vec!["Xaddr1".into()],
        Some(1000),
        5000,
    ));

    // Add an unconfirmed tx with an older timestamp
    state.apply_event(&tx_event(
        2,
        50_000,
        TransactionDirection::Incoming,
        vec!["Xaddr2".into()],
        None,
        1000,
    ));

    assert_eq!(state.transactions.len(), 2);
    // Unconfirmed sorts first
    assert_eq!(state.transactions[0].height, None);
    assert_eq!(state.transactions[1].height, Some(1000));
}

#[test]
fn set_transactions_and_apply_event_consistent_order() {
    let mut state = WalletState::default();

    // Load initial confirmed transactions via set_transactions
    let txs = vec![plain(1, 100, 3000, Some(300)), plain(2, 200, 4000, Some(400))];
    state.set_transactions(txs);
    assert_eq!(state.transactions[0].timestamp, 4000);
    assert_eq!(state.transactions[1].timestamp, 3000);

    // New unconfirmed tx arrives via event
    state.apply_event(&tx_event(
        3,
        50_000,
        TransactionDirection::Incoming,
        vec!["Xaddr3".into()],
        None,
        2000,
    ));

    // Unconfirmed tx sorts to front despite older timestamp
    assert_eq!(state.transactions.len(), 3);
    assert_eq!(state.transactions[0].height, None);
    assert_eq!(state.transactions[0].timestamp, 2000);
    assert_eq!(state.transactions[1].timestamp, 4000);
    assert_eq!(state.transactions[2].timestamp, 3000);
}

#[test]
fn confirmation_update_re_sorts_transaction() {
    let mut state = WalletState::default();

    // Confirmed tx
    state.apply_event(&tx_event(
        1,
        100_000,
        TransactionDirection::Incoming,
        vec!["Xaddr1".into()],
        Some(500),
        3000,
    ));

    // Unconfirmed tx (sorts first)
    state.apply_event(&tx_event(
        2,
        50_000,
        TransactionDirection::Incoming,
        vec!["Xaddr2".into()],
        None,
        4000,
    ));
    assert_eq!(state.transactions[0].height, None);

    // The unconfirmed tx gets confirmed
    state.apply_event(&status_event(2, Some(600), 4000, false, true));

    // Both confirmed now, sorted by timestamp descending
    assert_eq!(state.transactions[0].timestamp, 4000);
    assert_eq!(state.transactions[0].height, Some(600));
    assert_eq!(state.transactions[1].timestamp, 3000);
    assert_eq!(state.transactions[1].height, Some(500));
}

#[test]
fn label_propagated_from_event() {
    let mut state = WalletState::default();

    let mut t = info(7, 42_000, TransactionDirection::Incoming, vec!["Xaddr7".into()], Some(500), 1700000000);
    t.label = Some("payment for coffee".into());
    state.apply_event(&SpvEvent::TransactionReceived(Box::new(t)));

    assert_eq!(state.transactions.len(), 1);
    assert_eq!(state.transactions[0].label, Some("payment for coffee".into()));
}

#[test]
fn set_transaction_label_updates_existing() {
    let mut state = WalletState::default();
    let txid = [9u8; 32];

    state.apply_event(&tx_event(
        9,
        100_000,
        TransactionDirection::Incoming,
        vec!["Xaddr9".into()],
        Some(500),
        1700000000,
    ));

    state.set_transaction_label(&txid, Some("rent payment".into()));
    assert_eq!(state.transactions[0].label, Some("rent payment".into()));

    state.set_transaction_label(&txid, None);
    assert_eq!(state.transactions[0].label, None);
}

#[test]
fn set_transaction_label_nonexistent_is_noop() {
    let mut state = WalletState::default();
    let txid = [99u8; 32];

    state.set_transaction_label(&txid, Some("label".into()));
    assert!(state.transactions.is_empty());
}

#[test]
fn sort_is_stable_for_equal_keys() {
    let txs = vec![
        plain(1, 1, 1000, Some(10)),
        plain(2, 2, 1000, Some(10)),
        plain(3, 3, 1000, Some(10)),
    ];
    let sorted = sort_transactions(txs);
    let ids: Vec<u8> = sorted.iter().map(|t| t.txid[0]).collect();
    assert_eq!(ids, vec![1, 2, 3]);
}

#[test]
fn receiving_distinct_transactions_counts_each_once() {
    let mut state = WalletState::default();
    for b in 1..=5u8 {
        state.apply_event(&tx_event(b, 10, TransactionDirection::Incoming, vec![], None, b as u64));
        state.apply_event(&tx_event(b, 10, TransactionDirection::Incoming, vec![], None, b as u64));
    }
    assert_eq!(state.transactions.len(), 5);
    let stamps: Vec<u64> = state.transactions.iter().map(|t| t.timestamp).collect();
    assert_eq!(stamps, vec![5, 4, 3, 2, 1]);
}
