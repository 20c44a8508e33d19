use dash_spv_ui::backend::error::BackendError;
use dash_spv_ui::backend::events::SpvEvent;
use dash_spv_ui::backend::mock::{mock_address, mock_transaction, mock_txid, MockBackend};
use dash_spv_ui::backend::types::{Network, SyncState, TransactionDirection, WalletCoreBalance};

const TEST_MNEMONIC_12: &str = "abandon abandon abandon abandon abandon abandon abandon abandon abandon abandon abandon about";
const TEST_MNEMONIC_24: &str = "abandon abandon abandon abandon abandon abandon abandon abandon abandon abandon abandon abandon abandon abandon abandon abandon abandon abandon abandon abandon abandon abandon abandon art";

#[test]
fn lifecycle_start_stop() {
    let mut backend = MockBackend::builder(Network::Testnet).build();

    assert!(!backend.is_running());
    backend.start().unwrap();
    assert!(backend.is_running());
    backend.stop().unwrap();
    assert!(!backend.is_running());
}

#[test]
fn lifecycle_double_start_errors() {
    let mut backend = MockBackend::builder(Network::Testnet).build();

    backend.start().unwrap();
    let err = backend.start().unwrap_err();
    assert_eq!(err, BackendError::AlreadyRunning);
}

#[test]
fn lifecycle_stop_when_not_running_errors() {
    let mut backend = MockBackend::builder(Network::Testnet).build();
    let err = backend.stop().unwrap_err();
    assert_eq!(err, BackendError::NotRunning);
}

#[test]
fn generate_mnemonic_returns_valid_phrase() {
    let mut backend = MockBackend::builder(Network::Testnet).build();
    let phrase = backend.generate_mnemonic().unwrap();
    let words: Vec<&str> = phrase.split_whitespace().collect();
    assert_eq!(words.len(), 12);
    // The generated phrase should be accepted by create_wallet
    backend.create_wallet(&phrase).unwrap();
}

#[test]
fn wallet_create_and_query() {
    let mut backend = MockBackend::builder(Network::Mainnet)
        .with_confirmed_balance(500_000)
        .build();
    backend.create_wallet(TEST_MNEMONIC_12).unwrap();

    let address = backend.get_receive_address().unwrap();
    assert!(address.starts_with("XmockAddr"));

    let balance = backend.get_balance().unwrap();
    assert_eq!(balance.spendable(), 500_000);

    let txs = backend.get_transactions().unwrap();
    assert!(txs.is_empty());
}

#[test]
fn wallet_create_with_24_words() {
    let mut backend = MockBackend::builder(Network::Testnet).build();
    backend.create_wallet(TEST_MNEMONIC_24).unwrap();
    assert!(backend.get_balance().is_ok());
}

#[test]
fn wallet_create_invalid_mnemonic() {
    let mut backend = MockBackend::builder(Network::Testnet).build();
    let err = backend.create_wallet("only three words").unwrap_err();
    assert!(matches!(err, BackendError::InvalidMnemonic(_)));
    assert_eq!(err.message(), "invalid mnemonic: mnemonic must be 12 or 24 words");
}

#[test]
fn wallet_create_duplicate_errors() {
    let mut backend = MockBackend::builder(Network::Testnet).build();
    backend.create_wallet(TEST_MNEMONIC_12).unwrap();
    let err = backend.create_wallet(TEST_MNEMONIC_12).unwrap_err();
    assert_eq!(err, BackendError::WalletAlreadyExists);
}

#[test]
fn wallet_operations_without_wallet_error() {
    let mut backend = MockBackend::builder(Network::Testnet).build();
    assert_eq!(backend.get_balance().unwrap_err(), BackendError::NoWallet);
    assert_eq!(backend.get_receive_address().unwrap_err(), BackendError::NoWallet);
    assert_eq!(backend.get_transactions().unwrap_err(), BackendError::NoWallet);
    assert_eq!(backend.send("addr", 100, 1000).unwrap_err(), BackendError::NoWallet);
    assert_eq!(backend.estimate_fee("addr", 100, 1000).unwrap_err(), BackendError::NoWallet);
}

#[test]
fn send_success() {
    let mut backend = MockBackend::builder(Network::Testnet)
        .with_confirmed_balance(1_000_000)
        .build();
    backend.create_wallet(TEST_MNEMONIC_12).unwrap();

    let txid = backend.send("XrecipientAddr", 250_000, 1000).unwrap();
    assert_ne!(txid, [0u8; 32]);

    let balance = backend.get_balance().unwrap();
    assert_eq!(balance.spendable(), 750_000);

    let txs = backend.get_transactions().unwrap();
    assert_eq!(txs.len(), 1);
    assert_eq!(txs[0].direction, TransactionDirection::Outgoing);
    assert_eq!(txs[0].amount, -250_000);
    assert_eq!(txs[0].addresses, vec!["XrecipientAddr".to_string()]);
    assert_eq!(txs[0].txid, txid);
}

#[test]
fn send_insufficient_funds() {
    let mut backend = MockBackend::builder(Network::Testnet)
        .with_confirmed_balance(100)
        .build();
    backend.create_wallet(TEST_MNEMONIC_12).unwrap();

    let err = backend.send("XrecipientAddr", 200, 1000).unwrap_err();
    assert_eq!(
        err,
        BackendError::InsufficientFunds {
            available: 100,
            required: 200,
        },
    );
}

#[test]
fn send_invalid_address() {
    let mut backend = MockBackend::builder(Network::Testnet)
        .with_confirmed_balance(1_000_000)
        .build();
    backend.create_wallet(TEST_MNEMONIC_12).unwrap();

    let err = backend.send("", 100, 1000).unwrap_err();
    assert!(matches!(err, BackendError::InvalidAddress(_)));
}

#[test]
fn load_wallet_with_persisted() {
    let mut backend = MockBackend::builder(Network::Testnet)
        .with_persisted_wallet()
        .build();
    let found = backend.load_wallet().unwrap();
    assert!(found);
    assert!(backend.get_balance().is_ok());
}

#[test]
fn load_wallet_without_persisted() {
    let mut backend = MockBackend::builder(Network::Testnet).build();
    let found = backend.load_wallet().unwrap();
    assert!(!found);
    assert_eq!(backend.get_balance().unwrap_err(), BackendError::NoWallet);
}

#[test]
fn network_and_tip_height() {
    let backend = MockBackend::builder(Network::Regtest)
        .with_tip_height(42000)
        .build();
    assert_eq!(backend.network(), Network::Regtest);
    assert_eq!(backend.tip_height(), Some(42000));
}

#[test]
fn tip_height_none_when_zero() {
    let backend = MockBackend::builder(Network::Mainnet).build();
    assert_eq!(backend.tip_height(), None);
}

#[test]
fn sync_progress_default_when_not_running() {
    let backend = MockBackend::builder(Network::Testnet).build();
    let progress = backend.sync_progress();
    assert_eq!(progress.state, SyncState::WaitForEvents);
    assert!(!progress.is_synced);
}

#[test]
fn sync_progress_default_when_running() {
    let mut backend = MockBackend::builder(Network::Testnet)
        .with_tip_height(1000)
        .build();
    backend.start().unwrap();
    let progress = backend.sync_progress();
    assert_eq!(progress.state, SyncState::WaitForEvents);
    assert!(!progress.is_synced);
}

#[test]
fn events_delivered_on_start() {
    let mut backend = MockBackend::builder(Network::Testnet)
        .with_tip_height(5000)
        .build();
    backend.start().unwrap();
    let events = backend.drain_events();
    assert_eq!(events.len(), 2);
    assert!(matches!(events[0], SpvEvent::PeerConnected(ref p) if p == "mock-peer:9999"));
    assert!(matches!(
        events[1],
        SpvEvent::PeersUpdated {
            count: 1,
            best_height: 5000
        }
    ));
    assert!(backend.drain_events().is_empty());
}

#[test]
fn events_delivered_on_send() {
    let mut backend = MockBackend::builder(Network::Testnet)
        .with_confirmed_balance(1_000_000)
        .build();
    backend.create_wallet(TEST_MNEMONIC_12).unwrap();
    // Drain the BalanceUpdated from create_wallet
    let created = backend.drain_events();
    assert!(matches!(created[0], SpvEvent::BalanceUpdated(b) if b == WalletCoreBalance::default()));

    backend.send("Xaddr", 500_000, 1000).unwrap();
    let events = backend.drain_events();
    assert_eq!(events.len(), 2);
    assert!(matches!(events[0], SpvEvent::BalanceUpdated(b) if b.spendable() == 500_000));
    assert!(matches!(events[1], SpvEvent::TransactionReceived(ref t) if t.amount == -500_000));
}

#[test]
fn multiple_subscribers_receive_events() {
    let mut backend = MockBackend::builder(Network::Testnet).build();
    let (tx, mut rx1) = tokio::sync::broadcast::channel::<SpvEvent>(16);
    let mut rx2 = tx.subscribe();

    backend.start().unwrap();
    for event in backend.drain_events() {
        tx.send(event).unwrap();
    }

    assert!(rx1.try_recv().is_ok());
    assert!(rx2.try_recv().is_ok());
}

#[test]
fn builder_with_transactions() {
    let txs = vec![
        mock_transaction(0, TransactionDirection::Incoming, 100_000),
        mock_transaction(1, TransactionDirection::Outgoing, 50_000),
    ];
    let mut backend = MockBackend::builder(Network::Mainnet)
        .with_transactions(txs.clone())
        .build();
    backend.create_wallet(TEST_MNEMONIC_12).unwrap();

    let result = backend.get_transactions().unwrap();
    assert_eq!(result.len(), 2);
    assert_eq!(result[0].direction, TransactionDirection::Incoming);
    assert_eq!(result[1].direction, TransactionDirection::Outgoing);
    assert_eq!(result, txs);
}

#[test]
fn builder_with_balance() {
    let balance = WalletCoreBalance::new(1_000_000, 50_000, 0, 25_000);
    let mut backend = MockBackend::builder(Network::Testnet)
        .with_balance(balance)
        .build();
    backend.create_wallet(TEST_MNEMONIC_12).unwrap();

    let result = backend.get_balance().unwrap();
    assert_eq!(result, balance);
    assert_eq!(result.total(), 1_075_000);
    assert_eq!(result.spendable(), 1_000_000);
}

#[test]
fn receive_address_increments() {
    let mut backend = MockBackend::builder(Network::Testnet).build();
    backend.create_wallet(TEST_MNEMONIC_12).unwrap();

    let addr1 = backend.get_receive_address().unwrap();
    let addr2 = backend.get_receive_address().unwrap();
    assert_ne!(addr1, addr2);
    assert_eq!(addr1, "XmockAddr0000000000000000000000000001");
    assert_eq!(addr2, "XmockAddr0000000000000000000000000002");
}

#[test]
fn cache_size_returns_zero() {
    let backend = MockBackend::builder(Network::Testnet).build();
    assert_eq!(backend.cache_size().unwrap(), 0);
}

#[test]
fn clear_cache_is_noop() {
    let mut backend = MockBackend::builder(Network::Testnet).build();
    backend.clear_cache().unwrap();
}

#[test]
fn estimate_fee_rounds_up() {
    let mut backend = MockBackend::builder(Network::Testnet).with_persisted_wallet().build();
    backend.load_wallet().unwrap();
    assert_eq!(backend.estimate_fee("x", 1, 1000).unwrap(), 226);
    assert_eq!(backend.estimate_fee("x", 1, 1).unwrap(), 1);
    assert_eq!(backend.estimate_fee("x", 1, 0).unwrap(), 0);
    assert_eq!(backend.estimate_fee("x", 1, 10_000).unwrap(), 2260);
    assert_eq!(backend.estimate_fee("x", 1, 4).unwrap(), 1);
    assert_eq!(backend.estimate_fee("x", 1, 5).unwrap(), 2);
}

#[test]
fn mock_ids_and_addresses() {
    assert_eq!(mock_address(0), "XmockAddr0000000000000000000000000000");
    assert_eq!(mock_address(u32::MAX), "XmockAddr0000000000000000004294967295");
    let txid = mock_txid(0x0403_0201);
    assert_eq!(&txid[..4], &[1, 2, 3, 4]);
    assert!(txid[4..].iter().all(|b| *b == 0xFF));
}

#[test]
fn mock_transaction_fields() {
    let t = mock_transaction(3, TransactionDirection::CoinJoin, 70);
    assert_eq!(t.amount, -70);
    assert_eq!(t.timestamp, 1700000000 + 3 * 600);
    assert_eq!(t.height, Some(1003));
    assert_eq!(t.addresses, vec![mock_address(3)]);
    let t = mock_transaction(1, TransactionDirection::Internal, 70);
    assert_eq!(t.amount, 70);
}

#[test]
fn send_errors_for_any_amount() {
    let huge = 1u64 << 63;
    let mut backend = MockBackend::builder(Network::Testnet).with_confirmed_balance(100).build();
    assert_eq!(backend.send("addr", huge, 1000).unwrap_err(), BackendError::NoWallet);
    backend.create_wallet(TEST_MNEMONIC_12).unwrap();
    backend.drain_events();
    assert!(matches!(backend.send("", huge, 1000).unwrap_err(), BackendError::InvalidAddress(_)));
    assert_eq!(
        backend.send("addr", huge, 1000).unwrap_err(),
        BackendError::InsufficientFunds {
            available: 100,
            required: huge
        }
    );
    assert!(backend.drain_events().is_empty());
    assert_eq!(backend.get_balance().unwrap().spendable(), 100);
}

#[test]
fn incoming_mock_transaction_keeps_large_amounts() {
    let t = mock_transaction(0, TransactionDirection::Incoming, 1u64 << 63);
    assert_eq!(t.amount, i64::MIN);
}
