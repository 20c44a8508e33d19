use dash_spv_ui::backend::types::{TransactionDirection, TransactionInfo, TransactionType};
use dash_spv_ui::screens::network_select::{border_class_for_color, dot_class_for_color};
use dash_spv_ui::backend::error::BackendError;
use dash_spv_ui::screens::send::{
    fee_estimate_amount, format_max_amount, review_summary, send_outcome, validate_form,
    validate_send_address, validate_send_amount, AddressDecoding, FeeRate, SendReview, SendStep,
};
use dash_spv_ui::screens::settings::{apply_settings_form, SettingsForm};
use dash_spv_ui::screens::transactions::{
    apply_filters, dashboard_rows, filter_label, load_more, page_view, PageView,
};
use dash_spv_ui::backend::types::Network;
use dash_spv_ui::config::settings::{AppConfig, NetworkConfig};
use dash_spv_ui::screens::wallet_import::{is_valid_mnemonic_word_count, mnemonic_word_count};

// Address strings in testnet (`y…`) and mainnet (`X…`) form; how each
// decodes for the wallet's network is handed to the validator.
const TESTNET_ADDRESS: &str = "yRP8nXCwoJT7ruPm3k6VRnZtZwHm8GmDmZ";
const MAINNET_ADDRESS: &str = "XhH3ZkCBCMoUnzRaiH7Z7ULnHLWq4hBsWR";

// -- validate_send_address --

#[test]
fn validate_send_address_empty() {
    let err = validate_send_address("", AddressDecoding::Malformed).unwrap_err();
    assert_eq!(err, "Address is required");
}

#[test]
fn validate_send_address_whitespace_only() {
    let err = validate_send_address("   ", AddressDecoding::Malformed).unwrap_err();
    assert_eq!(err, "Address is required");
}

#[test]
fn validate_send_address_invalid_format() {
    let err = validate_send_address("not-an-address", AddressDecoding::Malformed).unwrap_err();
    assert_eq!(err, "Invalid address format");
}

#[test]
fn validate_send_address_wrong_network() {
    let err = validate_send_address(TESTNET_ADDRESS, AddressDecoding::OtherNetwork).unwrap_err();
    assert_eq!(err, "Address is for a different network");
}

#[test]
fn validate_send_address_valid_testnet() {
    assert!(validate_send_address(TESTNET_ADDRESS, AddressDecoding::Valid).is_ok());
}

#[test]
fn validate_send_address_valid_mainnet() {
    assert!(validate_send_address(MAINNET_ADDRESS, AddressDecoding::Valid).is_ok());
}

#[test]
fn validate_send_address_blank_wins_over_decoding() {
    let err = validate_send_address(" \t\n", AddressDecoding::Valid).unwrap_err();
    assert_eq!(err, "Address is required");
}

// -- validate_send_amount --

#[test]
fn validate_send_amount_valid() {
    assert_eq!(validate_send_amount("1.5", 200_000_000), Ok(150_000_000));
}

#[test]
fn validate_send_amount_invalid_input() {
    assert_eq!(validate_send_amount("abc", 100_000_000), Err("Invalid amount".to_string()));
}

#[test]
fn validate_send_amount_zero() {
    assert_eq!(
        validate_send_amount("0", 100_000_000),
        Err("Amount must be greater than 0".to_string())
    );
}

#[test]
fn validate_send_amount_exceeds_balance() {
    assert_eq!(
        validate_send_amount("2", 100_000_000),
        Err("Exceeds spendable balance".to_string())
    );
}

#[test]
fn validate_send_amount_exact_balance() {
    assert_eq!(validate_send_amount("1", 100_000_000), Ok(100_000_000));
}

#[test]
fn validate_send_amount_empty() {
    assert_eq!(validate_send_amount("", 100_000_000), Err("Invalid amount".to_string()));
}

#[test]
fn max_amount_text_is_accepted_for_the_whole_balance() {
    for sats in [1u64, 99, 100_000_000, 123_456_789] {
        assert_eq!(validate_send_amount(&format_max_amount(sats), sats), Ok(sats));
    }
}

// -- format_max_amount --

#[test]
fn format_max_amount_zero() {
    assert_eq!(format_max_amount(0), "0");
}

#[test]
fn format_max_amount_whole() {
    assert_eq!(format_max_amount(100_000_000), "1");
}

#[test]
fn format_max_amount_with_fraction() {
    assert_eq!(format_max_amount(150_000_000), "1.5");
}

#[test]
fn format_max_amount_one_satoshi() {
    assert_eq!(format_max_amount(1), "0.00000001");
}

#[test]
fn format_max_amount_trailing_zeros_stripped() {
    assert_eq!(format_max_amount(123_400_000), "1.234");
}

// -- FeeRate --

#[test]
fn fee_rate_labels() {
    assert_eq!(FeeRate::Economy.label(), "Economy");
    assert_eq!(FeeRate::Normal.label(), "Normal");
    assert_eq!(FeeRate::Priority.label(), "Priority");
}

#[test]
fn fee_rate_sat_per_kb() {
    assert_eq!(FeeRate::Economy.sat_per_kb(), 1_000);
    assert_eq!(FeeRate::Normal.sat_per_kb(), 10_000);
    assert_eq!(FeeRate::Priority.sat_per_kb(), 100_000);
}

#[test]
fn fee_rate_all_in_order() {
    let rates: Vec<u32> = FeeRate::ALL.iter().map(|r| r.sat_per_kb()).collect();
    assert_eq!(rates, vec![1_000, 10_000, 100_000]);
}

// -- transactions screen filters --

fn tx(byte: u8, amount: i64, direction: TransactionDirection, address: &str, timestamp: u64) -> TransactionInfo {
    TransactionInfo {
        txid: [byte; 32],
        amount,
        direction,
        transaction_type: TransactionType::Standard,
        timestamp,
        height: Some(100),
        fee: None,
        addresses: vec![address.into()],
        block_hash: None,
        is_instant_send: false,
        is_chain_locked: false,
        label: None,
        inputs: Vec::new(),
        outputs: Vec::new(),
    }
}

fn sample_txs() -> Vec<TransactionInfo> {
    vec![
        tx(0xAA, 100_000_000, TransactionDirection::Incoming, "yAddr1", 1700000000),
        tx(0xBB, -50_000_000, TransactionDirection::Outgoing, "yAddr2", 1700001000),
        tx(0xCC, 200_000_000, TransactionDirection::Incoming, "yAddr3", 1700002000),
    ]
}

#[test]
fn apply_filters_all() {
    let txs = sample_txs();
    let result = apply_filters(&txs, None, "", "DASH");
    assert_eq!(result.len(), 3);
}

#[test]
fn apply_filters_received_only() {
    let txs = sample_txs();
    let result = apply_filters(&txs, Some(TransactionDirection::Incoming), "", "DASH");
    assert_eq!(result.len(), 2);
    assert!(result.iter().all(|tx| tx.direction == TransactionDirection::Incoming));
}

#[test]
fn apply_filters_sent_only() {
    let txs = sample_txs();
    let result = apply_filters(&txs, Some(TransactionDirection::Outgoing), "", "DASH");
    assert_eq!(result.len(), 1);
    assert_eq!(result[0].direction, TransactionDirection::Outgoing);
}

#[test]
fn apply_filters_with_search() {
    let txs = sample_txs();
    let result = apply_filters(&txs, None, "yAddr2", "DASH");
    assert_eq!(result.len(), 1);
    assert_eq!(result[0].addresses[0], "yAddr2");
}

#[test]
fn apply_filters_no_match() {
    let txs = sample_txs();
    let result = apply_filters(&txs, None, "zzz_nonexistent", "DASH");
    assert!(result.is_empty());
}

#[test]
fn apply_filters_combined_filter_and_search() {
    let txs = sample_txs();
    let result = apply_filters(&txs, Some(TransactionDirection::Incoming), "yAddr3", "DASH");
    assert_eq!(result.len(), 1);
    assert_eq!(result[0].addresses[0], "yAddr3");
}

#[test]
fn apply_filters_empty_transactions() {
    let txs: Vec<TransactionInfo> = vec![];
    let result = apply_filters(&txs, None, "", "DASH");
    assert!(result.is_empty());
}

#[test]
fn apply_filters_internal_only() {
    let mut txs = sample_txs();
    txs.push(tx(0xDD, 10_000, TransactionDirection::Internal, "yAddr4", 1700003000));

    let result = apply_filters(&txs, Some(TransactionDirection::Internal), "", "DASH");
    assert_eq!(result.len(), 1);
    assert_eq!(result[0].direction, TransactionDirection::Internal);
}

#[test]
fn apply_filters_coinjoin_only() {
    let mut txs = sample_txs();
    let mut mix = tx(0xEE, -25_000_000, TransactionDirection::CoinJoin, "yAddr5", 1700004000);
    mix.transaction_type = TransactionType::CoinJoin;
    mix.fee = Some(100);
    txs.push(mix);

    let result = apply_filters(&txs, Some(TransactionDirection::CoinJoin), "", "DASH");
    assert_eq!(result.len(), 1);
    assert_eq!(result[0].direction, TransactionDirection::CoinJoin);
}

#[test]
fn apply_filters_keeps_order() {
    let txs = sample_txs();
    let result = apply_filters(&txs, Some(TransactionDirection::Incoming), "yaddr", "DASH");
    let ids: Vec<u8> = result.iter().map(|t| t.txid[0]).collect();
    assert_eq!(ids, vec![0xAA, 0xCC]);
}

#[test]
fn filter_labels() {
    assert_eq!(filter_label(None), "All");
    assert_eq!(filter_label(Some(TransactionDirection::Incoming)), "Received");
    assert_eq!(filter_label(Some(TransactionDirection::Outgoing)), "Sent");
    assert_eq!(filter_label(Some(TransactionDirection::Internal)), "Internal");
    assert_eq!(filter_label(Some(TransactionDirection::CoinJoin)), "CoinJoin");
}

// -- wallet import --

#[test]
fn mnemonic_word_count_empty() {
    assert_eq!(mnemonic_word_count(""), 0);
}

#[test]
fn mnemonic_word_count_whitespace_only() {
    assert_eq!(mnemonic_word_count("   \t  \n  "), 0);
}

#[test]
fn mnemonic_word_count_twelve_words() {
    let phrase = "abandon abandon abandon abandon abandon abandon abandon abandon abandon abandon abandon about";
    assert_eq!(mnemonic_word_count(phrase), 12);
}

#[test]
fn mnemonic_word_count_extra_spaces() {
    let phrase = "  word1  word2   word3  ";
    assert_eq!(mnemonic_word_count(phrase), 3);
}

#[test]
fn mnemonic_word_count_single_word() {
    assert_eq!(mnemonic_word_count("abandon"), 1);
}

#[test]
fn valid_mnemonic_word_counts() {
    assert!(is_valid_mnemonic_word_count(12));
    assert!(is_valid_mnemonic_word_count(24));
}

#[test]
fn invalid_mnemonic_word_counts() {
    assert!(!is_valid_mnemonic_word_count(0));
    assert!(!is_valid_mnemonic_word_count(1));
    assert!(!is_valid_mnemonic_word_count(11));
    assert!(!is_valid_mnemonic_word_count(13));
    assert!(!is_valid_mnemonic_word_count(23));
    assert!(!is_valid_mnemonic_word_count(25));
}

// -- network select --

#[test]
fn border_class_known_colors() {
    assert_eq!(border_class_for_color("blue"), "border-dash hover:bg-dash/10");
    assert_eq!(border_class_for_color("green"), "border-success hover:bg-success/10");
    assert_eq!(border_class_for_color("orange"), "border-warning hover:bg-warning/10");
}

#[test]
fn border_class_unknown_color() {
    assert_eq!(border_class_for_color("red"), "border-edge hover:bg-hover");
    assert_eq!(border_class_for_color(""), "border-edge hover:bg-hover");
}

#[test]
fn dot_class_known_colors() {
    assert_eq!(dot_class_for_color("blue"), "bg-dash");
    assert_eq!(dot_class_for_color("green"), "bg-success");
    assert_eq!(dot_class_for_color("orange"), "bg-warning");
}

#[test]
fn dot_class_unknown_color() {
    assert_eq!(dot_class_for_color("red"), "bg-muted");
}

// -- send flow --

#[test]
fn fee_estimate_needs_positive_amount_and_address() {
    assert_eq!(fee_estimate_amount(TESTNET_ADDRESS, "0.5"), Some(50_000_000));
    assert_eq!(fee_estimate_amount("  ", "0.5"), None);
    assert_eq!(fee_estimate_amount(TESTNET_ADDRESS, "0"), None);
    assert_eq!(fee_estimate_amount(TESTNET_ADDRESS, "abc"), None);
}

#[test]
fn validate_form_reports_both_fields() {
    assert_eq!(
        validate_form("", AddressDecoding::Malformed, "abc", 10),
        (Some("Address is required".to_string()), Some("Invalid amount".to_string()))
    );
    assert_eq!(validate_form(TESTNET_ADDRESS, AddressDecoding::Valid, "0.0000001", 10), (None, None));
    assert_eq!(
        validate_form(TESTNET_ADDRESS, AddressDecoding::OtherNetwork, "1", 10),
        (
            Some("Address is for a different network".to_string()),
            Some("Exceeds spendable balance".to_string())
        )
    );
}

#[test]
fn review_summary_saturates() {
    assert_eq!(
        review_summary("1", Some(226), 200_000_000),
        SendReview {
            amount: 100_000_000,
            fee: 226,
            total: 100_000_226,
            remaining: 99_999_774,
        }
    );
    assert_eq!(
        review_summary("1", Some(226), 100_000_000),
        SendReview {
            amount: 100_000_000,
            fee: 226,
            total: 100_000_226,
            remaining: 0,
        }
    );
    assert_eq!(review_summary("x", None, 5).total, 0);
    assert_eq!(review_summary("184467440737.09551615", Some(1), 5).total, u64::MAX);
}

#[test]
fn send_outcome_shows_txid_hex_or_message() {
    let mut txid = [0u8; 32];
    txid[0] = 0xAB;
    txid[31] = 0x01;
    match send_outcome(&Ok(txid)) {
        SendStep::Success(h) => {
            assert_eq!(h.len(), 64);
            assert!(h.starts_with("ab00"));
            assert!(h.ends_with("01"));
        }
        other => panic!("unexpected step {other:?}"),
    }
    assert_eq!(
        send_outcome(&Err(BackendError::NotRunning)),
        SendStep::Error("client is not running".to_string())
    );
}

// -- settings form --

#[test]
fn settings_form_round_trip_and_save() {
    let mut config = AppConfig {
        network: Network::Testnet,
        data_dir: "/data".to_string(),
        wallet_dir: Some("/w".to_string()),
        ..Default::default()
    };
    config.networks.mainnet = Some(NetworkConfig {
        peers: vec!["1.2.3.4:9999".to_string()],
        mempool_strategy: "bloom-filter".to_string(),
    });
    let form = SettingsForm::from_config(&config);
    assert_eq!(form.wallet_dir, "/w");
    assert_eq!(form.mempool_strategy, "bloom-filter");

    let form = SettingsForm {
        network: Network::Mainnet,
        data_dir: "/other".to_string(),
        wallet_dir: String::new(),
        dev_mode: true,
        log_level: "debug".to_string(),
        mempool_strategy: "fetch-all".to_string(),
    };
    apply_settings_form(&mut config, form);
    assert_eq!(config.network, Network::Mainnet);
    assert_eq!(config.data_dir, "/other");
    assert_eq!(config.wallet_dir, None);
    assert!(config.dev_mode);
    assert_eq!(config.log_level, "debug");
    assert_eq!(config.mempool_strategy(), "fetch-all");
    assert_eq!(config.peers(), vec!["1.2.3.4:9999".to_string()]);
    assert!(config.networks.testnet.is_none());
}

// -- paging --

#[test]
fn history_paging() {
    assert_eq!(page_view(50, 120), PageView { visible: 50, remaining: 70, next_batch: 50 });
    assert_eq!(page_view(100, 120), PageView { visible: 100, remaining: 20, next_batch: 20 });
    assert_eq!(page_view(150, 120), PageView { visible: 120, remaining: 0, next_batch: 0 });
    assert_eq!(load_more(50), 100);
}

#[test]
fn dashboard_lists_five() {
    assert_eq!(dashboard_rows(3), (3, false));
    assert_eq!(dashboard_rows(5), (5, false));
    assert_eq!(dashboard_rows(6), (5, true));
}
