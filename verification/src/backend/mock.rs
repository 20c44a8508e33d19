//! An in-memory backend for tests and for running the UI without a network:
//! a state machine over a wallet, its balance and transactions, that
//! collects the events it emits until they are drained.

use vstd::prelude::*;
use crate::backend::error::{BackendError, BackendResult};
use crate::backend::events::{SpvEvent, SpvEventView, events_view};
use crate::backend::types::{
    Network, SyncProgress, SyncState, ManagerProgress, TransactionDirection, TransactionInfo,
    TransactionInfoView, TransactionType, WalletCoreBalance, clone_vec,
};
use crate::screens::wallet_import::mnemonic_word_count;
use crate::text::{
    padded_decimal, push_padded_decimal, push_str_chars, string_from_chars, word_count, decimal,
    digits_value, lemma_decimal_digits, lemma_digits_value_leading_zeros,
};

verus! {

/// The peer the mock pretends to be connected to.
pub const MOCK_PEER: &'static str = "mock-peer:9999";

/// The mnemonic the mock generates (the standard all-zero-entropy phrase).
pub const MOCK_MNEMONIC: &'static str = "abandon abandon abandon abandon abandon abandon abandon abandon abandon abandon abandon about";

/// Timestamp of the mock's first transaction.
pub const MOCK_EPOCH: u64 = 1700000000;

/// The address of index `index`: `XmockAddr` and the index zero-padded to
/// 28 digits.
pub open spec fn mock_address_spec(index: u32) -> Seq<char> {
    "XmockAddr"@ + padded_decimal(index as nat, 28)
}

/// Byte `i` of the transaction id of index `index`: the index in
/// little-endian order, then `0xFF`.
pub open spec fn mock_txid_byte(index: u32, i: int) -> u8 {
    if i == 0 {
        (index % 256) as u8
    } else if i == 1 {
        ((index / 256) % 256) as u8
    } else if i == 2 {
        ((index / 65536) % 256) as u8
    } else if i == 3 {
        (index / 16777216) as u8
    } else {
        0xFF
    }
}

/// Whether `txid` is the transaction id of index `index`.
pub open spec fn is_mock_txid(txid: [u8; 32], index: u32) -> bool {
    forall|i: int| 0 <= i < 32 ==> #[trigger] txid[i] == mock_txid_byte(index, i)
}

/// The signed amount of a transaction that moves `amount` satoshis in the
/// given direction: negative when funds leave the wallet (`-(amount as
/// i64)`, wrapping for amounts above `i64::MAX`).
pub open spec fn signed_amount(direction: TransactionDirection, amount: u64) -> i64 {
    let a: i64 = amount as i64;
    match direction {
        TransactionDirection::Outgoing | TransactionDirection::CoinJoin => (-a) as i64,
        TransactionDirection::Incoming | TransactionDirection::Internal => a,
    }
}

/// The model of the record the mock keeps for a payment of `amount` to
/// `address`.
pub open spec fn sent_record(txid: [u8; 32], address: Seq<char>, amount: u64) -> TransactionInfoView {
    TransactionInfoView {
        txid,
        amount: signed_amount(TransactionDirection::Outgoing, amount),
        direction: TransactionDirection::Outgoing,
        transaction_type: TransactionType::Standard,
        timestamp: MOCK_EPOCH,
        height: None,
        fee: None,
        addresses: seq![address],
        block_hash: None,
        is_instant_send: false,
        is_chain_locked: false,
        label: None,
        inputs: Seq::empty(),
        outputs: Seq::empty(),
    }
}

/// Fee for a typical 1-input 2-output P2PKH transaction (226 bytes) at
/// `fee_rate` duffs per kB, rounded up.
pub open spec fn estimated_fee(fee_rate: u32) -> nat {
    ((fee_rate * 226 + 999) / 1000) as nat
}

/// Returns the address of index `index`.
pub fn mock_address(index: u32) -> (r: String)
    ensures
        r@ == mock_address_spec(index),
{
    let mut v: Vec<char> = Vec::new();
    push_str_chars(&mut v, "XmockAddr");
    push_padded_decimal(&mut v, index as u64, 28);
    proof {
        reveal_strlit("XmockAddr");
    }
    string_from_chars(&v)
}

/// Returns the transaction id of index `index`.
pub fn mock_txid(index: u32) -> (r: [u8; 32])
    ensures
        is_mock_txid(r, index),
{
    let mut txid = [0xFFu8; 32];
    txid[0] = (index % 256) as u8;
    txid[1] = ((index / 256) % 256) as u8;
    txid[2] = ((index / 65536) % 256) as u8;
    txid[3] = (index / 16777216) as u8;
    txid
}

/// The signed amount of a transfer of `amount` in `direction`.
fn signed(direction: TransactionDirection, amount: u64) -> (r: i64)
    requires
        (direction is Outgoing || direction is CoinJoin) ==> amount != 0x8000_0000_0000_0000u64,
    ensures
        r == signed_amount(direction, amount),
{
    let a: i64 = amount as i64;
    match direction {
        TransactionDirection::Outgoing | TransactionDirection::CoinJoin => {
            proof {
                assert(a != i64::MIN) by (bit_vector)
                    requires
                        a == amount as i64,
                        amount != 0x8000_0000_0000_0000u64,
                ;
            }
            -a
        },
        TransactionDirection::Incoming | TransactionDirection::Internal => a,
    }
}

/// Creates a test transaction record.
pub fn mock_transaction(index: u32, direction: TransactionDirection, amount: u64) -> (r:
    TransactionInfo)
    requires
        index <= u32::MAX - 1000,
        (direction is Outgoing || direction is CoinJoin) ==> amount != 0x8000_0000_0000_0000u64,
    ensures
        is_mock_txid(r.txid, index),
        r@.amount == signed_amount(direction, amount),
        r@.direction == direction,
        r@.transaction_type == TransactionType::Standard,
        r@.timestamp == MOCK_EPOCH + index * 600,
        r@.height == Some((1000 + index) as u32),
        r@.fee.is_none(),
        r@.addresses == seq![mock_address_spec(index)],
        r@.block_hash.is_none(),
        !r@.is_instant_send,
        !r@.is_chain_locked,
        r@.label.is_none(),
        r@.inputs.len() == 0,
        r@.outputs.len() == 0,
{
    let addresses = vec![mock_address(index)];
    let r = TransactionInfo {
        txid: mock_txid(index),
        amount: signed(direction, amount),
        direction,
        transaction_type: TransactionType::Standard,
        timestamp: MOCK_EPOCH + (index as u64) * 600,
        height: Some(1000 + index),
        fee: None,
        addresses,
        block_hash: None,
        is_instant_send: false,
        is_chain_locked: false,
        label: None,
        inputs: Vec::new(),
        outputs: Vec::new(),
    };
    assert(r@.addresses =~= seq![mock_address_spec(index)]);
    r
}

/// A zero-padded decimal reads back as the number it renders.
proof fn lemma_padded_decimal_value(n: nat, width: nat)
    ensures
        digits_value(padded_decimal(n, width)) == n,
{
    lemma_decimal_digits(n);
    let d = decimal(n);
    if d.len() < width {
        lemma_digits_value_leading_zeros((width - d.len()) as nat, d);
    }
}

/// Different address indices give different mock addresses, so every receive
/// address the mock hands out differs from the one before it.
pub proof fn law_mock_addresses_distinct(i: u32, j: u32)
    requires
        i != j,
    ensures
        mock_address_spec(i) != mock_address_spec(j),
{
    let p = "XmockAddr"@;
    let a = padded_decimal(i as nat, 28);
    let b = padded_decimal(j as nat, 28);
    if mock_address_spec(i) == mock_address_spec(j) {
        assert((p + a).subrange(p.len() as int, (p + a).len() as int) =~= a);
        assert((p + b).subrange(p.len() as int, (p + b).len() as int) =~= b);
        lemma_padded_decimal_value(i as nat, 28);
        lemma_padded_decimal_value(j as nat, 28);
    }
}

/// Mathematical model of a [`MockBackendBuilder`].
#[verifier::ext_equal]
pub struct MockBuilderModel {
    pub network: Network,
    pub balance: WalletCoreBalance,
    pub transactions: Seq<TransactionInfoView>,
    pub addresses: Seq<Seq<char>>,
    pub tip_height: Option<u32>,
    pub has_persisted_wallet: bool,
}

/// Builder for configuring a `MockBackend` instance.
pub struct MockBackendBuilder {
    network: Network,
    balance: WalletCoreBalance,
    transactions: Vec<TransactionInfo>,
    addresses: Vec<String>,
    tip_height: Option<u32>,
    has_persisted_wallet: bool,
}

impl View for MockBackendBuilder {
    type V = MockBuilderModel;

    closed spec fn view(&self) -> MockBuilderModel {
        MockBuilderModel {
            network: self.network,
            balance: self.balance,
            transactions: self.transactions.deep_view(),
            addresses: self.addresses.deep_view(),
            tip_height: self.tip_height,
            has_persisted_wallet: self.has_persisted_wallet,
        }
    }
}

impl MockBackendBuilder {
    /// A builder for a mock on `network`: zero balance, no transactions, the
    /// address of index 0, no tip, no persisted wallet.
    pub fn new(network: Network) -> (r: Self)
        ensures
            r@.network == network,
            r@.balance == WalletCoreBalance::new_spec(0, 0, 0, 0),
            r@.transactions.len() == 0,
            r@.addresses == seq![mock_address_spec(0)],
            r@.tip_height.is_none(),
            !r@.has_persisted_wallet,
    {
        let r = MockBackendBuilder {
            network,
            balance: WalletCoreBalance::default(),
            transactions: Vec::new(),
            addresses: vec![mock_address(0)],
            tip_height: None,
            has_persisted_wallet: false,
        };
        assert(r@.addresses =~= seq![mock_address_spec(0)]);
        assert(r@.transactions =~= Seq::<TransactionInfoView>::empty());
        r
    }

    /// Sets the balance.
    pub fn with_balance(self, balance: WalletCoreBalance) -> (r: Self)
        ensures
            r@ == (MockBuilderModel { balance, ..self@ }),
    {
        let mut b = self;
        b.balance = balance;
        b
    }

    /// Sets a balance of `satoshis` confirmed (spendable) funds.
    pub fn with_confirmed_balance(self, satoshis: u64) -> (r: Self)
        ensures
            r@ == (MockBuilderModel {
                balance: WalletCoreBalance::new_spec(satoshis, 0, 0, 0),
                ..self@
            }),
    {
        let mut b = self;
        b.balance = WalletCoreBalance::new(satoshis, 0, 0, 0);
        b
    }

    /// Sets the transactions.
    pub fn with_transactions(self, transactions: Vec<TransactionInfo>) -> (r: Self)
        ensures
            r@ == (MockBuilderModel { transactions: transactions.deep_view(), ..self@ }),
    {
        let mut b = self;
        b.transactions = transactions;
        b
    }

    /// Sets the chain tip height.
    pub fn with_tip_height(self, height: u32) -> (r: Self)
        ensures
            r@ == (MockBuilderModel { tip_height: Some(height), ..self@ }),
    {
        let mut b = self;
        b.tip_height = Some(height);
        b
    }

    /// Marks a wallet as persisted, so that `load_wallet` finds it.
    pub fn with_persisted_wallet(self) -> (r: Self)
        ensures
            r@ == (MockBuilderModel { has_persisted_wallet: true, ..self@ }),
    {
        let mut b = self;
        b.has_persisted_wallet = true;
        b
    }

    /// Builds the backend: stopped, no wallet loaded, the next address of
    /// index 1, nothing emitted; a missing tip height counts as 0.
    pub fn build(self) -> (r: MockBackend)
        ensures
            r@ == (MockModel {
                network: self@.network,
                running: false,
                wallet_loaded: false,
                has_persisted_wallet: self@.has_persisted_wallet,
                tip_height: match self@.tip_height {
                    Some(h) => h,
                    None => 0,
                },
                balance: self@.balance,
                transactions: self@.transactions,
                addresses: self@.addresses,
                address_index: 1,
                events: Seq::empty(),
            }),
    {
        let tip = match self.tip_height {
            Some(h) => h,
            None => 0,
        };
        let r = MockBackend {
            network: self.network,
            running: false,
            wallet_loaded: false,
            has_persisted_wallet: self.has_persisted_wallet,
            tip_height: tip,
            balance: self.balance,
            transactions: self.transactions,
            addresses: self.addresses,
            address_index: 1,
            events: Vec::new(),
        };
        assert(r@.events =~= Seq::<SpvEventView>::empty());
        r
    }
}

/// Mathematical model of a [`MockBackend`].
#[verifier::ext_equal]
pub struct MockModel {
    pub network: Network,
    pub running: bool,
    pub wallet_loaded: bool,
    pub has_persisted_wallet: bool,
    pub tip_height: u32,
    pub balance: WalletCoreBalance,
    pub transactions: Seq<TransactionInfoView>,
    /// Every address handed out, in order.
    pub addresses: Seq<Seq<char>>,
    /// Index of the next receive address.
    pub address_index: u32,
    /// Events emitted and not yet drained, oldest first.
    pub events: Seq<SpvEventView>,
}

/// In-memory mock implementation of the SPV backend for testing.
pub struct MockBackend {
    network: Network,
    running: bool,
    wallet_loaded: bool,
    has_persisted_wallet: bool,
    tip_height: u32,
    balance: WalletCoreBalance,
    transactions: Vec<TransactionInfo>,
    addresses: Vec<String>,
    address_index: u32,
    events: Vec<SpvEvent>,
}

impl View for MockBackend {
    type V = MockModel;

    closed spec fn view(&self) -> MockModel {
        MockModel {
            network: self.network,
            running: self.running,
            wallet_loaded: self.wallet_loaded,
            has_persisted_wallet: self.has_persisted_wallet,
            tip_height: self.tip_height,
            balance: self.balance,
            transactions: self.transactions.deep_view(),
            addresses: self.addresses.deep_view(),
            address_index: self.address_index,
            events: events_view(self.events@),
        }
    }
}

impl MockBackend {
    /// A builder for a mock on `network`.
    pub fn builder(network: Network) -> (r: MockBackendBuilder)
        ensures
            r@.network == network,
            r@.balance == WalletCoreBalance::new_spec(0, 0, 0, 0),
            r@.transactions.len() == 0,
            r@.addresses == seq![mock_address_spec(0)],
            r@.tip_height.is_none(),
            !r@.has_persisted_wallet,
    {
        MockBackendBuilder::new(network)
    }

    /// Emit an event to all subscribers (queued until drained).
    pub fn emit(&mut self, event: SpvEvent)
        ensures
            final(self)@ == (MockModel { events: old(self)@.events.push(event@), ..old(self)@ }),
    {
        self.events.push(event);
        proof {
            assert(events_view(self.events@) =~= old(self)@.events.push(event@));
        }
    }

    /// Takes the events emitted so far, oldest first.
    pub fn drain_events(&mut self) -> (r: Vec<SpvEvent>)
        ensures
            events_view(r@) == old(self)@.events,
            final(self)@ == (MockModel { events: Seq::empty(), ..old(self)@ }),
    {
        let mut out: Vec<SpvEvent> = Vec::new();
        std::mem::swap(&mut out, &mut self.events);
        proof {
            assert(events_view(self.events@) =~= Seq::<SpvEventView>::empty());
        }
        out
    }

    /// `Ok` when a wallet is loaded, `NoWallet` otherwise.
    fn require_wallet(&self) -> (r: BackendResult<()>)
        ensures
            r == (if self@.wallet_loaded {
                Ok::<(), BackendError>(())
            } else {
                Err(BackendError::NoWallet)
            }),
    {
        if !self.wallet_loaded {
            return Err(BackendError::NoWallet);
        }
        Ok(())
    }

    /// Starts the client: connects the mock peer and reports one peer at
    /// the tip height. `AlreadyRunning` when it runs already.
    pub fn start(&mut self) -> (r: BackendResult<()>)
        ensures
            old(self)@.running ==> r == Err::<(), BackendError>(BackendError::AlreadyRunning)
                && final(self)@ == old(self)@,
            !old(self)@.running ==> r is Ok && final(self)@ == (MockModel {
                running: true,
                events: old(self)@.events.push(SpvEventView::PeerConnected(MOCK_PEER@)).push(
                    SpvEventView::PeersUpdated { count: 1, best_height: old(self)@.tip_height },
                ),
                ..old(self)@
            }),
    {
        if self.running {
            return Err(BackendError::AlreadyRunning);
        }
        self.running = true;
        self.emit(SpvEvent::PeerConnected(String::from_str(MOCK_PEER)));
        let best_height = self.tip_height;
        self.emit(SpvEvent::PeersUpdated { count: 1, best_height });
        Ok(())
    }

    /// Stops the client and disconnects the mock peer. `NotRunning` when it
    /// is not running.
    pub fn stop(&mut self) -> (r: BackendResult<()>)
        ensures
            !old(self)@.running ==> r == Err::<(), BackendError>(BackendError::NotRunning)
                && final(self)@ == old(self)@,
            old(self)@.running ==> r is Ok && final(self)@ == (MockModel {
                running: false,
                events: old(self)@.events.push(SpvEventView::PeerDisconnected(MOCK_PEER@)),
                ..old(self)@
            }),
    {
        if !self.running {
            return Err(BackendError::NotRunning);
        }
        self.running = false;
        self.emit(SpvEvent::PeerDisconnected(String::from_str(MOCK_PEER)));
        Ok(())
    }

    /// Whether the client is running.
    pub fn is_running(&self) -> (r: bool)
        ensures
            r == self@.running,
    {
        self.running
    }

    /// The network of this backend.
    pub fn network(&self) -> (r: Network)
        ensures
            r == self@.network,
    {
        self.network
    }

    /// The chain tip height; `None` while it is 0.
    pub fn tip_height(&self) -> (r: Option<u32>)
        ensures
            r == (if self@.tip_height == 0 {
                None
            } else {
                Some(self@.tip_height)
            }),
    {
        if self.tip_height == 0 {
            None
        } else {
            Some(self.tip_height)
        }
    }

    /// The sync progress: the mock never syncs, so always the initial one.
    pub fn sync_progress(&self) -> (r: SyncProgress)
        ensures
            r.state == SyncState::WaitForEvents,
            r.percentage_bp == 0,
            !r.is_synced,
            r.managers@ == Seq::<ManagerProgress>::empty(),
    {
        SyncProgress::default()
    }

    /// A fresh mnemonic: always the same 12-word phrase.
    pub fn generate_mnemonic(&self) -> (r: BackendResult<String>)
        ensures
            r matches Ok(m) && m@ == MOCK_MNEMONIC@,
    {
        Ok(String::from_str(MOCK_MNEMONIC))
    }

    /// Creates the wallet from a mnemonic of 12 or 24 words and reports a
    /// zero balance. `WalletAlreadyExists` when one is loaded,
    /// `InvalidMnemonic` for another word count.
    pub fn create_wallet(&mut self, mnemonic: &str) -> (r: BackendResult<()>)
        ensures
            old(self)@.wallet_loaded ==> r == Err::<(), BackendError>(
                BackendError::WalletAlreadyExists,
            ) && final(self)@ == old(self)@,
            !old(self)@.wallet_loaded && word_count(mnemonic@) != 12 && word_count(mnemonic@)
                != 24 ==> (r matches Err(BackendError::InvalidMnemonic(m)) && m@
                == "mnemonic must be 12 or 24 words"@) && final(self)@ == old(self)@,
            !old(self)@.wallet_loaded && (word_count(mnemonic@) == 12 || word_count(mnemonic@)
                == 24) ==> r is Ok && final(self)@ == (MockModel {
                wallet_loaded: true,
                events: old(self)@.events.push(
                    SpvEventView::BalanceUpdated(WalletCoreBalance::new_spec(0, 0, 0, 0)),
                ),
                ..old(self)@
            }),
    {
        if self.wallet_loaded {
            return Err(BackendError::WalletAlreadyExists);
        }
        let words = mnemonic_word_count(mnemonic);
        if words != 12 && words != 24 {
            proof {
                reveal_strlit("mnemonic must be 12 or 24 words");
            }
            return Err(
                BackendError::InvalidMnemonic(String::from_str("mnemonic must be 12 or 24 words")),
            );
        }
        self.wallet_loaded = true;
        self.emit(SpvEvent::BalanceUpdated(WalletCoreBalance::default()));
        Ok(())
    }

    /// Loads the persisted wallet, if there is one; returns whether it did.
    pub fn load_wallet(&mut self) -> (r: BackendResult<bool>)
        ensures
            r == Ok::<bool, BackendError>(old(self)@.has_persisted_wallet),
            final(self)@ == (MockModel {
                wallet_loaded: old(self)@.wallet_loaded || old(self)@.has_persisted_wallet,
                ..old(self)@
            }),
    {
        if self.has_persisted_wallet {
            self.wallet_loaded = true;
            Ok(true)
        } else {
            Ok(false)
        }
    }

    /// Hands out the next receive address (and remembers it).
    pub fn get_receive_address(&mut self) -> (r: BackendResult<String>)
        ensures
            !old(self)@.wallet_loaded ==> r == Err::<String, BackendError>(BackendError::NoWallet)
                && final(self)@ == old(self)@,
            old(self)@.wallet_loaded ==> (r matches Ok(a) && a@ == mock_address_spec(
                old(self)@.address_index,
            )) && final(self)@ == (MockModel {
                address_index: old(self)@.address_index.wrapping_add(1),
                addresses: old(self)@.addresses.push(mock_address_spec(old(self)@.address_index)),
                ..old(self)@
            }),
    {
        if !self.wallet_loaded {
            return Err(BackendError::NoWallet);
        }
        let index = self.address_index;
        self.address_index = index.wrapping_add(1);
        let address = mock_address(index);
        self.addresses.push(address.clone());
        proof {
            assert(self.addresses.deep_view() =~= old(self)@.addresses.push(mock_address_spec(index)));
        }
        Ok(address)
    }

    /// The wallet balance.
    pub fn get_balance(&self) -> (r: BackendResult<WalletCoreBalance>)
        ensures
            r == (if self@.wallet_loaded {
                Ok::<WalletCoreBalance, BackendError>(self@.balance)
            } else {
                Err(BackendError::NoWallet)
            }),
    {
        self.require_wallet()?;
        Ok(self.balance)
    }

    /// The wallet's transactions, in the order they were recorded.
    pub fn get_transactions(&self) -> (r: BackendResult<Vec<TransactionInfo>>)
        ensures
            !self@.wallet_loaded ==> r == Err::<Vec<TransactionInfo>, BackendError>(
                BackendError::NoWallet,
            ),
            self@.wallet_loaded ==> (r matches Ok(v) && v.deep_view() == self@.transactions),
    {
        if !self.wallet_loaded {
            return Err(BackendError::NoWallet);
        }
        Ok(clone_vec(&self.transactions))
    }

    /// The fee of a typical transaction (226 bytes) at `fee_rate` duffs per
    /// kB, rounded up; the address and amount do not change it.
    pub fn estimate_fee(&self, address: &str, amount: u64, fee_rate: u32) -> (r: BackendResult<u64>)
        ensures
            r == (if self@.wallet_loaded {
                Ok::<u64, BackendError>(estimated_fee(fee_rate) as u64)
            } else {
                Err(BackendError::NoWallet)
            }),
    {
        self.require_wallet()?;
        let estimated_size: u64 = 226;
        let product: u64 = (fee_rate as u64) * estimated_size;
        let fee = product / 1000 + if product % 1000 == 0 {
            0
        } else {
            1
        };
        assert(fee == estimated_fee(fee_rate));
        Ok(fee)
    }

    /// Pays `amount` to `address` from the spendable balance: records an
    /// outgoing transaction and reports the new balance and the transaction.
    pub fn send(&mut self, address: &str, amount: u64, fee_rate: u32) -> (r: BackendResult<
        [u8; 32],
    >)
        requires
            old(self)@.wallet_loaded && address@.len() > 0 && amount <= old(self)@.balance.spendable
                ==> amount != 0x8000_0000_0000_0000u64,
        ensures
            !old(self)@.wallet_loaded ==> r == Err::<[u8; 32], BackendError>(
                BackendError::NoWallet,
            ) && final(self)@ == old(self)@,
            old(self)@.wallet_loaded && address@.len() == 0 ==> (r matches Err(
                BackendError::InvalidAddress(m),
            ) && m@ == "empty address"@) && final(self)@ == old(self)@,
            old(self)@.wallet_loaded && address@.len() > 0 && old(self)@.balance.spendable
                < amount ==> r == Err::<[u8; 32], BackendError>(
                BackendError::InsufficientFunds {
                    available: old(self)@.balance.spendable,
                    required: amount,
                },
            ) && final(self)@ == old(self)@,
            old(self)@.wallet_loaded && address@.len() > 0 && amount
                <= old(self)@.balance.spendable ==> ({
                let new_balance = WalletCoreBalance::new_spec(
                    (old(self)@.balance.spendable - amount) as u64,
                    old(self)@.balance.unconfirmed,
                    old(self)@.balance.immature,
                    old(self)@.balance.locked,
                );
                let index = #[verifier::truncate] (old(self)@.transactions.len() as u32);
                &&& (r matches Ok(txid) && is_mock_txid(txid, index) && final(self)@ == (MockModel {
                    balance: new_balance,
                    transactions: old(self)@.transactions.push(
                        sent_record(txid, address@, amount),
                    ),
                    events: old(self)@.events.push(SpvEventView::BalanceUpdated(new_balance)).push(
                        SpvEventView::TransactionReceived(sent_record(txid, address@, amount)),
                    ),
                    ..old(self)@
                }))
            }),
    {
        if !self.wallet_loaded {
            return Err(BackendError::NoWallet);
        }
        if address.unicode_len() == 0 {
            proof {
                reveal_strlit("empty address");
            }
            return Err(BackendError::InvalidAddress(String::from_str("empty address")));
        }
        let balance = self.balance;
        if balance.spendable() < amount {
            return Err(
                BackendError::InsufficientFunds { available: balance.spendable(), required: amount },
            );
        }
        let new_balance = WalletCoreBalance::new(
            balance.spendable() - amount,
            balance.unconfirmed(),
            balance.immature(),
            balance.locked(),
        );
        self.balance = new_balance;
        let txid_bytes = mock_txid(#[verifier::truncate] (self.transactions.len() as u32));
        let addresses = vec![String::from_str(address)];
        let inputs = Vec::new();
        let outputs = Vec::new();
        assert(addresses.deep_view() =~= seq![address@]);
        assert(inputs.deep_view() =~= Seq::<crate::backend::types::InputInfoView>::empty());
        assert(outputs.deep_view() =~= Seq::<crate::backend::types::OutputInfoView>::empty());
        let record = TransactionInfo {
            txid: txid_bytes,
            amount: signed(TransactionDirection::Outgoing, amount),
            direction: TransactionDirection::Outgoing,
            transaction_type: TransactionType::Standard,
            timestamp: MOCK_EPOCH,
            height: None,
            fee: None,
            addresses,
            block_hash: None,
            is_instant_send: false,
            is_chain_locked: false,
            label: None,
            inputs,
            outputs,
        };
        assert(record@ == sent_record(txid_bytes, address@, amount));
        let copy = record.clone();
        self.transactions.push(record);
        proof {
            assert(self.transactions.deep_view() =~= old(self)@.transactions.push(
                sent_record(txid_bytes, address@, amount),
            ));
        }
        self.emit(SpvEvent::BalanceUpdated(new_balance));
        self.emit(SpvEvent::TransactionReceived(Box::new(copy)));
        Ok(txid_bytes)
    }

    /// Size of the on-disk cache: the mock keeps none.
    pub fn cache_size(&self) -> (r: BackendResult<u64>)
        ensures
            r == Ok::<u64, BackendError>(0),
    {
        Ok(0)
    }

    /// Clears the on-disk cache: nothing to do for the mock.
    pub fn clear_cache(&mut self) -> (r: BackendResult<()>)
        ensures
            r is Ok,
            final(self)@ == old(self)@,
    {
        Ok(())
    }
}

} // verus!
