//! The wallet and sync data model shared by the backend and the UI state.

use vstd::prelude::*;

verus! {

/// The Dash network a wallet runs on.
#[derive(Debug, Clone, Copy, PartialEq, Eq, Structural, Hash)]
pub enum Network {
    Mainnet,
    Testnet,
    Devnet,
    Regtest,
}

/// Direction of a wallet transaction.
#[derive(Debug, Clone, Copy, PartialEq, Eq, Structural)]
pub enum TransactionDirection {
    Incoming,
    Outgoing,
    Internal,
    CoinJoin,
}

/// Special transaction type of a wallet transaction.
#[derive(Debug, Clone, Copy, PartialEq, Eq, Structural)]
pub enum TransactionType {
    Standard,
    CoinJoin,
    Coinbase,
    AssetLock,
    AssetUnlock,
    ProviderRegistration,
    ProviderUpdateRegistrar,
    ProviderUpdateService,
    ProviderUpdateRevocation,
    Ignored,
}

/// Role of a transaction output from the wallet's perspective.
#[derive(Debug, Clone, Copy, PartialEq, Eq, Structural)]
pub enum OutputRole {
    /// Output to our external/receive address.
    Received,
    /// Output to our internal/change address.
    Change,
    /// Output to counterparty address.
    Sent,
    /// Unspendable output (OP_RETURN, non-standard, bare multisig).
    Unspendable,
}

/// Wallet-context metadata for a transaction input.
#[derive(Debug, PartialEq)]
pub struct InputInfo {
    /// Index into the transaction's input array.
    pub index: u32,
    /// Value of the UTXO being spent (satoshis).
    pub value: u64,
    /// Address that owned the spent UTXO.
    pub address: String,
}

/// Mathematical model of an [`InputInfo`].
pub struct InputInfoView {
    pub index: u32,
    pub value: u64,
    pub address: Seq<char>,
}

impl View for InputInfo {
    type V = InputInfoView;

    open spec fn view(&self) -> InputInfoView {
        InputInfoView { index: self.index, value: self.value, address: self.address@ }
    }
}

impl DeepView for InputInfo {
    type V = InputInfoView;

    open spec fn deep_view(&self) -> InputInfoView {
        self@
    }
}

impl Clone for InputInfo {
    fn clone(&self) -> (r: Self)
        ensures
            r@ == self@,
    {
        InputInfo { index: self.index, value: self.value, address: self.address.clone() }
    }
}

/// Wallet-context metadata for a transaction output.
#[derive(Debug, PartialEq)]
pub struct OutputInfo {
    /// Index into the transaction's output array.
    pub index: u32,
    /// Value of this output (satoshis).
    pub value: u64,
    /// Address receiving this output.
    pub address: String,
    /// Role from the wallet's perspective.
    pub role: OutputRole,
}

/// Mathematical model of an [`OutputInfo`].
pub struct OutputInfoView {
    pub index: u32,
    pub value: u64,
    pub address: Seq<char>,
    pub role: OutputRole,
}

impl View for OutputInfo {
    type V = OutputInfoView;

    open spec fn view(&self) -> OutputInfoView {
        OutputInfoView { index: self.index, value: self.value, address: self.address@, role: self.role }
    }
}

impl DeepView for OutputInfo {
    type V = OutputInfoView;

    open spec fn deep_view(&self) -> OutputInfoView {
        self@
    }
}

impl Clone for OutputInfo {
    fn clone(&self) -> (r: Self)
        ensures
            r@ == self@,
    {
        OutputInfo {
            index: self.index,
            value: self.value,
            address: self.address.clone(),
            role: self.role,
        }
    }
}

/// Clones a vector whose element clones preserve the model.
pub fn clone_vec<T: Clone + DeepView>(v: &Vec<T>) -> (r: Vec<T>)
    requires
        forall|a: T, b: T| #[trigger] cloned::<T>(a, b) ==> a.deep_view() == b.deep_view(),
    ensures
        r.deep_view() == v.deep_view(),
        r@.len() == v@.len(),
{
    let r = v.clone();
    assert(r.deep_view() =~= v.deep_view()) by {
        assert forall|i: int| 0 <= i < v.len() implies r.deep_view()[i] == v.deep_view()[i] by {
            assert(cloned::<T>(v[i], r[i]));
        }
    }
    r
}

/// Clones a vector of `Copy` elements.
pub fn clone_copy_vec<T: Copy>(v: &Vec<T>) -> (r: Vec<T>)
    ensures
        r@ == v@,
{
    let mut r: Vec<T> = Vec::new();
    let mut i: usize = 0;
    while i < v.len()
        invariant
            i <= v@.len(),
            r@ == v@.subrange(0, i as int),
        decreases v.len() - i,
    {
        r.push(v[i]);
        assert(v@.subrange(0, i + 1) =~= v@.subrange(0, i as int).push(v@[i as int]));
        i = i + 1;
    }
    assert(v@.subrange(0, v@.len() as int) =~= v@);
    r
}

/// Clones an optional string.
pub fn clone_opt_string(s: &Option<String>) -> (r: Option<String>)
    ensures
        r == *s,
{
    match s {
        Some(x) => Some(x.clone()),
        None => None,
    }
}

/// A UI-facing transaction record assembled from wallet events and sync state.
#[derive(Debug, PartialEq)]
pub struct TransactionInfo {
    /// Transaction id, in internal byte order.
    pub txid: [u8; 32],
    pub amount: i64,
    pub direction: TransactionDirection,
    pub transaction_type: TransactionType,
    pub timestamp: u64,
    pub height: Option<u32>,
    pub fee: Option<u64>,
    pub addresses: Vec<String>,
    /// Hash of the containing block, in internal byte order.
    pub block_hash: Option<[u8; 32]>,
    pub is_instant_send: bool,
    pub is_chain_locked: bool,
    pub label: Option<String>,
    pub inputs: Vec<InputInfo>,
    pub outputs: Vec<OutputInfo>,
}

/// Mathematical model of a [`TransactionInfo`].
pub struct TransactionInfoView {
    pub txid: [u8; 32],
    pub amount: i64,
    pub direction: TransactionDirection,
    pub transaction_type: TransactionType,
    pub timestamp: u64,
    pub height: Option<u32>,
    pub fee: Option<u64>,
    pub addresses: Seq<Seq<char>>,
    pub block_hash: Option<[u8; 32]>,
    pub is_instant_send: bool,
    pub is_chain_locked: bool,
    pub label: Option<Seq<char>>,
    pub inputs: Seq<InputInfoView>,
    pub outputs: Seq<OutputInfoView>,
}

/// Model of an optional string.
pub open spec fn opt_string_view(s: Option<String>) -> Option<Seq<char>> {
    match s {
        Some(x) => Some(x@),
        None => None,
    }
}

impl View for TransactionInfo {
    type V = TransactionInfoView;

    open spec fn view(&self) -> TransactionInfoView {
        TransactionInfoView {
            txid: self.txid,
            amount: self.amount,
            direction: self.direction,
            transaction_type: self.transaction_type,
            timestamp: self.timestamp,
            height: self.height,
            fee: self.fee,
            addresses: self.addresses.deep_view(),
            block_hash: self.block_hash,
            is_instant_send: self.is_instant_send,
            is_chain_locked: self.is_chain_locked,
            label: opt_string_view(self.label),
            inputs: self.inputs.deep_view(),
            outputs: self.outputs.deep_view(),
        }
    }
}

impl DeepView for TransactionInfo {
    type V = TransactionInfoView;

    open spec fn deep_view(&self) -> TransactionInfoView {
        self@
    }
}

impl Clone for TransactionInfo {
    fn clone(&self) -> (r: Self)
        ensures
            r@ == self@,
    {
        TransactionInfo {
            txid: self.txid,
            amount: self.amount,
            direction: self.direction,
            transaction_type: self.transaction_type,
            timestamp: self.timestamp,
            height: self.height,
            fee: self.fee,
            addresses: clone_vec(&self.addresses),
            block_hash: self.block_hash,
            is_instant_send: self.is_instant_send,
            is_chain_locked: self.is_chain_locked,
            label: clone_opt_string(&self.label),
            inputs: clone_vec(&self.inputs),
            outputs: clone_vec(&self.outputs),
        }
    }
}

/// Confirmations of a transaction at height `height` (if mined) when the
/// chain tip is at `current_height`.
pub open spec fn confirmations_spec(height: Option<u32>, current_height: u32) -> nat {
    match height {
        Some(h) => if current_height >= h { (current_height - h + 1) as nat } else { 0 },
        None => 0,
    }
}

impl TransactionInfo {
    /// Compute confirmations relative to the current chain tip.
    pub fn confirmations(&self, current_height: u32) -> (c: u32)
        requires
            !(self.height == Some(0u32) && current_height == u32::MAX),
        ensures
            c as nat == confirmations_spec(self.height, current_height),
    {
        match self.height {
            Some(h) => {
                if current_height >= h {
                    current_height - h + 1
                } else {
                    0
                }
            },
            None => 0,
        }
    }
}

/// Core wallet balance: spendable, unconfirmed, immature and locked satoshis.
#[derive(Debug, Clone, Copy, PartialEq, Eq, Structural)]
pub struct WalletCoreBalance {
    pub spendable: u64,
    pub unconfirmed: u64,
    pub immature: u64,
    pub locked: u64,
}

impl WalletCoreBalance {
    pub fn new(spendable: u64, unconfirmed: u64, immature: u64, locked: u64) -> (b: Self)
        ensures
            b.spendable_spec() == spendable,
            b.unconfirmed_spec() == unconfirmed,
            b.immature_spec() == immature,
            b.locked_spec() == locked,
    {
        WalletCoreBalance { spendable, unconfirmed, immature, locked }
    }

    pub open spec fn spendable_spec(&self) -> u64 {
        self.spendable
    }

    pub open spec fn unconfirmed_spec(&self) -> u64 {
        self.unconfirmed
    }

    pub open spec fn immature_spec(&self) -> u64 {
        self.immature
    }

    pub open spec fn locked_spec(&self) -> u64 {
        self.locked
    }

    /// Sum of all four parts.
    pub open spec fn total_spec(&self) -> int {
        self.spendable + self.unconfirmed + self.immature + self.locked
    }

    pub fn spendable(&self) -> (r: u64)
        ensures
            r == self.spendable_spec(),
    {
        self.spendable
    }

    pub fn unconfirmed(&self) -> (r: u64)
        ensures
            r == self.unconfirmed_spec(),
    {
        self.unconfirmed
    }

    pub fn immature(&self) -> (r: u64)
        ensures
            r == self.immature_spec(),
    {
        self.immature
    }

    pub fn locked(&self) -> (r: u64)
        ensures
            r == self.locked_spec(),
    {
        self.locked
    }

    /// Total balance across all four parts.
    pub fn total(&self) -> (r: u64)
        requires
            self.total_spec() <= u64::MAX,
        ensures
            r == self.total_spec(),
    {
        self.spendable + self.unconfirmed + self.immature + self.locked
    }
}

impl Default for WalletCoreBalance {
    fn default() -> (b: Self)
        ensures
            b == WalletCoreBalance::new_spec(0, 0, 0, 0),
    {
        WalletCoreBalance { spendable: 0, unconfirmed: 0, immature: 0, locked: 0 }
    }
}

impl WalletCoreBalance {
    pub open spec fn new_spec(spendable: u64, unconfirmed: u64, immature: u64, locked: u64) -> Self {
        WalletCoreBalance { spendable, unconfirmed, immature, locked }
    }
}

/// State of the sync engine or of one of its managers.
#[derive(Debug, Clone, Copy, PartialEq, Eq, Structural)]
pub enum SyncState {
    WaitForEvents,
    WaitingForConnections,
    Syncing,
    Synced,
    Error,
}

/// The sync managers that make up the sync engine.
#[derive(Debug, Clone, Copy, PartialEq, Eq, Structural)]
pub enum ManagerId {
    Headers,
    FilterHeaders,
    Filters,
    Blocks,
    Masternodes,
    ChainLocks,
    InstantSend,
    Mempool,
}

/// Display name of a sync manager.
pub open spec fn manager_name_spec(m: ManagerId) -> Seq<char> {
    match m {
        ManagerId::Headers => "BlockHeaders"@,
        ManagerId::FilterHeaders => "FilterHeaders"@,
        ManagerId::Filters => "Filters"@,
        ManagerId::Blocks => "Blocks"@,
        ManagerId::Masternodes => "Masternodes"@,
        ManagerId::ChainLocks => "ChainLocks"@,
        ManagerId::InstantSend => "InstantSend"@,
        ManagerId::Mempool => "Mempool"@,
    }
}

impl ManagerId {
    /// Display name of the manager.
    pub fn name(&self) -> (r: &'static str)
        ensures
            r@ == manager_name_spec(*self),
    {
        match self {
            ManagerId::Headers => "BlockHeaders",
            ManagerId::FilterHeaders => "FilterHeaders",
            ManagerId::Filters => "Filters",
            ManagerId::Blocks => "Blocks",
            ManagerId::Masternodes => "Masternodes",
            ManagerId::ChainLocks => "ChainLocks",
            ManagerId::InstantSend => "InstantSend",
            ManagerId::Mempool => "Mempool",
        }
    }
}

/// Progress of one sync manager. Percentages are in hundredths of a percent
/// (`10000` is complete).
#[derive(Debug, Clone, Copy, PartialEq, Eq, Structural)]
pub struct ManagerProgress {
    pub manager: ManagerId,
    pub state: SyncState,
    pub current_height: u32,
    pub target_height: u32,
    pub percentage_bp: u32,
}

/// Snapshot of overall sync progress. `percentage_bp` is in hundredths of a
/// percent (`10000` is complete).
#[derive(Debug, PartialEq)]
pub struct SyncProgress {
    pub state: SyncState,
    pub percentage_bp: u32,
    pub is_synced: bool,
    pub managers: Vec<ManagerProgress>,
}

/// The state of the first manager entry for `id`, if any.
pub open spec fn manager_state_spec(managers: Seq<ManagerProgress>, id: ManagerId) -> Option<SyncState>
    decreases managers.len(),
{
    if managers.len() == 0 {
        None
    } else if managers[0].manager == id {
        Some(managers[0].state)
    } else {
        manager_state_spec(managers.drop_first(), id)
    }
}

/// Short label of a sync state.
pub open spec fn state_label_spec(s: SyncState) -> Seq<char> {
    match s {
        SyncState::WaitForEvents => "waiting"@,
        SyncState::WaitingForConnections => "connecting"@,
        SyncState::Syncing => "syncing"@,
        SyncState::Synced => "synced"@,
        SyncState::Error => "error"@,
    }
}

impl SyncProgress {
    /// The state of the given manager, if the snapshot reports on it.
    pub fn manager_state(&self, id: ManagerId) -> (r: Option<SyncState>)
        ensures
            r == manager_state_spec(self.managers@, id),
    {
        let mut i: usize = 0;
        assert(self.managers@.skip(0) =~= self.managers@);
        while i < self.managers.len()
            invariant
                i <= self.managers@.len(),
                manager_state_spec(self.managers@, id) == manager_state_spec(
                    self.managers@.skip(i as int),
                    id,
                ),
            decreases self.managers.len() - i,
        {
            assert(self.managers@.skip(i as int).drop_first() =~= self.managers@.skip(i + 1));
            if self.managers[i].manager == id {
                return Some(self.managers[i].state);
            }
            i = i + 1;
        }
        None
    }

    /// Short label of the overall state.
    pub fn state_label(&self) -> (r: &'static str)
        ensures
            r@ == state_label_spec(self.state),
    {
        match self.state {
            SyncState::WaitForEvents => "waiting",
            SyncState::WaitingForConnections => "connecting",
            SyncState::Syncing => "syncing",
            SyncState::Synced => "synced",
            SyncState::Error => "error",
        }
    }
}

/// Mathematical model of a [`SyncProgress`].
pub struct SyncProgressModel {
    pub state: SyncState,
    pub percentage_bp: u32,
    pub is_synced: bool,
    pub managers: Seq<ManagerProgress>,
}

impl View for SyncProgress {
    type V = SyncProgressModel;

    open spec fn view(&self) -> SyncProgressModel {
        SyncProgressModel {
            state: self.state,
            percentage_bp: self.percentage_bp,
            is_synced: self.is_synced,
            managers: self.managers@,
        }
    }
}

impl Clone for SyncProgress {
    fn clone(&self) -> (r: Self)
        ensures
            r@ == self@,
    {
        SyncProgress {
            state: self.state,
            percentage_bp: self.percentage_bp,
            is_synced: self.is_synced,
            managers: clone_copy_vec(&self.managers),
        }
    }
}

impl Default for SyncProgress {
    fn default() -> (p: Self)
        ensures
            p.state == SyncState::WaitForEvents,
            p.percentage_bp == 0,
            !p.is_synced,
            p.managers@ == Seq::<ManagerProgress>::empty(),
    {
        SyncProgress {
            state: SyncState::WaitForEvents,
            percentage_bp: 0,
            is_synced: false,
            managers: Vec::new(),
        }
    }
}

/// The BIP44 coin type of a network: 5 on mainnet, 1 on the test networks.
pub fn coin_type_for_network(network: Network) -> (r: u32)
    ensures
        r == (if network == Network::Mainnet {
            5u32
        } else {
            1u32
        }),
{
    match network {
        Network::Mainnet => 5,
        _ => 1,
    }
}

} // verus!
