//! What the SPV client reports (sync, network and wallet notifications and
//! the wallet's transaction records), held as plain values, and its
//! mapping into backend events and transaction records of the UI.

use vstd::prelude::*;
use crate::backend::events::{SpvEvent, SpvEventView, events_view};
use crate::backend::types::{
    InputInfo, InputInfoView, ManagerId, OutputInfo, OutputInfoView, OutputRole,
    TransactionDirection, TransactionInfo, TransactionInfoView, TransactionType, WalletCoreBalance,
};
use crate::state::view_models::unix_now_secs;
use crate::text::{insert_sorted_unique, strictly_sorted};

verus! {

/// Height, hash and time of the block holding a transaction.
#[derive(Debug, Clone, Copy, PartialEq, Eq)]
pub struct BlockInfo {
    pub height: u32,
    pub block_hash: [u8; 32],
    pub timestamp: u64,
}

/// Where a wallet transaction stands.
#[derive(Debug, Clone, Copy, PartialEq, Eq)]
pub enum TransactionContext {
    /// Seen in the mempool only.
    Mempool,
    /// Locked by an InstantSend lock, not yet mined.
    InstantSend,
    /// Mined in a block.
    InBlock(BlockInfo),
    /// Mined in a chain-locked block.
    InChainLockedBlock(BlockInfo),
}

/// A spent output that belonged to the wallet.
#[derive(Debug)]
pub struct InputDetail {
    pub index: u32,
    pub value: u64,
    pub address: String,
}

/// An output the wallet classified.
#[derive(Debug)]
pub struct OutputDetail {
    /// Index into the transaction's outputs.
    pub index: u32,
    pub role: OutputRole,
}

/// An output of the raw transaction: its value, and its address on the
/// wallet's network when its script has one.
#[derive(Debug)]
pub struct TxOutput {
    pub value: u64,
    pub address: Option<String>,
}

/// A transaction as the wallet records it.
#[derive(Debug)]
pub struct TransactionRecord {
    pub txid: [u8; 32],
    pub net_amount: i64,
    pub direction: TransactionDirection,
    pub transaction_type: TransactionType,
    pub context: TransactionContext,
    pub fee: Option<u64>,
    /// User label; empty when there is none.
    pub label: String,
    pub input_details: Vec<InputDetail>,
    pub output_details: Vec<OutputDetail>,
    /// The outputs of the raw transaction.
    pub outputs: Vec<TxOutput>,
}

/// Notifications of the sync engine.
#[derive(Debug)]
pub enum SyncEvent {
    SyncStart { identifier: ManagerId },
    BlockHeadersStored { tip_height: u32 },
    BlockHeaderSyncComplete { tip_height: u32 },
    FiltersSyncComplete { tip_height: u32 },
    /// A block was processed; `new_addresses` counts the wallets that
    /// derived new addresses in it.
    BlockProcessed { height: u32, new_addresses: usize },
    SyncComplete { header_tip: u32, cycle: u32 },
    ChainLockReceived { block_height: u32, validated: bool },
    InstantLockReceived { txid: [u8; 32], validated: bool },
    /// A sync manager failed; `manager` is its display name.
    ManagerError { manager: String, error: String },
    /// Any notification the UI does not show.
    Other,
}

/// Notifications of the peer network.
#[derive(Debug)]
pub enum NetworkEvent {
    PeerConnected { address: String },
    PeerDisconnected { address: String },
    PeersUpdated { connected_count: usize, best_height: Option<u32> },
}

/// Notifications of the wallet manager.
#[derive(Debug)]
pub enum WalletEvent {
    TransactionDetected { record: Box<TransactionRecord>, balance: WalletCoreBalance },
    TransactionInstantLocked { txid: [u8; 32], balance: WalletCoreBalance },
    BlockProcessed {
        inserted: Vec<TransactionRecord>,
        updated: Vec<TransactionRecord>,
        matured: Vec<TransactionRecord>,
        balance: WalletCoreBalance,
    },
    SyncHeightAdvanced,
    TransactionsChainlocked,
}

/// Height, timestamp, block hash, InstantSend and ChainLock flags of a
/// transaction context.
pub open spec fn context_fields(c: TransactionContext) -> (
    Option<u32>,
    Option<u64>,
    Option<[u8; 32]>,
    bool,
    bool,
) {
    match c {
        TransactionContext::Mempool => (None, None, None, false, false),
        TransactionContext::InstantSend => (None, None, None, true, false),
        TransactionContext::InBlock(info) => (
            Some(info.height),
            Some(info.timestamp),
            Some(info.block_hash),
            false,
            false,
        ),
        TransactionContext::InChainLockedBlock(info) => (
            Some(info.height),
            Some(info.timestamp),
            Some(info.block_hash),
            false,
            true,
        ),
    }
}

/// Extract UI-relevant fields from a transaction context.
pub fn extract_context_fields(ctx: &TransactionContext) -> (r: (
    Option<u32>,
    Option<u64>,
    Option<[u8; 32]>,
    bool,
    bool,
))
    ensures
        r == context_fields(*ctx),
{
    match ctx {
        TransactionContext::Mempool => (None, None, None, false, false),
        TransactionContext::InstantSend => (None, None, None, true, false),
        TransactionContext::InBlock(info) => (
            Some(info.height),
            Some(info.timestamp),
            Some(info.block_hash),
            false,
            false,
        ),
        TransactionContext::InChainLockedBlock(info) => (
            Some(info.height),
            Some(info.timestamp),
            Some(info.block_hash),
            false,
            true,
        ),
    }
}

/// The addresses of a record's inputs, in order.
pub open spec fn input_addresses(record: TransactionRecord) -> Seq<Seq<char>> {
    record.input_details@.map_values(|d: InputDetail| d.address@)
}

/// Extract the distinct addresses of a record's inputs, sorted.
pub fn extract_record_addresses(record: &TransactionRecord) -> (r: Vec<String>)
    ensures
        strictly_sorted(r.deep_view()),
        forall|a: Seq<char>| #[trigger] r.deep_view().contains(a) <==> input_addresses(*record).contains(a),
{
    let mut addrs: Vec<String> = Vec::new();
    let mut i: usize = 0;
    while i < record.input_details.len()
        invariant
            i <= record.input_details@.len(),
            strictly_sorted(addrs.deep_view()),
            forall|a: Seq<char>| #[trigger] addrs.deep_view().contains(a) <==> input_addresses(
                *record,
            ).take(i as int).contains(a),
        decreases record.input_details.len() - i,
    {
        let ghost before = addrs.deep_view();
        let ghost all = input_addresses(*record);
        let ghost item_v = record.input_details@[i as int].address@;
        assert(all[i as int] == item_v);
        insert_sorted_unique(&mut addrs, record.input_details[i].address.clone());
        proof {
            let prev = all.take(i as int);
            let next = all.take(i + 1);
            assert(next =~= prev.push(item_v));
            assert forall|a: Seq<char>| #[trigger] addrs.deep_view().contains(a) <==> next.contains(
                a,
            ) by {
                assert(addrs.deep_view().contains(a) <==> (before.contains(a) || a == item_v));
                assert(before.contains(a) <==> prev.contains(a));
                if prev.contains(a) {
                    let k = choose|k: int| 0 <= k < prev.len() && #[trigger] prev[k] == a;
                    assert(next[k] == a);
                }
                if a == item_v {
                    assert(next[i as int] == a);
                }
                if next.contains(a) {
                    let k = choose|k: int| 0 <= k < next.len() && #[trigger] next[k] == a;
                    if k < i {
                        assert(prev[k] == a);
                    }
                }
            }
        }
        i = i + 1;
    }
    proof {
        assert(input_addresses(*record).take(i as int) =~= input_addresses(*record));
    }
    addrs
}

/// The model of the input entry of an input detail.
pub open spec fn input_info_of(d: InputDetail) -> InputInfoView {
    InputInfoView { index: d.index, value: d.value, address: d.address@ }
}

/// Build `InputInfo` entries from a record's input details.
pub fn extract_record_inputs(record: &TransactionRecord) -> (r: Vec<InputInfo>)
    ensures
        r.deep_view() == record.input_details@.map_values(|d: InputDetail| input_info_of(d)),
{
    let mut out: Vec<InputInfo> = Vec::new();
    let mut i: usize = 0;
    while i < record.input_details.len()
        invariant
            i <= record.input_details@.len(),
            out@.len() == i,
            out.deep_view() == record.input_details@.take(i as int).map_values(
                |d: InputDetail| input_info_of(d),
            ),
        decreases record.input_details.len() - i,
    {
        let d = &record.input_details[i];
        let ghost before = out@;
        out.push(InputInfo { index: d.index, value: d.value, address: d.address.clone() });
        proof {
            let prev = record.input_details@.take(i as int).map_values(
                |d: InputDetail| input_info_of(d),
            );
            let target = record.input_details@.take(i + 1).map_values(
                |d: InputDetail| input_info_of(d),
            );
            assert forall|j: int| 0 <= j < i + 1 implies #[trigger] out.deep_view()[j]
                == target[j] by {
                if j < i {
                    assert(out@[j] == before[j]);
                    assert(prev[j] == target[j]);
                }
            }
            assert(out.deep_view() =~= target);
        }
        i = i + 1;
    }
    proof {
        assert(record.input_details@.take(i as int) =~= record.input_details@);
    }
    out
}

/// The model of the output entry of an output detail: value and address of
/// the raw output it points to, or 0 and no address when it points past
/// the outputs.
pub open spec fn output_info_of(d: OutputDetail, outputs: Seq<TxOutput>) -> OutputInfoView {
    OutputInfoView {
        index: d.index,
        value: if d.index < outputs.len() {
            outputs[d.index as int].value
        } else {
            0
        },
        address: if d.index < outputs.len() {
            match outputs[d.index as int].address {
                Some(a) => a@,
                None => Seq::empty(),
            }
        } else {
            Seq::empty()
        },
        role: d.role,
    }
}

/// Build `OutputInfo` entries from a record's output details, enriched with
/// value and address from the raw transaction outputs.
pub fn extract_record_outputs(record: &TransactionRecord) -> (r: Vec<OutputInfo>)
    ensures
        r.deep_view() == record.output_details@.map_values(
            |d: OutputDetail| output_info_of(d, record.outputs@),
        ),
{
    let mut out: Vec<OutputInfo> = Vec::new();
    let mut i: usize = 0;
    while i < record.output_details.len()
        invariant
            i <= record.output_details@.len(),
            out@.len() == i,
            out.deep_view() == record.output_details@.take(i as int).map_values(
                |d: OutputDetail| output_info_of(d, record.outputs@),
            ),
        decreases record.output_details.len() - i,
    {
        let d = &record.output_details[i];
        let k = d.index as usize;
        let (value, address) = if k < record.outputs.len() {
            let o = &record.outputs[k];
            let a = match &o.address {
                Some(a) => a.clone(),
                None => String::new(),
            };
            (o.value, a)
        } else {
            (0, String::new())
        };
        let ghost before = out@;
        out.push(OutputInfo { index: d.index, value, address, role: d.role });
        proof {
            let prev = record.output_details@.take(i as int).map_values(
                |d: OutputDetail| output_info_of(d, record.outputs@),
            );
            let target = record.output_details@.take(i + 1).map_values(
                |d: OutputDetail| output_info_of(d, record.outputs@),
            );
            assert forall|j: int| 0 <= j < i + 1 implies #[trigger] out.deep_view()[j]
                == target[j] by {
                if j < i {
                    assert(out@[j] == before[j]);
                    assert(prev[j] == target[j]);
                }
            }
            assert(out.deep_view() =~= target);
        }
        i = i + 1;
    }
    proof {
        assert(record.output_details@.take(i as int) =~= record.output_details@);
    }
    out
}

/// The model of the UI record of a wallet record: the context's height,
/// block hash and lock flags, its timestamp (or `fallback_timestamp` when it
/// has none), the distinct input addresses, the inputs and enriched outputs,
/// and the label unless it is empty.
pub open spec fn record_info_matches(
    t: TransactionInfoView,
    record: TransactionRecord,
    fallback_timestamp: u64,
) -> bool {
    let f = context_fields(record.context);
    &&& t.txid == record.txid
    &&& t.amount == record.net_amount
    &&& t.direction == record.direction
    &&& t.transaction_type == record.transaction_type
    &&& t.timestamp == (match f.1 {
        Some(ts) => ts,
        None => fallback_timestamp,
    })
    &&& t.height == f.0
    &&& t.fee == record.fee
    &&& strictly_sorted(t.addresses)
    &&& (forall|a: Seq<char>| #[trigger] t.addresses.contains(a) <==> input_addresses(
        record,
    ).contains(a))
    &&& t.block_hash == f.2
    &&& t.is_instant_send == f.3
    &&& t.is_chain_locked == f.4
    &&& t.label == (if record.label@.len() == 0 {
        None
    } else {
        Some(record.label@)
    })
    &&& t.inputs == record.input_details@.map_values(|d: InputDetail| input_info_of(d))
    &&& t.outputs == record.output_details@.map_values(
        |d: OutputDetail| output_info_of(d, record.outputs@),
    )
}

impl TransactionInfo {
    /// Build a `TransactionInfo` from a wallet `TransactionRecord`.
    ///
    /// `fallback_timestamp` is used when the transaction context carries no
    /// timestamp (mempool / instant-send).  Pass `0` for cold-start loads
    /// (renders as "Pending") or the current unix time for live events
    /// (renders as "just now").
    pub fn from_record(record: &TransactionRecord, fallback_timestamp: u64) -> (r: TransactionInfo)
        ensures
            record_info_matches(r@, *record, fallback_timestamp),
    {
        let (height, timestamp, block_hash, is_instant_send, is_chain_locked) =
            extract_context_fields(&record.context);
        let addresses = extract_record_addresses(record);
        let inputs = extract_record_inputs(record);
        let outputs = extract_record_outputs(record);
        let label = if record.label.unicode_len() == 0 {
            None
        } else {
            Some(record.label.clone())
        };
        TransactionInfo {
            txid: record.txid,
            amount: record.net_amount,
            direction: record.direction,
            transaction_type: record.transaction_type,
            timestamp: match timestamp {
                Some(ts) => ts,
                None => fallback_timestamp,
            },
            height,
            fee: record.fee,
            addresses,
            block_hash,
            is_instant_send,
            is_chain_locked,
            label,
            inputs,
            outputs,
        }
    }
}

/// The UI record built from a wallet record carries the record's id, signed
/// net amount (negative for money sent), direction, type and fee unchanged.
/// A record not yet in a block gets no height or block hash and the fallback
/// timestamp; one in a block gets that block's height, hash and time, and is
/// marked chain-locked exactly when the block is.
pub proof fn law_record_info_keeps_amount(t: TransactionInfoView, record: TransactionRecord, fallback_timestamp: u64)
    requires
        record_info_matches(t, record, fallback_timestamp),
    ensures
        t.amount == record.net_amount,
        record.net_amount < 0 ==> t.amount < 0,
        t.txid == record.txid,
        t.direction == record.direction,
        t.transaction_type == record.transaction_type,
        t.fee == record.fee,
        (record.context is Mempool || record.context is InstantSend) ==> t.height is None
            && t.block_hash is None && t.timestamp == fallback_timestamp && !t.is_chain_locked,
        record.context is InstantSend <==> t.is_instant_send,
        record.context matches TransactionContext::InBlock(b) ==> t.height == Some(b.height)
            && t.block_hash == Some(b.block_hash) && t.timestamp == b.timestamp
            && !t.is_chain_locked,
        record.context matches TransactionContext::InChainLockedBlock(b) ==> t.height == Some(
            b.height,
        ) && t.block_hash == Some(b.block_hash) && t.timestamp == b.timestamp && t.is_chain_locked,
{
}

/// The backend event for a sync notification, if the UI shows it.
pub open spec fn sync_event_view(e: SyncEvent) -> Option<SpvEventView> {
    match e {
        SyncEvent::SyncStart { identifier } => Some(SpvEventView::SyncStarted { manager: identifier }),
        SyncEvent::BlockHeadersStored { tip_height } => Some(
            SpvEventView::HeadersSynced { tip_height },
        ),
        SyncEvent::BlockHeaderSyncComplete { tip_height } => Some(
            SpvEventView::HeadersSynced { tip_height },
        ),
        SyncEvent::FiltersSyncComplete { tip_height } => Some(
            SpvEventView::FiltersSynced { tip_height },
        ),
        SyncEvent::BlockProcessed { height, new_addresses } => Some(
            SpvEventView::BlockProcessed { height, new_addresses: new_addresses as u32 },
        ),
        SyncEvent::SyncComplete { header_tip, cycle } => Some(
            SpvEventView::SyncComplete { tip_height: header_tip, cycle },
        ),
        SyncEvent::ChainLockReceived { block_height, validated } => Some(
            SpvEventView::ChainLockReceived { height: block_height, validated },
        ),
        SyncEvent::InstantLockReceived { txid, validated } => Some(
            SpvEventView::InstantLockReceived { txid, validated },
        ),
        SyncEvent::ManagerError { manager, error } => Some(
            SpvEventView::Error(manager@ + ": "@ + error@),
        ),
        SyncEvent::Other => None,
    }
}

/// The model of an optional event.
pub open spec fn opt_event_view(e: Option<SpvEvent>) -> Option<SpvEventView> {
    match e {
        Some(x) => Some(x@),
        None => None,
    }
}

/// Map a sync notification to the backend event the UI shows for it.
pub fn map_sync_event(event: SyncEvent) -> (r: Option<SpvEvent>)
    ensures
        opt_event_view(r) == sync_event_view(event),
{
    match event {
        SyncEvent::SyncStart { identifier } => Some(SpvEvent::SyncStarted { manager: identifier }),
        SyncEvent::BlockHeadersStored { tip_height } => Some(SpvEvent::HeadersSynced { tip_height }),
        SyncEvent::BlockHeaderSyncComplete { tip_height } => Some(
            SpvEvent::HeadersSynced { tip_height },
        ),
        SyncEvent::FiltersSyncComplete { tip_height } => Some(SpvEvent::FiltersSynced { tip_height }),
        SyncEvent::BlockProcessed { height, new_addresses } => Some(
            SpvEvent::BlockProcessed {
                height,
                new_addresses: #[verifier::truncate] (new_addresses as u32),
            },
        ),
        SyncEvent::SyncComplete { header_tip, cycle } => Some(
            SpvEvent::SyncComplete { tip_height: header_tip, cycle },
        ),
        SyncEvent::ChainLockReceived { block_height, validated } => Some(
            SpvEvent::ChainLockReceived { height: block_height, validated },
        ),
        SyncEvent::InstantLockReceived { txid, validated } => Some(
            SpvEvent::InstantLockReceived { txid, validated },
        ),
        SyncEvent::ManagerError { manager, error } => {
            let mut s = manager;
            s.append(": ");
            s.append(error.as_str());
            proof {
                reveal_strlit(": ");
            }
            Some(SpvEvent::Error(s))
        },
        SyncEvent::Other => None,
    }
}

/// The backend event for a network notification.
pub open spec fn network_event_view(e: NetworkEvent) -> SpvEventView {
    match e {
        NetworkEvent::PeerConnected { address } => SpvEventView::PeerConnected(address@),
        NetworkEvent::PeerDisconnected { address } => SpvEventView::PeerDisconnected(address@),
        NetworkEvent::PeersUpdated { connected_count, best_height } => SpvEventView::PeersUpdated {
            count: connected_count as u32,
            best_height: match best_height {
                Some(h) => h,
                None => 0,
            },
        },
    }
}

/// Map a network notification to a backend event.
pub fn map_network_event(event: NetworkEvent) -> (r: SpvEvent)
    ensures
        r@ == network_event_view(event),
{
    match event {
        NetworkEvent::PeerConnected { address } => SpvEvent::PeerConnected(address),
        NetworkEvent::PeerDisconnected { address } => SpvEvent::PeerDisconnected(address),
        NetworkEvent::PeersUpdated { connected_count, best_height } => SpvEvent::PeersUpdated {
            count: #[verifier::truncate] (connected_count as u32),
            best_height: match best_height {
                Some(h) => h,
                None => 0,
            },
        },
    }
}

/// Whether `events` are the transaction events of `records`, in order.
pub open spec fn received_all(
    events: Seq<SpvEventView>,
    records: Seq<TransactionRecord>,
    now: u64,
) -> bool {
    &&& events.len() == records.len()
    &&& forall|i: int|
        0 <= i < records.len() ==> (#[trigger] events[i] matches SpvEventView::TransactionReceived(
            t,
        ) && record_info_matches(t, records[i], now))
}

/// The model of the status record reported for an InstantSend-locked
/// transaction: only the txid and the lock are known.
pub open spec fn instant_locked_info(txid: [u8; 32]) -> TransactionInfoView {
    TransactionInfoView {
        txid,
        amount: 0,
        direction: TransactionDirection::Incoming,
        transaction_type: TransactionType::Standard,
        timestamp: 0,
        height: None,
        fee: None,
        addresses: Seq::empty(),
        block_hash: None,
        is_instant_send: true,
        is_chain_locked: false,
        label: None,
        inputs: Seq::empty(),
        outputs: Seq::empty(),
    }
}

/// Whether `events` are what a wallet notification is shown as, with `now`
/// the time given to records without a timestamp.
pub open spec fn wallet_events_match(events: Seq<SpvEventView>, e: WalletEvent, now: u64) -> bool {
    match e {
        WalletEvent::TransactionDetected { record, balance } => {
            &&& events.len() == 2
            &&& events[0] matches SpvEventView::TransactionReceived(t) && record_info_matches(
                t,
                *record,
                now,
            )
            &&& events[1] == SpvEventView::BalanceUpdated(balance)
        },
        WalletEvent::TransactionInstantLocked { txid, balance } => events == seq![
            SpvEventView::TransactionReceived(instant_locked_info(txid)),
            SpvEventView::BalanceUpdated(balance),
        ],
        WalletEvent::BlockProcessed { inserted, updated, matured, balance } => {
            let records = inserted@ + updated@ + matured@;
            &&& events.len() == records.len() + 1
            &&& received_all(events.take(records.len() as int), records, now)
            &&& events.last() == SpvEventView::BalanceUpdated(balance)
        },
        WalletEvent::SyncHeightAdvanced => events.len() == 0,
        WalletEvent::TransactionsChainlocked => events.len() == 0,
    }
}

/// Appends the transaction events of `records`.
fn push_received(events: &mut Vec<SpvEvent>, records: &Vec<TransactionRecord>, now: u64)
    ensures
        events_view(final(events)@).take(old(events)@.len() as int) == events_view(old(events)@),
        final(events)@.len() == old(events)@.len() + records@.len(),
        received_all(events_view(final(events)@).skip(old(events)@.len() as int), records@, now),
{
    let ghost start = old(events)@.len();
    let mut i: usize = 0;
    while i < records.len()
        invariant
            i <= records@.len(),
            events@.len() == start + i,
            start == old(events)@.len(),
            events_view(events@).take(start as int) == events_view(old(events)@),
            received_all(events_view(events@).skip(start as int), records@.take(i as int), now),
        decreases records.len() - i,
    {
        let info = TransactionInfo::from_record(&records[i], now);
        let ghost before = events@;
        events.push(SpvEvent::TransactionReceived(Box::new(info)));
        proof {
            assert(events_view(events@).take(start as int) =~= events_view(before).take(
                start as int,
            ));
            let tail = events_view(events@).skip(start as int);
            let rs = records@.take(i + 1);
            assert(rs =~= records@.take(i as int).push(records@[i as int]));
            assert forall|j: int| 0 <= j < rs.len() implies (#[trigger] tail[j] matches SpvEventView::TransactionReceived(
                t,
            ) && record_info_matches(t, rs[j], now)) by {
                if j < i {
                    assert(tail[j] == events_view(before).skip(start as int)[j]);
                }
            }
        }
        i = i + 1;
    }
    proof {
        assert(records@.take(i as int) =~= records@);
    }
}

/// Map a wallet notification to the backend events shown for it; records
/// without a timestamp get `now`.
pub fn map_wallet_event_at(event: WalletEvent, now: u64) -> (r: Vec<SpvEvent>)
    ensures
        wallet_events_match(events_view(r@), event, now),
{
    match event {
        WalletEvent::TransactionDetected { record, balance } => {
            let info = TransactionInfo::from_record(&record, now);
            let r = vec![
                SpvEvent::TransactionReceived(Box::new(info)),
                SpvEvent::BalanceUpdated(balance),
            ];
            r
        },
        WalletEvent::TransactionInstantLocked { txid, balance } => {
            let info = TransactionInfo {
                txid,
                is_instant_send: true,
                amount: 0,
                direction: TransactionDirection::Incoming,
                transaction_type: TransactionType::Standard,
                timestamp: 0,
                height: None,
                fee: None,
                addresses: Vec::new(),
                block_hash: None,
                is_chain_locked: false,
                label: None,
                inputs: Vec::new(),
                outputs: Vec::new(),
            };
            assert(info.addresses.deep_view() =~= Seq::<Seq<char>>::empty());
            assert(info.inputs.deep_view() =~= Seq::<InputInfoView>::empty());
            assert(info.outputs.deep_view() =~= Seq::<OutputInfoView>::empty());
            assert(info@ == instant_locked_info(txid));
            let r = vec![
                SpvEvent::TransactionReceived(Box::new(info)),
                SpvEvent::BalanceUpdated(balance),
            ];
            assert(events_view(r@) =~= seq![
                SpvEventView::TransactionReceived(instant_locked_info(txid)),
                SpvEventView::BalanceUpdated(balance),
            ]);
            r
        },
        WalletEvent::BlockProcessed { inserted, updated, matured, balance } => {
            let mut events: Vec<SpvEvent> = Vec::new();
            push_received(&mut events, &inserted, now);
            let ghost after1 = events@;
            push_received(&mut events, &updated, now);
            let ghost after2 = events@;
            push_received(&mut events, &matured, now);
            let ghost after3 = events@;
            events.push(SpvEvent::BalanceUpdated(balance));
            proof {
                let records = inserted@ + updated@ + matured@;
                let ev = events_view(events@);
                let n1 = inserted@.len() as int;
                let n2 = n1 + updated@.len();
                let n3 = n2 + matured@.len();
                assert(events_view(after2).take(n1) == events_view(after1));
                assert(events_view(after3).take(n2) == events_view(after2));
                assert(ev.take(n3) =~= events_view(after3));
                assert forall|j: int| 0 <= j < records.len() implies (#[trigger] ev.take(
                    records.len() as int,
                )[j] matches SpvEventView::TransactionReceived(t) && record_info_matches(
                    t,
                    records[j],
                    now,
                )) by {
                    assert(ev.take(records.len() as int)[j] == events_view(after3)[j]);
                    if j < n1 {
                        assert(events_view(after3)[j] == events_view(after2)[j]);
                        assert(events_view(after2)[j] == events_view(after1)[j]);
                        assert(events_view(after1)[j] == events_view(after1).skip(0)[j]);
                        assert(records[j] == inserted@[j]);
                    } else if j < n2 {
                        assert(events_view(after3)[j] == events_view(after2)[j]);
                        assert(events_view(after2)[j] == events_view(after2).skip(n1)[j - n1]);
                        assert(records[j] == updated@[j - n1]);
                    } else {
                        assert(events_view(after3)[j] == events_view(after3).skip(n2)[j - n2]);
                        assert(records[j] == matured@[j - n2]);
                    }
                }
            }
            events
        },
        WalletEvent::SyncHeightAdvanced => Vec::new(),
        WalletEvent::TransactionsChainlocked => Vec::new(),
    }
}

/// Map a wallet notification to the backend events shown for it; records
/// without a timestamp get the current time.
pub fn map_wallet_event(event: WalletEvent) -> (r: Vec<SpvEvent>)
    ensures
        exists|now: u64| wallet_events_match(events_view(r@), event, now),
{
    let now = unix_now_secs();
    map_wallet_event_at(event, now)
}

/// How a transaction stands, as the C interface of the SPV client reports
/// it alongside a flat block info.
#[derive(Debug, Clone, Copy, PartialEq, Eq)]
pub enum ContextKind {
    Mempool,
    InstantSend,
    InBlock,
    InChainLockedBlock,
}

/// The InstantSend and ChainLock flags of a context kind.
pub fn ffi_transaction_context_flags(kind: ContextKind) -> (r: (bool, bool))
    ensures
        r == (kind == ContextKind::InstantSend, kind == ContextKind::InChainLockedBlock),
{
    match kind {
        ContextKind::InstantSend => (true, false),
        ContextKind::InChainLockedBlock => (false, true),
        _ => (false, false),
    }
}

/// Whether a flat block info names a block: its hash is not all zero and
/// its time is not 0.
pub open spec fn names_block(block_hash: [u8; 32], block_timestamp: u64) -> bool {
    (exists|i: int| 0 <= i < 32 && #[trigger] block_hash[i] != 0) && block_timestamp != 0
}

/// Chain fields of a record reported with a flat block info and fee.
#[derive(Debug, Clone, Copy, PartialEq, Eq)]
pub struct ChainFields {
    pub timestamp: u64,
    pub height: Option<u32>,
    pub block_hash: Option<[u8; 32]>,
    pub fee: Option<u64>,
}

/// The chain fields of a record from its flat block info (`block_hash`,
/// `height`, `block_timestamp`) and fee: the block's fields when the info
/// names a block, else no height or hash and `fallback_timestamp`; a fee of
/// 0 means none.
pub fn flat_chain_fields(
    block_hash: &[u8; 32],
    height: u32,
    block_timestamp: u64,
    fee: u64,
    fallback_timestamp: u64,
) -> (r: ChainFields)
    ensures
        r.fee == (if fee > 0 {
            Some(fee)
        } else {
            None
        }),
        names_block(*block_hash, block_timestamp) ==> r.timestamp == block_timestamp && r.height
            == Some(height) && r.block_hash == Some(*block_hash),
        !names_block(*block_hash, block_timestamp) ==> r.timestamp == fallback_timestamp
            && r.height.is_none() && r.block_hash.is_none(),
{
    let mut nonzero = false;
    let mut i: usize = 0;
    while i < 32
        invariant
            i <= 32,
            nonzero == (exists|j: int| 0 <= j < i && #[trigger] block_hash[j] != 0),
        decreases 32 - i,
    {
        if block_hash[i] != 0 {
            nonzero = true;
        }
        i = i + 1;
    }
    let has_block = nonzero && block_timestamp != 0;
    ChainFields {
        timestamp: if has_block {
            block_timestamp
        } else {
            fallback_timestamp
        },
        height: if has_block {
            Some(height)
        } else {
            None
        },
        block_hash: if has_block {
            Some(*block_hash)
        } else {
            None
        },
        fee: if fee > 0 {
            Some(fee)
        } else {
            None
        },
    }
}

} // verus!
