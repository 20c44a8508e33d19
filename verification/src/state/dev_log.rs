//! Bounded log of backend events shown in developer mode.

use std::collections::VecDeque;
use vstd::prelude::*;
use crate::backend::events::{SpvEvent, SpvEventView};
use crate::backend::types::{manager_name_spec, state_label_spec, SyncProgressModel, TransactionInfoView};
use crate::state::view_models::unix_now_secs;
use crate::text::{decimal, hex_encode, hex_lower, push_decimal, push_str_chars, string_from_chars};

verus! {

/// Maximum number of entries kept in the log.
pub const MAX_ENTRIES: usize = 1000;

/// Filter for dev log entries by event category.
#[derive(Debug, Clone, Copy, PartialEq, Eq, Structural)]
pub enum EventCategory {
    Sync,
    Network,
    Wallet,
    Error,
}

/// A single entry in the dev mode event log.
#[derive(Debug, PartialEq)]
pub struct DevLogEntry {
    pub timestamp: u64,
    pub category: EventCategory,
    pub message: String,
}

/// Mathematical model of a [`DevLogEntry`].
pub struct DevLogEntryView {
    pub timestamp: u64,
    pub category: EventCategory,
    pub message: Seq<char>,
}

impl View for DevLogEntry {
    type V = DevLogEntryView;

    open spec fn view(&self) -> DevLogEntryView {
        DevLogEntryView { timestamp: self.timestamp, category: self.category, message: self.message@ }
    }
}

impl Clone for DevLogEntry {
    fn clone(&self) -> (r: Self)
        ensures
            r@ == self@,
    {
        DevLogEntry { timestamp: self.timestamp, category: self.category, message: self.message.clone() }
    }
}

/// Bounded event log for dev mode.
#[derive(Debug, PartialEq)]
pub struct DevLog {
    entries: VecDeque<DevLogEntry>,
}

impl View for DevLog {
    type V = Seq<DevLogEntryView>;

    closed spec fn view(&self) -> Seq<DevLogEntryView> {
        self.entries@.map_values(|e: DevLogEntry| e@)
    }
}

impl Default for DevLog {
    fn default() -> (r: Self)
        ensures
            r@ == Seq::<DevLogEntryView>::empty(),
    {
        let r = DevLog { entries: VecDeque::new() };
        assert(r@ =~= Seq::<DevLogEntryView>::empty());
        r
    }
}

/// `true`/`false` as text.
pub open spec fn bool_text(b: bool) -> Seq<char> {
    if b { "true"@ } else { "false"@ }
}

/// Signed decimal rendering.
pub open spec fn signed_decimal(n: i64) -> Seq<char> {
    if n < 0 { seq!['-'] + decimal((-n) as nat) } else { decimal(n as nat) }
}

/// A percentage given in hundredths of a percent, rounded to one decimal
/// place (ties to even) and rendered as `X.Y`.
pub open spec fn percent_one_decimal(bp: u32) -> Seq<char> {
    let q = (bp / 10) as nat;
    let r = bp % 10;
    let tenths: nat = if r > 5 || (r == 5 && q % 2 == 1) { q + 1 } else { q };
    decimal(tenths / 10) + seq!['.'] + decimal(tenths % 10)
}

/// The first address of a transaction, or "unknown".
pub open spec fn first_address(t: TransactionInfoView) -> Seq<char> {
    if t.addresses.len() > 0 { t.addresses[0] } else { "unknown"@ }
}

/// Category and message logged for an event.
pub open spec fn categorize_spec(e: SpvEventView) -> (EventCategory, Seq<char>) {
    match e {
        SpvEventView::SyncProgressUpdated(p) => (
            EventCategory::Sync,
            "Sync progress: "@ + percent_one_decimal(p.percentage_bp) + "% ("@ + state_label_spec(
                p.state,
            ) + ")"@,
        ),
        SpvEventView::SyncStarted { manager } => (
            EventCategory::Sync,
            "Sync started: "@ + manager_name_spec(manager),
        ),
        SpvEventView::HeadersSynced { tip_height } => (
            EventCategory::Sync,
            "Headers synced to height "@ + decimal(tip_height as nat),
        ),
        SpvEventView::FiltersSynced { tip_height } => (
            EventCategory::Sync,
            "Filters synced to height "@ + decimal(tip_height as nat),
        ),
        SpvEventView::BlockProcessed { height, new_addresses } => (
            EventCategory::Sync,
            "Block "@ + decimal(height as nat) + " processed ("@ + decimal(new_addresses as nat)
                + " new addresses)"@,
        ),
        SpvEventView::SyncComplete { tip_height, cycle } => (
            EventCategory::Sync,
            "Sync complete at height "@ + decimal(tip_height as nat) + " (cycle "@ + decimal(
                cycle as nat,
            ) + ")"@,
        ),
        SpvEventView::PeerConnected(a) => (EventCategory::Network, "Peer connected: "@ + a),
        SpvEventView::PeerDisconnected(a) => (EventCategory::Network, "Peer disconnected: "@ + a),
        SpvEventView::PeersUpdated { count, best_height } => (
            EventCategory::Network,
            "Peers: "@ + decimal(count as nat) + ", best height: "@ + decimal(best_height as nat),
        ),
        SpvEventView::TransactionReceived(t) => (
            EventCategory::Wallet,
            "Transaction "@ + hex_lower(t.txid@.take(4)) + "...: "@ + signed_decimal(t.amount)
                + " sat ("@ + first_address(t) + ")"@,
        ),
        SpvEventView::BalanceUpdated(b) => (
            EventCategory::Wallet,
            "Balance: "@ + decimal(b.spendable as nat) + " confirmed, "@ + decimal(
                b.unconfirmed as nat,
            ) + " pending"@,
        ),
        SpvEventView::ChainLockReceived { height, validated } => (
            EventCategory::Sync,
            "ChainLock at "@ + decimal(height as nat) + " (validated: "@ + bool_text(validated)
                + ")"@,
        ),
        SpvEventView::InstantLockReceived { txid, validated } => (
            EventCategory::Sync,
            "InstantLock for "@ + hex_lower(txid@.take(4)) + "... (validated: "@ + bool_text(
                validated,
            ) + ")"@,
        ),
        SpvEventView::Error(m) => (EventCategory::Error, "Error: "@ + m),
    }
}

fn push_bool(v: &mut Vec<char>, b: bool)
    ensures
        final(v)@ == old(v)@ + bool_text(b),
{
    if b {
        push_str_chars(v, "true");
    } else {
        push_str_chars(v, "false");
    }
}

fn push_string(v: &mut Vec<char>, s: &String)
    ensures
        final(v)@ == old(v)@ + s@,
{
    push_str_chars(v, s.as_str());
}

/// Appends the hex of the first four bytes of a 32-byte id.
fn push_id_prefix(v: &mut Vec<char>, id: &[u8; 32])
    ensures
        final(v)@ == old(v)@ + hex_lower(id@.take(4)),
{
    let prefix: [u8; 4] = [id[0], id[1], id[2], id[3]];
    assert(prefix@ =~= id@.take(4));
    let h = hex_encode(&prefix);
    push_string(v, &h);
}

/// Appends the signed decimal rendering of `n`.
fn push_signed(v: &mut Vec<char>, n: i64)
    ensures
        final(v)@ == old(v)@ + signed_decimal(n),
{
    if n < 0 {
        v.push('-');
        let m: u64 = ((-(n + 1)) as u64) + 1;
        push_decimal(v, m);
    } else {
        push_decimal(v, n as u64);
    }
    assert(final(v)@ =~= old(v)@ + signed_decimal(n));
}

/// Category and log message for an event.
pub fn categorize_event(event: &SpvEvent) -> (r: (EventCategory, String))
    ensures
        r.0 == categorize_spec(event@).0,
        r.1@ == categorize_spec(event@).1,
{
    let mut v: Vec<char> = Vec::new();
    let category = match event {
        SpvEvent::SyncProgressUpdated(p) => {
            let bp = p.percentage_bp;
            let q = bp / 10;
            let rem = bp % 10;
            let tenths: u32 = if rem > 5 || (rem == 5 && q % 2 == 1) { q + 1 } else { q };
            push_str_chars(&mut v, "Sync progress: ");
            push_decimal(&mut v, (tenths / 10) as u64);
            v.push('.');
            push_decimal(&mut v, (tenths % 10) as u64);
            push_str_chars(&mut v, "% (");
            push_str_chars(&mut v, p.state_label());
            push_str_chars(&mut v, ")");
            EventCategory::Sync
        },
        SpvEvent::SyncStarted { manager } => {
            push_str_chars(&mut v, "Sync started: ");
            push_str_chars(&mut v, manager.name());
            EventCategory::Sync
        },
        SpvEvent::HeadersSynced { tip_height } => {
            push_str_chars(&mut v, "Headers synced to height ");
            push_decimal(&mut v, *tip_height as u64);
            EventCategory::Sync
        },
        SpvEvent::FiltersSynced { tip_height } => {
            push_str_chars(&mut v, "Filters synced to height ");
            push_decimal(&mut v, *tip_height as u64);
            EventCategory::Sync
        },
        SpvEvent::BlockProcessed { height, new_addresses } => {
            push_str_chars(&mut v, "Block ");
            push_decimal(&mut v, *height as u64);
            push_str_chars(&mut v, " processed (");
            push_decimal(&mut v, *new_addresses as u64);
            push_str_chars(&mut v, " new addresses)");
            EventCategory::Sync
        },
        SpvEvent::SyncComplete { tip_height, cycle } => {
            push_str_chars(&mut v, "Sync complete at height ");
            push_decimal(&mut v, *tip_height as u64);
            push_str_chars(&mut v, " (cycle ");
            push_decimal(&mut v, *cycle as u64);
            push_str_chars(&mut v, ")");
            EventCategory::Sync
        },
        SpvEvent::PeerConnected(a) => {
            push_str_chars(&mut v, "Peer connected: ");
            push_string(&mut v, a);
            EventCategory::Network
        },
        SpvEvent::PeerDisconnected(a) => {
            push_str_chars(&mut v, "Peer disconnected: ");
            push_string(&mut v, a);
            EventCategory::Network
        },
        SpvEvent::PeersUpdated { count, best_height } => {
            push_str_chars(&mut v, "Peers: ");
            push_decimal(&mut v, *count as u64);
            push_str_chars(&mut v, ", best height: ");
            push_decimal(&mut v, *best_height as u64);
            EventCategory::Network
        },
        SpvEvent::TransactionReceived(t) => {
            push_str_chars(&mut v, "Transaction ");
            push_id_prefix(&mut v, &t.txid);
            push_str_chars(&mut v, "...: ");
            push_signed(&mut v, t.amount);
            push_str_chars(&mut v, " sat (");
            if t.addresses.len() > 0 {
                push_string(&mut v, &t.addresses[0]);
            } else {
                push_str_chars(&mut v, "unknown");
            }
            push_str_chars(&mut v, ")");
            EventCategory::Wallet
        },
        SpvEvent::BalanceUpdated(b) => {
            push_str_chars(&mut v, "Balance: ");
            push_decimal(&mut v, b.spendable());
            push_str_chars(&mut v, " confirmed, ");
            push_decimal(&mut v, b.unconfirmed());
            push_str_chars(&mut v, " pending");
            EventCategory::Wallet
        },
        SpvEvent::ChainLockReceived { height, validated } => {
            push_str_chars(&mut v, "ChainLock at ");
            push_decimal(&mut v, *height as u64);
            push_str_chars(&mut v, " (validated: ");
            push_bool(&mut v, *validated);
            push_str_chars(&mut v, ")");
            EventCategory::Sync
        },
        SpvEvent::InstantLockReceived { txid, validated } => {
            push_str_chars(&mut v, "InstantLock for ");
            push_id_prefix(&mut v, txid);
            push_str_chars(&mut v, "... (validated: ");
            push_bool(&mut v, *validated);
            push_str_chars(&mut v, ")");
            EventCategory::Sync
        },
        SpvEvent::Error(m) => {
            push_str_chars(&mut v, "Error: ");
            push_string(&mut v, m);
            EventCategory::Error
        },
    };
    assert(v@ =~= categorize_spec(event@).1);
    (category, string_from_chars(&v))
}

/// The log after appending `entry`: the newest `MAX_ENTRIES` entries.
pub open spec fn log_after_push(log: Seq<DevLogEntryView>, entry: DevLogEntryView) -> Seq<DevLogEntryView> {
    let all = log.push(entry);
    if all.len() > MAX_ENTRIES {
        all.skip(all.len() - MAX_ENTRIES)
    } else {
        all
    }
}

/// The entries of `log` that belong to the filter's category (all when no
/// filter is given).
pub open spec fn filtered(log: Seq<DevLogEntryView>, filter: Option<EventCategory>) -> Seq<DevLogEntryView> {
    match filter {
        Some(c) => log.filter(|e: DevLogEntryView| e.category == c),
        None => log,
    }
}

impl DevLog {
    /// Add an event to the log, stamped with `timestamp`.
    pub fn push_at(&mut self, event: &SpvEvent, timestamp: u64)
        ensures
            final(self)@ == log_after_push(
                old(self)@,
                DevLogEntryView {
                    timestamp,
                    category: categorize_spec(event@).0,
                    message: categorize_spec(event@).1,
                },
            ),
    {
        let (category, message) = categorize_event(event);
        let entry = DevLogEntry { timestamp, category, message };
        let ghost ev = entry@;
        self.entries.push_back(entry);
        let ghost raw = self.entries@;
        let ghost all = old(self)@.push(ev);
        assert(raw.map_values(|e: DevLogEntry| e@) =~= all);
        assert(raw.skip(0) =~= raw);
        let ghost mut k: int = 0;
        while self.entries.len() > MAX_ENTRIES
            invariant
                0 <= k <= raw.len(),
                self.entries@ == raw.skip(k),
                k > 0 ==> self.entries@.len() >= MAX_ENTRIES,
            decreases self.entries@.len(),
        {
            let _ = self.entries.pop_front();
            assert(self.entries@ =~= raw.skip(k + 1));
            proof {
                k = k + 1;
            }
        }
        assert(self@ =~= all.skip(k));
        assert(self@ =~= log_after_push(old(self)@, ev));
    }

    /// Add an event to the log, stamped with the current time.
    pub fn push(&mut self, event: &SpvEvent)
        ensures
            exists|timestamp: u64|
                final(self)@ == log_after_push(
                    old(self)@,
                    DevLogEntryView {
                        timestamp,
                        category: categorize_spec(event@).0,
                        message: categorize_spec(event@).1,
                    },
                ),
    {
        let timestamp = unix_now_secs();
        self.push_at(event, timestamp);
    }

    /// Get all entries, optionally filtered by category.
    pub fn entries(&self, filter: Option<EventCategory>) -> (r: Vec<&DevLogEntry>)
        ensures
            r@.map_values(|e: &DevLogEntry| e@) == filtered(self@, filter),
    {
        let mut r: Vec<&DevLogEntry> = Vec::new();
        let mut i: usize = 0;
        while i < self.entries.len()
            invariant
                i <= self@.len(),
                self@.len() == self.entries@.len(),
                r@.map_values(|e: &DevLogEntry| e@) == filtered(self@.take(i as int), filter),
            decreases self.entries@.len() - i,
        {
            let e = &self.entries[i];
            let keep = match filter {
                Some(c) => e.category == c,
                None => true,
            };
            proof {
                reveal_with_fuel(Seq::<_>::filter, 1);
                assert(self@.take(i + 1).drop_last() =~= self@.take(i as int));
                assert(self@[i as int] == e@);
            }
            if keep {
                r.push(e);
            }
            assert(r@.map_values(|e: &DevLogEntry| e@) =~= filtered(self@.take(i + 1), filter));
            i = i + 1;
        }
        assert(self@.take(self@.len() as int) =~= self@);
        r
    }

    /// Number of entries.
    pub fn len(&self) -> (r: usize)
        ensures
            r == self@.len(),
    {
        self.entries.len()
    }

    /// Whether the log is empty.
    pub fn is_empty(&self) -> (r: bool)
        ensures
            r == (self@.len() == 0),
    {
        self.entries.len() == 0
    }

    /// Remove all entries.
    pub fn clear(&mut self)
        ensures
            final(self)@ == Seq::<DevLogEntryView>::empty(),
    {
        self.entries.clear();
        assert(self@ =~= Seq::<DevLogEntryView>::empty());
    }
}

/// The log never holds more than `MAX_ENTRIES` entries after a push, and
/// the pushed entry is always the newest one.
pub proof fn law_push_bounded(log: Seq<DevLogEntryView>, entry: DevLogEntryView)
    ensures
        log_after_push(log, entry).len() <= MAX_ENTRIES,
        log_after_push(log, entry).len() == if log.len() + 1 > MAX_ENTRIES {
            MAX_ENTRIES as nat
        } else {
            log.len() + 1
        },
        log_after_push(log, entry).last() == entry,
{
}

/// When the log is full, a push evicts exactly the oldest entry.
pub proof fn law_push_evicts_oldest(log: Seq<DevLogEntryView>, entry: DevLogEntryView)
    requires
        log.len() == MAX_ENTRIES,
    ensures
        log_after_push(log, entry) == log.drop_first().push(entry),
{
    assert(log_after_push(log, entry) =~= log.drop_first().push(entry));
}

/// Below capacity, a push keeps every earlier entry.
pub proof fn law_push_keeps_entries(log: Seq<DevLogEntryView>, entry: DevLogEntryView)
    requires
        log.len() < MAX_ENTRIES,
    ensures
        log_after_push(log, entry) == log.push(entry),
{
}

/// The unfiltered listing is the whole log, and each category listing only
/// holds entries of that category.
pub proof fn law_filter_listing(log: Seq<DevLogEntryView>, c: EventCategory)
    ensures
        filtered(log, None) == log,
        forall|i: int| 0 <= i < filtered(log, Some(c)).len() ==> (#[trigger] filtered(
            log,
            Some(c),
        )[i]).category == c,
        filtered(log, Some(c)).len() <= log.len(),
{
    broadcast use vstd::seq_lib::group_filter_ensures;
}

} // verus!
