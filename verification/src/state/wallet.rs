//! Wallet contents tracked by the UI: balance and transaction history,
//! kept with unconfirmed transactions first and newest first.

use vstd::prelude::*;
use crate::backend::events::{SpvEvent, SpvEventView};
use crate::backend::types::{
    clone_opt_string, clone_vec, opt_string_view, TransactionInfo, TransactionInfoView,
    WalletCoreBalance,
};

verus! {

broadcast use {vstd::seq_lib::group_filter_ensures, vstd::array::group_array_axioms};

/// Models of a sequence of transactions.
pub open spec fn tx_views(s: Seq<TransactionInfo>) -> Seq<TransactionInfoView> {
    s.map_values(|t: TransactionInfo| t@)
}

/// Whether a transaction is confirmed (has a block height).
pub open spec fn is_confirmed(t: TransactionInfoView) -> bool {
    t.height is Some
}

/// Whether `a` may be listed before `b`: unconfirmed before confirmed, then
/// newer (larger timestamp) before older.
pub open spec fn sorts_before_eq(a: TransactionInfoView, b: TransactionInfoView) -> bool {
    ||| (!is_confirmed(a) && is_confirmed(b))
    ||| (is_confirmed(a) == is_confirmed(b) && a.timestamp >= b.timestamp)
}

/// Whether `a` and `b` have the same sort key.
pub open spec fn same_sort_key(a: TransactionInfoView, b: TransactionInfoView) -> bool {
    is_confirmed(a) == is_confirmed(b) && a.timestamp == b.timestamp
}

/// Whether `s` lists unconfirmed transactions first, each group newest first.
pub open spec fn is_sorted_txs(s: Seq<TransactionInfoView>) -> bool {
    forall|i: int, j: int| 0 <= i < j < s.len() ==> sorts_before_eq(#[trigger] s[i], #[trigger] s[j])
}

/// The transactions of `s` with the same sort key as `k`, in order.
pub open spec fn key_class(s: Seq<TransactionInfoView>, k: TransactionInfoView) -> Seq<TransactionInfoView> {
    s.filter(|t: TransactionInfoView| same_sort_key(t, k))
}

/// `r` is the stable sort of `s`: sorted, and within each sort key the
/// transactions of `s` in their given order.
pub open spec fn is_stable_sort_of(r: Seq<TransactionInfoView>, s: Seq<TransactionInfoView>) -> bool {
    &&& r.len() == s.len()
    &&& is_sorted_txs(r)
    &&& forall|k: TransactionInfoView| #[trigger] key_class(r, k) == key_class(s, k)
}

/// Filtering keeps nothing when no element satisfies the predicate.
proof fn lemma_filter_none(s: Seq<TransactionInfoView>, k: TransactionInfoView)
    requires
        forall|i: int| 0 <= i < s.len() ==> !same_sort_key(#[trigger] s[i], k),
    ensures
        key_class(s, k) == Seq::<TransactionInfoView>::empty(),
    decreases s.len(),
{
    reveal_with_fuel(Seq::<_>::filter, 1);
    if s.len() > 0 {
        assert forall|i: int| 0 <= i < s.drop_last().len() implies !same_sort_key(
            #[trigger] s.drop_last()[i],
            k,
        ) by {
            assert(s.drop_last()[i] == s[i]);
        }
        lemma_filter_none(s.drop_last(), k);
    }
}

/// Key class of a single transaction.
proof fn lemma_key_class_single(x: TransactionInfoView, k: TransactionInfoView)
    ensures
        key_class(seq![x], k) == if same_sort_key(x, k) { seq![x] } else { Seq::empty() },
{
    reveal_with_fuel(Seq::<_>::filter, 2);
    assert(seq![x].drop_last() =~= Seq::<TransactionInfoView>::empty());
}

/// Inserting `x` after every element that may precede it keeps a sorted
/// sequence sorted and appends `x` to its key class.
proof fn lemma_insert_stable(r: Seq<TransactionInfoView>, x: TransactionInfoView, pos: int)
    requires
        is_sorted_txs(r),
        0 <= pos <= r.len(),
        forall|p: int| 0 <= p < pos ==> sorts_before_eq(#[trigger] r[p], x),
        pos < r.len() ==> !sorts_before_eq(r[pos], x),
    ensures
        is_sorted_txs(r.insert(pos, x)),
        forall|k: TransactionInfoView| #[trigger] key_class(r.insert(pos, x), k) == if same_sort_key(x, k) {
            key_class(r, k).push(x)
        } else {
            key_class(r, k)
        },
{
    let n = r.insert(pos, x);
    assert forall|j: int| pos <= j < r.len() implies !sorts_before_eq(#[trigger] r[j], x) by {
        if j > pos {
            assert(sorts_before_eq(r[pos], r[j]));
        }
    }
    assert forall|i: int, j: int| 0 <= i < j < n.len() implies sorts_before_eq(
        #[trigger] n[i],
        #[trigger] n[j],
    ) by {
        if i < pos && j < pos {
            assert(n[i] == r[i] && n[j] == r[j]);
        } else if i < pos && j == pos {
            assert(n[i] == r[i]);
        } else if i < pos {
            assert(n[i] == r[i] && n[j] == r[j - 1]);
        } else if i == pos {
            assert(n[j] == r[j - 1]);
        } else {
            assert(n[i] == r[i - 1] && n[j] == r[j - 1]);
        }
    }
    let a = r.take(pos);
    let b = r.skip(pos);
    assert(n =~= a + seq![x] + b);
    assert(r =~= a + b);
    assert forall|k: TransactionInfoView| #[trigger] key_class(n, k) == if same_sort_key(x, k) {
        key_class(r, k).push(x)
    } else {
        key_class(r, k)
    } by {
        let f = |t: TransactionInfoView| same_sort_key(t, k);
        Seq::filter_distributes_over_add(a + seq![x], b, f);
        Seq::filter_distributes_over_add(a, seq![x], f);
        Seq::filter_distributes_over_add(a, b, f);
        lemma_key_class_single(x, k);
        if same_sort_key(x, k) {
            assert forall|i: int| 0 <= i < b.len() implies !same_sort_key(#[trigger] b[i], k) by {
                assert(b[i] == r[pos + i]);
            }
            lemma_filter_none(b, k);
            assert(key_class(b, k) =~= Seq::<TransactionInfoView>::empty());
            assert(key_class(n, k) =~= key_class(a, k) + seq![x]);
            assert(key_class(r, k) =~= key_class(a, k));
        } else {
            assert(key_class(n, k) =~= key_class(a, k) + key_class(b, k));
        }
    }
}

/// Exec counterpart of [`sorts_before_eq`].
fn may_precede(a: &TransactionInfo, b: &TransactionInfo) -> (r: bool)
    ensures
        r == sorts_before_eq(a@, b@),
{
    let ac = a.height.is_some();
    let bc = b.height.is_some();
    (!ac && bc) || (ac == bc && a.timestamp >= b.timestamp)
}

/// Sort transactions: unconfirmed first, then by timestamp descending;
/// transactions with equal keys keep their order.
pub fn sort_transactions(txs: Vec<TransactionInfo>) -> (r: Vec<TransactionInfo>)
    ensures
        is_stable_sort_of(tx_views(r@), tx_views(txs@)),
{
    let ghost s = tx_views(txs@);
    let mut input = txs;
    let mut out: Vec<TransactionInfo> = Vec::new();
    let ghost mut i: int = 0;
    assert(tx_views(input@) =~= s.skip(0));
    assert forall|k: TransactionInfoView| #[trigger] key_class(tx_views(out@), k) == key_class(
        s.take(0),
        k,
    ) by {
        assert(tx_views(out@) =~= Seq::<TransactionInfoView>::empty());
        assert(s.take(0) =~= Seq::<TransactionInfoView>::empty());
    }
    while input.len() > 0
        invariant
            0 <= i <= s.len(),
            s == tx_views(txs@),
            tx_views(input@) == s.skip(i),
            tx_views(out@).len() == i,
            is_sorted_txs(tx_views(out@)),
            forall|k: TransactionInfoView| #[trigger] key_class(tx_views(out@), k) == key_class(
                s.take(i),
                k,
            ),
        decreases input@.len(),
    {
        let ghost before_input = input@;
        let x = input.remove(0);
        assert(before_input.len() > 0);
        assert(x == before_input[0]);
        assert(tx_views(before_input) == s.skip(i));
        assert(tx_views(before_input)[0] == before_input[0]@);
        assert(tx_views(before_input).len() == before_input.len());
        assert(i < s.len());
        assert(s.skip(i)[0] == s[i]);
        assert(x@ == s[i]);
        assert(tx_views(input@) =~= s.skip(i + 1)) by {
            assert(input@ =~= before_input.subrange(1, before_input.len() as int));
            assert forall|j: int| 0 <= j < tx_views(input@).len() implies tx_views(input@)[j]
                == s.skip(i + 1)[j] by {
                assert(tx_views(input@)[j] == input@[j]@);
                assert(input@[j] == before_input[j + 1]);
                assert(tx_views(before_input)[j + 1] == s.skip(i)[j + 1]);
                assert(tx_views(before_input)[j + 1] == before_input[j + 1]@);
                assert(s.skip(i)[j + 1] == s.skip(i + 1)[j]);
            }
        }
        let mut pos: usize = 0;
        while pos < out.len() && may_precede(&out[pos], &x)
            invariant
                pos <= out@.len(),
                forall|p: int| 0 <= p < pos ==> sorts_before_eq(#[trigger] tx_views(out@)[p], x@),
            decreases out@.len() - pos,
        {
            pos = pos + 1;
        }
        let ghost old_out = tx_views(out@);
        out.insert(pos, x);
        proof {
            assert(tx_views(out@) =~= old_out.insert(pos as int, x@));
            lemma_insert_stable(old_out, x@, pos as int);
            assert forall|k: TransactionInfoView| #[trigger] key_class(tx_views(out@), k)
                == key_class(s.take(i + 1), k) by {
                let f = |t: TransactionInfoView| same_sort_key(t, k);
                assert(s.take(i + 1) =~= s.take(i) + seq![x@]);
                Seq::filter_distributes_over_add(s.take(i), seq![x@], f);
                lemma_key_class_single(x@, k);
                assert(key_class(old_out, k) == key_class(s.take(i), k));
                if same_sort_key(x@, k) {
                    assert(key_class(s.take(i + 1), k) =~= key_class(s.take(i), k).push(x@));
                } else {
                    assert(key_class(s.take(i + 1), k) =~= key_class(s.take(i), k));
                }
            }
            i = i + 1;
        }
    }
    assert(s.take(i) =~= s);
    out
}

/// Whether two 32-byte ids are equal.
pub fn same_id(a: &[u8; 32], b: &[u8; 32]) -> (r: bool)
    ensures
        r == (*a == *b),
{
    let mut i: usize = 0;
    while i < 32
        invariant
            i <= 32,
            forall|j: int| 0 <= j < i ==> a[j] == b[j],
        decreases 32 - i,
    {
        if a[i] != b[i] {
            return false;
        }
        i = i + 1;
    }
    assert(*a =~= *b);
    true
}

/// Wallet state tracked by the UI.
#[derive(Debug, PartialEq)]
pub struct WalletState {
    pub balance: WalletCoreBalance,
    pub transactions: Vec<TransactionInfo>,
    pub receive_address: Option<String>,
}

/// Mathematical model of a [`WalletState`].
pub struct WalletModel {
    pub balance: WalletCoreBalance,
    pub transactions: Seq<TransactionInfoView>,
    pub receive_address: Option<Seq<char>>,
}

impl View for WalletState {
    type V = WalletModel;

    open spec fn view(&self) -> WalletModel {
        WalletModel {
            balance: self.balance,
            transactions: tx_views(self.transactions@),
            receive_address: opt_string_view(self.receive_address),
        }
    }
}

impl Default for WalletState {
    fn default() -> (r: Self)
        ensures
            r@ == (WalletModel {
                balance: WalletCoreBalance::new_spec(0, 0, 0, 0),
                transactions: Seq::empty(),
                receive_address: None,
            }),
    {
        let r = WalletState {
            balance: WalletCoreBalance::default(),
            transactions: Vec::new(),
            receive_address: None,
        };
        assert(r@.transactions =~= Seq::<TransactionInfoView>::empty());
        r
    }
}

/// Position of the first transaction with id `txid`.
pub open spec fn find_txid(s: Seq<TransactionInfoView>, txid: [u8; 32]) -> Option<int>
    decreases s.len(),
{
    if s.len() == 0 {
        None
    } else if s[0].txid == txid {
        Some(0)
    } else {
        match find_txid(s.drop_first(), txid) {
            Some(i) => Some(i + 1),
            None => None,
        }
    }
}

/// `find_txid` finds the first match.
proof fn lemma_find_txid(s: Seq<TransactionInfoView>, txid: [u8; 32], i: int)
    requires
        0 <= i <= s.len(),
        forall|j: int| 0 <= j < i ==> (#[trigger] s[j]).txid != txid,
    ensures
        i < s.len() && s[i].txid == txid ==> find_txid(s, txid) == Some(i),
        i == s.len() ==> find_txid(s, txid) is None,
    decreases i,
{
    if i > 0 {
        let t = s.drop_first();
        assert forall|j: int| 0 <= j < i - 1 implies (#[trigger] t[j]).txid != txid by {
            assert(t[j] == s[j + 1]);
        }
        lemma_find_txid(t, txid, i - 1);
    }
}

/// `find_txid` returns an index of a matching transaction.
proof fn lemma_find_txid_found(s: Seq<TransactionInfoView>, txid: [u8; 32])
    ensures
        find_txid(s, txid) matches Some(i) ==> 0 <= i < s.len() && s[i].txid == txid,
    decreases s.len(),
{
    if s.len() > 0 && s[0].txid != txid {
        lemma_find_txid_found(s.drop_first(), txid);
    }
}

/// A stored transaction updated from a newer record of it: chain status
/// always follows the newer record, the timestamp unless the newer one is
/// zero, and amount, direction, type, addresses and label only when the
/// newer record carries an amount (a zero amount marks a status-only
/// update).
pub open spec fn status_update(old: TransactionInfoView, info: TransactionInfoView) -> TransactionInfoView {
    let base = TransactionInfoView {
        height: info.height,
        timestamp: if info.timestamp > 0 { info.timestamp } else { old.timestamp },
        block_hash: info.block_hash,
        is_instant_send: info.is_instant_send,
        is_chain_locked: info.is_chain_locked,
        ..old
    };
    if info.amount != 0 {
        TransactionInfoView {
            amount: info.amount,
            direction: info.direction,
            transaction_type: info.transaction_type,
            addresses: info.addresses,
            label: info.label,
            ..base
        }
    } else {
        base
    }
}

/// The transaction list (before re-sorting) after receiving `info`: an
/// update of the stored record with the same id, or an appended record.
pub open spec fn merged_transactions(s: Seq<TransactionInfoView>, info: TransactionInfoView) -> Seq<TransactionInfoView> {
    match find_txid(s, info.txid) {
        Some(j) => s.update(j, status_update(s[j], info)),
        None => s.push(info),
    }
}

/// The wallet after event `e` (transactions still to be sorted).
pub open spec fn wallet_event_effect(w: WalletModel, e: SpvEventView) -> WalletModel {
    match e {
        SpvEventView::BalanceUpdated(b) => WalletModel { balance: b, ..w },
        SpvEventView::TransactionReceived(info) => WalletModel {
            transactions: merged_transactions(w.transactions, info),
            ..w
        },
        _ => w,
    }
}

/// Whether `after` is the wallet `before` after event `e`, with the
/// transaction list stably re-sorted when a transaction was received.
pub open spec fn wallet_after(before: WalletModel, e: SpvEventView, after: WalletModel) -> bool {
    let expected = wallet_event_effect(before, e);
    if e is TransactionReceived {
        &&& after.balance == expected.balance
        &&& after.receive_address == expected.receive_address
        &&& is_stable_sort_of(after.transactions, expected.transactions)
    } else {
        after == expected
    }
}

impl WalletState {
    /// Position of the first stored transaction with id `txid`.
    fn position_of(&self, txid: &[u8; 32]) -> (r: Option<usize>)
        ensures
            r matches Some(i) ==> find_txid(self@.transactions, *txid) == Some(i as int),
            r is None ==> find_txid(self@.transactions, *txid) is None,
    {
        let mut i: usize = 0;
        while i < self.transactions.len()
            invariant
                i <= self.transactions@.len(),
                forall|j: int| 0 <= j < i ==> (#[trigger] self@.transactions[j]).txid != *txid,
            decreases self.transactions.len() - i,
        {
            if same_id(&self.transactions[i].txid, txid) {
                proof {
                    lemma_find_txid(self@.transactions, *txid, i as int);
                }
                return Some(i);
            }
            i = i + 1;
        }
        proof {
            lemma_find_txid(self@.transactions, *txid, i as int);
        }
        None
    }

    /// Re-sorts the stored transactions.
    fn resort(&mut self)
        ensures
            final(self)@.balance == old(self)@.balance,
            final(self)@.receive_address == old(self)@.receive_address,
            is_stable_sort_of(final(self)@.transactions, old(self)@.transactions),
    {
        let mut txs: Vec<TransactionInfo> = Vec::new();
        std::mem::swap(&mut txs, &mut self.transactions);
        self.transactions = sort_transactions(txs);
    }

    /// Apply an SPV event to update wallet state.
    pub fn apply_event(&mut self, event: &SpvEvent)
        ensures
            wallet_after(old(self)@, event@, final(self)@),
    {
        match event {
            SpvEvent::BalanceUpdated(balance) => {
                self.balance = *balance;
            },
            SpvEvent::TransactionReceived(info) => {
                let ghost before = self@;
                match self.position_of(&info.txid) {
                    Some(j) => {
                        proof {
                            lemma_find_txid_found(before.transactions, info.txid);
                        }
                        let mut t = self.transactions.remove(j);
                        let ghost old_t = t@;
                        t.height = info.height;
                        if info.timestamp > 0 {
                            t.timestamp = info.timestamp;
                        }
                        t.block_hash = info.block_hash;
                        t.is_instant_send = info.is_instant_send;
                        t.is_chain_locked = info.is_chain_locked;
                        if info.amount != 0 {
                            t.amount = info.amount;
                            t.direction = info.direction;
                            t.transaction_type = info.transaction_type;
                            t.addresses = clone_vec(&info.addresses);
                            t.label = clone_opt_string(&info.label);
                        }
                        assert(t@ == status_update(old_t, info@));
                        self.transactions.insert(j, t);
                        assert(self@.transactions =~= merged_transactions(before.transactions, info@));
                    },
                    None => {
                        let t = (**info).clone();
                        self.transactions.push(t);
                        assert(self@.transactions =~= merged_transactions(before.transactions, info@));
                    },
                }
                self.resort();
            },
            _ => {},
        }
    }

    /// Update the label on a transaction in the local state.
    pub fn set_transaction_label(&mut self, txid: &[u8; 32], label: Option<String>)
        ensures
            final(self)@.balance == old(self)@.balance,
            final(self)@.receive_address == old(self)@.receive_address,
            final(self)@.transactions == match find_txid(old(self)@.transactions, *txid) {
                Some(j) => old(self)@.transactions.update(
                    j,
                    TransactionInfoView { label: opt_string_view(label), ..old(self)@.transactions[j] },
                ),
                None => old(self)@.transactions,
            },
    {
        match self.position_of(txid) {
            Some(j) => {
                proof {
                    lemma_find_txid_found(self@.transactions, *txid);
                }
                let ghost before = self@.transactions;
                let mut t = self.transactions.remove(j);
                t.label = label;
                self.transactions.insert(j, t);
                assert(self@.transactions =~= before.update(
                    j as int,
                    TransactionInfoView { label: opt_string_view(label), ..before[j as int] },
                ));
            },
            None => {},
        }
    }

    /// Replace the full transaction list (e.g., after initial load).
    pub fn set_transactions(&mut self, transactions: Vec<TransactionInfo>)
        ensures
            final(self)@.balance == old(self)@.balance,
            final(self)@.receive_address == old(self)@.receive_address,
            is_stable_sort_of(final(self)@.transactions, tx_views(transactions@)),
    {
        self.transactions = sort_transactions(transactions);
    }
}

/// Receiving a transaction whose id is already stored keeps the number of
/// stored transactions; receiving a new one adds exactly one.
pub proof fn law_receive_counts(w: WalletModel, info: TransactionInfoView, after: WalletModel)
    requires
        wallet_after(w, SpvEventView::TransactionReceived(info), after),
    ensures
        find_txid(w.transactions, info.txid) is Some ==> after.transactions.len()
            == w.transactions.len(),
        find_txid(w.transactions, info.txid) is None ==> after.transactions.len()
            == w.transactions.len() + 1,
{
    lemma_find_txid_found(w.transactions, info.txid);
}

/// After receiving a transaction the list is ordered: unconfirmed first,
/// then newest first.
pub proof fn law_receive_keeps_order(w: WalletModel, info: TransactionInfoView, after: WalletModel)
    requires
        wallet_after(w, SpvEventView::TransactionReceived(info), after),
    ensures
        is_sorted_txs(after.transactions),
{
}

/// A status-only update (zero amount) keeps the stored amount, direction,
/// type, addresses, label, fee, inputs and outputs, and never replaces a
/// timestamp with zero.
pub proof fn law_status_update_preserves_record(old: TransactionInfoView, info: TransactionInfoView)
    requires
        info.amount == 0,
    ensures
        status_update(old, info).amount == old.amount,
        status_update(old, info).direction == old.direction,
        status_update(old, info).transaction_type == old.transaction_type,
        status_update(old, info).addresses == old.addresses,
        status_update(old, info).label == old.label,
        status_update(old, info).fee == old.fee,
        status_update(old, info).inputs == old.inputs,
        status_update(old, info).outputs == old.outputs,
        status_update(old, info).txid == old.txid,
        info.timestamp == 0 ==> status_update(old, info).timestamp == old.timestamp,
        status_update(old, info).height == info.height,
        status_update(old, info).is_chain_locked == info.is_chain_locked,
        status_update(old, info).is_instant_send == info.is_instant_send,
{
}

/// Events other than balance updates and received transactions leave the
/// wallet unchanged.
pub proof fn law_unrelated_events_ignored(w: WalletModel, e: SpvEventView, after: WalletModel)
    requires
        !(e is BalanceUpdated),
        !(e is TransactionReceived),
        wallet_after(w, e, after),
    ensures
        after == w,
{
}

/// Whether no two transactions of `s` share an id.
pub open spec fn distinct_txids(s: Seq<TransactionInfoView>) -> bool {
    forall|i: int, j: int| 0 <= i < j < s.len() ==> (#[trigger] s[i]).txid != (#[trigger] s[j]).txid
}

/// When `find_txid` finds nothing, no transaction has the id.
proof fn lemma_find_txid_none(s: Seq<TransactionInfoView>, txid: [u8; 32], i: int)
    requires
        find_txid(s, txid) is None,
        0 <= i < s.len(),
    ensures
        s[i].txid != txid,
    decreases s.len(),
{
    if i > 0 {
        assert(s.drop_first()[i - 1] == s[i]);
        lemma_find_txid_none(s.drop_first(), txid, i - 1);
    }
}

/// Receiving a transaction keeps stored ids distinct (before re-sorting).
proof fn lemma_merged_distinct(s: Seq<TransactionInfoView>, info: TransactionInfoView)
    requires
        distinct_txids(s),
    ensures
        distinct_txids(merged_transactions(s, info)),
{
    lemma_find_txid_found(s, info.txid);
    let m = merged_transactions(s, info);
    match find_txid(s, info.txid) {
        Some(j) => {
            assert forall|a: int, b: int| 0 <= a < b < m.len() implies (#[trigger] m[a]).txid
                != (#[trigger] m[b]).txid by {
                assert(m[a].txid == s[a].txid);
                assert(m[b].txid == s[b].txid);
            }
        },
        None => {
            assert forall|a: int, b: int| 0 <= a < b < m.len() implies (#[trigger] m[a]).txid
                != (#[trigger] m[b]).txid by {
                if b == s.len() {
                    lemma_find_txid_none(s, info.txid, a);
                } else {
                    assert(m[a] == s[a]);
                    assert(m[b] == s[b]);
                }
            }
        },
    }
}

/// A transaction occurs as often in its sort-key class as in the list.
proof fn lemma_class_count(s: Seq<TransactionInfoView>, k: TransactionInfoView, x: TransactionInfoView)
    requires
        same_sort_key(x, k),
    ensures
        key_class(s, k).to_multiset().count(x) == s.to_multiset().count(x),
    decreases s.len(),
{
    broadcast use vstd::multiset::group_multiset_axioms;

    reveal_with_fuel(Seq::<_>::filter, 1);
    if s.len() == 0 {
        assert(key_class(s, k) =~= s);
    } else {
        let init = s.drop_last();
        let l = s.last();
        lemma_class_count(init, k, x);
        assert(init.push(l) =~= s);
        vstd::seq_lib::to_multiset_build(init, l);
        assert(s.to_multiset() == init.to_multiset().insert(l));
        assert(key_class(s, k) == (if same_sort_key(l, k) {
            key_class(init, k).push(l)
        } else {
            key_class(init, k)
        }));
        if same_sort_key(l, k) {
            vstd::seq_lib::to_multiset_build(key_class(init, k), l);
            assert(key_class(s, k).to_multiset() == key_class(init, k).to_multiset().insert(l));
        } else {
            assert(l != x);
        }
    }
}

/// A stable sort of a list with distinct ids has distinct ids.
proof fn lemma_stable_sort_distinct(r: Seq<TransactionInfoView>, s: Seq<TransactionInfoView>)
    requires
        is_stable_sort_of(r, s),
        distinct_txids(s),
    ensures
        distinct_txids(r),
{
    broadcast use vstd::multiset::group_multiset_axioms;

    assert(s.no_duplicates()) by {
        assert forall|i: int, j: int| 0 <= i < s.len() && 0 <= j < s.len() && i != j implies s[i]
            != s[j] by {
            if i < j {
                assert(s[i].txid != s[j].txid);
            } else {
                assert(s[j].txid != s[i].txid);
            }
        }
    }
    s.lemma_multiset_has_no_duplicates();
    assert forall|x: TransactionInfoView| #[trigger] r.to_multiset().count(x) > 0 implies r.to_multiset().count(x)
        == s.to_multiset().count(x) && s.contains(x) by {
        lemma_class_count(r, x, x);
        lemma_class_count(s, x, x);
        assert(key_class(r, x) == key_class(s, x));
        vstd::seq_lib::to_multiset_contains(s, x);
    }
    assert forall|i: int, j: int| 0 <= i < j < r.len() implies (#[trigger] r[i]).txid
        != (#[trigger] r[j]).txid by {
        let x = r[i];
        let y = r[j];
        vstd::seq_lib::to_multiset_contains(r, x);
        vstd::seq_lib::to_multiset_contains(r, y);
        assert(r.contains(x));
        assert(r.contains(y));
        assert(r.to_multiset().count(x) > 0);
        assert(r.to_multiset().count(y) > 0);
        if x.txid == y.txid {
            if x == y {
                assert(r.to_multiset().count(x) == 1);
                let a = r.subrange(0, j);
                assert(r =~= a.push(y) + r.subrange(j + 1, r.len() as int));
                vstd::seq_lib::lemma_multiset_commutative(a.push(y), r.subrange(j + 1, r.len() as int));
                vstd::seq_lib::to_multiset_build(a, y);
                vstd::seq_lib::to_multiset_contains(a, x);
                assert(a[i] == x);
                assert(a.contains(x));
            } else {
                let p = choose|p: int| 0 <= p < s.len() && s[p] == x;
                let q = choose|q: int| 0 <= q < s.len() && s[q] == y;
                if p < q {
                    assert(s[p].txid != s[q].txid);
                } else if q < p {
                    assert(s[q].txid != s[p].txid);
                }
            }
        }
    }
}

/// A stable sort loses no transaction.
proof fn lemma_stable_sort_contains(r: Seq<TransactionInfoView>, s: Seq<TransactionInfoView>, x: TransactionInfoView)
    requires
        is_stable_sort_of(r, s),
        s.contains(x),
    ensures
        r.contains(x),
{
    vstd::seq_lib::to_multiset_contains(s, x);
    lemma_class_count(s, x, x);
    lemma_class_count(r, x, x);
    assert(key_class(r, x) == key_class(s, x));
    vstd::seq_lib::to_multiset_contains(r, x);
}

/// Receiving a record of a stored transaction brings the stored record up to
/// date, whatever the received amount: its height, block hash, InstantSend
/// and ChainLock flags become the received ones, its timestamp too unless the
/// received one is zero; its amount, direction, type, addresses and label
/// become the received ones when the received amount is non-zero and stay
/// otherwise. A transaction not stored yet is added as received.
pub proof fn law_receive_updates_stored(w: WalletModel, info: TransactionInfoView, after: WalletModel)
    requires
        wallet_after(w, SpvEventView::TransactionReceived(info), after),
    ensures
        find_txid(w.transactions, info.txid) matches Some(j) ==> exists|k: int|
            0 <= k < after.transactions.len() && {
                let t = #[trigger] after.transactions[k];
                let o = w.transactions[j];
                &&& t.txid == info.txid
                &&& t.height == info.height
                &&& t.block_hash == info.block_hash
                &&& t.is_instant_send == info.is_instant_send
                &&& t.is_chain_locked == info.is_chain_locked
                &&& t.timestamp == (if info.timestamp > 0 { info.timestamp } else { o.timestamp })
                &&& t.amount == (if info.amount != 0 { info.amount } else { o.amount })
                &&& t.direction == (if info.amount != 0 { info.direction } else { o.direction })
                &&& t.transaction_type == (if info.amount != 0 {
                    info.transaction_type
                } else {
                    o.transaction_type
                })
                &&& t.addresses == (if info.amount != 0 { info.addresses } else { o.addresses })
                &&& t.label == (if info.amount != 0 { info.label } else { o.label })
            },
        find_txid(w.transactions, info.txid) is None ==> after.transactions.contains(info),
{
    let s = w.transactions;
    let m = merged_transactions(s, info);
    lemma_find_txid_found(s, info.txid);
    match find_txid(s, info.txid) {
        Some(j) => {
            let x = status_update(s[j], info);
            assert(m[j] == x);
            assert(m.contains(x));
            lemma_stable_sort_contains(after.transactions, m, x);
            let k = choose|k: int| 0 <= k < after.transactions.len() && after.transactions[k] == x;
            assert(after.transactions[k] == x);
        },
        None => {
            assert(m[s.len() as int] == info);
            assert(m.contains(info));
            lemma_stable_sort_contains(after.transactions, m, info);
        },
    }
}

/// Stored transaction ids stay distinct: after any event, no two stored
/// transactions share an id, when none did before.
pub proof fn law_apply_keeps_ids_distinct(w: WalletModel, e: SpvEventView, after: WalletModel)
    requires
        distinct_txids(w.transactions),
        wallet_after(w, e, after),
    ensures
        distinct_txids(after.transactions),
{
    if let SpvEventView::TransactionReceived(info) = e {
        lemma_merged_distinct(w.transactions, info);
        lemma_stable_sort_distinct(after.transactions, merged_transactions(w.transactions, info));
    }
}

} // verus!
