//! Filtering and paging of the transaction history screen, and the
//! dashboard's short list of recent transactions.

use vstd::prelude::*;
use crate::backend::types::{TransactionDirection, TransactionInfo};
use crate::state::view_models::{matches_search, matches_search_spec};

verus! {

/// Label of a direction filter tab (`None` is "All").
pub open spec fn filter_label_spec(filter: Option<TransactionDirection>) -> Seq<char> {
    match filter {
        None => "All"@,
        Some(TransactionDirection::Incoming) => "Received"@,
        Some(TransactionDirection::Outgoing) => "Sent"@,
        Some(TransactionDirection::Internal) => "Internal"@,
        Some(TransactionDirection::CoinJoin) => "CoinJoin"@,
    }
}

/// Label of a direction filter tab.
pub fn filter_label(filter: Option<TransactionDirection>) -> (r: &'static str)
    ensures
        r@ == filter_label_spec(filter),
{
    match filter {
        None => "All",
        Some(TransactionDirection::Incoming) => "Received",
        Some(TransactionDirection::Outgoing) => "Sent",
        Some(TransactionDirection::Internal) => "Internal",
        Some(TransactionDirection::CoinJoin) => "CoinJoin",
    }
}

/// Whether a transaction passes the direction filter and the search.
pub open spec fn passes_filters(
    tx: TransactionInfo,
    filter: Option<TransactionDirection>,
    search: Seq<char>,
    unit: Seq<char>,
) -> bool {
    (match filter {
        None => true,
        Some(d) => tx.direction == d,
    }) && matches_search_spec(tx, search, unit)
}

/// The transactions that pass the direction filter and the search, in order.
pub fn apply_filters<'a>(
    txs: &'a [TransactionInfo],
    filter: Option<TransactionDirection>,
    search: &str,
    unit: &str,
) -> (r: Vec<&'a TransactionInfo>)
    ensures
        r@.map_values(|t: &TransactionInfo| *t) == txs@.filter(
            |t: TransactionInfo| passes_filters(t, filter, search@, unit@),
        ),
{
    let ghost pred = |t: TransactionInfo| passes_filters(t, filter, search@, unit@);
    let mut r: Vec<&'a TransactionInfo> = Vec::new();
    let mut i: usize = 0;
    while i < txs.len()
        invariant
            i <= txs@.len(),
            pred == (|t: TransactionInfo| passes_filters(t, filter, search@, unit@)),
            r@.map_values(|t: &TransactionInfo| *t) == txs@.take(i as int).filter(pred),
        decreases txs@.len() - i,
    {
        let tx = &txs[i];
        let dir_ok = match filter {
            None => true,
            Some(d) => tx.direction == d,
        };
        let keep = dir_ok && matches_search(tx, search, unit);
        proof {
            reveal_with_fuel(Seq::<_>::filter, 1);
            assert(txs@.take(i + 1).drop_last() =~= txs@.take(i as int));
            assert(txs@.take(i + 1).last() == txs@[i as int]);
        }
        if keep {
            r.push(tx);
        }
        assert(r@.map_values(|t: &TransactionInfo| *t) =~= txs@.take(i + 1).filter(pred));
        i = i + 1;
    }
    assert(txs@.take(txs@.len() as int) =~= txs@);
    r
}

/// Rows the history adds per "Load more".
pub const PAGE_SIZE: usize = 50;

/// Rows the dashboard lists before linking to the full history.
pub const DASHBOARD_TX_LIMIT: usize = 5;

/// The paging of a filtered list.
#[derive(Debug, Clone, Copy, PartialEq, Eq)]
pub struct PageView {
    /// Rows shown.
    pub visible: usize,
    /// Rows not shown yet.
    pub remaining: usize,
    /// Rows the next "Load more" adds.
    pub next_batch: usize,
}

/// The paging of `total` filtered rows when up to `visible_count` are shown.
pub fn page_view(visible_count: usize, total: usize) -> (r: PageView)
    ensures
        r.visible == (if visible_count < total {
            visible_count
        } else {
            total
        }),
        r.remaining == total - r.visible,
        r.next_batch == (if r.remaining < PAGE_SIZE {
            r.remaining
        } else {
            PAGE_SIZE
        }),
{
    let visible = if visible_count < total {
        visible_count
    } else {
        total
    };
    let remaining = total - visible;
    let next_batch = if remaining < PAGE_SIZE {
        remaining
    } else {
        PAGE_SIZE
    };
    PageView { visible, remaining, next_batch }
}

/// The number of rows to show after "Load more".
pub fn load_more(visible_count: usize) -> (r: usize)
    requires
        visible_count + PAGE_SIZE <= usize::MAX,
    ensures
        r == visible_count + PAGE_SIZE,
{
    visible_count + PAGE_SIZE
}

/// How many of `count` transactions the dashboard lists, and whether it
/// links to the full history for the rest.
pub fn dashboard_rows(count: usize) -> (r: (usize, bool))
    ensures
        r.0 == (if count < DASHBOARD_TX_LIMIT {
            count
        } else {
            DASHBOARD_TX_LIMIT
        }),
        r.1 == (count > DASHBOARD_TX_LIMIT),
{
    let shown = if count < DASHBOARD_TX_LIMIT {
        count
    } else {
        DASHBOARD_TX_LIMIT
    };
    (shown, count > DASHBOARD_TX_LIMIT)
}

} // verus!
