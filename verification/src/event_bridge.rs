//! The step of the event bridge: every backend event updates each piece of
//! UI state.

use vstd::prelude::*;
use crate::backend::events::SpvEvent;
use crate::state::connection::{ConnectionState, connection_after};
use crate::state::dev_log::{DevLog, DevLogEntryView, categorize_spec, log_after_push};
use crate::state::network::{NetworkInfo, network_after, network_event_applicable};
use crate::state::wallet::{WalletState, wallet_after};

verus! {

/// Dispatches a single backend event to all state receivers: the connection
/// state, the wallet, the network info and the developer log.
pub fn dispatch_event(
    event: &SpvEvent,
    connection: &mut ConnectionState,
    wallet: &mut WalletState,
    network_info: &mut NetworkInfo,
    dev_log: &mut DevLog,
)
    requires
        network_event_applicable(*old(network_info), event@),
    ensures
        final(connection)@ == connection_after(old(connection)@, event@),
        wallet_after(old(wallet)@, event@, final(wallet)@),
        *final(network_info) == network_after(*old(network_info), event@),
        exists|timestamp: u64|
            final(dev_log)@ == log_after_push(
                old(dev_log)@,
                DevLogEntryView {
                    timestamp,
                    category: categorize_spec(event@).0,
                    message: categorize_spec(event@).1,
                },
            ),
{
    connection.apply_event(event);
    wallet.apply_event(event);
    network_info.apply_event(event);
    dev_log.push(event);
}

} // verus!
