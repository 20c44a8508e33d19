//! Decision and formatting logic of the wallet screens.

pub mod network_select;
pub mod send;
pub mod settings;
pub mod transactions;
pub mod wallet_import;
