//! Top-level navigation state.

use vstd::prelude::*;
use crate::backend::types::Network;

verus! {

/// Application screens.
#[derive(Debug, Clone, Copy, PartialEq, Eq, Structural)]
pub enum Screen {
    NetworkSelect,
    WalletChoice,
    WalletCreate,
    WalletImport,
    Dashboard,
    Transactions,
    Send,
    Receive,
    Settings,
}

/// Top-level application state.
#[derive(Debug, Clone, Copy, PartialEq, Eq, Structural)]
pub struct AppState {
    pub screen: Screen,
    pub network: Option<Network>,
    pub wallet_loaded: bool,
    pub dev_mode: bool,
}

impl AppState {
    /// Fresh state: network selection, no network, no wallet.
    pub fn new(dev_mode: bool) -> (s: Self)
        ensures
            s == (AppState { screen: Screen::NetworkSelect, network: None, wallet_loaded: false, dev_mode }),
    {
        AppState { screen: Screen::NetworkSelect, network: None, wallet_loaded: false, dev_mode }
    }

    /// Record the selected network.
    pub fn select_network(&mut self, network: Network)
        ensures
            *final(self) == (AppState { network: Some(network), ..*old(self) }),
    {
        self.network = Some(network);
    }

    /// Mark the wallet as loaded and show the dashboard.
    pub fn set_wallet_loaded(&mut self)
        ensures
            *final(self) == (AppState { wallet_loaded: true, screen: Screen::Dashboard, ..*old(self) }),
    {
        self.wallet_loaded = true;
        self.screen = Screen::Dashboard;
    }

    /// Show another screen.
    pub fn navigate(&mut self, screen: Screen)
        ensures
            *final(self) == (AppState { screen, ..*old(self) }),
    {
        self.screen = screen;
    }
}

} // verus!
