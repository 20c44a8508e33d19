use dash_spv_ui::backend::types::Network;
use dash_spv_ui::state::app_state::{AppState, Screen};

#[test]
fn initial_state() {
    let state = AppState::new(false);
    assert_eq!(state.screen, Screen::NetworkSelect);
    assert_eq!(state.network, None);
    assert!(!state.wallet_loaded);
    assert!(!state.dev_mode);
}

#[test]
fn initial_state_dev_mode() {
    let state = AppState::new(true);
    assert!(state.dev_mode);
}

#[test]
fn select_network() {
    let mut state = AppState::new(false);
    state.select_network(Network::Testnet);
    assert_eq!(state.network, Some(Network::Testnet));
}

#[test]
fn set_wallet_loaded_navigates_to_dashboard() {
    let mut state = AppState::new(false);
    state.set_wallet_loaded();
    assert!(state.wallet_loaded);
    assert_eq!(state.screen, Screen::Dashboard);
}

#[test]
fn navigate_between_screens() {
    let mut state = AppState::new(false);
    state.set_wallet_loaded();

    state.navigate(Screen::Send);
    assert_eq!(state.screen, Screen::Send);

    state.navigate(Screen::Receive);
    assert_eq!(state.screen, Screen::Receive);

    state.navigate(Screen::Dashboard);
    assert_eq!(state.screen, Screen::Dashboard);
}

#[test]
fn select_network_keeps_screen_and_wallet() {
    let mut state = AppState::new(true);
    state.select_network(Network::Mainnet);
    state.select_network(Network::Regtest);
    assert_eq!(state.network, Some(Network::Regtest));
    assert_eq!(state.screen, Screen::NetworkSelect);
    assert!(!state.wallet_loaded);
    assert!(state.dev_mode);
}
