use dash_spv_ui::backend::events::SpvEvent;
use dash_spv_ui::backend::types::{ManagerId, ManagerProgress, SyncProgress, SyncState};
use dash_spv_ui::state::connection::{format_sync_stage, ConnectionState, SyncProgressView};

fn progress(percentage_bp: u32, is_synced: bool, managers: Vec<ManagerProgress>) -> SyncProgress {
    SyncProgress {
        state: SyncState::Syncing,
        percentage_bp,
        is_synced,
        managers,
    }
}

fn manager(manager: ManagerId, state: SyncState) -> ManagerProgress {
    ManagerProgress {
        manager,
        state,
        current_height: 1,
        target_height: 2,
        percentage_bp: 5000,
    }
}

#[test]
fn disconnected_to_connecting_on_peer_connected() {
    let mut state = ConnectionState::Disconnected;
    state.apply_event(&SpvEvent::PeerConnected("1.2.3.4:9999".into()));
    assert!(matches!(state, ConnectionState::Connecting));
}

#[test]
fn connecting_to_syncing_on_progress() {
    let mut state = ConnectionState::Connecting;
    let progress = SyncProgress::default();
    state.apply_event(&SpvEvent::SyncProgressUpdated(Box::new(progress)));
    assert!(matches!(state, ConnectionState::Syncing(_)));
}

#[test]
fn syncing_to_synced_on_complete() {
    let mut state = ConnectionState::Syncing(SyncProgressView {
        percentage_bp: 9900,
        stage_label: "Syncing...".into(),
    });
    state.apply_event(&SpvEvent::SyncComplete {
        tip_height: 1000,
        cycle: 1,
    });
    assert_eq!(state, ConnectionState::Synced);
}

#[test]
fn pause_from_syncing() {
    let mut state = ConnectionState::Syncing(SyncProgressView {
        percentage_bp: 5000,
        stage_label: "Syncing...".into(),
    });
    state.pause();
    assert_eq!(state, ConnectionState::Paused);
}

#[test]
fn pause_from_synced() {
    let mut state = ConnectionState::Synced;
    state.pause();
    assert_eq!(state, ConnectionState::Paused);
}

#[test]
fn pause_from_disconnected_is_noop() {
    let mut state = ConnectionState::Disconnected;
    state.pause();
    assert_eq!(state, ConnectionState::Disconnected);
}

#[test]
fn resume_from_paused() {
    let mut state = ConnectionState::Paused;
    state.resume();
    assert_eq!(state, ConnectionState::Connecting);
}

#[test]
fn resume_from_non_paused_is_noop() {
    let mut state = ConnectionState::Synced;
    state.resume();
    assert_eq!(state, ConnectionState::Synced);
}

#[test]
fn error_from_any_state() {
    for initial in [
        ConnectionState::Disconnected,
        ConnectionState::Connecting,
        ConnectionState::Synced,
        ConnectionState::Paused,
    ] {
        let mut state = initial;
        state.apply_event(&SpvEvent::Error("connection lost".into()));
        assert!(matches!(state, ConnectionState::Error(_)));
    }
}

#[test]
fn events_ignored_during_pause() {
    let mut state = ConnectionState::Paused;
    let progress = SyncProgress::default();
    state.apply_event(&SpvEvent::SyncProgressUpdated(Box::new(progress)));
    assert_eq!(state, ConnectionState::Paused);
}

#[test]
fn events_ignored_during_error() {
    let mut state = ConnectionState::Error("test".into());
    state.apply_event(&SpvEvent::SyncComplete {
        tip_height: 1000,
        cycle: 1,
    });
    assert!(matches!(state, ConnectionState::Error(_)));
}

#[test]
fn disconnected_on_zero_peers() {
    let mut state = ConnectionState::Connecting;
    state.apply_event(&SpvEvent::PeersUpdated {
        count: 0,
        best_height: 0,
    });
    assert_eq!(state, ConnectionState::Disconnected);
}

#[test]
fn default_progress_shows_syncing_fallback() {
    let view = SyncProgressView::from_progress(&SyncProgress::default());
    assert_eq!(view.percentage_bp, 0);
    assert_eq!(view.stage_label, "Syncing... (0%)");
}

#[test]
fn pause_then_resume_reconnects() {
    let mut state = ConnectionState::Synced;
    state.pause();
    state.resume();
    assert_eq!(state, ConnectionState::Connecting);
}

#[test]
fn synced_progress_event_marks_synced() {
    let mut state = ConnectionState::Connecting;
    state.apply_event(&SpvEvent::SyncProgressUpdated(Box::new(progress(10000, true, vec![]))));
    assert_eq!(state, ConnectionState::Synced);
}

#[test]
fn sync_stage_picks_first_syncing_manager() {
    let p = progress(
        4000,
        false,
        vec![
            manager(ManagerId::Filters, SyncState::Syncing),
            manager(ManagerId::Headers, SyncState::Synced),
        ],
    );
    assert_eq!(format_sync_stage(&p), "Downloading filters...");
    let p = progress(
        4000,
        false,
        vec![
            manager(ManagerId::Blocks, SyncState::Syncing),
            manager(ManagerId::FilterHeaders, SyncState::Syncing),
        ],
    );
    assert_eq!(format_sync_stage(&p), "Syncing filter headers...");
}

#[test]
fn sync_stage_percent_rounds_half_to_even() {
    assert_eq!(format_sync_stage(&progress(1250, false, vec![])), "Syncing... (12%)");
    assert_eq!(format_sync_stage(&progress(1350, false, vec![])), "Syncing... (14%)");
    assert_eq!(format_sync_stage(&progress(1251, false, vec![])), "Syncing... (13%)");
    assert_eq!(format_sync_stage(&progress(10000, true, vec![])), "Synced");
}

#[test]
fn pause_from_connecting_is_noop() {
    let mut state = ConnectionState::Connecting;
    state.pause();
    assert_eq!(state, ConnectionState::Connecting);
}
