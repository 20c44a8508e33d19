//! Connection and sync status state machine driven by backend events.

use vstd::prelude::*;
use crate::backend::events::{SpvEvent, SpvEventView};
use crate::backend::types::{manager_state_spec, ManagerId, SyncProgress, SyncProgressModel, SyncState};
use crate::text::{decimal, push_decimal, push_str_chars, string_from_chars};

verus! {

/// Display-ready sync progress. `percentage_bp` is in hundredths of a
/// percent.
#[derive(Debug, Clone, PartialEq)]
pub struct SyncProgressView {
    pub percentage_bp: u32,
    pub stage_label: String,
}

/// Connection and sync state machine.
#[derive(Debug, Clone, PartialEq)]
pub enum ConnectionState {
    Disconnected,
    Connecting,
    Syncing(SyncProgressView),
    Synced,
    Paused,
    Error(String),
}

/// Mathematical model of a [`ConnectionState`].
pub enum ConnectionModel {
    Disconnected,
    Connecting,
    Syncing { percentage_bp: u32, stage_label: Seq<char> },
    Synced,
    Paused,
    Error(Seq<char>),
}

impl View for ConnectionState {
    type V = ConnectionModel;

    open spec fn view(&self) -> ConnectionModel {
        match self {
            ConnectionState::Disconnected => ConnectionModel::Disconnected,
            ConnectionState::Connecting => ConnectionModel::Connecting,
            ConnectionState::Syncing(v) => ConnectionModel::Syncing {
                percentage_bp: v.percentage_bp,
                stage_label: v.stage_label@,
            },
            ConnectionState::Synced => ConnectionModel::Synced,
            ConnectionState::Paused => ConnectionModel::Paused,
            ConnectionState::Error(m) => ConnectionModel::Error(m@),
        }
    }
}

impl Default for ConnectionState {
    fn default() -> (r: Self)
        ensures
            r@ == ConnectionModel::Disconnected,
    {
        ConnectionState::Disconnected
    }
}

/// Progress percentage rounded to a whole percent, ties to even.
pub open spec fn rounded_percent(bp: u32) -> nat {
    let q = (bp / 100) as nat;
    let r = bp % 100;
    if r > 50 || (r == 50 && q % 2 == 1) { q + 1 } else { q }
}

/// The stage shown for a sync progress snapshot: the first manager (in
/// pipeline order) that is syncing, else "Synced" or the overall percentage.
pub open spec fn stage_label_spec(p: SyncProgressModel) -> Seq<char> {
    let syncing = |id: ManagerId| manager_state_spec(p.managers, id) == Some(SyncState::Syncing);
    if syncing(ManagerId::Headers) {
        "Syncing headers..."@
    } else if syncing(ManagerId::FilterHeaders) {
        "Syncing filter headers..."@
    } else if syncing(ManagerId::Filters) {
        "Downloading filters..."@
    } else if syncing(ManagerId::Blocks) {
        "Processing blocks..."@
    } else if syncing(ManagerId::Masternodes) {
        "Syncing masternodes..."@
    } else if syncing(ManagerId::ChainLocks) {
        "Validating chain locks..."@
    } else if syncing(ManagerId::InstantSend) {
        "Processing instant send..."@
    } else if p.is_synced {
        "Synced"@
    } else {
        "Syncing... ("@ + decimal(rounded_percent(p.percentage_bp)) + "%)"@
    }
}

/// Human-readable label of the current sync stage.
pub fn format_sync_stage(progress: &SyncProgress) -> (r: String)
    ensures
        r@ == stage_label_spec(progress@),
{
    if progress.manager_state(ManagerId::Headers) == Some(SyncState::Syncing) {
        return String::from_str("Syncing headers...");
    }
    if progress.manager_state(ManagerId::FilterHeaders) == Some(SyncState::Syncing) {
        return String::from_str("Syncing filter headers...");
    }
    if progress.manager_state(ManagerId::Filters) == Some(SyncState::Syncing) {
        return String::from_str("Downloading filters...");
    }
    if progress.manager_state(ManagerId::Blocks) == Some(SyncState::Syncing) {
        return String::from_str("Processing blocks...");
    }
    if progress.manager_state(ManagerId::Masternodes) == Some(SyncState::Syncing) {
        return String::from_str("Syncing masternodes...");
    }
    if progress.manager_state(ManagerId::ChainLocks) == Some(SyncState::Syncing) {
        return String::from_str("Validating chain locks...");
    }
    if progress.manager_state(ManagerId::InstantSend) == Some(SyncState::Syncing) {
        return String::from_str("Processing instant send...");
    }
    if progress.is_synced {
        String::from_str("Synced")
    } else {
        let bp = progress.percentage_bp;
        let q = bp / 100;
        let rem = bp % 100;
        let pct: u32 = if rem > 50 || (rem == 50 && q % 2 == 1) {
            q + 1
        } else {
            q
        };
        let mut v: Vec<char> = Vec::new();
        push_str_chars(&mut v, "Syncing... (");
        push_decimal(&mut v, pct as u64);
        push_str_chars(&mut v, "%)");
        assert(v@ =~= stage_label_spec(progress@));
        string_from_chars(&v)
    }
}

impl SyncProgressView {
    /// Display-ready view of a progress snapshot.
    pub fn from_progress(progress: &SyncProgress) -> (r: Self)
        ensures
            r.percentage_bp == progress.percentage_bp,
            r.stage_label@ == stage_label_spec(progress@),
    {
        let stage_label = format_sync_stage(progress);
        SyncProgressView { percentage_bp: progress.percentage_bp, stage_label }
    }
}

/// Whether the state is paused or failed (states most events leave alone).
pub open spec fn is_halted(s: ConnectionModel) -> bool {
    s is Paused || s is Error
}

/// The connection state after event `e`.
pub open spec fn connection_after(s: ConnectionModel, e: SpvEventView) -> ConnectionModel {
    match e {
        SpvEventView::PeerConnected(_) => if s is Disconnected {
            ConnectionModel::Connecting
        } else {
            s
        },
        SpvEventView::PeersUpdated { count, .. } => if count == 0 && !is_halted(s) {
            ConnectionModel::Disconnected
        } else {
            s
        },
        SpvEventView::SyncProgressUpdated(p) => if is_halted(s) {
            s
        } else if p.is_synced {
            ConnectionModel::Synced
        } else {
            ConnectionModel::Syncing { percentage_bp: p.percentage_bp, stage_label: stage_label_spec(p) }
        },
        SpvEventView::SyncComplete { .. } => if is_halted(s) {
            s
        } else {
            ConnectionModel::Synced
        },
        SpvEventView::Error(m) => ConnectionModel::Error(m),
        _ => s,
    }
}

/// The state after a pause request.
pub open spec fn paused(s: ConnectionModel) -> ConnectionModel {
    if s is Syncing || s is Synced {
        ConnectionModel::Paused
    } else {
        s
    }
}

/// The state after a resume request.
pub open spec fn resumed(s: ConnectionModel) -> ConnectionModel {
    if s is Paused {
        ConnectionModel::Connecting
    } else {
        s
    }
}

impl ConnectionState {
    fn halted(&self) -> (r: bool)
        ensures
            r == is_halted(self@),
    {
        match self {
            ConnectionState::Paused | ConnectionState::Error(_) => true,
            _ => false,
        }
    }

    /// Apply an SPV event and transition to the next state.
    pub fn apply_event(&mut self, event: &SpvEvent)
        ensures
            final(self)@ == connection_after(old(self)@, event@),
    {
        match event {
            SpvEvent::PeerConnected(_) => {
                if let ConnectionState::Disconnected = self {
                    *self = ConnectionState::Connecting;
                }
            },
            SpvEvent::PeerDisconnected(_) => {},
            SpvEvent::PeersUpdated { count, .. } => {
                if *count == 0 && !self.halted() {
                    *self = ConnectionState::Disconnected;
                }
            },
            SpvEvent::SyncProgressUpdated(progress) => {
                if !self.halted() {
                    if progress.is_synced {
                        *self = ConnectionState::Synced;
                    } else {
                        *self = ConnectionState::Syncing(SyncProgressView::from_progress(progress));
                    }
                }
            },
            SpvEvent::SyncComplete { .. } => {
                if !self.halted() {
                    *self = ConnectionState::Synced;
                }
            },
            SpvEvent::Error(msg) => {
                *self = ConnectionState::Error(msg.clone());
            },
            _ => {},
        }
    }

    /// Transition to paused state. Only valid from Syncing or Synced.
    pub fn pause(&mut self)
        ensures
            final(self)@ == paused(old(self)@),
    {
        match self {
            ConnectionState::Syncing(_) | ConnectionState::Synced => {
                *self = ConnectionState::Paused;
            },
            _ => {},
        }
    }

    /// Transition from paused back to connecting.
    pub fn resume(&mut self)
        ensures
            final(self)@ == resumed(old(self)@),
    {
        if let ConnectionState::Paused = self {
            *self = ConnectionState::Connecting;
        }
    }
}

/// Pausing an active connection and resuming it leads back to connecting.
pub proof fn law_pause_then_resume(s: ConnectionModel)
    requires
        s is Syncing || s is Synced,
    ensures
        resumed(paused(s)) == ConnectionModel::Connecting,
{
}

/// While paused or failed, every event except an error leaves the state
/// unchanged.
pub proof fn law_halted_ignores_events(s: ConnectionModel, e: SpvEventView)
    requires
        is_halted(s),
        !(e is Error),
    ensures
        connection_after(s, e) == s,
{
}

/// An error event moves every state to the error state with its message.
pub proof fn law_error_from_any_state(s: ConnectionModel, m: Seq<char>)
    ensures
        connection_after(s, SpvEventView::Error(m)) == ConnectionModel::Error(m),
{
}

/// A peer joining wakes a disconnected state to connecting and leaves every
/// other state (connecting, syncing, synced, paused, failed) as it was.
pub proof fn law_peer_connected_only_wakes_disconnected(s: ConnectionModel, addr: Seq<char>)
    ensures
        s is Disconnected ==> connection_after(s, SpvEventView::PeerConnected(addr))
            == ConnectionModel::Connecting,
        !(s is Disconnected) ==> connection_after(s, SpvEventView::PeerConnected(addr)) == s,
{
}

/// Resuming anything but a paused state, or pausing a disconnected,
/// connecting, paused or failed state, changes nothing.
pub proof fn law_pause_resume_noops(s: ConnectionModel)
    ensures
        !(s is Paused) ==> resumed(s) == s,
        (s is Disconnected || s is Connecting || is_halted(s)) ==> paused(s) == s,
{
}

} // verus!
