//! Connection state of a tunnel entry and the events that drive it.

use vstd::prelude::*;

use crate::model::EntryId;

verus! {

/// Connection state for a tunnel entry.
#[derive(Debug, Clone, Copy, PartialEq, Eq, Structural)]
pub enum ConnectionState {
    /// Not connected, idle.
    Disconnected,
    /// The process has been spawned, waiting until it is ready.
    Connecting,
    /// Process running and ready.
    Connected,
    /// Connection lost, waiting for backoff before retry.
    Reconnecting,
    /// Connection failed after max retries or immediate failure.
    Failed,
    /// Auto-restart tunnel manually disconnected by the user; suppresses
    /// auto-reconnect.
    Suspended,
}

impl Default for ConnectionState {
    fn default() -> (r: Self)
        ensures
            r == ConnectionState::Disconnected,
    {
        ConnectionState::Disconnected
    }
}

impl ConnectionState {
    /// The short display label of a state.
    pub open spec fn label_text(self) -> Seq<char> {
        match self {
            ConnectionState::Disconnected => "disconnected"@,
            ConnectionState::Connecting => "connecting"@,
            ConnectionState::Connected => "connected"@,
            ConnectionState::Reconnecting => "reconnecting"@,
            ConnectionState::Failed => "failed"@,
            ConnectionState::Suspended => "suspended"@,
        }
    }

    /// Whether a state stands for an active or pending connection.
    pub open spec fn active(self) -> bool {
        ||| self == ConnectionState::Connecting
        ||| self == ConnectionState::Connected
        ||| self == ConnectionState::Reconnecting
    }

    /// Returns a short display label for the state.
    pub fn label(&self) -> (r: &'static str)
        ensures
            r@ == self.label_text(),
    {
        match self {
            ConnectionState::Disconnected => "disconnected",
            ConnectionState::Connecting => "connecting",
            ConnectionState::Connected => "connected",
            ConnectionState::Reconnecting => "reconnecting",
            ConnectionState::Failed => "failed",
            ConnectionState::Suspended => "suspended",
        }
    }

    /// Returns true if this state represents an active or pending connection.
    pub fn is_active(&self) -> (r: bool)
        ensures
            r == self.active(),
    {
        match self {
            ConnectionState::Connecting | ConnectionState::Connected
            | ConnectionState::Reconnecting => true,
            _ => false,
        }
    }
}

/// Events sent from tunnel supervision tasks to the application.
#[derive(Debug, Clone)]
pub enum TunnelEvent {
    /// The process is running and the tunnel is ready.
    Connected { entry_id: EntryId },
    /// The process exited unexpectedly.
    Disconnected { entry_id: EntryId },
    /// Connection attempt failed or max retries exhausted.
    Failed { entry_id: EntryId, reason: String },
    /// Entering reconnect backoff.
    Reconnecting { entry_id: EntryId, attempt: u32, delay_secs: u64 },
    /// The supervisor spawned or respawned a process; carries the new PID.
    PidUpdate { entry_id: EntryId, pid: u32 },
}

} // verus!
