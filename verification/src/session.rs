//! Runtime session records: which tunnels were running (and under which
//! process), which were suspended, and since when they were connected.

use vstd::prelude::*;

use crate::idmap::IdMap;
use crate::model::{copy_opt, opt_view};

verus! {

/// A single session record for an active or suspended tunnel.
#[derive(Debug, Clone, PartialEq)]
pub struct SessionRecord {
    /// PID of the tunnel process, or `None` if suspended without a live process.
    pub pid: Option<u32>,
    /// Whether the tunnel has been manually suspended by the user.
    pub suspended: bool,
    /// Timestamp of when the tunnel was connected, or `None`.
    pub connected_at: Option<String>,
}

/// The value of a [`SessionRecord`].
pub struct SessionRecordView {
    pub pid: Option<u32>,
    pub suspended: bool,
    pub connected_at: Option<Seq<char>>,
}

impl View for SessionRecord {
    type V = SessionRecordView;

    open spec fn view(&self) -> SessionRecordView {
        SessionRecordView {
            pid: self.pid,
            suspended: self.suspended,
            connected_at: opt_view(self.connected_at),
        }
    }
}

impl SessionRecord {
    /// A record of a tunnel that has been started but has no process yet.
    pub open spec fn pending_spec() -> SessionRecordView {
        SessionRecordView { pid: None, suspended: false, connected_at: None }
    }

    /// A record of a suspended tunnel.
    pub open spec fn suspended_spec() -> SessionRecordView {
        SessionRecordView { pid: None, suspended: true, connected_at: None }
    }

    /// A record of a tunnel that has been started but has no process yet.
    pub fn pending() -> (r: SessionRecord)
        ensures
            r@ == Self::pending_spec(),
    {
        SessionRecord { pid: None, suspended: false, connected_at: None }
    }

    /// A record of a suspended tunnel.
    pub fn suspended_record() -> (r: SessionRecord)
        ensures
            r@ == Self::suspended_spec(),
    {
        SessionRecord { pid: None, suspended: true, connected_at: None }
    }

    /// A copy of this record.
    pub fn copy(&self) -> (r: SessionRecord)
        ensures
            r@ == self@,
    {
        SessionRecord {
            pid: self.pid,
            suspended: self.suspended,
            connected_at: copy_opt(&self.connected_at),
        }
    }
}

/// Runtime session state: maps tunnel identifiers to their session records.
pub type SessionState = IdMap<SessionRecord>;

/// The values of the records of a session state.
pub open spec fn sessions_view(m: Map<u128, SessionRecord>) -> Map<u128, SessionRecordView> {
    m.map_values(|r: SessionRecord| r@)
}

} // verus!
