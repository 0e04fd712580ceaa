//! The application state and its update function: every key press and
//! every tunnel event becomes a new state plus the effects (saving,
//! starting or stopping supervisors) that the caller carries out.

use vstd::prelude::*;

use crate::command::process_type_spec;
use crate::form::{
    resource_type_from, resource_type_of, trimmed_field,
    add_forward_spec, backspace_spec, cancel_forward_spec, cycle_forward_type_spec,
    delete_forward_spec, input_spec, k8s_entry_form_spec, k8s_entry_to_form, new_k8s_form,
    new_k8s_form_spec, new_ssh_form, new_ssh_form_spec, new_sshuttle_form,
    new_sshuttle_form_spec, next_field_spec, open_selected_forward_spec, prev_field_spec,
    ssh_entry_form_spec, ssh_entry_to_form, sshuttle_entry_form_spec, sshuttle_entry_to_form,
    submit_forward_spec, EntryTypeSelection, FormEntryType, FormFocus, FormState, FormStateView,
};
use crate::idmap::IdMap;
use crate::model::{
    dec, entries_view, lit, Config, EntryId, K8sEntry, K8sEntryView, K8sResourceType,
    ServerEntry, ServerEntryView, SshuttleEntry, SshuttleEntryView, TunnelEntry, TunnelEntryView,
};
use crate::session::{sessions_view, SessionRecord, SessionRecordView, SessionState};
use crate::state::{ConnectionState, TunnelEvent};
use crate::text::{
    chars_of, clean_fields, decimal, eq_ignore_ascii_case, equals_ignore_ascii_case, parse_u16,
    parse_u16_chars, split_fields, split_list, string_of, trim, trimmed,
};

verus! {

/// How long transient status messages are shown (in seconds).
pub const STATUS_MSG_DURATION_SECS: u64 = 3;

#[verifier::external_type_specification]
#[verifier::external_body]
pub struct ExInstant(std::time::Instant);

#[verifier::external_type_specification]
#[verifier::external_body]
pub struct ExSystemTime(std::time::SystemTime);

/// The current instant (`std::time::Instant::now`); nothing is claimed of it.
#[verifier::external_body]
fn instant_now() -> std::time::Instant {
    std::time::Instant::now()
}

/// The time elapsed since `t` (`Instant::elapsed`); it depends on the
/// clock, so nothing is claimed.
#[verifier::external_body]
fn elapsed(t: &std::time::Instant) -> std::time::Duration {
    t.elapsed()
}

/// The whole seconds of a duration (`Duration::as_secs`); this crate does
/// not model durations, so nothing is claimed.
#[verifier::external_body]
fn whole_secs(d: &std::time::Duration) -> u64 {
    d.as_secs()
}

/// The current system time (`SystemTime::now`); nothing is claimed of it.
#[verifier::external_body]
fn system_now() -> std::time::SystemTime {
    std::time::SystemTime::now()
}

/// The duration from the Unix epoch to `t` (`SystemTime::duration_since`
/// with `UNIX_EPOCH`), or `None` when `t` is before the epoch. Which value
/// comes back depends on `t`, which this crate does not model, so nothing
/// more is claimed.
#[verifier::external_body]
fn since_epoch(t: &std::time::SystemTime) -> Option<std::time::Duration> {
    t.duration_since(std::time::UNIX_EPOCH).ok()
}

/// A new random entry identifier (`uuid::Uuid::new_v4`, as its 128-bit
/// value). As the source of `new_v4` shows, the version nibble (bits 76 to
/// 79) is 4 and the two variant bits (62 and 63) are `10`; the other bits
/// are random.
#[verifier::external_body]
pub(crate) fn new_entry_id() -> (r: EntryId)
    ensures
        (r >> 76u128) & 0xfu128 == 4,
        (r >> 62u128) & 0x3u128 == 2,
{
    uuid::Uuid::new_v4().as_u128()
}

/// Something the application asks its caller to do after an update.
#[derive(Debug, Clone, Copy, PartialEq, Eq, Structural)]
pub enum Effect {
    /// Write the configuration (the entries) to disk.
    SaveConfig,
    /// Write the session records to disk.
    PersistSessions,
    /// Start a supervisor that spawns the tunnel of entry `id`.
    Spawn { id: EntryId },
    /// Start a supervisor that adopts the running process `pid` of entry `id`.
    Adopt { id: EntryId, pid: u32 },
    /// Mark the supervisor of `id` suspended, stop it and kill its process.
    StopAndKill { id: EntryId },
    /// Forget the supervisor of `id` without stopping it.
    Release { id: EntryId },
}

/// The current mode of the application.
#[derive(Debug, Clone, PartialEq)]
pub enum AppMode {
    /// Normal list view.
    Normal,
    /// Choosing the entry type for a new entry.
    TypeSelect(EntryTypeSelection),
    /// Editing or creating an entry.
    Form(FormState),
}

/// The value of an [`AppMode`].
pub enum AppModeView {
    Normal,
    TypeSelect(EntryTypeSelection),
    Form(FormStateView),
}

impl View for AppMode {
    type V = AppModeView;

    open spec fn view(&self) -> AppModeView {
        match self {
            AppMode::Normal => AppModeView::Normal,
            AppMode::TypeSelect(s) => AppModeView::TypeSelect(*s),
            AppMode::Form(f) => AppModeView::Form(f@),
        }
    }
}

impl AppModeView {
    /// Well-formedness of a mode: a type choice among three, a well-formed form.
    pub open spec fn wf(self) -> bool {
        match self {
            AppModeView::Normal => true,
            AppModeView::TypeSelect(s) => s.selected < 3,
            AppModeView::Form(f) => f.wf(),
        }
    }
}

/// Messages that drive state transitions in the app.
#[derive(Debug)]
pub enum Message {
    /// Move selection up.
    NavigateUp,
    /// Move selection down.
    NavigateDown,
    /// Start creating a new entry.
    NewEntry,
    /// Start editing the selected entry.
    EditEntry,
    /// Delete the selected entry.
    DeleteEntry,
    /// Toggle connect/disconnect for the selected entry.
    ToggleConnect,
    /// Quit the application.
    Quit,
    /// A tunnel lifecycle event.
    TunnelEvent(TunnelEvent),
    /// Form: move to next field.
    FormNextField,
    /// Form: move to previous field.
    FormPrevField,
    /// Form: type a character into the current field.
    FormInput(char),
    /// Form: delete character (backspace).
    FormBackspace,
    /// Form: submit the form.
    FormSubmit,
    /// Form: cancel and return to normal mode.
    FormCancel,
    /// Form: add a new forward.
    FormAddForward,
    /// Form: delete the selected forward.
    FormDeleteForward,
    /// Form: cycle forward type.
    FormCycleForwardType,
}

/// Core application state.
pub struct App {
    /// All configured tunnel entries.
    pub entries: Vec<TunnelEntry>,
    /// Currently selected entry index.
    pub selected: usize,
    /// Scroll offset (in rows, not lines).
    pub scroll_offset: usize,
    /// Connection state per entry (by entry id).
    pub connection_states: IdMap<ConnectionState>,
    /// Runtime session state (PID tracking, persisted separately).
    pub sessions: SessionState,
    /// Transient status message and when it was set.
    pub status_message: Option<(String, std::time::Instant)>,
    /// Whether the app is still running.
    pub running: bool,
    /// Current app mode.
    pub mode: AppMode,
    /// Warning message to show when kubectl is unavailable.
    pub kubectl_warning: Option<String>,
    /// Warning message to show when sshuttle is unavailable.
    pub sshuttle_warning: Option<String>,
    /// Whether the app is running in demo mode (read-only, simulated tunnels).
    pub demo_mode: bool,
}

/// The value of an [`App`].
pub struct AppView {
    pub entries: Seq<TunnelEntryView>,
    pub selected: usize,
    pub scroll_offset: usize,
    pub states: Map<EntryId, ConnectionState>,
    pub sessions: Map<EntryId, SessionRecordView>,
    pub status: Option<Seq<char>>,
    pub running: bool,
    pub mode: AppModeView,
    pub kubectl_warning: Option<Seq<char>>,
    pub sshuttle_warning: Option<Seq<char>>,
    pub demo_mode: bool,
}

impl View for App {
    type V = AppView;

    open spec fn view(&self) -> AppView {
        AppView {
            entries: entries_view(self.entries@),
            selected: self.selected,
            scroll_offset: self.scroll_offset,
            states: self.connection_states@,
            sessions: sessions_view(self.sessions@),
            status: match self.status_message {
                Some((s, _)) => Some(s@),
                None => None,
            },
            running: self.running,
            mode: self.mode@,
            kubectl_warning: crate::model::opt_view(self.kubectl_warning),
            sshuttle_warning: crate::model::opt_view(self.sshuttle_warning),
            demo_mode: self.demo_mode,
        }
    }
}

impl AppView {
    /// Well-formedness: the selection is an entry (or 0 when there is none)
    /// and the mode is well-formed.
    pub open spec fn wf(self) -> bool {
        &&& (self.entries.len() == 0 ==> self.selected == 0)
        &&& (self.entries.len() > 0 ==> self.selected < self.entries.len())
        &&& self.mode.wf()
    }
}

/// The position of the first entry with identifier `id`.
pub open spec fn entry_index(s: Seq<TunnelEntryView>, id: EntryId) -> Option<int>
    decreases s.len(),
{
    if s.len() == 0 {
        None
    } else if s[0].id() == id {
        Some(0)
    } else {
        match entry_index(s.drop_first(), id) {
            Some(i) => Some(i + 1),
            None => None,
        }
    }
}

/// `entry_index` finds the first entry that carries the identifier.
pub proof fn lemma_entry_index(s: Seq<TunnelEntryView>, id: EntryId)
    ensures
        match entry_index(s, id) {
            Some(i) => 0 <= i < s.len() && s[i].id() == id && forall|j: int| 0 <= j < i ==> s[j].id() != id,
            None => forall|j: int| 0 <= j < s.len() ==> s[j].id() != id,
        },
    decreases s.len(),
{
    if s.len() > 0 && s[0].id() != id {
        lemma_entry_index(s.drop_first(), id);
        match entry_index(s.drop_first(), id) {
            Some(i) => {
                assert forall|j: int| 0 <= j < i + 1 implies s[j].id() != id by {
                    if j > 0 {
                        assert(s[j] == s.drop_first()[j - 1]);
                    }
                }
            },
            None => {
                assert forall|j: int| 0 <= j < s.len() implies s[j].id() != id by {
                    if j > 0 {
                        assert(s[j] == s.drop_first()[j - 1]);
                    }
                }
            },
        }
    }
}

/// The first entry with identifier `id`.
pub open spec fn find_entry(s: Seq<TunnelEntryView>, id: EntryId) -> Option<TunnelEntryView> {
    match entry_index(s, id) {
        Some(i) => Some(s[i]),
        None => None,
    }
}

/// Whether the first entry with identifier `id` exists and restarts on its own.
pub open spec fn entry_auto_restart(s: Seq<TunnelEntryView>, id: EntryId) -> bool {
    match find_entry(s, id) {
        Some(e) => e.auto_restart(),
        None => false,
    }
}

/// The connection state of `id`; an entry without one is disconnected.
pub open spec fn state_of_spec(a: AppView, id: EntryId) -> ConnectionState {
    if a.states.contains_key(id) {
        a.states[id]
    } else {
        ConnectionState::Disconnected
    }
}

/// The application with a new status message.
pub open spec fn with_status(a: AppView, text: Seq<char>) -> AppView {
    AppView { status: Some(text), ..a }
}

/// The effect of writing the session records, which demo mode never does.
pub open spec fn persist_effect(a: AppView) -> Seq<Effect> {
    if a.demo_mode { Seq::empty() } else { seq![Effect::PersistSessions] }
}

/// The effect of writing the configuration, which demo mode never does.
pub open spec fn save_effect(a: AppView) -> Seq<Effect> {
    if a.demo_mode { Seq::empty() } else { seq![Effect::SaveConfig] }
}

/// `Connected: <name>` and similar: a prefix and the entry's name.
pub open spec fn status_with_name(prefix: Seq<char>, s: Seq<TunnelEntryView>, id: EntryId, a: AppView) -> AppView {
    match find_entry(s, id) {
        Some(e) => with_status(a, prefix + e.name()),
        None => a,
    }
}

/// The timestamp recorded when a tunnel connects.
pub open spec fn timestamp_text(secs: Option<u64>) -> Seq<char> {
    match secs {
        Some(s) => decimal(s as nat) + "s-since-epoch"@,
        None => "unknown"@,
    }
}

/// Starting the tunnel of the entry at `index`: its state becomes
/// connecting and a pending session is recorded while a supervisor is
/// started; a workload without bindings fails at once.
pub open spec fn connect_spec(a: AppView, index: int) -> (AppView, Seq<Effect>) {
    if index < 0 || index >= a.entries.len() {
        (a, Seq::empty())
    } else {
        let e = a.entries[index];
        let id = e.id();
        match e {
            TunnelEntryView::K8s(k) => if k.forwards.len() == 0 {
                (
                    AppView {
                        states: a.states.insert(id, ConnectionState::Failed),
                        status: Some("No port-forward bindings configured"@),
                        ..a
                    },
                    Seq::empty(),
                )
            } else {
                let b = AppView {
                    states: a.states.insert(id, ConnectionState::Connecting),
                    sessions: a.sessions.insert(id, SessionRecord::pending_spec()),
                    ..a
                };
                (b, seq![Effect::Spawn { id }] + persist_effect(a))
            },
            _ => {
                let b = AppView {
                    states: a.states.insert(id, ConnectionState::Connecting),
                    sessions: a.sessions.insert(id, SessionRecord::pending_spec()),
                    ..a
                };
                (b, seq![Effect::Spawn { id }] + persist_effect(a))
            },
        }
    }
}

/// Stopping the tunnel of `id` on the user's request: the supervisor is
/// stopped and its process killed; an auto-restart entry becomes suspended
/// (and its session says so), any other becomes disconnected and loses its
/// session.
pub open spec fn disconnect_spec(a: AppView, id: EntryId) -> (AppView, Seq<Effect>) {
    let b = if entry_auto_restart(a.entries, id) {
        AppView {
            states: a.states.insert(id, ConnectionState::Suspended),
            sessions: a.sessions.insert(id, SessionRecord::suspended_spec()),
            ..a
        }
    } else {
        AppView {
            states: a.states.insert(id, ConnectionState::Disconnected),
            sessions: a.sessions.remove(id),
            ..a
        }
    };
    (b, seq![Effect::StopAndKill { id }] + persist_effect(a))
}

/// How the application reacts to an event of a supervisor.
pub open spec fn tunnel_event_spec(a: AppView, ev: TunnelEvent, now: Seq<char>) -> (AppView, Seq<Effect>) {
    match ev {
        TunnelEvent::Connected { entry_id } => {
            let b = AppView {
                states: a.states.insert(entry_id, ConnectionState::Connected),
                sessions: if a.sessions.contains_key(entry_id) {
                    a.sessions.insert(
                        entry_id,
                        SessionRecordView { connected_at: Some(now), ..a.sessions[entry_id] },
                    )
                } else {
                    a.sessions
                },
                ..a
            };
            (status_with_name("Connected: "@, a.entries, entry_id, b), persist_effect(a))
        },
        TunnelEvent::Disconnected { entry_id } => if entry_auto_restart(a.entries, entry_id) {
            let b = AppView { states: a.states.insert(entry_id, ConnectionState::Failed), ..a };
            (status_with_name("Connection lost: "@, a.entries, entry_id, b), Seq::empty())
        } else {
            let b = AppView {
                states: a.states.insert(entry_id, ConnectionState::Failed),
                sessions: a.sessions.remove(entry_id),
                ..a
            };
            (
                status_with_name("Connection lost: "@, a.entries, entry_id, b),
                seq![Effect::Release { id: entry_id }] + persist_effect(a),
            )
        },
        TunnelEvent::Failed { entry_id, reason } => {
            let b = AppView {
                states: a.states.insert(entry_id, ConnectionState::Failed),
                sessions: a.sessions.remove(entry_id),
                status: Some("Failed: "@ + reason@),
                ..a
            };
            (b, seq![Effect::Release { id: entry_id }] + persist_effect(a))
        },
        TunnelEvent::Reconnecting { entry_id, attempt, delay_secs } => {
            let b = AppView {
                states: a.states.insert(entry_id, ConnectionState::Reconnecting),
                ..a
            };
            match find_entry(a.entries, entry_id) {
                Some(e) => (
                    with_status(
                        b,
                        "Reconnecting "@ + e.name() + " (attempt "@ + decimal(attempt as nat) + ", "@
                            + decimal(delay_secs as nat) + "s delay)"@,
                    ),
                    Seq::empty(),
                ),
                None => (b, Seq::empty()),
            }
        },
        TunnelEvent::PidUpdate { entry_id, pid } => {
            let cur = state_of_spec(a, entry_id);
            let states = if a.demo_mode && (cur == ConnectionState::Disconnected || cur
                == ConnectionState::Failed) {
                a.states.insert(entry_id, ConnectionState::Connecting)
            } else {
                a.states
            };
            let rec = if a.sessions.contains_key(entry_id) {
                a.sessions[entry_id]
            } else {
                SessionRecord::pending_spec()
            };
            (
                AppView {
                    states,
                    sessions: a.sessions.insert(entry_id, SessionRecordView { pid: Some(pid), ..rec }),
                    ..a
                },
                persist_effect(a),
            )
        },
    }
}


/// Pushes `e` onto the effect list.
fn emit(effects: &mut Vec<Effect>, e: Effect)
    ensures
        final(effects)@ == old(effects)@.push(e),
{
    effects.push(e);
}

impl App {
    /// The invariant of the application: both maps well-formed and the
    /// state well-formed.
    pub open spec fn inv(&self) -> bool {
        &&& self.connection_states.wf()
        &&& self.sessions.wf()
        &&& self@.wf()
    }

    /// Create the application from a loaded configuration, the session
    /// records found on disk, and the demo flag. Every entry starts
    /// disconnected; in demo mode the session records are ignored.
    pub fn new(config: Config, sessions: SessionState, demo_mode: bool) -> (r: App)
        requires
            sessions.wf(),
        ensures
            r.inv(),
            r@.entries == entries_view(config.entries@),
            r@.selected == 0,
            r@.scroll_offset == 0,
            r@.states == Map::new(
                |k: EntryId| exists|i: int| 0 <= i < config.entries@.len() && config.entries@[i]@.id() == k,
                |k: EntryId| ConnectionState::Disconnected,
            ),
            r@.sessions == (if demo_mode {
                Map::<EntryId, SessionRecordView>::empty()
            } else {
                sessions_view(sessions@)
            }),
            r@.status is None,
            r@.running,
            r@.mode == AppModeView::Normal,
            r@.kubectl_warning is None,
            r@.sshuttle_warning is None,
            r@.demo_mode == demo_mode,
    {
        let mut states: IdMap<ConnectionState> = IdMap::new();
        let mut i: usize = 0;
        while i < config.entries.len()
            invariant
                i <= config.entries@.len(),
                states.wf(),
                states@ == Map::new(
                    |k: EntryId| exists|j: int| 0 <= j < i && config.entries@[j]@.id() == k,
                    |k: EntryId| ConnectionState::Disconnected,
                ),
            decreases config.entries@.len() - i,
        {
            let id = config.entries[i].id();
            states.insert(id, ConnectionState::Disconnected);
            i = i + 1;
            assert(states@ =~= Map::new(
                |k: EntryId| exists|j: int| 0 <= j < i && config.entries@[j]@.id() == k,
                |k: EntryId| ConnectionState::Disconnected,
            )) by {
                assert(config.entries@[i - 1]@.id() == id);
            }
        }
        let sessions = if demo_mode { IdMap::new() } else { sessions };
        let r = App {
            entries: config.entries,
            selected: 0,
            scroll_offset: 0,
            connection_states: states,
            sessions,
            status_message: None,
            running: true,
            mode: AppMode::Normal,
            kubectl_warning: None,
            sshuttle_warning: None,
            demo_mode,
        };
        proof {
            if demo_mode {
                assert(sessions_view(r.sessions@) =~= Map::<EntryId, SessionRecordView>::empty());
            }
        }
        r
    }

    /// Set a kubectl availability warning (shown in status bar).
    pub fn set_kubectl_warning(&mut self, msg: String)
        ensures
            final(self)@ == (AppView { kubectl_warning: Some(msg@), ..old(self)@ }),
            final(self).connection_states == old(self).connection_states,
            final(self).sessions == old(self).sessions,
    {
        self.kubectl_warning = Some(msg);
    }

    /// Set an sshuttle availability warning (shown in status bar).
    pub fn set_sshuttle_warning(&mut self, msg: String)
        ensures
            final(self)@ == (AppView { sshuttle_warning: Some(msg@), ..old(self)@ }),
            final(self).connection_states == old(self).connection_states,
            final(self).sessions == old(self).sessions,
    {
        self.sshuttle_warning = Some(msg);
    }

    /// Set a transient status message.
    fn set_status(&mut self, msg: String)
        ensures
            final(self)@ == with_status(old(self)@, msg@),
            final(self).connection_states == old(self).connection_states,
            final(self).sessions == old(self).sessions,
    {
        self.status_message = Some((msg, instant_now()));
    }

    /// Show a read-only warning for demo mode.
    pub fn set_demo_readonly_message(&mut self)
        ensures
            final(self)@ == with_status(old(self)@, "Demo mode \u{2014} read-only"@),
            final(self).connection_states == old(self).connection_states,
            final(self).sessions == old(self).sessions,
    {
        self.set_status(lit("Demo mode \u{2014} read-only"));
    }

    /// The status message, given the whole seconds elapsed since it was
    /// set: the message while that is below the display duration, else none.
    pub fn status_message_if_fresh(&self, elapsed_secs: u64) -> (r: Option<&str>)
        ensures
            match self@.status {
                Some(s) => if elapsed_secs < STATUS_MSG_DURATION_SECS {
                    r matches Some(t) && t@ == s
                } else {
                    r is None
                },
                None => r is None,
            },
    {
        match &self.status_message {
            Some((msg, _)) => if elapsed_secs < STATUS_MSG_DURATION_SECS {
                Some(msg.as_str())
            } else {
                None
            },
            None => None,
        }
    }

    /// Get the active status message if it hasn't expired: the current
    /// message, unless it was set 3 or more seconds ago.
    pub fn active_status_message(&self) -> (r: Option<&str>)
        ensures
            r matches Some(t) ==> self@.status == Some(t@),
            self@.status is None ==> r is None,
    {
        match &self.status_message {
            Some((_, when)) => {
                let e = whole_secs(&elapsed(when));
                self.status_message_if_fresh(e)
            },
            None => None,
        }
    }

    /// Get the connection state for an entry.
    pub fn state_of(&self, id: EntryId) -> (r: ConnectionState)
        requires
            self.connection_states.wf(),
        ensures
            r == state_of_spec(self@, id),
    {
        match self.connection_states.get(id) {
            Some(s) => *s,
            None => ConnectionState::Disconnected,
        }
    }

    /// Count entries in a given connection state.
    pub fn count_in_state(&self, state: ConnectionState) -> (r: usize)
        requires
            self.connection_states.wf(),
        ensures
            r == count_state(self.connection_states.entries(), state),
    {
        let n = self.connection_states.len();
        let mut c: usize = 0;
        let mut i: usize = 0;
        while i < n
            invariant
                n == self.connection_states.entries().len(),
                i <= n,
                c == count_state(self.connection_states.entries().take(i as int), state),
                c <= i,
            decreases n - i,
        {
            let (_, s) = self.connection_states.entry_at(i);
            assert(self.connection_states.entries().take(i + 1).drop_last()
                =~= self.connection_states.entries().take(i as int));
            if *s == state {
                c = c + 1;
            }
            i = i + 1;
        }
        assert(self.connection_states.entries().take(n as int) =~= self.connection_states.entries());
        c
    }

    /// The position of the first entry with identifier `id`.
    pub(crate) fn find_index(&self, id: EntryId) -> (r: Option<usize>)
        ensures
            r matches Some(i) ==> entry_index(self@.entries, id) == Some(i as int),
            r is None ==> entry_index(self@.entries, id) is None,
            r matches Some(i) ==> i < self.entries@.len() && self@.entries[i as int].id() == id,
    {
        proof {
            lemma_entry_index(self@.entries, id);
        }
        let mut i: usize = 0;
        while i < self.entries.len()
            invariant
                i <= self.entries@.len(),
                forall|j: int| 0 <= j < i ==> self@.entries[j].id() != id,
            decreases self.entries@.len() - i,
        {
            if self.entries[i].id() == id {
                assert(self@.entries[i as int].id() == id);
                proof {
                    lemma_entry_index(self@.entries, id);
                    match entry_index(self@.entries, id) {
                        Some(k) => {
                            assert(self@.entries[k].id() == id);
                            assert(k == i);
                        },
                        None => {
                            assert(self@.entries[i as int].id() == id);
                        },
                    }
                }
                return Some(i);
            }
            assert(self@.entries[i as int] == self.entries@[i as int]@);
            i = i + 1;
        }
        None
    }

    /// Whether the first entry with identifier `id` exists and restarts on its own.
    fn auto_restart_of(&self, id: EntryId) -> (r: bool)
        ensures
            r == entry_auto_restart(self@.entries, id),
    {
        match self.find_index(id) {
            Some(i) => {
                assert(self@.entries[i as int] == self.entries@[i as int]@);
                self.entries[i].auto_restart()
            },
            None => false,
        }
    }

    /// Sets the status to `prefix` followed by the name of the first entry
    /// with identifier `id`, if there is one.
    fn set_status_with_name(&mut self, prefix: &str, id: EntryId)
        ensures
            final(self)@ == status_with_name(prefix@, old(self)@.entries, id, old(self)@),
            final(self).connection_states == old(self).connection_states,
            final(self).sessions == old(self).sessions,
    {
        match self.find_index(id) {
            Some(i) => {
                assert(self@.entries[i as int] == self.entries@[i as int]@);
                let mut msg = lit(prefix);
                msg.append(self.entries[i].name());
                self.set_status(msg);
            },
            None => {},
        }
    }

    fn persist(&self, effects: &mut Vec<Effect>)
        ensures
            final(effects)@ == old(effects)@ + persist_effect(self@),
    {
        if !self.demo_mode {
            emit(effects, Effect::PersistSessions);
        }
        assert(effects@ =~= old(effects)@ + persist_effect(self@));
    }

    fn save(&self, effects: &mut Vec<Effect>)
        ensures
            final(effects)@ == old(effects)@ + save_effect(self@),
    {
        if !self.demo_mode {
            emit(effects, Effect::SaveConfig);
        }
        assert(effects@ =~= old(effects)@ + save_effect(self@));
    }

    fn sessions_insert(&mut self, id: EntryId, rec: SessionRecord)
        requires
            old(self).sessions.wf(),
        ensures
            final(self).sessions.wf(),
            final(self)@ == (AppView { sessions: old(self)@.sessions.insert(id, rec@), ..old(self)@ }),
            final(self).connection_states == old(self).connection_states,
    {
        let ghost r = rec@;
        self.sessions.insert(id, rec);
        assert(sessions_view(self.sessions@) =~= old(self)@.sessions.insert(id, r));
    }

    fn sessions_remove(&mut self, id: EntryId)
        requires
            old(self).sessions.wf(),
        ensures
            final(self).sessions.wf(),
            final(self)@ == (AppView { sessions: old(self)@.sessions.remove(id), ..old(self)@ }),
            final(self).connection_states == old(self).connection_states,
    {
        self.sessions.remove(id);
        assert(sessions_view(self.sessions@) =~= old(self)@.sessions.remove(id));
    }

    fn set_state(&mut self, id: EntryId, st: ConnectionState)
        requires
            old(self).connection_states.wf(),
        ensures
            final(self).connection_states.wf(),
            final(self)@ == (AppView { states: old(self)@.states.insert(id, st), ..old(self)@ }),
            final(self).sessions == old(self).sessions,
    {
        self.connection_states.insert(id, st);
    }

    /// Initiate a connection for the entry at the given index.
    fn connect(&mut self, index: usize, effects: &mut Vec<Effect>)
        requires
            old(self).connection_states.wf(),
            old(self).sessions.wf(),
        ensures
            final(self).connection_states.wf(),
            final(self).sessions.wf(),
            final(self)@ == connect_spec(old(self)@, index as int).0,
            final(effects)@ == old(effects)@ + connect_spec(old(self)@, index as int).1,
    {
        if index >= self.entries.len() {
            assert(effects@ =~= old(effects)@ + Seq::<Effect>::empty());
            return;
        }
        let id = self.entries[index].id();
        assert(self@.entries[index as int] == self.entries@[index as int]@);
        let no_bindings = match &self.entries[index] {
            TunnelEntry::K8s(k) => k.forwards.len() == 0,
            _ => false,
        };
        if no_bindings {
            self.set_state(id, ConnectionState::Failed);
            self.set_status(lit("No port-forward bindings configured"));
            assert(self@.states =~= old(self)@.states.insert(id, ConnectionState::Connecting).insert(
                id,
                ConnectionState::Failed,
            ));
            assert(effects@ =~= old(effects)@ + Seq::<Effect>::empty());
            return;
        }
        self.set_state(id, ConnectionState::Connecting);
        emit(effects, Effect::Spawn { id });
        self.sessions_insert(id, SessionRecord::pending());
        self.persist(effects);
        assert(effects@ =~= old(effects)@ + connect_spec(old(self)@, index as int).1);
    }

    /// Disconnect the entry with the given id.
    fn disconnect(&mut self, id: EntryId, effects: &mut Vec<Effect>)
        requires
            old(self).connection_states.wf(),
            old(self).sessions.wf(),
        ensures
            final(self).connection_states.wf(),
            final(self).sessions.wf(),
            final(self)@ == disconnect_spec(old(self)@, id).0,
            final(effects)@ == old(effects)@ + disconnect_spec(old(self)@, id).1,
    {
        let auto_restart = self.auto_restart_of(id);
        emit(effects, Effect::StopAndKill { id });
        if auto_restart {
            self.set_state(id, ConnectionState::Suspended);
            self.sessions_insert(id, SessionRecord::suspended_record());
        } else {
            self.set_state(id, ConnectionState::Disconnected);
            self.sessions_remove(id);
        }
        self.persist(effects);
        assert(effects@ =~= old(effects)@ + disconnect_spec(old(self)@, id).1);
    }

    /// Handle a tunnel lifecycle event.
    fn handle_tunnel_event(&mut self, event: TunnelEvent, now: String, effects: &mut Vec<Effect>)
        requires
            old(self).connection_states.wf(),
            old(self).sessions.wf(),
        ensures
            final(self).connection_states.wf(),
            final(self).sessions.wf(),
            final(self)@ == tunnel_event_spec(old(self)@, event, now@).0,
            final(effects)@ == old(effects)@ + tunnel_event_spec(old(self)@, event, now@).1,
    {
        let ghost ev = event;
        match event {
            TunnelEvent::Connected { entry_id } => {
                self.set_state(entry_id, ConnectionState::Connected);
                match self.sessions.get(entry_id) {
                    Some(rec) => {
                        let updated = SessionRecord {
                            pid: rec.pid,
                            suspended: rec.suspended,
                            connected_at: Some(now),
                        };
                        self.sessions_insert(entry_id, updated);
                    },
                    None => {},
                }
                self.persist(effects);
                self.set_status_with_name("Connected: ", entry_id);
            },
            TunnelEvent::Disconnected { entry_id } => {
                let auto_restart = self.auto_restart_of(entry_id);
                if auto_restart {
                    self.set_state(entry_id, ConnectionState::Failed);
                    self.set_status_with_name("Connection lost: ", entry_id);
                } else {
                    self.set_state(entry_id, ConnectionState::Failed);
                    emit(effects, Effect::Release { id: entry_id });
                    self.sessions_remove(entry_id);
                    self.persist(effects);
                    self.set_status_with_name("Connection lost: ", entry_id);
                }
            },
            TunnelEvent::Failed { entry_id, reason } => {
                self.set_state(entry_id, ConnectionState::Failed);
                emit(effects, Effect::Release { id: entry_id });
                self.sessions_remove(entry_id);
                self.persist(effects);
                let mut msg = lit("Failed: ");
                msg.append(reason.as_str());
                self.set_status(msg);
            },
            TunnelEvent::Reconnecting { entry_id, attempt, delay_secs } => {
                self.set_state(entry_id, ConnectionState::Reconnecting);
                match self.find_index(entry_id) {
                    Some(i) => {
                        assert(self@.entries[i as int] == self.entries@[i as int]@);
                        let mut msg = lit("Reconnecting ");
                        msg.append(self.entries[i].name());
                        msg.append(" (attempt ");
                        msg.append(dec(attempt as u64).as_str());
                        msg.append(", ");
                        msg.append(dec(delay_secs).as_str());
                        msg.append("s delay)");
                        self.set_status(msg);
                    },
                    None => {},
                }
            },
            TunnelEvent::PidUpdate { entry_id, pid } => {
                if self.demo_mode {
                    let current = self.state_of(entry_id);
                    if current == ConnectionState::Disconnected || current == ConnectionState::Failed {
                        self.set_state(entry_id, ConnectionState::Connecting);
                    }
                }
                let rec = match self.sessions.get(entry_id) {
                    Some(r) => SessionRecord {
                        pid: Some(pid),
                        suspended: r.suspended,
                        connected_at: crate::model::copy_opt(&r.connected_at),
                    },
                    None => SessionRecord { pid: Some(pid), suspended: false, connected_at: None },
                };
                self.sessions_insert(entry_id, rec);
                self.persist(effects);
            },
        }
        assert(effects@ =~= old(effects)@ + tunnel_event_spec(old(self)@, ev, now@).1);
    }
}

/// The form that edits an entry.
pub open spec fn entry_form_spec(e: TunnelEntryView) -> FormStateView {
    match e {
        TunnelEntryView::Ssh(s) => ssh_entry_form_spec(s),
        TunnelEntryView::K8s(k) => k8s_entry_form_spec(k),
        TunnelEntryView::Sshuttle(u) => sshuttle_entry_form_spec(u),
    }
}

/// Deleting the selected entry: its tunnel is stopped first if active, its
/// state and session are dropped, and the selection stays on the list.
pub open spec fn delete_spec(a: AppView) -> (AppView, Seq<Effect>) {
    if a.selected >= a.entries.len() {
        (a, Seq::empty())
    } else {
        let id = a.entries[a.selected as int].id();
        let (b, e1) = if state_of_spec(a, id).active() {
            disconnect_spec(a, id)
        } else {
            (a, Seq::empty())
        };
        let n = (a.entries.len() - 1) as nat;
        let c = AppView {
            states: b.states.remove(id),
            sessions: b.sessions.remove(id),
            entries: b.entries.remove(a.selected as int),
            selected: if a.selected >= n && a.selected > 0 { (a.selected - 1) as usize } else { a.selected },
            status: Some("Entry deleted"@),
            ..b
        };
        (c, e1 + save_effect(a) + persist_effect(a))
    }
}

/// Enter on the selected entry: an active tunnel is disconnected; a
/// suspended one loses its suspended session and connects; any other
/// connects.
pub open spec fn toggle_spec(a: AppView) -> (AppView, Seq<Effect>) {
    if a.selected >= a.entries.len() {
        (a, Seq::empty())
    } else {
        let e = a.entries[a.selected as int];
        let id = e.id();
        let st = state_of_spec(a, id);
        if st.active() {
            let (b, eff) = disconnect_spec(a, id);
            (with_status(b, "Disconnecting: "@ + e.name()), eff)
        } else if st == ConnectionState::Suspended {
            let a1 = AppView { sessions: a.sessions.remove(id), ..a };
            let (b, eff) = connect_spec(a1, a.selected as int);
            (with_status(b, "Connecting: "@ + e.name()), persist_effect(a) + eff)
        } else {
            let (b, eff) = connect_spec(a, a.selected as int);
            (with_status(b, "Connecting: "@ + e.name()), eff)
        }
    }
}

/// A message in the list view.
pub open spec fn normal_step(a: AppView, m: Message, now: Seq<char>) -> (AppView, Seq<Effect>) {
    match m {
        Message::NavigateUp => (
            AppView { selected: if a.selected > 0 { (a.selected - 1) as usize } else { a.selected }, ..a },
            Seq::empty(),
        ),
        Message::NavigateDown => (
            AppView {
                selected: if a.entries.len() > 0 && a.selected + 1 < a.entries.len() {
                    (a.selected + 1) as usize
                } else {
                    a.selected
                },
                ..a
            },
            Seq::empty(),
        ),
        Message::NewEntry => (
            AppView { mode: AppModeView::TypeSelect(EntryTypeSelection { selected: 0 }), ..a },
            Seq::empty(),
        ),
        Message::EditEntry => if a.selected < a.entries.len() {
            (
                AppView { mode: AppModeView::Form(entry_form_spec(a.entries[a.selected as int])), ..a },
                Seq::empty(),
            )
        } else {
            (a, Seq::empty())
        },
        Message::DeleteEntry => delete_spec(a),
        Message::ToggleConnect => toggle_spec(a),
        Message::Quit => (AppView { running: false, ..a }, Seq::empty()),
        Message::TunnelEvent(ev) => tunnel_event_spec(a, ev, now),
        _ => (a, Seq::empty()),
    }
}

/// A message while choosing the type of a new entry.
pub open spec fn type_select_step(a: AppView, sel: EntryTypeSelection, m: Message, now: Seq<char>) -> (
    AppView,
    Seq<Effect>,
) {
    let with_sel = |k: usize| AppView { mode: AppModeView::TypeSelect(EntryTypeSelection { selected: k }), ..a };
    match m {
        Message::NavigateUp | Message::FormPrevField => (
            with_sel(if sel.selected > 0 { (sel.selected - 1) as usize } else { sel.selected }),
            Seq::empty(),
        ),
        Message::NavigateDown | Message::FormNextField => (
            with_sel(if sel.selected < 2 { (sel.selected + 1) as usize } else { sel.selected }),
            Seq::empty(),
        ),
        Message::FormCycleForwardType => (with_sel(((sel.selected + 1) % 3) as usize), Seq::empty()),
        Message::FormSubmit => (
            AppView {
                mode: AppModeView::Form(
                    if sel.selected == 0 {
                        new_ssh_form_spec()
                    } else if sel.selected == 1 {
                        new_k8s_form_spec()
                    } else {
                        new_sshuttle_form_spec()
                    },
                ),
                ..a
            },
            Seq::empty(),
        ),
        Message::FormCancel | Message::Quit => (AppView { mode: AppModeView::Normal, ..a }, Seq::empty()),
        Message::TunnelEvent(ev) => tunnel_event_spec(a, ev, now),
        _ => (a, Seq::empty()),
    }
}

/// An optional text: absent when empty.
pub open spec fn nonempty(v: Seq<char>) -> Option<Seq<char>> {
    if v.len() == 0 { None } else { Some(v) }
}

/// The application after a successful submit: the form closes and the
/// configuration is saved.
pub open spec fn close_form(a: AppView, b: AppView) -> (AppView, Seq<Effect>) {
    (AppView { mode: AppModeView::Normal, ..b }, save_effect(a))
}

/// Adding a new entry: it is appended, starts disconnected, is selected.
pub open spec fn add_entry(a: AppView, e: TunnelEntryView) -> AppView {
    AppView {
        entries: a.entries.push(e),
        states: a.states.insert(e.id(), ConnectionState::Disconnected),
        selected: a.entries.len() as usize,
        status: Some("Entry created"@),
        ..a
    }
}

/// Submitting the SSH form (fields trimmed; a port that does not parse is 22).
pub open spec fn submit_ssh_spec(a: AppView, f: FormStateView, new_id: EntryId) -> (AppView, Seq<Effect>) {
    let name = trim(f.fields[0].value);
    let host = trim(f.fields[1].value);
    let port: u16 = match parse_u16(trim(f.fields[2].value)) { Some(p) => p, None => 22 };
    let user = nonempty(trim(f.fields[3].value));
    let identity_file = nonempty(trim(f.fields[4].value));
    let auto_restart = eq_ignore_ascii_case(trim(f.fields[5].value), "yes"@);
    if name.len() == 0 || host.len() == 0 {
        (with_status(a, "Name and Host are required"@), Seq::empty())
    } else {
        let mk = |id: EntryId| TunnelEntryView::Ssh(ServerEntryView {
            id, name, host, port, user, identity_file, forwards: f.forwards, auto_restart,
        });
        match f.editing_id {
            Some(id) => {
                let entries = match entry_index(a.entries, id) {
                    Some(i) => match a.entries[i] {
                        TunnelEntryView::Ssh(e) => a.entries.update(i, mk(e.id)),
                        _ => a.entries,
                    },
                    None => a.entries,
                };
                close_form(a, AppView { entries, status: Some("Entry updated"@), ..a })
            },
            None => close_form(a, add_entry(a, mk(new_id))),
        }
    }
}

/// Submitting the Kubernetes form.
pub open spec fn submit_k8s_spec(a: AppView, f: FormStateView, new_id: EntryId) -> (AppView, Seq<Effect>) {
    let name = trim(f.fields[0].value);
    let context = nonempty(trim(f.fields[1].value));
    let namespace = nonempty(trim(f.fields[2].value));
    let resource_type = resource_type_from(trim(f.fields[3].value));
    let resource_name = trim(f.fields[4].value);
    let auto_restart = eq_ignore_ascii_case(trim(f.fields[5].value), "yes"@);
    if name.len() == 0 || resource_name.len() == 0 {
        (with_status(a, "Name and Resource Name are required"@), Seq::empty())
    } else {
        let mk = |id: EntryId, kubeconfig: Option<Seq<char>>| TunnelEntryView::K8s(K8sEntryView {
            id, name, kubeconfig, context, namespace, resource_type, resource_name,
            forwards: f.k8s_forwards, auto_restart,
        });
        match f.editing_id {
            Some(id) => {
                let entries = match entry_index(a.entries, id) {
                    Some(i) => match a.entries[i] {
                        TunnelEntryView::K8s(e) => a.entries.update(i, mk(e.id, e.kubeconfig)),
                        _ => a.entries,
                    },
                    None => a.entries,
                };
                close_form(a, AppView { entries, status: Some("Entry updated"@), ..a })
            },
            None => close_form(a, add_entry(a, mk(new_id, None))),
        }
    }
}

/// Submitting the sshuttle form (subnets split on commas and newlines).
pub open spec fn submit_sshuttle_spec(a: AppView, f: FormStateView, new_id: EntryId) -> (AppView, Seq<Effect>) {
    let name = trim(f.fields[0].value);
    let host = trim(f.fields[1].value);
    let subnets = clean_fields(split_fields(f.fields[2].value));
    let port_text = trim(f.fields[3].value);
    let port = if port_text.len() == 0 { None } else { parse_u16(port_text) };
    let user = nonempty(trim(f.fields[4].value));
    let identity_file = nonempty(trim(f.fields[5].value));
    let auto_restart = eq_ignore_ascii_case(trim(f.fields[6].value), "yes"@);
    if name.len() == 0 || host.len() == 0 {
        (with_status(a, "Name and Host are required"@), Seq::empty())
    } else if subnets.len() == 0 {
        (with_status(a, "At least one subnet is required"@), Seq::empty())
    } else {
        let mk = |id: EntryId| TunnelEntryView::Sshuttle(SshuttleEntryView {
            id, name, host, port, user, identity_file, subnets, auto_restart,
        });
        match f.editing_id {
            Some(id) => {
                let entries = match entry_index(a.entries, id) {
                    Some(i) => match a.entries[i] {
                        TunnelEntryView::Sshuttle(e) => a.entries.update(i, mk(e.id)),
                        _ => a.entries,
                    },
                    None => a.entries,
                };
                close_form(a, AppView { entries, status: Some("Entry updated"@), ..a })
            },
            None => close_form(a, add_entry(a, mk(new_id))),
        }
    }
}

/// Submitting the form's connection fields.
pub open spec fn submit_form_spec(a: AppView, f: FormStateView, new_id: EntryId) -> (AppView, Seq<Effect>) {
    match f.entry_type {
        FormEntryType::Ssh => submit_ssh_spec(a, f, new_id),
        FormEntryType::K8s => submit_k8s_spec(a, f, new_id),
        FormEntryType::Sshuttle => submit_sshuttle_spec(a, f, new_id),
    }
}

/// A message while the form is open.
pub open spec fn form_step(a: AppView, f: FormStateView, m: Message, new_id: EntryId, now: Seq<char>) -> (
    AppView,
    Seq<Effect>,
) {
    let with_form = |g: FormStateView| (AppView { mode: AppModeView::Form(g), ..a }, Seq::<Effect>::empty());
    match m {
        Message::FormNextField => with_form(next_field_spec(f)),
        Message::FormPrevField => with_form(prev_field_spec(f)),
        Message::FormInput(ch) => with_form(input_spec(f, ch)),
        Message::FormBackspace => with_form(backspace_spec(f)),
        Message::FormAddForward => with_form(add_forward_spec(f)),
        Message::FormDeleteForward => with_form(delete_forward_spec(f)),
        Message::FormCycleForwardType => with_form(cycle_forward_type_spec(f)),
        Message::FormSubmit => match f.focus {
            FormFocus::ForwardEdit { .. } => with_form(submit_forward_spec(f)),
            FormFocus::ForwardList => with_form(open_selected_forward_spec(f)),
            FormFocus::ServerFields => submit_form_spec(a, f, new_id),
        },
        Message::FormCancel => match f.focus {
            FormFocus::ForwardEdit { .. } => with_form(cancel_forward_spec(f)),
            _ => (AppView { mode: AppModeView::Normal, ..a }, Seq::empty()),
        },
        Message::TunnelEvent(ev) => tunnel_event_spec(a, ev, now),
        _ => (a, Seq::empty()),
    }
}

/// The whole update: the state after `m` and the effects to carry out,
/// given the identifier a new entry would get and the current timestamp.
pub open spec fn step(a: AppView, m: Message, new_id: EntryId, now: Seq<char>) -> (AppView, Seq<Effect>) {
    match a.mode {
        AppModeView::Normal => normal_step(a, m, now),
        AppModeView::TypeSelect(sel) => type_select_step(a, sel, m, now),
        AppModeView::Form(f) => form_step(a, f, m, new_id, now),
    }
}

/// The number of pairs whose state is `st`.
pub open spec fn count_state(s: Seq<(EntryId, ConnectionState)>, st: ConnectionState) -> nat
    decreases s.len(),
{
    if s.len() == 0 {
        0
    } else {
        count_state(s.drop_last(), st) + if s.last().1 == st { 1nat } else { 0nat }
    }
}


impl App {
    /// The text of `s` followed by the name of `e`.
    fn with_name(prefix: &str, e: &TunnelEntry) -> (r: String)
        ensures
            r@ == prefix@ + e@.name(),
    {
        let mut msg = lit(prefix);
        msg.append(e.name());
        msg
    }

    /// Deletes the selected entry (see [`delete_spec`]).
    fn delete_selected(&mut self, effects: &mut Vec<Effect>)
        requires
            old(self).connection_states.wf(),
            old(self).sessions.wf(),
        ensures
            final(self).connection_states.wf(),
            final(self).sessions.wf(),
            final(self)@ == delete_spec(old(self)@).0,
            final(effects)@ == old(effects)@ + delete_spec(old(self)@).1,
    {
        if self.selected >= self.entries.len() {
            assert(effects@ =~= old(effects)@ + Seq::<Effect>::empty());
            return;
        }
        let sel = self.selected;
        assert(self@.entries[sel as int] == self.entries@[sel as int]@);
        let id = self.entries[sel].id();
        let st = self.state_of(id);
        let ghost e0 = effects@;
        if st.is_active() {
            self.disconnect(id, effects);
        }
        let ghost e1 = effects@;
        let ghost b = self@;
        let _ = self.connection_states.remove(id);
        self.sessions_remove(id);
        let ghost before = self.entries@;
        assert(self.entries@.len() == self@.entries.len());
        let _ = self.entries.remove(sel);
        assert(entries_view(self.entries@) =~= entries_view(before).remove(sel as int));
        let n = self.entries.len();
        if self.selected >= n && self.selected > 0 {
            self.selected = self.selected - 1;
        }
        self.save(effects);
        self.persist(effects);
        self.set_status(lit("Entry deleted"));
        assert(effects@ =~= old(effects)@ + delete_spec(old(self)@).1);
    }

    /// Enter on the selected entry (see [`toggle_spec`]).
    fn toggle_selected(&mut self, effects: &mut Vec<Effect>)
        requires
            old(self).connection_states.wf(),
            old(self).sessions.wf(),
        ensures
            final(self).connection_states.wf(),
            final(self).sessions.wf(),
            final(self)@ == toggle_spec(old(self)@).0,
            final(effects)@ == old(effects)@ + toggle_spec(old(self)@).1,
    {
        if self.selected >= self.entries.len() {
            assert(effects@ =~= old(effects)@ + Seq::<Effect>::empty());
            return;
        }
        let sel = self.selected;
        assert(self@.entries[sel as int] == self.entries@[sel as int]@);
        let id = self.entries[sel].id();
        let st = self.state_of(id);
        if st.is_active() {
            let msg = Self::with_name("Disconnecting: ", &self.entries[sel]);
            self.disconnect(id, effects);
            self.set_status(msg);
        } else if st == ConnectionState::Suspended {
            let msg = Self::with_name("Connecting: ", &self.entries[sel]);
            self.sessions_remove(id);
            self.persist(effects);
            let ghost mid = effects@;
            self.connect(sel, effects);
            self.set_status(msg);
            assert(effects@ =~= old(effects)@ + toggle_spec(old(self)@).1);
        } else {
            let msg = Self::with_name("Connecting: ", &self.entries[sel]);
            self.connect(sel, effects);
            self.set_status(msg);
        }
    }

    /// A message in the list view (see [`normal_step`]).
    fn update_normal(&mut self, msg: Message, now: String, effects: &mut Vec<Effect>)
        requires
            old(self).connection_states.wf(),
            old(self).sessions.wf(),
        ensures
            final(self).connection_states.wf(),
            final(self).sessions.wf(),
            final(self)@ == normal_step(old(self)@, msg, now@).0,
            final(effects)@ == old(effects)@ + normal_step(old(self)@, msg, now@).1,
    {
        let ghost m = msg;
        match msg {
            Message::NavigateUp => {
                if self.selected > 0 {
                    self.selected = self.selected - 1;
                }
            },
            Message::NavigateDown => {
                if self.entries.len() > 0 && self.selected < self.entries.len() - 1 {
                    self.selected = self.selected + 1;
                }
            },
            Message::NewEntry => {
                self.mode = AppMode::TypeSelect(EntryTypeSelection { selected: 0 });
            },
            Message::EditEntry => {
                if self.selected < self.entries.len() {
                    let sel = self.selected;
                    assert(self@.entries[sel as int] == self.entries@[sel as int]@);
                    let f = match &self.entries[sel] {
                        TunnelEntry::Ssh(e) => ssh_entry_to_form(e),
                        TunnelEntry::K8s(e) => k8s_entry_to_form(e),
                        TunnelEntry::Sshuttle(e) => sshuttle_entry_to_form(e),
                    };
                    self.mode = AppMode::Form(f);
                }
            },
            Message::DeleteEntry => {
                self.delete_selected(effects);
            },
            Message::ToggleConnect => {
                self.toggle_selected(effects);
            },
            Message::Quit => {
                self.running = false;
            },
            Message::TunnelEvent(ev) => {
                self.handle_tunnel_event(ev, now, effects);
            },
            _ => {},
        }
        assert(effects@ =~= old(effects)@ + normal_step(old(self)@, m, now@).1);
    }

    /// A message while choosing the type of a new entry (see [`type_select_step`]).
    fn update_type_select(
        &mut self,
        sel: EntryTypeSelection,
        msg: Message,
        now: String,
        effects: &mut Vec<Effect>,
    )
        requires
            old(self).connection_states.wf(),
            old(self).sessions.wf(),
        ensures
            final(self).connection_states.wf(),
            final(self).sessions.wf(),
            final(self)@ == type_select_step(old(self)@, sel, msg, now@).0,
            final(effects)@ == old(effects)@ + type_select_step(old(self)@, sel, msg, now@).1,
    {
        let ghost m = msg;
        let k = sel.selected;
        match msg {
            Message::NavigateUp | Message::FormPrevField => {
                let j = if k > 0 { k - 1 } else { k };
                self.mode = AppMode::TypeSelect(EntryTypeSelection { selected: j });
            },
            Message::NavigateDown | Message::FormNextField => {
                let j = if k < 2 { k + 1 } else { k };
                self.mode = AppMode::TypeSelect(EntryTypeSelection { selected: j });
            },
            Message::FormCycleForwardType => {
                let j = if k < 2 { k + 1 } else { (k % 3 + 1) % 3 };
                assert(j == (k + 1) % 3);
                self.mode = AppMode::TypeSelect(EntryTypeSelection { selected: j });
            },
            Message::FormSubmit => {
                let f = if k == 0 {
                    new_ssh_form()
                } else if k == 1 {
                    new_k8s_form()
                } else {
                    new_sshuttle_form()
                };
                self.mode = AppMode::Form(f);
            },
            Message::FormCancel | Message::Quit => {
                self.mode = AppMode::Normal;
            },
            Message::TunnelEvent(ev) => {
                self.handle_tunnel_event(ev, now, effects);
            },
            _ => {},
        }
        assert(effects@ =~= old(effects)@ + type_select_step(old(self)@, sel, m, now@).1);
    }
}


/// The text of `t`, or nothing when it is empty.
fn nonempty_text(t: &Vec<char>) -> (r: Option<String>)
    ensures
        crate::model::opt_view(r) == nonempty(t@),
{
    if t.len() == 0 { None } else { Some(string_of(t.as_slice())) }
}

/// Whether the trimmed text is `yes`, in any case.
fn is_yes(t: &Vec<char>) -> (r: bool)
    ensures
        r == eq_ignore_ascii_case(t@, "yes"@),
{
    let y = chars_of("yes");
    equals_ignore_ascii_case(t.as_slice(), y.as_slice())
}

impl App {
    /// Appends `e` as a new entry that starts disconnected and is selected.
    fn push_entry(&mut self, e: TunnelEntry)
        requires
            old(self).connection_states.wf(),
        ensures
            final(self).connection_states.wf(),
            final(self).sessions == old(self).sessions,
            final(self)@ == add_entry(old(self)@, e@),
    {
        let id = e.id();
        let ghost before = self.entries@;
        let ghost ev = e@;
        self.entries.push(e);
        assert(entries_view(self.entries@) =~= entries_view(before).push(ev));
        self.set_state(id, ConnectionState::Disconnected);
        self.selected = self.entries.len() - 1;
        self.set_status(lit("Entry created"));
    }

    /// Replaces the entry at `i`.
    fn replace_entry(&mut self, i: usize, e: TunnelEntry)
        requires
            i < old(self).entries@.len(),
        ensures
            final(self).connection_states == old(self).connection_states,
            final(self).sessions == old(self).sessions,
            final(self)@ == (AppView {
                entries: old(self)@.entries.update(i as int, e@),
                status: Some("Entry updated"@),
                ..old(self)@
            }),
    {
        let ghost before = self.entries@;
        let ghost ev = e@;
        self.entries.set(i, e);
        assert(entries_view(self.entries@) =~= entries_view(before).update(i as int, ev));
        self.set_status(lit("Entry updated"));
    }

    /// Submitting the SSH form (see [`submit_ssh_spec`]).
    fn submit_ssh(&mut self, form: FormState, new_id: EntryId, effects: &mut Vec<Effect>)
        requires
            old(self).connection_states.wf(),
            old(self).sessions.wf(),
            form@.wf(),
            form@.entry_type == FormEntryType::Ssh,
        ensures
            final(self).connection_states.wf(),
            final(self).sessions.wf(),
            final(self)@ == submit_ssh_spec(
                AppView { mode: AppModeView::Form(form@), ..old(self)@ },
                form@,
                new_id,
            ).0,
            final(effects)@ == old(effects)@ + submit_ssh_spec(
                AppView { mode: AppModeView::Form(form@), ..old(self)@ },
                form@,
                new_id,
            ).1,
    {
        let ghost f = form@;
        let ghost a = AppView { mode: AppModeView::Form(form@), ..old(self)@ };
        let name = trimmed_field(&form.fields, 0);
        let host = trimmed_field(&form.fields, 1);
        let port_text = trimmed_field(&form.fields, 2);
        let port: u16 = match parse_u16_chars(port_text.as_slice()) {
            Some(p) => p,
            None => 22,
        };
        let user = nonempty_text(&trimmed_field(&form.fields, 3));
        let identity_file = nonempty_text(&trimmed_field(&form.fields, 4));
        let auto_restart = is_yes(&trimmed_field(&form.fields, 5));
        if name.len() == 0 || host.len() == 0 {
            self.mode = AppMode::Form(form);
            self.set_status(lit("Name and Host are required"));
            assert(effects@ =~= old(effects)@ + Seq::<Effect>::empty());
            return;
        }
        let name = string_of(name.as_slice());
        let host = string_of(host.as_slice());
        let editing = form.editing_id;
        let forwards = form.forwards;
        match editing {
            Some(id) => {
                match self.find_index(id) {
                    Some(i) => {
                        assert(self@.entries[i as int] == self.entries@[i as int]@);
                        let is_ssh = match &self.entries[i] {
                            TunnelEntry::Ssh(_) => true,
                            _ => false,
                        };
                        if is_ssh {
                            let e = TunnelEntry::Ssh(ServerEntry {
                                id,
                                name,
                                host,
                                port,
                                user,
                                identity_file,
                                forwards,
                                auto_restart,
                            });
                            self.replace_entry(i, e);
                        } else {
                            self.set_status(lit("Entry updated"));
                        }
                    },
                    None => {
                        self.set_status(lit("Entry updated"));
                    },
                }
            },
            None => {
                let e = TunnelEntry::Ssh(ServerEntry {
                    id: new_id,
                    name,
                    host,
                    port,
                    user,
                    identity_file,
                    forwards,
                    auto_restart,
                });
                self.push_entry(e);
            },
        }
        self.save(effects);
        self.mode = AppMode::Normal;
    }
}


impl App {
    /// Submitting the Kubernetes form (see [`submit_k8s_spec`]).
    fn submit_k8s(&mut self, form: FormState, new_id: EntryId, effects: &mut Vec<Effect>)
        requires
            old(self).connection_states.wf(),
            old(self).sessions.wf(),
            form@.wf(),
            form@.entry_type == FormEntryType::K8s,
        ensures
            final(self).connection_states.wf(),
            final(self).sessions.wf(),
            final(self)@ == submit_k8s_spec(
                AppView { mode: AppModeView::Form(form@), ..old(self)@ },
                form@,
                new_id,
            ).0,
            final(effects)@ == old(effects)@ + submit_k8s_spec(
                AppView { mode: AppModeView::Form(form@), ..old(self)@ },
                form@,
                new_id,
            ).1,
    {
        let name = trimmed_field(&form.fields, 0);
        let context = nonempty_text(&trimmed_field(&form.fields, 1));
        let namespace = nonempty_text(&trimmed_field(&form.fields, 2));
        let resource_type = resource_type_of(&trimmed_field(&form.fields, 3));
        let resource_name = trimmed_field(&form.fields, 4);
        let auto_restart = is_yes(&trimmed_field(&form.fields, 5));
        if name.len() == 0 || resource_name.len() == 0 {
            self.mode = AppMode::Form(form);
            self.set_status(lit("Name and Resource Name are required"));
            assert(effects@ =~= old(effects)@ + Seq::<Effect>::empty());
            return;
        }
        let name = string_of(name.as_slice());
        let resource_name = string_of(resource_name.as_slice());
        let editing = form.editing_id;
        let forwards = form.k8s_forwards;
        match editing {
            Some(id) => {
                match self.find_index(id) {
                    Some(i) => {
                        assert(self@.entries[i as int] == self.entries@[i as int]@);
                        let kubeconfig = match &self.entries[i] {
                            TunnelEntry::K8s(k) => Some(crate::model::copy_opt(&k.kubeconfig)),
                            _ => None,
                        };
                        match kubeconfig {
                            Some(kubeconfig) => {
                                let e = TunnelEntry::K8s(K8sEntry {
                                    id,
                                    name,
                                    kubeconfig,
                                    context,
                                    namespace,
                                    resource_type,
                                    resource_name,
                                    forwards,
                                    auto_restart,
                                });
                                self.replace_entry(i, e);
                            },
                            None => {
                                self.set_status(lit("Entry updated"));
                            },
                        }
                    },
                    None => {
                        self.set_status(lit("Entry updated"));
                    },
                }
            },
            None => {
                let e = TunnelEntry::K8s(K8sEntry {
                    id: new_id,
                    name,
                    kubeconfig: None,
                    context,
                    namespace,
                    resource_type,
                    resource_name,
                    forwards,
                    auto_restart,
                });
                self.push_entry(e);
            },
        }
        self.save(effects);
        self.mode = AppMode::Normal;
    }

    /// Submitting the sshuttle form (see [`submit_sshuttle_spec`]).
    fn submit_sshuttle(&mut self, form: FormState, new_id: EntryId, effects: &mut Vec<Effect>)
        requires
            old(self).connection_states.wf(),
            old(self).sessions.wf(),
            form@.wf(),
            form@.entry_type == FormEntryType::Sshuttle,
        ensures
            final(self).connection_states.wf(),
            final(self).sessions.wf(),
            final(self)@ == submit_sshuttle_spec(
                AppView { mode: AppModeView::Form(form@), ..old(self)@ },
                form@,
                new_id,
            ).0,
            final(effects)@ == old(effects)@ + submit_sshuttle_spec(
                AppView { mode: AppModeView::Form(form@), ..old(self)@ },
                form@,
                new_id,
            ).1,
    {
        let name = trimmed_field(&form.fields, 0);
        let host = trimmed_field(&form.fields, 1);
        assert(crate::form::fields_view(form.fields@)[2] == form.fields@[2]@);
        let subnet_chars = chars_of(form.fields[2].value.as_str());
        let subnets = split_list(subnet_chars.as_slice());
        let port_text = trimmed_field(&form.fields, 3);
        let port = if port_text.len() == 0 {
            None
        } else {
            parse_u16_chars(port_text.as_slice())
        };
        let user = nonempty_text(&trimmed_field(&form.fields, 4));
        let identity_file = nonempty_text(&trimmed_field(&form.fields, 5));
        let auto_restart = is_yes(&trimmed_field(&form.fields, 6));
        if name.len() == 0 || host.len() == 0 {
            self.mode = AppMode::Form(form);
            self.set_status(lit("Name and Host are required"));
            assert(effects@ =~= old(effects)@ + Seq::<Effect>::empty());
            return;
        }
        if subnets.len() == 0 {
            self.mode = AppMode::Form(form);
            self.set_status(lit("At least one subnet is required"));
            assert(effects@ =~= old(effects)@ + Seq::<Effect>::empty());
            return;
        }
        let name = string_of(name.as_slice());
        let host = string_of(host.as_slice());
        match form.editing_id {
            Some(id) => {
                match self.find_index(id) {
                    Some(i) => {
                        assert(self@.entries[i as int] == self.entries@[i as int]@);
                        let is_sshuttle = match &self.entries[i] {
                            TunnelEntry::Sshuttle(_) => true,
                            _ => false,
                        };
                        if is_sshuttle {
                            let e = TunnelEntry::Sshuttle(SshuttleEntry {
                                id,
                                name,
                                host,
                                port,
                                user,
                                identity_file,
                                subnets,
                                auto_restart,
                            });
                            self.replace_entry(i, e);
                        } else {
                            self.set_status(lit("Entry updated"));
                        }
                    },
                    None => {
                        self.set_status(lit("Entry updated"));
                    },
                }
            },
            None => {
                let e = TunnelEntry::Sshuttle(SshuttleEntry {
                    id: new_id,
                    name,
                    host,
                    port,
                    user,
                    identity_file,
                    subnets,
                    auto_restart,
                });
                self.push_entry(e);
            },
        }
        self.save(effects);
        self.mode = AppMode::Normal;
    }
}


/// The timestamp recorded when a tunnel connects: whole seconds since the
/// Unix epoch followed by `s-since-epoch`, or `unknown`.
pub fn timestamp(secs: Option<u64>) -> (r: String)
    ensures
        r@ == timestamp_text(secs),
{
    match secs {
        Some(n) => {
            let mut r = String::new();
            crate::text::push_decimal(&mut r, n);
            r.append("s-since-epoch");
            r
        },
        None => lit("unknown"),
    }
}

impl App {
    /// A message while the form is open (see [`form_step`]).
    fn update_form(&mut self, form: FormState, msg: Message, new_id: EntryId, now: String, effects: &mut Vec<Effect>)
        requires
            old(self).connection_states.wf(),
            old(self).sessions.wf(),
            form@.wf(),
        ensures
            final(self).connection_states.wf(),
            final(self).sessions.wf(),
            final(self)@ == form_step(
                AppView { mode: AppModeView::Form(form@), ..old(self)@ },
                form@,
                msg,
                new_id,
                now@,
            ).0,
            final(effects)@ == old(effects)@ + form_step(
                AppView { mode: AppModeView::Form(form@), ..old(self)@ },
                form@,
                msg,
                new_id,
                now@,
            ).1,
    {
        let ghost m = msg;
        let ghost f = form@;
        let ghost a = AppView { mode: AppModeView::Form(form@), ..old(self)@ };
        match msg {
            Message::FormNextField => {
                self.mode = AppMode::Form(form.next_field());
            },
            Message::FormPrevField => {
                self.mode = AppMode::Form(form.prev_field());
            },
            Message::FormInput(ch) => {
                self.mode = AppMode::Form(form.input(ch));
            },
            Message::FormBackspace => {
                self.mode = AppMode::Form(form.backspace());
            },
            Message::FormAddForward => {
                self.mode = AppMode::Form(form.add_forward());
            },
            Message::FormDeleteForward => {
                self.mode = AppMode::Form(form.delete_forward());
            },
            Message::FormCycleForwardType => {
                self.mode = AppMode::Form(form.cycle_forward_type());
            },
            Message::FormSubmit => match form.focus {
                FormFocus::ForwardEdit { .. } => {
                    self.mode = AppMode::Form(form.submit_forward());
                },
                FormFocus::ForwardList => {
                    self.mode = AppMode::Form(form.open_selected_forward());
                },
                FormFocus::ServerFields => match form.entry_type {
                    FormEntryType::Ssh => self.submit_ssh(form, new_id, effects),
                    FormEntryType::K8s => self.submit_k8s(form, new_id, effects),
                    FormEntryType::Sshuttle => self.submit_sshuttle(form, new_id, effects),
                },
            },
            Message::FormCancel => match form.focus {
                FormFocus::ForwardEdit { .. } => {
                    self.mode = AppMode::Form(form.cancel_forward());
                },
                _ => {
                    self.mode = AppMode::Normal;
                },
            },
            Message::TunnelEvent(ev) => {
                self.mode = AppMode::Form(form);
                self.handle_tunnel_event(ev, now, effects);
            },
            _ => {
                self.mode = AppMode::Form(form);
            },
        }
        assert(effects@ =~= old(effects)@ + form_step(a, f, m, new_id, now@).1);
    }

    /// Processes a message, given the identifier that a new entry gets and
    /// the timestamp of this moment, and returns the effects to carry out
    /// (see [`step`]).
    pub fn update_with(&mut self, msg: Message, new_id: EntryId, now: String) -> (effects: Vec<Effect>)
        requires
            old(self).inv(),
        ensures
            final(self).inv(),
            final(self)@ == step(old(self)@, msg, new_id, now@).0,
            effects@ == step(old(self)@, msg, new_id, now@).1,
    {
        let ghost a = self@;
        let ghost m = msg;
        proof {
            law_step_preserves_wf(a, m, new_id, now@);
        }
        let mut effects: Vec<Effect> = Vec::new();
        let mut mode = AppMode::Normal;
        std::mem::swap(&mut mode, &mut self.mode);
        match mode {
            AppMode::Normal => {
                self.update_normal(msg, now, &mut effects);
            },
            AppMode::TypeSelect(sel) => {
                self.mode = AppMode::TypeSelect(sel);
                self.update_type_select(sel, msg, now, &mut effects);
            },
            AppMode::Form(form) => {
                self.update_form(form, msg, new_id, now, &mut effects);
            },
        }
        assert(effects@ =~= step(a, m, new_id, now@).1);
        effects
    }

    /// Processes a message and returns the effects to carry out. A new
    /// entry gets a fresh random identifier and a connection is stamped
    /// with the current time; whatever those are, the result is the step
    /// of [`step`] on them.
    pub fn update(&mut self, msg: Message) -> (effects: Vec<Effect>)
        requires
            old(self).inv(),
        ensures
            final(self).inv(),
            exists|id: EntryId, secs: Option<u64>|
                (id >> 76u128) & 0xfu128 == 4 && (id >> 62u128) & 0x3u128 == 2
                && #[trigger] step(old(self)@, msg, id, timestamp_text(secs)) == (final(self)@, effects@),
    {
        let id = new_entry_id();
        let secs = match since_epoch(&system_now()) {
            Some(d) => Some(whole_secs(&d)),
            None => None,
        };
        let now = timestamp(secs);
        let ghost m = msg;
        let effects = self.update_with(msg, id, now);
        assert(step(old(self)@, m, id, timestamp_text(secs)) == (self@, effects@));
        effects
    }
}

/// Law: every update keeps the application well-formed: the selection
/// stays on the list (or at 0 when it is empty), a type choice stays among
/// the three, and an open form stays well-formed.
pub proof fn law_step_preserves_wf(a: AppView, m: Message, new_id: EntryId, now: Seq<char>)
    requires
        a.wf(),
    ensures
        step(a, m, new_id, now).0.wf(),
{
    match a.mode {
        AppModeView::Form(f) => {
            let ch = match m { Message::FormInput(c) => c, _ => ' ' };
            crate::form::law_form_steps_preserve_wf(f, ch);
            match m {
                Message::FormSubmit => {
                    if f.focus == FormFocus::ServerFields {
                        lemma_submit_wf(a, f, new_id);
                    }
                },
                _ => {},
            }
        },
        _ => {},
    }
}

proof fn lemma_submit_wf(a: AppView, f: FormStateView, new_id: EntryId)
    requires
        a.wf(),
        a.mode == AppModeView::Form(f),
    ensures
        submit_form_spec(a, f, new_id).0.wf(),
{
    match f.editing_id {
        Some(id) => {
            lemma_entry_index(a.entries, id);
        },
        None => {},
    }
    assert(submit_ssh_spec(a, f, new_id).0.wf());
    assert(submit_k8s_spec(a, f, new_id).0.wf());
    assert(submit_sshuttle_spec(a, f, new_id).0.wf());
}


/// The recorded process of a session, if it is one that startup adopts.
pub open spec fn adopted_pid(rec: SessionRecordView) -> Option<u32> {
    if rec.suspended { None } else { rec.pid }
}

/// Looking at the session of `id` on startup, given the identifiers whose
/// recorded process is still the live tunnel. The state carries the
/// application, the effects so far and the positions of the entries to
/// connect once every session has been looked at.
///
/// A session of an unknown entry is dropped; a suspended one makes its
/// entry suspended; a live one makes its entry connected and its process
/// is adopted (a workload without bindings has nothing to adopt); any other
/// is dropped, and its entry is queued for connecting when it restarts on
/// its own, or else becomes disconnected.
pub open spec fn reconcile_one(
    st: (AppView, Seq<Effect>, Seq<int>),
    id: EntryId,
    live: Seq<EntryId>,
) -> (AppView, Seq<Effect>, Seq<int>) {
    let (a, eff, ac) = st;
    match entry_index(a.entries, id) {
        None => (AppView { sessions: a.sessions.remove(id), ..a }, eff, ac),
        Some(i) => if !a.sessions.contains_key(id) {
            st
        } else {
            let rec = a.sessions[id];
            let e = a.entries[i];
            if rec.suspended {
                (AppView { states: a.states.insert(id, ConnectionState::Suspended), ..a }, eff, ac)
            } else {
                match rec.pid {
                    Some(pid) if live.contains(id) => {
                        let b = AppView { states: a.states.insert(id, ConnectionState::Connected), ..a };
                        let adopt = match e {
                            TunnelEntryView::K8s(k) => k.forwards.len() > 0,
                            _ => true,
                        };
                        (b, if adopt { eff.push(Effect::Adopt { id, pid }) } else { eff }, ac)
                    },
                    _ => if e.auto_restart() {
                        (AppView { sessions: a.sessions.remove(id), ..a }, eff, ac.push(i))
                    } else {
                        (
                            AppView {
                                states: a.states.insert(id, ConnectionState::Disconnected),
                                sessions: a.sessions.remove(id),
                                ..a
                            },
                            eff,
                            ac,
                        )
                    },
                }
            }
        },
    }
}

/// Looking at the sessions of `ids`, in order.
pub open spec fn reconcile_fold(a: AppView, ids: Seq<EntryId>, live: Seq<EntryId>) -> (
    AppView,
    Seq<Effect>,
    Seq<int>,
)
    decreases ids.len(),
{
    if ids.len() == 0 {
        (a, Seq::empty(), Seq::empty())
    } else {
        reconcile_one(reconcile_fold(a, ids.drop_last(), live), ids.last(), live)
    }
}

/// Connecting the entries at the given positions, in order.
pub open spec fn connect_all(a: AppView, idxs: Seq<int>) -> (AppView, Seq<Effect>)
    decreases idxs.len(),
{
    if idxs.len() == 0 {
        (a, Seq::empty())
    } else {
        let (b, e1) = connect_all(a, idxs.drop_last());
        let (c, e2) = connect_spec(b, idxs.last());
        (c, e1 + e2)
    }
}

/// Startup reconciliation: every session is looked at in order, the
/// queued entries are connected, and the sessions are written.
pub open spec fn reconcile_spec(a: AppView, ids: Seq<EntryId>, live: Seq<EntryId>) -> (AppView, Seq<Effect>) {
    let (b, e1, ac) = reconcile_fold(a, ids, live);
    let (c, e2) = connect_all(b, ac);
    (c, e1 + e2 + persist_effect(a))
}

/// The identifiers that have a session, in the order they were recorded.
pub open spec fn session_ids(m: &SessionState) -> Seq<EntryId> {
    m.entries().map_values(|p: (EntryId, SessionRecord)| p.0)
}

/// The positions of `v` as integers.
pub open spec fn positions(v: Seq<usize>) -> Seq<int> {
    v.map_values(|x: usize| x as int)
}

/// Whether `id` occurs in `v`.
fn contains_id(v: &Vec<EntryId>, id: EntryId) -> (r: bool)
    ensures
        r == v@.contains(id),
{
    let mut i: usize = 0;
    while i < v.len()
        invariant
            i <= v@.len(),
            forall|j: int| 0 <= j < i ==> v@[j] != id,
        decreases v@.len() - i,
    {
        if v[i] == id {
            assert(v@[i as int] == id);
            return true;
        }
        i = i + 1;
    }
    false
}

impl App {
    fn reconcile_one(&mut self, id: EntryId, live: &Vec<EntryId>, effects: &mut Vec<Effect>, auto: &mut Vec<usize>)
        requires
            old(self).connection_states.wf(),
            old(self).sessions.wf(),
        ensures
            final(self).connection_states.wf(),
            final(self).sessions.wf(),
            (final(self)@, final(effects)@, positions(final(auto)@)) == reconcile_one(
                (old(self)@, old(effects)@, positions(old(auto)@)),
                id,
                live@,
            ),
            final(self)@.entries == old(self)@.entries,
            final(self)@.selected == old(self)@.selected,
            final(self)@.mode == old(self)@.mode,
            final(self)@.demo_mode == old(self)@.demo_mode,
    {
        let ghost st = (self@, effects@, positions(auto@));
        match self.find_index(id) {
            None => {
                self.sessions_remove(id);
            },
            Some(i) => {
                assert(self@.entries[i as int] == self.entries@[i as int]@);
                let info = match self.sessions.get(id) {
                    Some(r) => Some((r.suspended, r.pid)),
                    None => None,
                };
                match info {
                    None => {},
                    Some((suspended, pid)) => {
                        if suspended {
                            self.set_state(id, ConnectionState::Suspended);
                        } else {
                            let alive = match pid {
                                Some(_) => contains_id(live, id),
                                None => false,
                            };
                            if alive {
                                self.set_state(id, ConnectionState::Connected);
                                let adopt = match &self.entries[i] {
                                    TunnelEntry::K8s(k) => k.forwards.len() > 0,
                                    _ => true,
                                };
                                if adopt {
                                    match pid {
                                        Some(p) => emit(effects, Effect::Adopt { id, pid: p }),
                                        None => {},
                                    }
                                }
                            } else if self.entries[i].auto_restart() {
                                self.sessions_remove(id);
                                auto.push(i);
                                assert(positions(auto@) =~= positions(old(auto)@).push(i as int));
                            } else {
                                self.set_state(id, ConnectionState::Disconnected);
                                self.sessions_remove(id);
                            }
                        }
                    },
                }
            },
        }
    }

    /// The processes to check before reconciling: for every session, in
    /// order, of a known entry that is not suspended and has a recorded
    /// process, its identifier, the process and the expected tunnel binary.
    pub fn liveness_checks(&self) -> (r: Vec<(EntryId, u32, crate::pid::TunnelProcessType)>)
        requires
            self.sessions.wf(),
        ensures
            r@ == liveness_checks_spec(self@.entries, session_records(&self.sessions)),
    {
        let n = self.sessions.len();
        let mut r: Vec<(EntryId, u32, crate::pid::TunnelProcessType)> = Vec::new();
        let mut k: usize = 0;
        while k < n
            invariant
                n == self.sessions.entries().len(),
                k <= n,
                r@ == liveness_checks_spec(self@.entries, session_records(&self.sessions).take(k as int)),
            decreases n - k,
        {
            let (id, rec) = self.sessions.entry_at(k);
            assert(session_records(&self.sessions).take(k + 1).drop_last()
                =~= session_records(&self.sessions).take(k as int));
            assert(session_records(&self.sessions)[k as int] == (id, rec@));
            if !rec.suspended {
                match rec.pid {
                    Some(pid) => match self.find_index(id) {
                        Some(i) => {
                            assert(self@.entries[i as int] == self.entries@[i as int]@);
                            let t = crate::command::process_type_of(&self.entries[i]);
                            r.push((id, pid, t));
                        },
                        None => {},
                    },
                    None => {},
                }
            }
            k = k + 1;
        }
        assert(session_records(&self.sessions).take(n as int) =~= session_records(&self.sessions));
        r
    }

    /// Reconciles the session records found on startup with the entries,
    /// given the identifiers whose recorded process is still the live
    /// tunnel (see [`reconcile_spec`]).
    pub fn reconcile_sessions(&mut self, live: &Vec<EntryId>) -> (effects: Vec<Effect>)
        requires
            old(self).inv(),
        ensures
            final(self).inv(),
            final(self)@ == reconcile_spec(old(self)@, session_ids(&old(self).sessions), live@).0,
            effects@ == reconcile_spec(old(self)@, session_ids(&old(self).sessions), live@).1,
            session_ids(&old(self).sessions).no_duplicates(),
            forall|k: EntryId| old(self)@.sessions.contains_key(k) <==> session_ids(&old(self).sessions).contains(k),
    {
        proof {
            self.sessions.lemma_entries();
            let ids = session_ids(&self.sessions);
            let es = self.sessions.entries();
            assert forall|i: int, j: int| 0 <= i < ids.len() && 0 <= j < ids.len() && i != j implies ids[i] != ids[j] by {
                assert(ids[i] == es[i].0 && ids[j] == es[j].0);
            }
            assert forall|k: EntryId| self@.sessions.contains_key(k) <==> ids.contains(k) by {
                if self@.sessions.contains_key(k) {
                    assert(self.sessions@.contains_key(k));
                    let i = choose|i: int| 0 <= i < es.len() && es[i].0 == k;
                    assert(ids[i] == k);
                }
                if ids.contains(k) {
                    let i = choose|i: int| 0 <= i < ids.len() && ids[i] == k;
                    assert(es[i].0 == k);
                    assert(self.sessions@.contains_key(es[i].0));
                }
            }
        }
        let ghost a = self@;
        let ids = self.sessions.ids();
        let mut effects: Vec<Effect> = Vec::new();
        let mut auto: Vec<usize> = Vec::new();
        let mut k: usize = 0;
        while k < ids.len()
            invariant
                k <= ids@.len(),
                self.connection_states.wf(),
                self.sessions.wf(),
                (self@, effects@, positions(auto@)) == reconcile_fold(a, ids@.take(k as int), live@),
                self@.entries == a.entries,
                self@.selected == a.selected,
                self@.mode == a.mode,
                self@.demo_mode == a.demo_mode,
            decreases ids@.len() - k,
        {
            let id = ids[k];
            assert(ids@.take(k + 1).drop_last() =~= ids@.take(k as int));
            self.reconcile_one(id, live, &mut effects, &mut auto);
            k = k + 1;
        }
        assert(ids@.take(ids@.len() as int) =~= ids@);
        let ghost b = self@;
        let ghost e1 = effects@;
        let ghost ac = positions(auto@);
        let mut j: usize = 0;
        while j < auto.len()
            invariant
                j <= auto@.len(),
                ac == positions(auto@),
                self.connection_states.wf(),
                self.sessions.wf(),
                (self@, effects@) == (connect_all(b, ac.take(j as int)).0, e1 + connect_all(b, ac.take(j as int)).1),
                self@.entries == a.entries,
                self@.selected == a.selected,
                self@.mode == a.mode,
                self@.demo_mode == a.demo_mode,
            decreases auto@.len() - j,
        {
            assert(ac.take(j + 1).drop_last() =~= ac.take(j as int));
            assert(ac.take(j + 1).last() == auto@[j as int] as int);
            let ghost before = effects@;
            self.connect(auto[j], &mut effects);
            assert(effects@ =~= e1 + connect_all(b, ac.take(j + 1)).1);
            j = j + 1;
        }
        assert(ac.take(ac.len() as int) =~= ac);
        self.persist(&mut effects);
        assert(effects@ =~= reconcile_spec(a, ids@, live@).1);
        effects
    }
}

/// The session records as identifiers and values, in order.
pub open spec fn session_records(m: &SessionState) -> Seq<(EntryId, SessionRecordView)> {
    m.entries().map_values(|p: (EntryId, SessionRecord)| (p.0, p.1@))
}

/// The checks of [`App::liveness_checks`] over the given records.
pub open spec fn liveness_checks_spec(
    entries: Seq<TunnelEntryView>,
    recs: Seq<(EntryId, SessionRecordView)>,
) -> Seq<(EntryId, u32, crate::pid::TunnelProcessType)>
    decreases recs.len(),
{
    if recs.len() == 0 {
        Seq::empty()
    } else {
        let rest = liveness_checks_spec(entries, recs.drop_last());
        let (id, rec) = recs.last();
        match (adopted_pid(rec), find_entry(entries, id)) {
            (Some(pid), Some(e)) => rest.push((id, pid, process_type_spec(e))),
            _ => rest,
        }
    }
}


proof fn lemma_reconcile_fold(a: AppView, ids: Seq<EntryId>, live: Seq<EntryId>)
    ensures
        ({
            let (b, _e, ac) = reconcile_fold(a, ids, live);
            &&& b.entries == a.entries
            &&& b.selected == a.selected
            &&& b.mode == a.mode
            &&& b.demo_mode == a.demo_mode
            &&& forall|k: EntryId| #[trigger] b.sessions.contains_key(k) ==> entry_index(a.entries, k) is Some
                || (a.sessions.contains_key(k) && !ids.contains(k))
        }),
    decreases ids.len(),
{
    if ids.len() > 0 {
        let t = ids.drop_last();
        lemma_reconcile_fold(a, t, live);
        let id = ids.last();
        let (b, _e, ac) = reconcile_fold(a, ids, live);
        assert forall|k: EntryId| #[trigger] b.sessions.contains_key(k) implies entry_index(a.entries, k) is Some
            || (a.sessions.contains_key(k) && !ids.contains(k)) by {
            if k != id && !t.contains(k) {
                if ids.contains(k) {
                    let j = choose|j: int| 0 <= j < ids.len() && ids[j] == k;
                    if j < ids.len() - 1 {
                        assert(t[j] == k);
                    }
                }
            }
        }
    }
}

proof fn lemma_connect_all(a: AppView, idxs: Seq<int>)
    requires
        forall|k: EntryId| #[trigger] a.sessions.contains_key(k) ==> entry_index(a.entries, k) is Some,
    ensures
        ({
            let c = connect_all(a, idxs).0;
            &&& c.entries == a.entries
            &&& c.selected == a.selected
            &&& c.mode == a.mode
            &&& c.demo_mode == a.demo_mode
            &&& forall|k: EntryId| #[trigger] c.sessions.contains_key(k) ==> entry_index(a.entries, k) is Some
        }),
    decreases idxs.len(),
{
    if idxs.len() > 0 {
        lemma_connect_all(a, idxs.drop_last());
        let b = connect_all(a, idxs.drop_last()).0;
        let i = idxs.last();
        if 0 <= i < b.entries.len() {
            let id = b.entries[i].id();
            lemma_entry_index(a.entries, id);
        }
    }
}

/// Law: after startup reconciliation every remaining session belongs to a
/// configured entry (sessions of removed entries are dropped), and the
/// entries, the selection, the mode and the demo flag are unchanged.
pub proof fn law_reconcile_drops_orphans(a: AppView, ids: Seq<EntryId>, live: Seq<EntryId>)
    requires
        forall|k: EntryId| a.sessions.contains_key(k) ==> #[trigger] ids.contains(k),
    ensures
        ({
            let c = reconcile_spec(a, ids, live).0;
            &&& c.entries == a.entries
            &&& c.selected == a.selected
            &&& c.mode == a.mode
            &&& c.demo_mode == a.demo_mode
            &&& forall|k: EntryId| #[trigger] c.sessions.contains_key(k) ==> entry_index(a.entries, k) is Some
        }),
{
    lemma_reconcile_fold(a, ids, live);
    let (b, _e, ac) = reconcile_fold(a, ids, live);
    assert forall|k: EntryId| #[trigger] b.sessions.contains_key(k) implies entry_index(b.entries, k) is Some by {
        if a.sessions.contains_key(k) {
            assert(ids.contains(k));
        }
    }
    lemma_connect_all(b, ac);
}


/// No effect writes anything to disk.
pub open spec fn writes_nothing(effs: Seq<Effect>) -> bool {
    forall|i: int| 0 <= i < effs.len() ==> #[trigger] effs[i] != Effect::SaveConfig && effs[i] != Effect::PersistSessions
}

proof fn lemma_writes_nothing_concat(x: Seq<Effect>, y: Seq<Effect>)
    requires
        writes_nothing(x),
        writes_nothing(y),
    ensures
        writes_nothing(x + y),
{
    assert forall|i: int| 0 <= i < (x + y).len() implies #[trigger] (x + y)[i] != Effect::SaveConfig
        && (x + y)[i] != Effect::PersistSessions by {
        if i < x.len() {
            assert((x + y)[i] == x[i]);
        } else {
            assert((x + y)[i] == y[i - x.len()]);
        }
    }
}

proof fn lemma_demo_connect(a: AppView, index: int)
    requires
        a.demo_mode,
    ensures
        writes_nothing(connect_spec(a, index).1),
        connect_spec(a, index).0.demo_mode,
{
    if 0 <= index < a.entries.len() {
        let id = a.entries[index].id();
        assert(writes_nothing(seq![Effect::Spawn { id }]));
        lemma_writes_nothing_concat(seq![Effect::Spawn { id }], persist_effect(a));
    }
}

proof fn lemma_demo_disconnect(a: AppView, id: EntryId)
    requires
        a.demo_mode,
    ensures
        writes_nothing(disconnect_spec(a, id).1),
        disconnect_spec(a, id).0.demo_mode,
{
    assert(writes_nothing(seq![Effect::StopAndKill { id }]));
    lemma_writes_nothing_concat(seq![Effect::StopAndKill { id }], persist_effect(a));
}

proof fn lemma_demo_tunnel_event(a: AppView, ev: TunnelEvent, now: Seq<char>)
    requires
        a.demo_mode,
    ensures
        writes_nothing(tunnel_event_spec(a, ev, now).1),
        tunnel_event_spec(a, ev, now).0.demo_mode,
{
    match ev {
        TunnelEvent::Disconnected { entry_id } => {
            assert(writes_nothing(seq![Effect::Release { id: entry_id }]));
            lemma_writes_nothing_concat(seq![Effect::Release { id: entry_id }], persist_effect(a));
        },
        TunnelEvent::Failed { entry_id, reason } => {
            assert(writes_nothing(seq![Effect::Release { id: entry_id }]));
            lemma_writes_nothing_concat(seq![Effect::Release { id: entry_id }], persist_effect(a));
        },
        _ => {},
    }
}

/// Law: in demo mode nothing is ever written: no update asks to save the
/// configuration or the sessions, and the application stays in demo mode.
pub proof fn law_demo_mode_writes_nothing(a: AppView, m: Message, new_id: EntryId, now: Seq<char>)
    requires
        a.demo_mode,
    ensures
        writes_nothing(step(a, m, new_id, now).1),
        step(a, m, new_id, now).0.demo_mode,
{
    match m {
        Message::TunnelEvent(ev) => lemma_demo_tunnel_event(a, ev, now),
        _ => {},
    }
    if a.selected < a.entries.len() {
        let id = a.entries[a.selected as int].id();
        lemma_demo_disconnect(a, id);
        lemma_demo_connect(a, a.selected as int);
        let a1 = AppView { sessions: a.sessions.remove(id), ..a };
        lemma_demo_connect(a1, a.selected as int);
        let (b, e1) = disconnect_spec(a, id);
        lemma_writes_nothing_concat(e1, save_effect(a));
        lemma_writes_nothing_concat(e1 + save_effect(a), persist_effect(a));
        lemma_writes_nothing_concat(Seq::empty(), save_effect(a));
        lemma_writes_nothing_concat(Seq::<Effect>::empty() + save_effect(a), persist_effect(a));
        lemma_writes_nothing_concat(persist_effect(a), connect_spec(a1, a.selected as int).1);
    }
}

/// Law: deleting the selected entry removes exactly that entry from the
/// list, and forgets its connection state and its session.
pub proof fn law_delete_forgets_entry(a: AppView, new_id: EntryId, now: Seq<char>)
    requires
        a.mode == AppModeView::Normal,
        a.selected < a.entries.len(),
    ensures
        ({
            let id = a.entries[a.selected as int].id();
            let b = step(a, Message::DeleteEntry, new_id, now).0;
            &&& b.entries == a.entries.remove(a.selected as int)
            &&& !b.states.contains_key(id)
            &&& !b.sessions.contains_key(id)
        }),
{
}


/// Law: Enter on an active tunnel stops it: the supervisor is stopped and
/// its process killed, and the entry becomes disconnected (losing its
/// session), or suspended if it restarts on its own.
pub proof fn law_toggle_stops_active_tunnel(a: AppView, new_id: EntryId, now: Seq<char>)
    requires
        a.mode == AppModeView::Normal,
        a.selected < a.entries.len(),
        state_of_spec(a, a.entries[a.selected as int].id()).active(),
    ensures
        ({
            let e = a.entries[a.selected as int];
            let (b, effs) = step(a, Message::ToggleConnect, new_id, now);
            &&& effs.len() >= 1 && effs[0] == Effect::StopAndKill { id: e.id() }
            &&& b.states[e.id()] == if entry_auto_restart(a.entries, e.id()) {
                ConnectionState::Suspended
            } else {
                ConnectionState::Disconnected
            }
            &&& !entry_auto_restart(a.entries, e.id()) ==> !b.sessions.contains_key(e.id())
        }),
{
}

/// Law: connecting an idle entry and then hearing that its tunnel is up
/// leaves it connected, with its session stamped with the time it came up.
pub proof fn law_connect_then_connected(a: AppView, new_id: EntryId, now: Seq<char>)
    requires
        a.mode == AppModeView::Normal,
        a.selected < a.entries.len(),
        !state_of_spec(a, a.entries[a.selected as int].id()).active(),
        state_of_spec(a, a.entries[a.selected as int].id()) != ConnectionState::Suspended,
        !(a.entries[a.selected as int] matches TunnelEntryView::K8s(k) && k.forwards.len() == 0),
    ensures
        ({
            let id = a.entries[a.selected as int].id();
            let (b, e1) = step(a, Message::ToggleConnect, new_id, now);
            let (c, e2) = step(b, Message::TunnelEvent(TunnelEvent::Connected { entry_id: id }), new_id, now);
            &&& e1.len() >= 1 && e1[0] == Effect::Spawn { id }
            &&& b.states[id] == ConnectionState::Connecting
            &&& c.states[id] == ConnectionState::Connected
            &&& c.sessions.contains_key(id)
            &&& c.sessions[id].connected_at == Some(now)
        }),
{
}


/// The state and session of `k` are the same in `x` and `y`.
pub open spec fn same_at(x: AppView, y: AppView, k: EntryId) -> bool {
    &&& x.states.contains_key(k) == y.states.contains_key(k)
    &&& x.states.contains_key(k) ==> x.states[k] == y.states[k]
    &&& x.sessions.contains_key(k) == y.sessions.contains_key(k)
    &&& x.sessions.contains_key(k) ==> x.sessions[k] == y.sessions[k]
}

/// Whether startup queues the entry `id` for a fresh connection: it has a
/// session that is neither suspended nor live, and it restarts on its own.
pub open spec fn queued_on_startup(a: AppView, id: EntryId, live: Seq<EntryId>) -> bool {
    match entry_index(a.entries, id) {
        Some(i) => {
            &&& a.sessions.contains_key(id)
            &&& !a.sessions[id].suspended
            &&& !(a.sessions[id].pid is Some && live.contains(id))
            &&& a.entries[i].auto_restart()
        },
        None => false,
    }
}

proof fn lemma_reconcile_one_frame(st: (AppView, Seq<Effect>, Seq<int>), y: AppView, id: EntryId, live: Seq<EntryId>)
    requires
        same_at(st.0, y, id),
        st.0.entries == y.entries,
    ensures
        ({
            let r = reconcile_one(st, id, live);
            let q = reconcile_one((y, Seq::empty(), Seq::empty()), id, live);
            &&& r.0.entries == st.0.entries
            &&& r.0.selected == st.0.selected
            &&& r.0.mode == st.0.mode
            &&& r.0.demo_mode == st.0.demo_mode
            &&& forall|k: EntryId| k != id ==> #[trigger] same_at(r.0, st.0, k)
            &&& same_at(r.0, q.0, id)
            &&& if queued_on_startup(y, id, live) {
                r.2 == st.2.push(entry_index(y.entries, id)->0)
            } else {
                r.2 == st.2
            }
        }),
{
    lemma_entry_index(y.entries, id);
}


proof fn lemma_reconcile_fold_outcome(a: AppView, ids: Seq<EntryId>, live: Seq<EntryId>)
    requires
        ids.no_duplicates(),
    ensures
        ({
            let (b, _e, ac) = reconcile_fold(a, ids, live);
            &&& b.entries == a.entries
            &&& forall|k: EntryId| !ids.contains(k) ==> #[trigger] same_at(b, a, k)
            &&& forall|k: EntryId| ids.contains(k) ==> #[trigger] same_at(
                b,
                reconcile_one((a, Seq::empty(), Seq::empty()), k, live).0,
                k,
            )
            &&& forall|j: int| 0 <= j < ac.len() ==> {
                let x = #[trigger] ac[j];
                &&& 0 <= x < a.entries.len()
                &&& entry_index(a.entries, a.entries[x].id()) == Some(x)
                &&& ids.contains(a.entries[x].id())
                &&& queued_on_startup(a, a.entries[x].id(), live)
            }
            &&& forall|k: EntryId| ids.contains(k) && #[trigger] queued_on_startup(a, k, live) ==> ac.contains(
                entry_index(a.entries, k)->0,
            )
        }),
    decreases ids.len(),
{
    if ids.len() > 0 {
        let t = ids.drop_last();
        let id = ids.last();
        assert(t.no_duplicates()) by {
            assert forall|i: int, j: int| 0 <= i < t.len() && 0 <= j < t.len() && i != j implies t[i] != t[j] by {
                assert(t[i] == ids[i] && t[j] == ids[j]);
            }
        }
        lemma_reconcile_fold_outcome(a, t, live);
        let st = reconcile_fold(a, t, live);
        assert(!t.contains(id)) by {
            if t.contains(id) {
                let j = choose|j: int| 0 <= j < t.len() && t[j] == id;
                assert(ids[j] == id && ids[ids.len() - 1] == id);
            }
        }
        assert(same_at(st.0, a, id));
        lemma_reconcile_one_frame(st, a, id, live);
        lemma_entry_index(a.entries, id);
        let (b, _e, ac) = reconcile_fold(a, ids, live);
        assert forall|k: EntryId| !ids.contains(k) implies #[trigger] same_at(b, a, k) by {
            assert(k != id);
            if t.contains(k) {
                let j = choose|j: int| 0 <= j < t.len() && t[j] == k;
                assert(ids[j] == k);
            }
            assert(same_at(b, st.0, k));
            assert(same_at(st.0, a, k));
        }
        assert forall|k: EntryId| ids.contains(k) implies #[trigger] same_at(
            b,
            reconcile_one((a, Seq::empty(), Seq::empty()), k, live).0,
            k,
        ) by {
            if k != id {
                let j = choose|j: int| 0 <= j < ids.len() && ids[j] == k;
                assert(j < ids.len() - 1);
                assert(t[j] == k);
                assert(same_at(b, st.0, k));
                assert(same_at(st.0, reconcile_one((a, Seq::empty(), Seq::empty()), k, live).0, k));
            }
        }
        assert forall|j: int| 0 <= j < ac.len() implies {
            let x = #[trigger] ac[j];
            &&& 0 <= x < a.entries.len()
            &&& entry_index(a.entries, a.entries[x].id()) == Some(x)
            &&& ids.contains(a.entries[x].id())
            &&& queued_on_startup(a, a.entries[x].id(), live)
        } by {
            if j < st.2.len() {
                let x = ac[j];
                assert(x == st.2[j]);
                let k = a.entries[x].id();
                assert(t.contains(k));
                let m = choose|m: int| 0 <= m < t.len() && t[m] == k;
                assert(ids[m] == k);
            } else {
                assert(ids[ids.len() - 1] == id);
            }
        }
        assert forall|k: EntryId| ids.contains(k) && #[trigger] queued_on_startup(a, k, live) implies ac.contains(
            entry_index(a.entries, k)->0,
        ) by {
            if k == id {
                assert(ac[ac.len() - 1] == entry_index(a.entries, k)->0);
            } else {
                let j = choose|j: int| 0 <= j < ids.len() && ids[j] == k;
                assert(j < ids.len() - 1);
                assert(t[j] == k);
                let i = entry_index(a.entries, k)->0;
                assert(st.2.contains(i));
                let m = choose|m: int| 0 <= m < st.2.len() && st.2[m] == i;
                assert(ac[m] == i);
            }
        }
    }
}


/// Every position is an entry that is the first with its identifier.
pub open spec fn first_positions(s: Seq<TunnelEntryView>, ac: Seq<int>) -> bool {
    forall|j: int| 0 <= j < ac.len() ==> 0 <= #[trigger] ac[j] < s.len() && entry_index(s, s[ac[j]].id()) == Some(ac[j])
}

proof fn lemma_connect_all_outcome(b: AppView, ac: Seq<int>)
    requires
        first_positions(b.entries, ac),
    ensures
        ({
            let c = connect_all(b, ac).0;
            &&& c.entries == b.entries
            &&& forall|k: EntryId| !(entry_index(b.entries, k) matches Some(i) && ac.contains(i)) ==> #[trigger] same_at(c, b, k)
            &&& forall|j: int| 0 <= j < ac.len() ==> #[trigger] same_at(c, connect_spec(b, ac[j]).0, b.entries[ac[j]].id())
        }),
    decreases ac.len(),
{
    if ac.len() > 0 {
        let t = ac.drop_last();
        let x = ac.last();
        assert(first_positions(b.entries, t)) by {
            assert forall|j: int| 0 <= j < t.len() implies 0 <= #[trigger] t[j] < b.entries.len() && entry_index(b.entries, b.entries[t[j]].id()) == Some(t[j]) by {
                assert(t[j] == ac[j]);
            }
        }
        lemma_connect_all_outcome(b, t);
        let c1 = connect_all(b, t).0;
        assert(0 <= x < b.entries.len() && entry_index(b.entries, b.entries[x].id()) == Some(x)) by {
            assert(ac[ac.len() - 1] == x);
        }
        let kx = b.entries[x].id();
        let c = connect_all(b, ac).0;
        assert(c == connect_spec(c1, x).0);
        assert forall|k: EntryId| !(entry_index(b.entries, k) matches Some(i) && ac.contains(i)) implies #[trigger] same_at(c, b, k) by {
            assert(k != kx) by {
                if k == kx {
                    assert(ac[ac.len() - 1] == x);
                }
            }
            assert(!(entry_index(b.entries, k) matches Some(i) && t.contains(i))) by {
                match entry_index(b.entries, k) {
                    Some(i) => {
                        if t.contains(i) {
                            let j = choose|j: int| 0 <= j < t.len() && t[j] == i;
                            assert(ac[j] == i);
                        }
                    },
                    None => {},
                }
            }
            assert(same_at(c1, b, k));
        }
        assert forall|j: int| 0 <= j < ac.len() implies #[trigger] same_at(c, connect_spec(b, ac[j]).0, b.entries[ac[j]].id()) by {
            let kj = b.entries[ac[j]].id();
            if kj == kx {
                assert(ac[j] == x);
                if t.contains(x) {
                    let m = choose|m: int| 0 <= m < t.len() && t[m] == x;
                    assert(same_at(c1, connect_spec(b, t[m]).0, b.entries[t[m]].id()));
                } else {
                    assert(same_at(c1, b, kx));
                }
            } else {
                assert(j < ac.len() - 1);
                assert(t[j] == ac[j]);
                assert(same_at(c1, connect_spec(b, t[j]).0, b.entries[t[j]].id()));
            }
        }
    }
}


/// Law: startup reconciliation settles each recorded session of a
/// configured entry on its own: a suspended one keeps its record and makes
/// the entry suspended; one whose process is still the live tunnel keeps
/// its record and makes the entry connected; any other record is dropped,
/// and the entry is connected afresh when it restarts on its own (a
/// workload without bindings then fails at once), or else becomes
/// disconnected.
pub proof fn law_reconcile_outcomes(a: AppView, ids: Seq<EntryId>, live: Seq<EntryId>, id: EntryId)
    requires
        ids.no_duplicates(),
        ids.contains(id),
        a.sessions.contains_key(id),
        find_entry(a.entries, id) is Some,
    ensures
        ({
            let c = reconcile_spec(a, ids, live).0;
            let rec = a.sessions[id];
            let e = find_entry(a.entries, id)->0;
            let alive = rec.pid is Some && live.contains(id);
            &&& rec.suspended ==> c.states.contains_key(id) && c.states[id] == ConnectionState::Suspended
                && c.sessions.contains_key(id) && c.sessions[id] == rec
            &&& !rec.suspended && alive ==> c.states.contains_key(id) && c.states[id] == ConnectionState::Connected
                && c.sessions.contains_key(id) && c.sessions[id] == rec
            &&& !rec.suspended && !alive && !e.auto_restart() ==> c.states.contains_key(id) && c.states[id]
                == ConnectionState::Disconnected && !c.sessions.contains_key(id)
            &&& !rec.suspended && !alive && e.auto_restart() ==> c.states.contains_key(id) && if e matches TunnelEntryView::K8s(
                k,
            ) && k.forwards.len() == 0 {
                c.states[id] == ConnectionState::Failed && !c.sessions.contains_key(id)
            } else {
                c.states[id] == ConnectionState::Connecting && c.sessions.contains_key(id) && c.sessions[id]
                    == SessionRecord::pending_spec()
            }
        }),
{
    lemma_entry_index(a.entries, id);
    lemma_reconcile_fold_outcome(a, ids, live);
    let (b, _e, ac) = reconcile_fold(a, ids, live);
    assert(first_positions(b.entries, ac)) by {
        assert forall|j: int| 0 <= j < ac.len() implies 0 <= #[trigger] ac[j] < b.entries.len() && entry_index(
            b.entries,
            b.entries[ac[j]].id(),
        ) == Some(ac[j]) by {
            let x = ac[j];
            assert(0 <= x < a.entries.len());
        }
    }
    lemma_connect_all_outcome(b, ac);
    let c = connect_all(b, ac).0;
    let q = reconcile_one((a, Seq::empty(), Seq::empty()), id, live).0;
    assert(same_at(b, q, id));
    let i = entry_index(a.entries, id)->0;
    if queued_on_startup(a, id, live) {
        assert(ac.contains(i));
        let j = choose|j: int| 0 <= j < ac.len() && ac[j] == i;
        assert(same_at(c, connect_spec(b, ac[j]).0, b.entries[ac[j]].id()));
    } else {
        assert(!(entry_index(b.entries, id) matches Some(m) && ac.contains(m))) by {
            if ac.contains(i) {
                let j = choose|j: int| 0 <= j < ac.len() && ac[j] == i;
                assert(queued_on_startup(a, a.entries[ac[j]].id(), live));
            }
        }
        assert(same_at(c, b, id));
    }
}


/// The value of the first field labelled `label`, or nothing.
pub open spec fn labelled(fields: Seq<crate::form::FormFieldView>, label: Seq<char>) -> Seq<char>
    decreases fields.len(),
{
    if fields.len() == 0 {
        Seq::empty()
    } else if fields[0].label == label {
        fields[0].value
    } else {
        labelled(fields.drop_first(), label)
    }
}

/// Law: submitting a Kubernetes form whose required fields are filled
/// stores, as the entry's context, the trimmed text of the field labelled
/// "Context" and, as its namespace, that of the field labelled "Namespace"
/// (each absent when empty), for a new entry and for an edited one alike.
pub proof fn law_k8s_submit_context_namespace(a: AppView, f: FormStateView, new_id: EntryId, now: Seq<char>)
    requires
        a.mode == AppModeView::Form(f),
        f.entry_type == FormEntryType::K8s,
        f.focus == FormFocus::ServerFields,
        f.fields.len() == 6,
        f.fields[0].label == "Name"@,
        f.fields[1].label == "Context"@,
        f.fields[2].label == "Namespace"@,
        trim(labelled(f.fields, "Name"@)).len() > 0,
        trim(f.fields[4].value).len() > 0,
    ensures
        ({
            let r = step(a, Message::FormSubmit, new_id, now).0;
            let context = nonempty(trim(labelled(f.fields, "Context"@)));
            let namespace = nonempty(trim(labelled(f.fields, "Namespace"@)));
            &&& f.editing_id is None ==> r.entries.len() == a.entries.len() + 1 && (r.entries.last() matches TunnelEntryView::K8s(k)
                && k.id == new_id && k.context == context && k.namespace == namespace)
            &&& (f.editing_id matches Some(id) ==> (entry_index(a.entries, id) matches Some(i) ==> (a.entries[i] is K8s ==> (
                r.entries.len() == a.entries.len() && (r.entries[i] matches TunnelEntryView::K8s(k)
                && k.id == id && k.context == context && k.namespace == namespace)))))
        }),
{
    reveal_strlit("Name");
    reveal_strlit("Context");
    reveal_strlit("Namespace");
    let s = f.fields;
    assert(labelled(s, "Name"@) == s[0].value);
    assert("Name"@.len() == 4 && "Context"@.len() == 7 && "Namespace"@.len() == 9);
    assert("Context"@ != "Name"@);
    assert("Namespace"@ != "Name"@);
    assert("Namespace"@ != "Context"@);
    assert(labelled(s.drop_first().drop_first(), "Namespace"@) == s[2].value);
    assert(labelled(s.drop_first(), "Context"@) == s[1].value);
    assert(labelled(s.drop_first(), "Namespace"@) == s[2].value);
    assert(labelled(s, "Context"@) == s[1].value);
    assert(labelled(s, "Namespace"@) == s[2].value);
    match f.editing_id {
        Some(id) => {
            lemma_entry_index(a.entries, id);
        },
        None => {},
    }
}

/// Law: when a supervisor reports that an entry's tunnel was lost, the
/// entry is failed (no longer active), whatever the screen and whether or
/// not it restarts on its own; other entries keep their state. One that
/// does not restart on its own also loses its session and its supervisor
/// is released; one that does keeps its session for the reconnect.
pub proof fn law_lost_tunnel_fails(a: AppView, id: EntryId, new_id: EntryId, now: Seq<char>)
    ensures
        ({
            let (r, eff) = step(a, Message::TunnelEvent(TunnelEvent::Disconnected { entry_id: id }), new_id, now);
            &&& state_of_spec(r, id) == ConnectionState::Failed
            &&& !state_of_spec(r, id).active()
            &&& forall|k: EntryId| k != id ==> #[trigger] state_of_spec(r, k) == state_of_spec(a, k)
            &&& r.entries == a.entries
            &&& r.mode == a.mode
            &&& !entry_auto_restart(a.entries, id) ==> !r.sessions.contains_key(id) && eff.contains(Effect::Release { id })
            &&& entry_auto_restart(a.entries, id) ==> r.sessions == a.sessions && !eff.contains(Effect::Release { id })
        }),
{
    let (r, eff) = step(a, Message::TunnelEvent(TunnelEvent::Disconnected { entry_id: id }), new_id, now);
    if !entry_auto_restart(a.entries, id) {
        assert(eff[0] == Effect::Release { id });
    }
}


/// Looking at one session only appends effects.
proof fn lemma_reconcile_one_extends(st: (AppView, Seq<Effect>, Seq<int>), id: EntryId, live: Seq<EntryId>)
    ensures
        ({
            let r = reconcile_one(st, id, live).1;
            &&& r.len() >= st.1.len()
            &&& forall|j: int| 0 <= j < st.1.len() ==> #[trigger] r[j] == st.1[j]
        }),
{
}

/// Whether startup adopts the recorded process of `id`: a configured entry
/// with a session that is not suspended, whose recorded process is live,
/// and that has a tunnel to supervise (anything but a workload without
/// bindings).
pub open spec fn adopts_on_startup(a: AppView, id: EntryId, live: Seq<EntryId>) -> bool {
    &&& a.sessions.contains_key(id)
    &&& !a.sessions[id].suspended
    &&& a.sessions[id].pid is Some
    &&& live.contains(id)
    &&& find_entry(a.entries, id) matches Some(e) && !(e matches TunnelEntryView::K8s(k) && k.forwards.len() == 0)
}

proof fn lemma_fold_adopts(a: AppView, ids: Seq<EntryId>, live: Seq<EntryId>, id: EntryId)
    requires
        ids.no_duplicates(),
        ids.contains(id),
        adopts_on_startup(a, id, live),
    ensures
        reconcile_fold(a, ids, live).1.contains(Effect::Adopt { id, pid: a.sessions[id].pid->0 }),
    decreases ids.len(),
{
    let t = ids.drop_last();
    let x = Effect::Adopt { id, pid: a.sessions[id].pid->0 };
    assert(t.no_duplicates()) by {
        assert forall|i: int, j: int| 0 <= i < t.len() && 0 <= j < t.len() && i != j implies t[i] != t[j] by {
            assert(t[i] == ids[i] && t[j] == ids[j]);
        }
    }
    let st = reconcile_fold(a, t, live);
    lemma_reconcile_one_extends(st, ids.last(), live);
    let r = reconcile_fold(a, ids, live);
    if ids.last() == id {
        assert(!t.contains(id)) by {
            if t.contains(id) {
                let j = choose|j: int| 0 <= j < t.len() && t[j] == id;
                assert(ids[j] == id && ids[ids.len() - 1] == id);
            }
        }
        lemma_reconcile_fold_outcome(a, t, live);
        assert(same_at(st.0, a, id));
        lemma_entry_index(a.entries, id);
        assert(r.1 == st.1.push(x));
        assert(r.1[st.1.len() as int] == x);
    } else {
        let j = choose|j: int| 0 <= j < ids.len() && ids[j] == id;
        assert(t[j] == id);
        lemma_fold_adopts(a, t, live, id);
        let m = choose|m: int| 0 <= m < st.1.len() && st.1[m] == x;
        assert(r.1[m] == x);
    }
}

/// Law: on startup, every recorded session of a configured entry that is
/// not suspended and whose recorded process is still the live tunnel has
/// that process adopted by a supervisor (the effects hold an adoption of
/// the recorded process), for every kind of entry that has a tunnel to
/// supervise.
pub proof fn law_reconcile_adopts_live(a: AppView, ids: Seq<EntryId>, live: Seq<EntryId>, id: EntryId)
    requires
        ids.no_duplicates(),
        ids.contains(id),
        adopts_on_startup(a, id, live),
    ensures
        reconcile_spec(a, ids, live).1.contains(Effect::Adopt { id, pid: a.sessions[id].pid->0 }),
{
    let x = Effect::Adopt { id, pid: a.sessions[id].pid->0 };
    lemma_fold_adopts(a, ids, live, id);
    let (b, e1, ac) = reconcile_fold(a, ids, live);
    let e2 = connect_all(b, ac).1;
    let m = choose|m: int| 0 <= m < e1.len() && e1[m] == x;
    assert((e1 + e2 + persist_effect(a))[m] == x);
}

} // verus!
