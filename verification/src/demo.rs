//! Demo mode: the fixture entries, the simulated life of each demo tunnel,
//! and the scripted tour of the dialogs. Timing and chance stay with the
//! caller, which performs each step's sleep and hands in the random draws.

use vstd::prelude::*;

use crate::app::{entry_form_spec, find_entry, new_entry_id, App, AppMode, AppModeView, AppView};
use crate::form::{EntryTypeSelection, FormEntryType, FormState, FormStateView};
use crate::state::TunnelEvent;
use crate::model::{
    lit, EntryId, K8sEntry, K8sEntryView, K8sPortForward, K8sPortForwardView, K8sResourceType,
    ServerEntry, ServerEntryView, SshuttleEntry, SshuttleEntryView, TunnelEntry, TunnelEntryView,
    TunnelForward, TunnelForwardView,
};

verus! {

/// The loopback address every demo listener binds.
pub open spec fn loopback() -> Seq<char> {
    "127.0.0.1"@
}

/// A demo local forward.
pub open spec fn lf(bind_port: u16, host: Seq<char>, remote_port: u16) -> TunnelForwardView {
    TunnelForwardView::Local { bind_address: loopback(), bind_port, remote_host: host, remote_port }
}

/// A demo remote forward.
pub open spec fn rf(bind_port: u16, host: Seq<char>, remote_port: u16) -> TunnelForwardView {
    TunnelForwardView::Remote { bind_address: loopback(), bind_port, remote_host: host, remote_port }
}

/// A demo workload binding.
pub open spec fn kb(local_port: u16, remote_port: u16) -> K8sPortForwardView {
    K8sPortForwardView { local_bind_address: loopback(), local_port, remote_port }
}

/// The number of demo entries.
pub const DEMO_ENTRY_COUNT: usize = 6;

/// The demo entry at position `i`, carrying identifier `id`.
pub open spec fn demo_entry_spec(i: int, id: EntryId) -> TunnelEntryView {
    if i == 0 {
        TunnelEntryView::Ssh(ServerEntryView {
            id,
            name: "Production DB"@,
            host: "bastion.example.com"@,
            port: 22,
            user: Some("deploy"@),
            identity_file: Some("~/.ssh/id_ed25519"@),
            forwards: seq![
                lf(5432, "db.internal"@, 5432),
                lf(6379, "redis.internal"@, 6379),
                lf(27017, "mongo.internal"@, 27017),
                rf(9200, "localhost"@, 9200),
            ],
            auto_restart: true,
        })
    } else if i == 1 {
        TunnelEntryView::Ssh(ServerEntryView {
            id,
            name: "Dev API Gateway"@,
            host: "dev-gw.example.com"@,
            port: 2222,
            user: Some("admin"@),
            identity_file: None,
            forwards: seq![
                rf(8080, "localhost"@, 3000),
                lf(8443, "api.internal"@, 443),
                TunnelForwardView::Dynamic { bind_address: loopback(), bind_port: 1080 },
            ],
            auto_restart: true,
        })
    } else if i == 2 {
        TunnelEntryView::K8s(K8sEntryView {
            id,
            name: "Staging Pods"@,
            kubeconfig: None,
            context: Some("staging"@),
            namespace: Some("app"@),
            resource_type: K8sResourceType::Deployment,
            resource_name: "api-server"@,
            forwards: seq![kb(8080, 80), kb(8443, 443), kb(9090, 9090), kb(9100, 9100)],
            auto_restart: true,
        })
    } else if i == 3 {
        TunnelEntryView::K8s(K8sEntryView {
            id,
            name: "Monitoring Stack"@,
            kubeconfig: None,
            context: Some("prod"@),
            namespace: Some("monitoring"@),
            resource_type: K8sResourceType::Service,
            resource_name: "grafana"@,
            forwards: seq![kb(3000, 3000), kb(9090, 9090), kb(9093, 9093)],
            auto_restart: false,
        })
    } else if i == 4 {
        TunnelEntryView::Sshuttle(SshuttleEntryView {
            id,
            name: "Corp VPN"@,
            host: "vpn.example.com"@,
            port: Some(2222),
            user: Some("alice"@),
            identity_file: Some("~/.ssh/corp_key"@),
            subnets: seq!["10.0.0.0/8"@, "172.16.0.0/12"@],
            auto_restart: true,
        })
    } else {
        TunnelEntryView::Sshuttle(SshuttleEntryView {
            id,
            name: "Lab Network"@,
            host: "lab-gw.internal"@,
            port: None,
            user: None,
            identity_file: None,
            subnets: seq!["192.168.50.0/24"@],
            auto_restart: false,
        })
    }
}

fn local(bind_port: u16, host: &str, remote_port: u16) -> (r: TunnelForward)
    ensures
        r@ == lf(bind_port, host@, remote_port),
{
    TunnelForward::Local { bind_address: lit("127.0.0.1"), bind_port, remote_host: lit(host), remote_port }
}

fn remote(bind_port: u16, host: &str, remote_port: u16) -> (r: TunnelForward)
    ensures
        r@ == rf(bind_port, host@, remote_port),
{
    TunnelForward::Remote { bind_address: lit("127.0.0.1"), bind_port, remote_host: lit(host), remote_port }
}

fn binding(local_port: u16, remote_port: u16) -> (r: K8sPortForward)
    ensures
        r@ == kb(local_port, remote_port),
{
    K8sPortForward { local_bind_address: lit("127.0.0.1"), local_port, remote_port }
}

fn some(s: &str) -> (r: Option<String>)
    ensures
        crate::model::opt_view(r) == Some(s@),
{
    Some(lit(s))
}

/// The demo entry at position `i` with identifier `id`.
#[verifier::spinoff_prover]
pub fn demo_entry(i: usize, id: EntryId) -> (r: TunnelEntry)
    requires
        i < DEMO_ENTRY_COUNT,
    ensures
        r@ == demo_entry_spec(i as int, id),
{
    if i == 0 {
        let forwards = vec![
            local(5432, "db.internal", 5432),
            local(6379, "redis.internal", 6379),
            local(27017, "mongo.internal", 27017),
            remote(9200, "localhost", 9200),
        ];
        assert(crate::model::forwards_view(forwards@) =~= seq![
            lf(5432, "db.internal"@, 5432),
            lf(6379, "redis.internal"@, 6379),
            lf(27017, "mongo.internal"@, 27017),
            rf(9200, "localhost"@, 9200),
        ]);
        let r = TunnelEntry::Ssh(ServerEntry {
            id,
            name: lit("Production DB"),
            host: lit("bastion.example.com"),
            port: 22,
            user: some("deploy"),
            identity_file: some("~/.ssh/id_ed25519"),
            forwards,
            auto_restart: true,
        });
        assert(r@ == demo_entry_spec(0, id));
        r
    } else if i == 1 {
        let forwards = vec![
            remote(8080, "localhost", 3000),
            local(8443, "api.internal", 443),
            TunnelForward::Dynamic { bind_address: lit("127.0.0.1"), bind_port: 1080 },
        ];
        assert(crate::model::forwards_view(forwards@) =~= seq![
            rf(8080, "localhost"@, 3000),
            lf(8443, "api.internal"@, 443),
            TunnelForwardView::Dynamic { bind_address: loopback(), bind_port: 1080 },
        ]);
        let r = TunnelEntry::Ssh(ServerEntry {
            id,
            name: lit("Dev API Gateway"),
            host: lit("dev-gw.example.com"),
            port: 2222,
            user: some("admin"),
            identity_file: None,
            forwards,
            auto_restart: true,
        });
        assert(r@ == demo_entry_spec(1, id));
        r
    } else if i == 2 {
        let forwards = vec![binding(8080, 80), binding(8443, 443), binding(9090, 9090), binding(9100, 9100)];
        assert(crate::model::k8s_forwards_view(forwards@) =~= seq![kb(8080, 80), kb(8443, 443), kb(9090, 9090), kb(9100, 9100)]);
        let r = TunnelEntry::K8s(K8sEntry {
            id,
            name: lit("Staging Pods"),
            kubeconfig: None,
            context: some("staging"),
            namespace: some("app"),
            resource_type: K8sResourceType::Deployment,
            resource_name: lit("api-server"),
            forwards,
            auto_restart: true,
        });
        assert(r@ == demo_entry_spec(2, id));
        r
    } else if i == 3 {
        let forwards = vec![binding(3000, 3000), binding(9090, 9090), binding(9093, 9093)];
        assert(crate::model::k8s_forwards_view(forwards@) =~= seq![kb(3000, 3000), kb(9090, 9090), kb(9093, 9093)]);
        let r = TunnelEntry::K8s(K8sEntry {
            id,
            name: lit("Monitoring Stack"),
            kubeconfig: None,
            context: some("prod"),
            namespace: some("monitoring"),
            resource_type: K8sResourceType::Service,
            resource_name: lit("grafana"),
            forwards,
            auto_restart: false,
        });
        assert(r@ == demo_entry_spec(3, id));
        r
    } else if i == 4 {
        let subnets = vec![lit("10.0.0.0/8"), lit("172.16.0.0/12")];
        assert(subnets.deep_view() =~= seq!["10.0.0.0/8"@, "172.16.0.0/12"@]);
        let r = TunnelEntry::Sshuttle(SshuttleEntry {
            id,
            name: lit("Corp VPN"),
            host: lit("vpn.example.com"),
            port: Some(2222),
            user: some("alice"),
            identity_file: some("~/.ssh/corp_key"),
            subnets,
            auto_restart: true,
        });
        assert(r@ == demo_entry_spec(4, id));
        r
    } else {
        let subnets = vec![lit("192.168.50.0/24")];
        assert(subnets.deep_view() =~= seq!["192.168.50.0/24"@]);
        let r = TunnelEntry::Sshuttle(SshuttleEntry {
            id,
            name: lit("Lab Network"),
            host: lit("lab-gw.internal"),
            port: None,
            user: None,
            identity_file: None,
            subnets,
            auto_restart: false,
        });
        assert(r@ == demo_entry_spec(5, id));
        r
    }
}

/// Returns the fixed set of synthetic tunnel entries for demo mode, each
/// with a fresh random identifier: two SSH servers (local, remote and
/// dynamic forwards), two workloads (a Deployment and a Service with
/// port-forward bindings) and two sshuttle sessions (one and several
/// subnets); some of them restart on their own.
pub fn demo_entries() -> (r: Vec<TunnelEntry>)
    ensures
        r@.len() == DEMO_ENTRY_COUNT,
        forall|i: int| 0 <= i < DEMO_ENTRY_COUNT ==> (#[trigger] r@[i])@ == demo_entry_spec(i, r@[i]@.id()),
        forall|i: int| 0 <= i < DEMO_ENTRY_COUNT ==> ((#[trigger] r@[i])@.id() >> 76u128) & 0xfu128 == 4,
{
    let mut r: Vec<TunnelEntry> = Vec::new();
    let mut i: usize = 0;
    while i < DEMO_ENTRY_COUNT
        invariant
            i <= DEMO_ENTRY_COUNT,
            r@.len() == i,
            forall|k: int| 0 <= k < i ==> (#[trigger] r@[k])@ == demo_entry_spec(k, r@[k]@.id()),
            forall|k: int| 0 <= k < i ==> ((#[trigger] r@[k])@.id() >> 76u128) & 0xfu128 == 4,
        decreases DEMO_ENTRY_COUNT - i,
    {
        let id = new_entry_id();
        let e = demo_entry(i, id);
        assert(e@.id() == id);
        r.push(e);
        i = i + 1;
    }
    r
}


/// Law: the demo set covers every kind of tunnel: two SSH servers whose
/// forwards include a local, a remote and a dynamic one; two workloads, a
/// Deployment and a Service, each with bindings; two sshuttle sessions, one
/// with a single subnet and one with several; and some entries restart on
/// their own while others do not.
pub proof fn law_demo_fixture_mix(id: EntryId)
    ensures
        demo_entry_spec(0, id) matches TunnelEntryView::Ssh(x)
            && x.forwards[0] is Local && x.forwards[3] is Remote,
        demo_entry_spec(1, id) matches TunnelEntryView::Ssh(x) && x.forwards[2] is Dynamic,
        demo_entry_spec(2, id) matches TunnelEntryView::K8s(k)
            && k.resource_type == K8sResourceType::Deployment && k.forwards.len() > 0,
        demo_entry_spec(3, id) matches TunnelEntryView::K8s(k)
            && k.resource_type == K8sResourceType::Service && k.forwards.len() > 0,
        demo_entry_spec(4, id) matches TunnelEntryView::Sshuttle(v) && v.subnets.len() > 1,
        demo_entry_spec(5, id) matches TunnelEntryView::Sshuttle(v) && v.subnets.len() == 1,
        demo_entry_spec(0, id).auto_restart(),
        !demo_entry_spec(5, id).auto_restart(),
{
}

/// Upper bound (exclusive) of the random delay before a demo tunnel first starts, in ms.
pub const DEMO_STAGGER_MS_MAX: u64 = 3000;
/// Range of the fake process identifiers.
pub const DEMO_PID_MIN: u32 = 10000;
pub const DEMO_PID_MAX: u32 = 60000;
/// Range of the time spent connecting, in ms.
pub const DEMO_CONNECTING_MS_MIN: u64 = 2000;
pub const DEMO_CONNECTING_MS_MAX: u64 = 5000;
/// Range of the time a demo tunnel stays connected, in ms.
pub const DEMO_CONNECTED_MS_MIN: u64 = 15000;
pub const DEMO_CONNECTED_MS_MAX: u64 = 60000;
/// Range of the time a failed demo tunnel stays failed, in ms.
pub const DEMO_FAILED_MS_MIN: u64 = 10000;
pub const DEMO_FAILED_MS_MAX: u64 = 20000;
/// Range of the reconnect delay, in seconds.
pub const DEMO_DELAY_SECS_MIN: u64 = 2;
pub const DEMO_DELAY_SECS_MAX: u64 = 5;
/// Range of the rest of a disconnected demo tunnel without auto-restart, in ms.
pub const DEMO_REST_MS_MIN: u64 = 8000;
pub const DEMO_REST_MS_MAX: u64 = 15000;
/// Chance, in percent, that a connected demo tunnel fails rather than disconnects.
pub const DEMO_FAIL_PERCENT: u32 = 30;
/// Chance, in percent, that a reconnect sequence takes two attempts.
pub const DEMO_TWO_ATTEMPTS_PERCENT: u32 = 20;

/// The reason a simulated failure reports.
pub open spec fn simulated_failure() -> Seq<char> {
    "connection refused (simulated)"@
}

/// Where a simulated tunnel is in its cycle.
#[derive(Debug, Clone, Copy, PartialEq, Eq, Structural)]
pub enum DemoPhase {
    /// Waiting before the first start.
    Stagger,
    /// About to start (announce a process).
    Spawn,
    /// About to report the tunnel connected.
    Up,
    /// About to end the connection, by failure or disconnect.
    Outcome,
    /// About to announce reconnect attempt `attempt` of `of`.
    Reconnect { attempt: u32, of: u32 },
}

impl DemoPhase {
    /// A reconnect phase counts one or two attempts.
    pub open spec fn wf(self) -> bool {
        match self {
            DemoPhase::Reconnect { attempt, of } => 1 <= attempt <= of <= 2,
            _ => true,
        }
    }
}

/// The random values a step may use, drawn by the caller in the ranges of
/// the constants above (`fails` and `two_attempts` with their chances).
#[derive(Debug, Clone, Copy)]
pub struct DemoDraws {
    pub stagger_ms: u64,
    pub pid: u32,
    pub connecting_ms: u64,
    pub connected_ms: u64,
    pub fails: bool,
    pub failed_ms: u64,
    pub two_attempts: bool,
    pub delay_secs: u64,
    pub rest_ms: u64,
}

/// One step of a simulated tunnel: the event to send (if any), how long
/// to sleep afterwards, and the phase that follows.
#[derive(Debug, Clone)]
pub struct DemoStep {
    pub event: Option<TunnelEvent>,
    pub sleep_ms: u64,
    pub next: DemoPhase,
}

/// The step taken from `phase`: the event (`None` where a failure is
/// reported, since that event carries text; [`demo_step`] states it), the
/// sleep in milliseconds, and the next phase.
pub open spec fn demo_step_spec(id: EntryId, auto_restart: bool, phase: DemoPhase, d: DemoDraws) -> (
    Option<TunnelEvent>,
    int,
    DemoPhase,
) {
    match phase {
        DemoPhase::Stagger => (None, d.stagger_ms as int, DemoPhase::Spawn),
        DemoPhase::Spawn => (
            Some(TunnelEvent::PidUpdate { entry_id: id, pid: d.pid }),
            d.connecting_ms as int,
            DemoPhase::Up,
        ),
        DemoPhase::Up => (Some(TunnelEvent::Connected { entry_id: id }), d.connected_ms as int, DemoPhase::Outcome),
        DemoPhase::Outcome => if d.fails {
            (None, d.failed_ms as int, DemoPhase::Spawn)
        } else if auto_restart {
            (
                Some(TunnelEvent::Disconnected { entry_id: id }),
                0,
                DemoPhase::Reconnect { attempt: 1, of: if d.two_attempts { 2 } else { 1 } },
            )
        } else {
            (Some(TunnelEvent::Disconnected { entry_id: id }), d.rest_ms as int, DemoPhase::Spawn)
        },
        DemoPhase::Reconnect { attempt, of } => (
            Some(TunnelEvent::Reconnecting { entry_id: id, attempt, delay_secs: d.delay_secs }),
            d.delay_secs * 1000,
            if attempt < of { DemoPhase::Reconnect { attempt: (attempt + 1) as u32, of } } else { DemoPhase::Spawn },
        ),
    }
}

/// One step of the simulated life of demo tunnel `id` (see
/// [`demo_step_spec`]); a failure's event is `Failed` with the simulated
/// reason.
pub fn demo_step(id: EntryId, auto_restart: bool, phase: DemoPhase, d: DemoDraws) -> (r: DemoStep)
    requires
        phase.wf(),
        d.delay_secs * 1000 <= u64::MAX,
    ensures
        r.next.wf(),
        r.sleep_ms == demo_step_spec(id, auto_restart, phase, d).1,
        r.next == demo_step_spec(id, auto_restart, phase, d).2,
        (phase == DemoPhase::Outcome && d.fails) ==> (r.event matches Some(
            TunnelEvent::Failed { entry_id, reason },
        ) && entry_id == id && reason@ == simulated_failure()),
        !(phase == DemoPhase::Outcome && d.fails) ==> r.event == demo_step_spec(id, auto_restart, phase, d).0,
{
    match phase {
        DemoPhase::Stagger => DemoStep { event: None, sleep_ms: d.stagger_ms, next: DemoPhase::Spawn },
        DemoPhase::Spawn => DemoStep {
            event: Some(TunnelEvent::PidUpdate { entry_id: id, pid: d.pid }),
            sleep_ms: d.connecting_ms,
            next: DemoPhase::Up,
        },
        DemoPhase::Up => DemoStep {
            event: Some(TunnelEvent::Connected { entry_id: id }),
            sleep_ms: d.connected_ms,
            next: DemoPhase::Outcome,
        },
        DemoPhase::Outcome => if d.fails {
            DemoStep {
                event: Some(TunnelEvent::Failed { entry_id: id, reason: lit("connection refused (simulated)") }),
                sleep_ms: d.failed_ms,
                next: DemoPhase::Spawn,
            }
        } else if auto_restart {
            let of: u32 = if d.two_attempts { 2 } else { 1 };
            DemoStep {
                event: Some(TunnelEvent::Disconnected { entry_id: id }),
                sleep_ms: 0,
                next: DemoPhase::Reconnect { attempt: 1, of },
            }
        } else {
            DemoStep {
                event: Some(TunnelEvent::Disconnected { entry_id: id }),
                sleep_ms: d.rest_ms,
                next: DemoPhase::Spawn,
            }
        },
        DemoPhase::Reconnect { attempt, of } => {
            let next = if attempt < of { DemoPhase::Reconnect { attempt: attempt + 1, of } } else { DemoPhase::Spawn };
            DemoStep {
                event: Some(TunnelEvent::Reconnecting { entry_id: id, attempt, delay_secs: d.delay_secs }),
                sleep_ms: d.delay_secs * 1000,
                next,
            }
        },
    }
}

/// Law: a simulated tunnel without auto-restart never reconnects, and one
/// with it announces at most two attempts per outage, numbered from 1.
pub proof fn law_demo_reconnects(id: EntryId, auto_restart: bool, phase: DemoPhase, d: DemoDraws)
    requires
        phase.wf(),
        !auto_restart ==> !(phase is Reconnect),
    ensures
        ({
            let (ev, _, next) = demo_step_spec(id, auto_restart, phase, d);
            &&& next.wf()
            &&& !auto_restart ==> !(next is Reconnect)
            &&& (ev matches Some(TunnelEvent::Reconnecting { attempt, .. }) ==> auto_restart && 1 <= attempt <= 2)
        }),
{
}


/// How long the tour waits before its first dialog, in ms.
pub const TOUR_SPLASH_HOLD_MS: u64 = 4000;
/// How long each highlighted option of the type selector is shown, in ms.
pub const TOUR_TYPE_HIGHLIGHT_MS: u64 = 1500;
/// How long a creation or edit form is held open, in ms.
pub const TOUR_FORM_HOLD_MS: u64 = 4000;
/// The pause between dialog sequences, in ms.
pub const TOUR_INTER_SEQUENCE_PAUSE_MS: u64 = 4000;
/// The pause between selecting an entry and opening its edit form, in ms.
pub const TOUR_SELECT_PAUSE_MS: u64 = 400;

/// Events of the dialog tour that drive the interface.
#[derive(Debug, Clone, Copy, PartialEq, Eq, Structural)]
pub enum DemoUiEvent {
    /// Open the tunnel-type selection overlay.
    OpenTypeSelector,
    /// Move the type-selector highlight to the given index (0=SSH, 1=K8s, 2=sshuttle).
    HighlightType(usize),
    /// Advance from the type selector to the creation form for the given
    /// type, pre-populated with fixture data.
    SelectTunnelType(FormEntryType),
    /// Move the list selection to the given entry index.
    SelectEntry(usize),
    /// Open the edit form for an existing entry (by identifier).
    OpenEditForm(EntryId),
    /// Dismiss whatever overlay is open.
    CloseDialog,
}

/// What the tour shows: the entry types it creates (with their position in
/// the type selector) and the entries it edits.
#[derive(Debug, Clone)]
pub struct TourPlan {
    pub new_types: Vec<(usize, FormEntryType)>,
    pub edit_ids: Vec<EntryId>,
}

/// The form type that edits an entry.
pub open spec fn entry_kind(e: TunnelEntryView) -> FormEntryType {
    match e {
        TunnelEntryView::Ssh(_) => FormEntryType::Ssh,
        TunnelEntryView::K8s(_) => FormEntryType::K8s,
        TunnelEntryView::Sshuttle(_) => FormEntryType::Sshuttle,
    }
}

/// Whether some entry has the given kind.
pub open spec fn has_kind(s: Seq<TunnelEntryView>, t: FormEntryType) -> bool {
    exists|i: int| 0 <= i < s.len() && entry_kind(#[trigger] s[i]) == t
}

/// The tour's entry types: SSH, then Kubernetes, then sshuttle, each only
/// when some entry has it.
pub open spec fn tour_types_spec(s: Seq<TunnelEntryView>) -> Seq<(usize, FormEntryType)> {
    (if has_kind(s, FormEntryType::Ssh) { seq![(0usize, FormEntryType::Ssh)] } else { seq![] })
    + (if has_kind(s, FormEntryType::K8s) { seq![(1usize, FormEntryType::K8s)] } else { seq![] })
    + (if has_kind(s, FormEntryType::Sshuttle) { seq![(2usize, FormEntryType::Sshuttle)] } else { seq![] })
}

/// The identifiers of the first three entries (or of all, if fewer).
pub open spec fn tour_edit_ids_spec(s: Seq<TunnelEntryView>) -> Seq<EntryId> {
    let n = if s.len() < 3 { s.len() } else { 3 };
    Seq::new(n, |i: int| s[i].id())
}

fn entry_kind_of(e: &TunnelEntry) -> (r: FormEntryType)
    ensures
        r == entry_kind(e@),
{
    match e {
        TunnelEntry::Ssh(_) => FormEntryType::Ssh,
        TunnelEntry::K8s(_) => FormEntryType::K8s,
        TunnelEntry::Sshuttle(_) => FormEntryType::Sshuttle,
    }
}

/// The plan of the tour over the given entries.
pub fn tour_plan(entries: &Vec<TunnelEntry>) -> (r: TourPlan)
    ensures
        r.new_types@ == tour_types_spec(crate::model::entries_view(entries@)),
        r.edit_ids@ == tour_edit_ids_spec(crate::model::entries_view(entries@)),
{
    let ghost s = crate::model::entries_view(entries@);
    let mut ssh = false;
    let mut k8s = false;
    let mut shuttle = false;
    let mut edit_ids: Vec<EntryId> = Vec::new();
    let mut i: usize = 0;
    while i < entries.len()
        invariant
            i <= entries@.len(),
            s == crate::model::entries_view(entries@),
            ssh == has_kind(s.take(i as int), FormEntryType::Ssh),
            k8s == has_kind(s.take(i as int), FormEntryType::K8s),
            shuttle == has_kind(s.take(i as int), FormEntryType::Sshuttle),
            edit_ids@ == tour_edit_ids_spec(s.take(i as int)),
        decreases entries@.len() - i,
    {
        let t = entry_kind_of(&entries[i]);
        assert(s[i as int] == entries@[i as int]@);
        let ghost p = s.take(i as int);
        let ghost q = s.take(i + 1);
        assert forall|t2: FormEntryType| has_kind(q, t2) == (has_kind(p, t2) || entry_kind(s[i as int]) == t2) by {
            if has_kind(q, t2) {
                let j = choose|j: int| 0 <= j < q.len() && entry_kind(#[trigger] q[j]) == t2;
                if j < i {
                    assert(p[j] == q[j]);
                }
            }
            if has_kind(p, t2) {
                let j = choose|j: int| 0 <= j < p.len() && entry_kind(#[trigger] p[j]) == t2;
                assert(q[j] == p[j]);
            }
            if entry_kind(s[i as int]) == t2 {
                assert(q[i as int] == s[i as int]);
            }
        }
        match t {
            FormEntryType::Ssh => { ssh = true; },
            FormEntryType::K8s => { k8s = true; },
            FormEntryType::Sshuttle => { shuttle = true; },
        }
        if i < 3 {
            edit_ids.push(entries[i].id());
        }
        assert(edit_ids@ =~= tour_edit_ids_spec(q));
        i = i + 1;
    }
    assert(s.take(entries@.len() as int) =~= s);
    let mut new_types: Vec<(usize, FormEntryType)> = Vec::new();
    if ssh {
        new_types.push((0, FormEntryType::Ssh));
    }
    if k8s {
        new_types.push((1, FormEntryType::K8s));
    }
    if shuttle {
        new_types.push((2, FormEntryType::Sshuttle));
    }
    assert(new_types@ =~= tour_types_spec(s));
    TourPlan { new_types, edit_ids }
}

/// Where the tour is.
#[derive(Debug, Clone, Copy, PartialEq, Eq, Structural)]
pub enum TourPhase {
    /// The first wait.
    Splash,
    /// About to open the type selector.
    OpenSelector,
    /// About to highlight option `i`.
    Highlight { i: usize },
    /// About to open the creation form.
    SelectType,
    /// About to close the creation form.
    CloseNew,
    /// About to select the entry to edit.
    SelectEntry,
    /// About to open its edit form.
    OpenEdit,
    /// About to close the edit form.
    CloseEdit,
    /// Nothing to show: the tour has ended.
    Done,
}

/// The tour's position: the next creation sequence, the next edit
/// sequence, and the phase.
#[derive(Debug, Clone, Copy, PartialEq, Eq, Structural)]
pub struct TourState {
    pub new_idx: usize,
    pub edit_idx: usize,
    pub phase: TourPhase,
}

/// One step of the tour: the event to send (if any), how long to sleep
/// afterwards, and the state that follows.
#[derive(Debug, Clone, Copy)]
pub struct TourStep {
    pub event: Option<DemoUiEvent>,
    pub sleep_ms: u64,
    pub next: TourState,
}

/// The state of a tour over a plan is consistent: the indices point into
/// the plan's lists, a highlight does not pass the target option, and the
/// phases of a sequence occur only when that sequence has something to show.
pub open spec fn tour_wf(types: Seq<(usize, FormEntryType)>, ids: Seq<EntryId>, st: TourState) -> bool {
    &&& (types.len() > 0 ==> st.new_idx < types.len())
    &&& (ids.len() > 0 ==> st.edit_idx < ids.len())
    &&& (types.len() == 0 && ids.len() == 0 <==> st.phase == TourPhase::Done)
    &&& (st.phase == TourPhase::OpenSelector || st.phase is Highlight || st.phase == TourPhase::SelectType
        || st.phase == TourPhase::CloseNew ==> types.len() > 0)
    &&& (st.phase == TourPhase::SelectEntry || st.phase == TourPhase::OpenEdit || st.phase
        == TourPhase::CloseEdit ==> ids.len() > 0)
    &&& (st.phase matches TourPhase::Highlight { i } ==> i <= types[st.new_idx as int].0)
}

/// The first phase of a round of sequences.
pub open spec fn round_start(types: Seq<(usize, FormEntryType)>) -> TourPhase {
    if types.len() > 0 { TourPhase::OpenSelector } else { TourPhase::SelectEntry }
}

/// The state the tour starts in.
pub open spec fn tour_start_spec(types: Seq<(usize, FormEntryType)>, ids: Seq<EntryId>) -> TourState {
    TourState {
        new_idx: 0,
        edit_idx: 0,
        phase: if types.len() == 0 && ids.len() == 0 { TourPhase::Done } else { TourPhase::Splash },
    }
}

/// One step of the tour. Each creation sequence opens the type selector,
/// sweeps the highlight from the first option to its type's option, opens
/// the form, and closes it; each edit sequence selects an entry, opens its
/// form, and closes it. The sequences alternate and rotate through the plan.
pub open spec fn tour_step_spec(types: Seq<(usize, FormEntryType)>, ids: Seq<EntryId>, st: TourState) -> (
    Option<DemoUiEvent>,
    u64,
    TourState,
) {
    match st.phase {
        TourPhase::Done => (None, 0, st),
        TourPhase::Splash => (None, TOUR_SPLASH_HOLD_MS, TourState { phase: round_start(types), ..st }),
        TourPhase::OpenSelector => (
            Some(DemoUiEvent::OpenTypeSelector),
            0,
            TourState { phase: TourPhase::Highlight { i: 0 }, ..st },
        ),
        TourPhase::Highlight { i } => (
            Some(DemoUiEvent::HighlightType(i)),
            TOUR_TYPE_HIGHLIGHT_MS,
            TourState {
                phase: if i < types[st.new_idx as int].0 {
                    TourPhase::Highlight { i: (i + 1) as usize }
                } else {
                    TourPhase::SelectType
                },
                ..st
            },
        ),
        TourPhase::SelectType => (
            Some(DemoUiEvent::SelectTunnelType(types[st.new_idx as int].1)),
            TOUR_FORM_HOLD_MS,
            TourState { phase: TourPhase::CloseNew, ..st },
        ),
        TourPhase::CloseNew => (
            Some(DemoUiEvent::CloseDialog),
            TOUR_INTER_SEQUENCE_PAUSE_MS,
            TourState {
                new_idx: ((st.new_idx + 1) % (types.len() as int)) as usize,
                phase: if ids.len() > 0 { TourPhase::SelectEntry } else { TourPhase::OpenSelector },
                ..st
            },
        ),
        TourPhase::SelectEntry => (
            Some(DemoUiEvent::SelectEntry(st.edit_idx)),
            TOUR_SELECT_PAUSE_MS,
            TourState { phase: TourPhase::OpenEdit, ..st },
        ),
        TourPhase::OpenEdit => (
            Some(DemoUiEvent::OpenEditForm(ids[st.edit_idx as int])),
            TOUR_FORM_HOLD_MS,
            TourState { phase: TourPhase::CloseEdit, ..st },
        ),
        TourPhase::CloseEdit => (
            Some(DemoUiEvent::CloseDialog),
            TOUR_INTER_SEQUENCE_PAUSE_MS,
            TourState {
                edit_idx: ((st.edit_idx + 1) % (ids.len() as int)) as usize,
                phase: round_start(types),
                ..st
            },
        ),
    }
}

/// The state a tour over `plan` starts in.
pub fn tour_start(plan: &TourPlan) -> (r: TourState)
    ensures
        r == tour_start_spec(plan.new_types@, plan.edit_ids@),
        tour_wf(plan.new_types@, plan.edit_ids@, r),
{
    let phase = if plan.new_types.len() == 0 && plan.edit_ids.len() == 0 {
        TourPhase::Done
    } else {
        TourPhase::Splash
    };
    TourState { new_idx: 0, edit_idx: 0, phase }
}

/// One step of the tour (see [`tour_step_spec`]).
pub fn tour_step(plan: &TourPlan, st: TourState) -> (r: TourStep)
    requires
        tour_wf(plan.new_types@, plan.edit_ids@, st),
    ensures
        (r.event, r.sleep_ms, r.next) == tour_step_spec(plan.new_types@, plan.edit_ids@, st),
        tour_wf(plan.new_types@, plan.edit_ids@, r.next),
{
    let types = &plan.new_types;
    let ids = &plan.edit_ids;
    let start = if types.len() > 0 { TourPhase::OpenSelector } else { TourPhase::SelectEntry };
    match st.phase {
        TourPhase::Done => TourStep { event: None, sleep_ms: 0, next: st },
        TourPhase::Splash => TourStep {
            event: None,
            sleep_ms: TOUR_SPLASH_HOLD_MS,
            next: TourState { phase: start, ..st },
        },
        TourPhase::OpenSelector => TourStep {
            event: Some(DemoUiEvent::OpenTypeSelector),
            sleep_ms: 0,
            next: TourState { phase: TourPhase::Highlight { i: 0 }, ..st },
        },
        TourPhase::Highlight { i } => {
            let target = types[st.new_idx].0;
            let phase = if i < target { TourPhase::Highlight { i: i + 1 } } else { TourPhase::SelectType };
            TourStep {
                event: Some(DemoUiEvent::HighlightType(i)),
                sleep_ms: TOUR_TYPE_HIGHLIGHT_MS,
                next: TourState { phase, ..st },
            }
        },
        TourPhase::SelectType => TourStep {
            event: Some(DemoUiEvent::SelectTunnelType(types[st.new_idx].1)),
            sleep_ms: TOUR_FORM_HOLD_MS,
            next: TourState { phase: TourPhase::CloseNew, ..st },
        },
        TourPhase::CloseNew => {
            let new_idx = (st.new_idx + 1) % types.len();
            let phase = if ids.len() > 0 { TourPhase::SelectEntry } else { TourPhase::OpenSelector };
            TourStep {
                event: Some(DemoUiEvent::CloseDialog),
                sleep_ms: TOUR_INTER_SEQUENCE_PAUSE_MS,
                next: TourState { new_idx, phase, ..st },
            }
        },
        TourPhase::SelectEntry => TourStep {
            event: Some(DemoUiEvent::SelectEntry(st.edit_idx)),
            sleep_ms: TOUR_SELECT_PAUSE_MS,
            next: TourState { phase: TourPhase::OpenEdit, ..st },
        },
        TourPhase::OpenEdit => TourStep {
            event: Some(DemoUiEvent::OpenEditForm(ids[st.edit_idx])),
            sleep_ms: TOUR_FORM_HOLD_MS,
            next: TourState { phase: TourPhase::CloseEdit, ..st },
        },
        TourPhase::CloseEdit => {
            let n = ids.len();
            assert(st.edit_idx < n);
            let edit_idx = (st.edit_idx + 1) % n;
            TourStep {
                event: Some(DemoUiEvent::CloseDialog),
                sleep_ms: TOUR_INTER_SEQUENCE_PAUSE_MS,
                next: TourState { edit_idx, phase: start, ..st },
            }
        },
    }
}


/// The position of the first entry of kind `t`.
pub open spec fn first_of_kind(s: Seq<TunnelEntryView>, t: FormEntryType) -> Option<int>
    decreases s.len(),
{
    if s.len() == 0 {
        None
    } else if entry_kind(s[0]) == t {
        Some(0)
    } else {
        match first_of_kind(s.drop_first(), t) {
            Some(i) => Some(i + 1),
            None => None,
        }
    }
}

proof fn lemma_first_of_kind(s: Seq<TunnelEntryView>, t: FormEntryType)
    ensures
        match first_of_kind(s, t) {
            Some(i) => 0 <= i < s.len() && entry_kind(s[i]) == t && forall|j: int| 0 <= j < i ==> entry_kind(s[j]) != t,
            None => forall|j: int| 0 <= j < s.len() ==> entry_kind(s[j]) != t,
        },
    decreases s.len(),
{
    if s.len() > 0 && entry_kind(s[0]) != t {
        lemma_first_of_kind(s.drop_first(), t);
        assert forall|j: int| 0 < j < s.len() implies s[j] == s.drop_first()[j - 1] by {}
    }
}

/// The creation form the tour shows for entry type `t`: filled from the
/// first entry of that type (as a new entry), or empty when there is none.
pub open spec fn demo_form_spec(s: Seq<TunnelEntryView>, t: FormEntryType) -> FormStateView {
    match first_of_kind(s, t) {
        Some(i) => FormStateView { editing_id: None, ..entry_form_spec(s[i]) },
        None => match t {
            FormEntryType::Ssh => crate::form::new_ssh_form_spec(),
            FormEntryType::K8s => crate::form::new_k8s_form_spec(),
            FormEntryType::Sshuttle => crate::form::new_sshuttle_form_spec(),
        },
    }
}

/// The application after a tour event.
pub open spec fn demo_event_spec(a: AppView, ev: DemoUiEvent) -> AppView {
    match ev {
        DemoUiEvent::OpenTypeSelector => AppView {
            mode: AppModeView::TypeSelect(EntryTypeSelection { selected: 0 }),
            ..a
        },
        DemoUiEvent::HighlightType(i) => if a.mode is TypeSelect && i < 3 {
            AppView { mode: AppModeView::TypeSelect(EntryTypeSelection { selected: i }), ..a }
        } else {
            a
        },
        DemoUiEvent::SelectTunnelType(t) => AppView { mode: AppModeView::Form(demo_form_spec(a.entries, t)), ..a },
        DemoUiEvent::SelectEntry(i) => if i < a.entries.len() { AppView { selected: i, ..a } } else { a },
        DemoUiEvent::OpenEditForm(id) => match find_entry(a.entries, id) {
            Some(e) => AppView { mode: AppModeView::Form(entry_form_spec(e)), ..a },
            None => a,
        },
        DemoUiEvent::CloseDialog => AppView { mode: AppModeView::Normal, ..a },
    }
}

/// The form that edits `e`.
fn entry_form(e: &TunnelEntry) -> (r: FormState)
    ensures
        r@ == entry_form_spec(e@),
{
    match e {
        TunnelEntry::Ssh(x) => crate::form::ssh_entry_to_form(x),
        TunnelEntry::K8s(x) => crate::form::k8s_entry_to_form(x),
        TunnelEntry::Sshuttle(x) => crate::form::sshuttle_entry_to_form(x),
    }
}

/// The position of the first entry of kind `t`.
fn first_index_of_kind(entries: &Vec<TunnelEntry>, t: FormEntryType) -> (r: Option<usize>)
    ensures
        match r {
            Some(k) => k < entries@.len() && first_of_kind(crate::model::entries_view(entries@), t) == Some(k as int),
            None => first_of_kind(crate::model::entries_view(entries@), t) is None,
        },
{
    let ghost s = crate::model::entries_view(entries@);
    proof {
        lemma_first_of_kind(s, t);
    }
    let mut i: usize = 0;
    while i < entries.len()
        invariant
            i <= entries@.len(),
            s == crate::model::entries_view(entries@),
            forall|j: int| 0 <= j < i ==> entry_kind(#[trigger] s[j]) != t,
        decreases entries@.len() - i,
    {
        assert(s[i as int] == entries@[i as int]@);
        if entry_kind_of(&entries[i]) == t {
            proof {
                lemma_first_of_kind(s, t);
                match first_of_kind(s, t) {
                    Some(m) => {
                        if m < i {
                            assert(entry_kind(s[m]) != t);
                        }
                    },
                    None => {},
                }
            }
            return Some(i);
        }
        i = i + 1;
    }
    proof {
        match first_of_kind(s, t) {
            Some(m) => {
                assert(entry_kind(s[m]) != t);
            },
            None => {},
        }
    }
    None
}

impl App {
    /// Applies an event of the dialog tour (see [`demo_event_spec`]).
    pub fn apply_demo_event(&mut self, ev: DemoUiEvent)
        requires
            old(self).inv(),
        ensures
            final(self).inv(),
            final(self)@ == demo_event_spec(old(self)@, ev),
            final(self).connection_states == old(self).connection_states,
            final(self).sessions == old(self).sessions,
    {
        proof {
            crate::form::law_new_forms_wf(arbitrary(), arbitrary(), arbitrary());
        }
        match ev {
            DemoUiEvent::OpenTypeSelector => {
                self.mode = AppMode::TypeSelect(EntryTypeSelection { selected: 0 });
            },
            DemoUiEvent::HighlightType(i) => {
                let in_selector = match self.mode {
                    AppMode::TypeSelect(_) => true,
                    _ => false,
                };
                if in_selector && i < 3 {
                    self.mode = AppMode::TypeSelect(EntryTypeSelection { selected: i });
                }
            },
            DemoUiEvent::SelectTunnelType(t) => {
                let f = match first_index_of_kind(&self.entries, t) {
                    Some(k) => {
                        assert(self@.entries[k as int] == self.entries@[k as int]@);
                        let mut f = entry_form(&self.entries[k]);
                        f.editing_id = None;
                        assert(f@ == demo_form_spec(self@.entries, t));
                        f
                    },
                    None => match t {
                        FormEntryType::Ssh => crate::form::new_ssh_form(),
                        FormEntryType::K8s => crate::form::new_k8s_form(),
                        FormEntryType::Sshuttle => crate::form::new_sshuttle_form(),
                    },
                };
                self.mode = AppMode::Form(f);
            },
            DemoUiEvent::SelectEntry(i) => {
                if i < self.entries.len() {
                    self.selected = i;
                }
            },
            DemoUiEvent::OpenEditForm(id) => {
                match self.find_index(id) {
                    Some(i) => {
                        assert(self@.entries[i as int] == self.entries@[i as int]@);
                        let f = entry_form(&self.entries[i]);
                        self.mode = AppMode::Form(f);
                    },
                    None => {},
                }
            },
            DemoUiEvent::CloseDialog => {
                self.mode = AppMode::Normal;
            },
        }
    }
}

} // verus!
