use stunt::app::{timestamp, App, AppMode, Effect, Message};
use stunt::form::FormEntryType;
use stunt::idmap::IdMap;
use stunt::model::{Config, K8sEntry, K8sResourceType, ServerEntry, SshuttleEntry, TunnelEntry};
use stunt::session::{SessionRecord, SessionState};
use stunt::state::{ConnectionState, TunnelEvent};

const SSH_ID: u128 = 11;
const K8S_ID: u128 = 22;
const VPN_ID: u128 = 33;

fn ssh(id: u128, name: &str, auto_restart: bool) -> TunnelEntry {
    TunnelEntry::Ssh(ServerEntry {
        id,
        name: name.to_string(),
        host: "example.com".to_string(),
        port: 22,
        user: None,
        identity_file: None,
        forwards: vec![],
        auto_restart,
    })
}

fn k8s_without_bindings(id: u128) -> TunnelEntry {
    TunnelEntry::K8s(K8sEntry {
        id,
        name: "pods".to_string(),
        kubeconfig: Some("~/.kube/alt".to_string()),
        context: None,
        namespace: None,
        resource_type: K8sResourceType::Pod,
        resource_name: "p".to_string(),
        forwards: vec![],
        auto_restart: false,
    })
}

fn vpn(id: u128) -> TunnelEntry {
    TunnelEntry::Sshuttle(SshuttleEntry {
        id,
        name: "vpn".to_string(),
        host: "vpn.example.com".to_string(),
        port: None,
        user: None,
        identity_file: None,
        subnets: vec!["10.0.0.0/8".to_string()],
        auto_restart: true,
    })
}

fn app(demo: bool) -> App {
    let cfg = Config { entries: vec![ssh(SSH_ID, "web", false), k8s_without_bindings(K8S_ID), vpn(VPN_ID)] };
    App::new(cfg, IdMap::new(), demo)
}

fn status(a: &App) -> String {
    a.status_message.as_ref().map(|s| s.0.clone()).unwrap_or_default()
}

fn step(a: &mut App, m: Message) -> Vec<Effect> {
    a.update_with(m, 999, "now".to_string())
}

fn type_text(a: &mut App, s: &str) {
    for c in s.chars() {
        step(a, Message::FormInput(c));
    }
}

#[test]
fn new_app_starts_disconnected_and_running() {
    let a = app(false);
    assert!(a.running);
    assert_eq!(a.selected, 0);
    assert_eq!(a.mode, AppMode::Normal);
    for id in [SSH_ID, K8S_ID, VPN_ID] {
        assert_eq!(a.state_of(id), ConnectionState::Disconnected);
    }
    assert_eq!(a.count_in_state(ConnectionState::Disconnected), 3);
    assert_eq!(a.state_of(12345), ConnectionState::Disconnected);
}

#[test]
fn navigation_stays_on_the_list() {
    let mut a = app(false);
    step(&mut a, Message::NavigateUp);
    assert_eq!(a.selected, 0);
    step(&mut a, Message::NavigateDown);
    step(&mut a, Message::NavigateDown);
    step(&mut a, Message::NavigateDown);
    assert_eq!(a.selected, 2);
    step(&mut a, Message::NavigateUp);
    assert_eq!(a.selected, 1);
}

#[test]
fn connect_then_connected_then_disconnect() {
    let mut a = app(false);
    let e = step(&mut a, Message::ToggleConnect);
    assert_eq!(e, vec![Effect::Spawn { id: SSH_ID }, Effect::PersistSessions]);
    assert_eq!(a.state_of(SSH_ID), ConnectionState::Connecting);
    assert_eq!(a.sessions.get(SSH_ID), Some(&SessionRecord { pid: None, suspended: false, connected_at: None }));
    assert_eq!(status(&a), "Connecting: web");

    let e = step(&mut a, Message::TunnelEvent(TunnelEvent::PidUpdate { entry_id: SSH_ID, pid: 4242 }));
    assert_eq!(e, vec![Effect::PersistSessions]);
    assert_eq!(a.sessions.get(SSH_ID).unwrap().pid, Some(4242));

    let e = step(&mut a, Message::TunnelEvent(TunnelEvent::Connected { entry_id: SSH_ID }));
    assert_eq!(e, vec![Effect::PersistSessions]);
    assert_eq!(a.state_of(SSH_ID), ConnectionState::Connected);
    assert_eq!(a.sessions.get(SSH_ID).unwrap().connected_at, Some("now".to_string()));
    assert_eq!(status(&a), "Connected: web");
    assert_eq!(a.count_in_state(ConnectionState::Connected), 1);

    let e = step(&mut a, Message::ToggleConnect);
    assert_eq!(e, vec![Effect::StopAndKill { id: SSH_ID }, Effect::PersistSessions]);
    assert_eq!(a.state_of(SSH_ID), ConnectionState::Disconnected);
    assert!(a.sessions.get(SSH_ID).is_none());
    assert_eq!(status(&a), "Disconnecting: web");
}

#[test]
fn auto_restart_entry_is_suspended_then_resumed() {
    let mut a = app(false);
    a.selected = 2;
    step(&mut a, Message::ToggleConnect);
    let e = step(&mut a, Message::ToggleConnect);
    assert_eq!(e, vec![Effect::StopAndKill { id: VPN_ID }, Effect::PersistSessions]);
    assert_eq!(a.state_of(VPN_ID), ConnectionState::Suspended);
    assert_eq!(a.sessions.get(VPN_ID), Some(&SessionRecord { pid: None, suspended: true, connected_at: None }));
    let e = step(&mut a, Message::ToggleConnect);
    assert_eq!(e, vec![Effect::PersistSessions, Effect::Spawn { id: VPN_ID }, Effect::PersistSessions]);
    assert_eq!(a.state_of(VPN_ID), ConnectionState::Connecting);
    assert!(!a.sessions.get(VPN_ID).unwrap().suspended);
}

#[test]
fn workload_without_bindings_fails_at_once() {
    let mut a = app(false);
    a.selected = 1;
    let e = step(&mut a, Message::ToggleConnect);
    assert!(e.is_empty());
    assert_eq!(a.state_of(K8S_ID), ConnectionState::Failed);
    assert_eq!(status(&a), "Connecting: pods");
    assert!(a.sessions.get(K8S_ID).is_none());
}

#[test]
fn tunnel_failures_and_reconnects() {
    let mut a = app(false);
    step(&mut a, Message::ToggleConnect);
    let e = step(&mut a, Message::TunnelEvent(TunnelEvent::Failed { entry_id: SSH_ID, reason: "boom".to_string() }));
    assert_eq!(e, vec![Effect::Release { id: SSH_ID }, Effect::PersistSessions]);
    assert_eq!(a.state_of(SSH_ID), ConnectionState::Failed);
    assert_eq!(status(&a), "Failed: boom");
    assert!(a.sessions.get(SSH_ID).is_none());

    let e = step(&mut a, Message::TunnelEvent(TunnelEvent::Reconnecting { entry_id: VPN_ID, attempt: 2, delay_secs: 4 }));
    assert!(e.is_empty());
    assert_eq!(a.state_of(VPN_ID), ConnectionState::Reconnecting);
    assert_eq!(status(&a), "Reconnecting vpn (attempt 2, 4s delay)");

    // An auto-restart entry keeps its supervisor and session when it drops.
    let e = step(&mut a, Message::TunnelEvent(TunnelEvent::Disconnected { entry_id: VPN_ID }));
    assert!(e.is_empty());
    assert_eq!(a.state_of(VPN_ID), ConnectionState::Failed);
    assert_eq!(status(&a), "Connection lost: vpn");
}

#[test]
fn create_an_ssh_entry_through_the_form() {
    let mut a = app(false);
    step(&mut a, Message::NewEntry);
    assert!(matches!(a.mode, AppMode::TypeSelect(s) if s.selected == 0));
    step(&mut a, Message::FormSubmit);
    assert!(matches!(&a.mode, AppMode::Form(f) if f.entry_type == FormEntryType::Ssh));
    type_text(&mut a, "  db ");
    step(&mut a, Message::FormNextField);
    type_text(&mut a, "db.example.com");
    step(&mut a, Message::FormNextField);
    step(&mut a, Message::FormBackspace);
    step(&mut a, Message::FormBackspace);
    type_text(&mut a, "2200");
    step(&mut a, Message::FormNextField);
    step(&mut a, Message::FormNextField);
    step(&mut a, Message::FormNextField);
    type_text(&mut a, " ");
    let e = step(&mut a, Message::FormSubmit);
    assert_eq!(e, vec![Effect::SaveConfig]);
    assert_eq!(a.mode, AppMode::Normal);
    assert_eq!(a.entries.len(), 4);
    assert_eq!(a.selected, 3);
    assert_eq!(status(&a), "Entry created");
    assert_eq!(a.state_of(999), ConnectionState::Disconnected);
    match &a.entries[3] {
        TunnelEntry::Ssh(s) => {
            assert_eq!(s.id, 999);
            assert_eq!(s.name, "db");
            assert_eq!(s.host, "db.example.com");
            assert_eq!(s.port, 2200);
            assert_eq!(s.user, None);
            assert!(s.auto_restart);
        },
        other => panic!("unexpected entry {other:?}"),
    }
}

#[test]
fn missing_name_keeps_the_form_open() {
    let mut a = app(false);
    step(&mut a, Message::NewEntry);
    step(&mut a, Message::FormSubmit);
    let e = step(&mut a, Message::FormSubmit);
    assert!(e.is_empty());
    assert!(matches!(a.mode, AppMode::Form(_)));
    assert_eq!(status(&a), "Name and Host are required");
    assert_eq!(a.entries.len(), 3);
    step(&mut a, Message::FormCancel);
    assert_eq!(a.mode, AppMode::Normal);
}

#[test]
fn unparsable_port_falls_back_to_22() {
    let mut a = app(false);
    step(&mut a, Message::NewEntry);
    step(&mut a, Message::FormSubmit);
    type_text(&mut a, "n");
    step(&mut a, Message::FormNextField);
    type_text(&mut a, "h");
    step(&mut a, Message::FormNextField);
    type_text(&mut a, "x");
    step(&mut a, Message::FormSubmit);
    match &a.entries[3] {
        TunnelEntry::Ssh(s) => assert_eq!(s.port, 22),
        other => panic!("unexpected entry {other:?}"),
    }
}

#[test]
fn sshuttle_form_splits_subnets_and_needs_one() {
    let mut a = app(false);
    step(&mut a, Message::NewEntry);
    step(&mut a, Message::NavigateDown);
    step(&mut a, Message::FormNextField);
    step(&mut a, Message::FormSubmit);
    assert!(matches!(&a.mode, AppMode::Form(f) if f.entry_type == FormEntryType::Sshuttle));
    type_text(&mut a, "corp");
    step(&mut a, Message::FormNextField);
    type_text(&mut a, "vpn.corp");
    step(&mut a, Message::FormSubmit);
    assert_eq!(status(&a), "At least one subnet is required");
    step(&mut a, Message::FormNextField);
    type_text(&mut a, " 10.0.0.0/8 ,, 172.16.0.0/12");
    step(&mut a, Message::FormNextField);
    type_text(&mut a, "2222");
    step(&mut a, Message::FormSubmit);
    match &a.entries[3] {
        TunnelEntry::Sshuttle(s) => {
            assert_eq!(s.subnets, vec!["10.0.0.0/8".to_string(), "172.16.0.0/12".to_string()]);
            assert_eq!(s.port, Some(2222));
        },
        other => panic!("unexpected entry {other:?}"),
    }
}

#[test]
fn editing_a_workload_keeps_its_id_and_kubeconfig() {
    let mut a = app(false);
    a.selected = 1;
    step(&mut a, Message::EditEntry);
    assert!(matches!(&a.mode, AppMode::Form(f) if f.editing_id == Some(K8S_ID)));
    // Move to the resource type and replace it with "SERVICE".
    for _ in 0..3 {
        step(&mut a, Message::FormNextField);
    }
    for _ in 0..3 {
        step(&mut a, Message::FormBackspace);
    }
    type_text(&mut a, "SERVICE");
    let e = step(&mut a, Message::FormSubmit);
    assert_eq!(e, vec![Effect::SaveConfig]);
    assert_eq!(status(&a), "Entry updated");
    match &a.entries[1] {
        TunnelEntry::K8s(k) => {
            assert_eq!(k.id, K8S_ID);
            assert_eq!(k.resource_type, K8sResourceType::Service);
            assert_eq!(k.kubeconfig, Some("~/.kube/alt".to_string()));
        },
        other => panic!("unexpected entry {other:?}"),
    }
}

#[test]
fn delete_forgets_state_and_session() {
    let mut a = app(false);
    step(&mut a, Message::ToggleConnect);
    let e = step(&mut a, Message::DeleteEntry);
    assert_eq!(
        e,
        vec![Effect::StopAndKill { id: SSH_ID }, Effect::PersistSessions, Effect::SaveConfig, Effect::PersistSessions]
    );
    assert_eq!(a.entries.len(), 2);
    assert!(a.connection_states.get(SSH_ID).is_none());
    assert!(a.sessions.get(SSH_ID).is_none());
    assert_eq!(status(&a), "Entry deleted");
    a.selected = 1;
    step(&mut a, Message::DeleteEntry);
    assert_eq!(a.selected, 0);
}

#[test]
fn demo_mode_never_writes() {
    let mut a = app(true);
    let e = step(&mut a, Message::ToggleConnect);
    assert_eq!(e, vec![Effect::Spawn { id: SSH_ID }]);
    let e = step(&mut a, Message::DeleteEntry);
    assert_eq!(e, vec![Effect::StopAndKill { id: SSH_ID }]);
    // In demo mode a process announcement shows the tunnel connecting.
    step(&mut a, Message::TunnelEvent(TunnelEvent::PidUpdate { entry_id: VPN_ID, pid: 1 }));
    assert_eq!(a.state_of(VPN_ID), ConnectionState::Connecting);
    a.set_demo_readonly_message();
    assert_eq!(status(&a), "Demo mode \u{2014} read-only");
}

#[test]
fn quit_stops_the_app() {
    let mut a = app(false);
    step(&mut a, Message::Quit);
    assert!(!a.running);
}

#[test]
fn fresh_status_only() {
    let mut a = app(false);
    assert_eq!(a.status_message_if_fresh(0), None);
    step(&mut a, Message::Quit);
    a.set_kubectl_warning("k".to_string());
    a.set_sshuttle_warning("s".to_string());
    assert_eq!(a.kubectl_warning, Some("k".to_string()));
    assert_eq!(a.sshuttle_warning, Some("s".to_string()));
    a.set_demo_readonly_message();
    assert_eq!(a.status_message_if_fresh(2), Some("Demo mode \u{2014} read-only"));
    assert_eq!(a.status_message_if_fresh(3), None);
    assert_eq!(a.active_status_message(), Some("Demo mode \u{2014} read-only"));
}

#[test]
fn timestamps() {
    assert_eq!(timestamp(Some(1700000000)), "1700000000s-since-epoch");
    assert_eq!(timestamp(None), "unknown");
}

#[test]
fn update_gives_new_entries_a_version_4_uuid() {
    let mut a = app(false);
    step(&mut a, Message::NewEntry);
    step(&mut a, Message::FormSubmit);
    type_text(&mut a, "n");
    step(&mut a, Message::FormNextField);
    type_text(&mut a, "h");
    let e = a.update(Message::FormSubmit);
    assert_eq!(e, vec![Effect::SaveConfig]);
    let id = a.entries[3].id();
    assert_eq!((id >> 76) & 0xf, 4);
    assert_eq!((id >> 62) & 0x3, 2);
}

#[test]
fn reconcile_adopts_live_drops_dead_and_orphans() {
    let cfg = Config { entries: vec![ssh(SSH_ID, "web", false), k8s_without_bindings(K8S_ID), vpn(VPN_ID), ssh(44, "idle", false)] };
    let mut sessions: SessionState = IdMap::new();
    sessions.insert(77, SessionRecord { pid: Some(5), suspended: false, connected_at: None });
    sessions.insert(SSH_ID, SessionRecord { pid: Some(100), suspended: false, connected_at: None });
    sessions.insert(K8S_ID, SessionRecord { pid: Some(200), suspended: false, connected_at: None });
    sessions.insert(VPN_ID, SessionRecord { pid: Some(300), suspended: false, connected_at: None });
    sessions.insert(44, SessionRecord { pid: None, suspended: true, connected_at: None });
    let mut a = App::new(cfg, sessions, false);
    let checks = a.liveness_checks();
    assert_eq!(
        checks,
        vec![
            (SSH_ID, 100, stunt::pid::TunnelProcessType::Ssh),
            (K8S_ID, 200, stunt::pid::TunnelProcessType::Kubectl),
            (VPN_ID, 300, stunt::pid::TunnelProcessType::Sshuttle),
        ]
    );
    // The ssh and workload processes are still alive; the sshuttle one is not.
    let e = a.reconcile_sessions(&vec![SSH_ID, K8S_ID]);
    assert_eq!(e, vec![Effect::Adopt { id: SSH_ID, pid: 100 }, Effect::Spawn { id: VPN_ID }, Effect::PersistSessions, Effect::PersistSessions]);
    assert!(a.sessions.get(77).is_none());
    assert_eq!(a.state_of(SSH_ID), ConnectionState::Connected);
    // A workload without bindings is marked connected but nothing is adopted.
    assert_eq!(a.state_of(K8S_ID), ConnectionState::Connected);
    assert_eq!(a.state_of(VPN_ID), ConnectionState::Connecting);
    assert_eq!(a.state_of(44), ConnectionState::Suspended);
    assert!(a.sessions.get(44).unwrap().suspended);
}

#[test]
fn reconcile_without_live_processes() {
    let cfg = Config { entries: vec![ssh(SSH_ID, "web", false)] };
    let mut sessions: SessionState = IdMap::new();
    sessions.insert(SSH_ID, SessionRecord { pid: Some(100), suspended: false, connected_at: None });
    let mut a = App::new(cfg, sessions, false);
    let e = a.reconcile_sessions(&vec![]);
    assert_eq!(e, vec![Effect::PersistSessions]);
    assert_eq!(a.state_of(SSH_ID), ConnectionState::Disconnected);
    assert!(a.sessions.get(SSH_ID).is_none());
}

#[test]
fn demo_app_ignores_recorded_sessions() {
    let mut sessions: SessionState = IdMap::new();
    sessions.insert(SSH_ID, SessionRecord { pid: Some(100), suspended: false, connected_at: None });
    let a = App::new(Config { entries: vec![ssh(SSH_ID, "web", false)] }, sessions, true);
    assert_eq!(a.sessions.len(), 0);
}

#[test]
fn ctrl_t_cycles_the_workload_resource_type() {
    let mut a = app(false);
    a.selected = 1;
    step(&mut a, Message::EditEntry);
    let value = |a: &App| match &a.mode {
        AppMode::Form(f) => f.fields[3].value.clone(),
        _ => String::new(),
    };
    assert_eq!(value(&a), "pod");
    step(&mut a, Message::FormCycleForwardType);
    assert_eq!(value(&a), "service");
    step(&mut a, Message::FormCycleForwardType);
    assert_eq!(value(&a), "deployment");
    step(&mut a, Message::FormCycleForwardType);
    assert_eq!(value(&a), "pod");
    step(&mut a, Message::FormCycleForwardType);
    step(&mut a, Message::FormSubmit);
    match &a.entries[1] {
        TunnelEntry::K8s(k) => assert_eq!(k.resource_type, K8sResourceType::Service),
        other => panic!("unexpected entry {other:?}"),
    }
}

#[test]
fn ssh_forward_sub_form_round_trip() {
    let mut a = app(false);
    step(&mut a, Message::EditEntry);
    step(&mut a, Message::FormAddForward);
    type_text(&mut a, "8080");
    step(&mut a, Message::FormNextField);
    type_text(&mut a, "db.internal");
    step(&mut a, Message::FormNextField);
    type_text(&mut a, "5432");
    step(&mut a, Message::FormSubmit);
    match &a.mode {
        AppMode::Form(f) => {
            assert_eq!(f.forwards.len(), 1);
            assert_eq!(f.forwards[0].to_ssh_flag(), "-L 127.0.0.1:8080:db.internal:5432");
            assert_eq!(f.focus, stunt::form::FormFocus::ForwardList);
        },
        other => panic!("unexpected mode {other:?}"),
    }
    // Back to the connection fields and save.
    step(&mut a, Message::FormPrevField);
    step(&mut a, Message::FormSubmit);
    match &a.entries[0] {
        TunnelEntry::Ssh(s) => assert_eq!(s.forwards.len(), 1),
        other => panic!("unexpected entry {other:?}"),
    }
}
