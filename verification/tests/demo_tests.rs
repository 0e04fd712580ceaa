use stunt::app::{App, AppMode};
use stunt::demo::{
    demo_entries, demo_step, tour_plan, tour_start, tour_step, DemoDraws, DemoPhase, DemoUiEvent, TourPhase,
};
use stunt::form::FormEntryType;
use stunt::idmap::IdMap;
use stunt::model::{Config, K8sResourceType, TunnelEntry};
use stunt::state::TunnelEvent;

fn draws() -> DemoDraws {
    DemoDraws {
        stagger_ms: 1200,
        pid: 12345,
        connecting_ms: 2500,
        connected_ms: 20000,
        fails: false,
        failed_ms: 15000,
        two_attempts: true,
        delay_secs: 3,
        rest_ms: 9000,
    }
}

#[test]
fn demo_fixtures() {
    let e = demo_entries();
    assert_eq!(e.len(), 6);
    let names: Vec<&str> = e.iter().map(|x| x.name()).collect();
    assert_eq!(
        names,
        vec!["Production DB", "Dev API Gateway", "Staging Pods", "Monitoring Stack", "Corp VPN", "Lab Network"]
    );
    assert_eq!(e.iter().filter(|x| matches!(x, TunnelEntry::Ssh(_))).count(), 2);
    assert_eq!(e.iter().filter(|x| matches!(x, TunnelEntry::K8s(_))).count(), 2);
    assert_eq!(e.iter().filter(|x| matches!(x, TunnelEntry::Sshuttle(_))).count(), 2);
    match (&e[2], &e[3]) {
        (TunnelEntry::K8s(a), TunnelEntry::K8s(b)) => {
            assert_eq!(a.resource_type, K8sResourceType::Deployment);
            assert_eq!(b.resource_type, K8sResourceType::Service);
        }
        _ => panic!("workloads expected"),
    }
    match (&e[4], &e[5]) {
        (TunnelEntry::Sshuttle(a), TunnelEntry::Sshuttle(b)) => {
            assert_eq!(a.subnets.len(), 2);
            assert_eq!(b.subnets.len(), 1);
        }
        _ => panic!("sshuttle sessions expected"),
    }
    assert_eq!(e.iter().filter(|x| x.auto_restart()).count(), 4);
    for x in &e {
        assert_eq!((x.id() >> 76) & 0xf, 4);
    }
}

#[test]
fn demo_tunnel_cycle_with_auto_restart() {
    let id = 5;
    let s = demo_step(id, true, DemoPhase::Stagger, draws());
    assert!(s.event.is_none());
    assert_eq!(s.sleep_ms, 1200);
    let s = demo_step(id, true, s.next, draws());
    assert!(matches!(s.event, Some(TunnelEvent::PidUpdate { entry_id: 5, pid: 12345 })));
    let s = demo_step(id, true, s.next, draws());
    assert!(matches!(s.event, Some(TunnelEvent::Connected { entry_id: 5 })));
    assert_eq!(s.sleep_ms, 20000);
    let s = demo_step(id, true, s.next, draws());
    assert!(matches!(s.event, Some(TunnelEvent::Disconnected { entry_id: 5 })));
    let s = demo_step(id, true, s.next, draws());
    assert!(matches!(s.event, Some(TunnelEvent::Reconnecting { attempt: 1, delay_secs: 3, .. })));
    assert_eq!(s.sleep_ms, 3000);
    let s = demo_step(id, true, s.next, draws());
    assert!(matches!(s.event, Some(TunnelEvent::Reconnecting { attempt: 2, .. })));
    assert_eq!(s.next, DemoPhase::Spawn);
}

#[test]
fn demo_tunnel_failure_and_rest() {
    let mut d = draws();
    d.fails = true;
    let s = demo_step(6, false, DemoPhase::Outcome, d);
    match s.event {
        Some(TunnelEvent::Failed { entry_id, reason }) => {
            assert_eq!(entry_id, 6);
            assert_eq!(reason, "connection refused (simulated)");
        },
        other => panic!("unexpected event {other:?}"),
    }
    assert_eq!(s.sleep_ms, 15000);
    assert_eq!(s.next, DemoPhase::Spawn);
    let s = demo_step(6, false, DemoPhase::Outcome, draws());
    assert!(matches!(s.event, Some(TunnelEvent::Disconnected { .. })));
    assert_eq!(s.sleep_ms, 9000);
    assert_eq!(s.next, DemoPhase::Spawn);
}

#[test]
fn tour_script() {
    let entries = demo_entries();
    let plan = tour_plan(&entries);
    assert_eq!(plan.new_types, vec![(0, FormEntryType::Ssh), (1, FormEntryType::K8s), (2, FormEntryType::Sshuttle)]);
    assert_eq!(plan.edit_ids, vec![entries[0].id(), entries[1].id(), entries[2].id()]);
    let mut st = tour_start(&plan);
    assert_eq!(st.phase, TourPhase::Splash);
    let mut events = Vec::new();
    for _ in 0..14 {
        let s = tour_step(&plan, st);
        if let Some(e) = s.event {
            events.push(e);
        }
        st = s.next;
    }
    assert_eq!(
        events,
        vec![
            DemoUiEvent::OpenTypeSelector,
            DemoUiEvent::HighlightType(0),
            DemoUiEvent::SelectTunnelType(FormEntryType::Ssh),
            DemoUiEvent::CloseDialog,
            DemoUiEvent::SelectEntry(0),
            DemoUiEvent::OpenEditForm(entries[0].id()),
            DemoUiEvent::CloseDialog,
            DemoUiEvent::OpenTypeSelector,
            DemoUiEvent::HighlightType(0),
            DemoUiEvent::HighlightType(1),
            DemoUiEvent::SelectTunnelType(FormEntryType::K8s),
            DemoUiEvent::CloseDialog,
            DemoUiEvent::SelectEntry(1),
        ]
    );
}

#[test]
fn empty_tour_is_done() {
    let plan = tour_plan(&vec![]);
    let st = tour_start(&plan);
    assert_eq!(st.phase, TourPhase::Done);
    assert!(tour_step(&plan, st).event.is_none());
}

#[test]
fn tour_events_drive_the_app() {
    let entries = demo_entries();
    let mut a = App::new(Config { entries: entries.clone() }, IdMap::new(), true);
    a.apply_demo_event(DemoUiEvent::OpenTypeSelector);
    assert!(matches!(a.mode, AppMode::TypeSelect(s) if s.selected == 0));
    a.apply_demo_event(DemoUiEvent::HighlightType(2));
    assert!(matches!(a.mode, AppMode::TypeSelect(s) if s.selected == 2));
    a.apply_demo_event(DemoUiEvent::SelectTunnelType(FormEntryType::K8s));
    match &a.mode {
        AppMode::Form(f) => {
            assert_eq!(f.entry_type, FormEntryType::K8s);
            assert_eq!(f.editing_id, None);
            assert_eq!(f.fields[0].value, "Staging Pods");
        },
        other => panic!("unexpected mode {other:?}"),
    }
    a.apply_demo_event(DemoUiEvent::CloseDialog);
    assert_eq!(a.mode, AppMode::Normal);
    a.apply_demo_event(DemoUiEvent::SelectEntry(4));
    assert_eq!(a.selected, 4);
    a.apply_demo_event(DemoUiEvent::OpenEditForm(entries[4].id()));
    assert!(matches!(&a.mode, AppMode::Form(f) if f.editing_id == Some(entries[4].id())));
}
