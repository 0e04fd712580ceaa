use stunt::form::{new_k8s_form, new_ssh_form, new_sshuttle_form, FormFocus};
use stunt::model::{K8sEntry, K8sPortForward, K8sResourceType, ServerEntry, SshuttleEntry, TunnelEntry, TunnelForward};
use stunt::screen::{
    entry_row, form_lines, pad14_text, row_placements, scroll_indicators, status_bar_message, type_select_lines,
    RowPlacement, Tone,
};
use stunt::state::ConnectionState;
use stunt::ui::{
    compute_scroll_offset, identity_line, k8s_bindings_summary, splash_summary, ssh_forward_summary, status_summary,
    subnet_summary,
};

fn local(bp: u16, host: &str, rp: u16) -> TunnelForward {
    TunnelForward::Local { bind_address: "127.0.0.1".to_string(), bind_port: bp, remote_host: host.to_string(), remote_port: rp }
}

fn texts(line: &[(String, Tone)]) -> String {
    line.iter().map(|p| p.0.as_str()).collect::<Vec<_>>().concat()
}

#[test]
fn scroll_offset_keeps_selected_row_visible() {
    assert_eq!(compute_scroll_offset(0, 0, 0, 10, 7), 0);
    assert_eq!(compute_scroll_offset(0, 0, 5, 0, 7), 0);
    // Row 3 spans lines 21..28; a 14-line viewport must end at 28.
    assert_eq!(compute_scroll_offset(3, 0, 5, 14, 7), 14);
    // Moving up above the offset scrolls to the row's top.
    assert_eq!(compute_scroll_offset(1, 14, 5, 14, 7), 7);
    // A visible row keeps the offset.
    assert_eq!(compute_scroll_offset(2, 7, 5, 14, 7), 7);
}

#[test]
fn forward_summaries() {
    assert_eq!(ssh_forward_summary(&[], "L"), "");
    assert_eq!(ssh_forward_summary(&[local(5432, "db", 5432)], "L"), "L: 5432→db:5432");
    let d = TunnelForward::Dynamic { bind_address: "127.0.0.1".to_string(), bind_port: 1080 };
    assert_eq!(ssh_forward_summary(&[d.clone()], "D"), "D: 1080 (SOCKS)");
    assert_eq!(ssh_forward_summary(&[local(1, "a", 2), d.clone()], "L"), "L: 1→a:2, 1080(SOCKS)");
    let r = TunnelForward::Remote { bind_address: "127.0.0.1".to_string(), bind_port: 8080, remote_host: "localhost".to_string(), remote_port: 3000 };
    assert_eq!(ssh_forward_summary(&[r], "R"), "R: 8080←localhost:3000");
    assert_eq!(ssh_forward_summary(&[local(1, "a", 2), local(3, "b", 4), local(5, "c", 6)], "L"), "3L");
}

#[test]
fn binding_and_subnet_summaries() {
    let b = |l, r| K8sPortForward { local_bind_address: "127.0.0.1".to_string(), local_port: l, remote_port: r };
    assert_eq!(k8s_bindings_summary(&[]), "");
    assert_eq!(k8s_bindings_summary(&[b(8080, 80)]), "8080→:80");
    assert_eq!(k8s_bindings_summary(&[b(8080, 80), b(9090, 9091)]), "8080→:80, 9090→:9091");
    assert_eq!(k8s_bindings_summary(&[b(1, 1), b(2, 2), b(3, 3)]), "3 bindings");
    assert_eq!(subnet_summary(&vec![]), "");
    assert_eq!(subnet_summary(&vec!["10.0.0.0/8".to_string()]), "10.0.0.0/8");
    assert_eq!(subnet_summary(&vec!["a".to_string(), "b".to_string()]), "2 subnets");
}

#[test]
fn summary_lines() {
    assert_eq!(status_summary(3, 1, 0, 0), " 3 entries  1 connected  0 failed");
    assert_eq!(status_summary(3, 1, 1, 2), " 3 entries  1 connected  1 failed  2 suspended");
    assert_eq!(splash_summary(3, 1, 0, 0), "3 entries · 1 connected · 0 failed");
    assert_eq!(splash_summary(3, 1, 0, 1), "3 entries · 1 connected · 0 failed · 1 suspended");
    assert_eq!(identity_line(&Some("u".to_string()), &Some("k".to_string())), "user:u  key:k");
    assert_eq!(identity_line(&Some("u".to_string()), &None), "user:u");
    assert_eq!(identity_line(&None, &Some("k".to_string())), "key:k");
    assert_eq!(identity_line(&None, &None), "");
}

#[test]
fn status_bar_message_prefers_status_then_warnings() {
    let k = Some("kubectl missing".to_string());
    let s = Some("sshuttle missing".to_string());
    assert_eq!(status_bar_message(Some("hi"), &k, &s), Some("hi".to_string()));
    assert_eq!(status_bar_message(None, &k, &s), Some("⚠ kubectl missing".to_string()));
    assert_eq!(status_bar_message(None, &None, &s), Some("⚠ sshuttle missing".to_string()));
    assert_eq!(status_bar_message(None, &None, &None), None);
}

#[test]
fn ssh_row_text() {
    let e = TunnelEntry::Ssh(ServerEntry {
        id: 1,
        name: "Prod".to_string(),
        host: "h".to_string(),
        port: 2222,
        user: Some("u".to_string()),
        identity_file: None,
        forwards: vec![local(1, "a", 2), TunnelForward::Dynamic { bind_address: "127.0.0.1".to_string(), bind_port: 1080 }],
        auto_restart: true,
    });
    let rows = entry_row(&e, ConnectionState::Connected);
    assert_eq!(rows.len(), 6);
    assert_eq!(texts(&rows[0]), "[SSH] Prod [connected]  [R]");
    assert_eq!(rows[0][0].1, Tone::BadgeSsh);
    assert_eq!(texts(&rows[1]), "h:2222");
    assert_eq!(texts(&rows[2]), "user:u");
    assert_eq!(texts(&rows[3]), "L: 1→a:2");
    assert_eq!(texts(&rows[4]), "");
    assert_eq!(texts(&rows[5]), "D: 1080 (SOCKS)");
}

#[test]
fn k8s_and_sshuttle_row_text() {
    let k = TunnelEntry::K8s(K8sEntry {
        id: 2,
        name: "Pods".to_string(),
        kubeconfig: None,
        context: Some("staging".to_string()),
        namespace: None,
        resource_type: K8sResourceType::Service,
        resource_name: "api".to_string(),
        forwards: vec![K8sPortForward { local_bind_address: "127.0.0.1".to_string(), local_port: 8080, remote_port: 80 }],
        auto_restart: false,
    });
    let rows = entry_row(&k, ConnectionState::Failed);
    assert_eq!(texts(&rows[0]), "[K8S] Pods [failed] ");
    assert_eq!(texts(&rows[1]), "staging");
    assert_eq!(texts(&rows[2]), "");
    assert_eq!(texts(&rows[3]), "service/api");
    assert_eq!(texts(&rows[4]), "8080→:80");
    assert!(rows[5].is_empty());
    let s = TunnelEntry::Sshuttle(SshuttleEntry {
        id: 3,
        name: "VPN".to_string(),
        host: "vpn".to_string(),
        port: Some(22),
        user: None,
        identity_file: Some("k".to_string()),
        subnets: vec!["10.0.0.0/8".to_string(), "172.16.0.0/12".to_string()],
        auto_restart: false,
    });
    let rows = entry_row(&s, ConnectionState::Suspended);
    assert_eq!(texts(&rows[0]), "[sshuttle] VPN [suspended] ");
    assert_eq!(texts(&rows[1]), "vpn:22");
    assert_eq!(texts(&rows[2]), "key:k");
    assert_eq!(texts(&rows[3]), "2 subnets");
}

#[test]
fn form_lines_of_new_forms() {
    let lines = form_lines(&new_ssh_form());
    assert_eq!(texts(&lines[0]), "New SSH Entry");
    assert_eq!(texts(&lines[2]), "          Name: _");
    assert_eq!(lines[2][0].1, Tone::LabelFocused);
    assert_eq!(texts(&lines[4]), "          Port: 22");
    assert_eq!(texts(&lines[7]), "  Auto Restart: yes / no");
    assert_eq!(lines[7][3].1, Tone::NoOn);
    assert_eq!(texts(&lines[9]), "  Forwards (Ctrl+A add  Tab to list)");
    assert_eq!(texts(&lines[10]), "    (none — Ctrl+A to add)");
    assert_eq!(texts(lines.last().unwrap()), "  Enter: save entry  Esc: cancel  Tab/Shift+Tab: fields");

    let k = form_lines(&new_k8s_form());
    assert_eq!(texts(&k[0]), "New K8s Entry");
    assert_eq!(texts(&k[5]), " Resource Type: deployment");
    assert_eq!(k[5][1].1, Tone::Choice);
    assert_eq!(texts(&k[9]), "  Port Bindings (Ctrl+A add  Tab to list)");

    let s = form_lines(&new_sshuttle_form());
    assert_eq!(texts(&s[0]), "New sshuttle Entry");
    // Title, blank, seven fields, blank, bottom hint.
    assert_eq!(s.len(), 11);
}

#[test]
fn form_lines_while_editing_a_forward() {
    let mut f = new_ssh_form();
    f.focus = FormFocus::ForwardEdit { editing_index: None };
    f.forward_type = 2;
    let lines = form_lines(&f);
    let notice = lines.iter().position(|l| texts(l).contains("New binding")).unwrap();
    assert_eq!(texts(&lines[notice]), "    New binding — Type: Dynamic (-D)  (Ctrl+T to cycle)");
    assert_eq!(lines[notice][0].1, Tone::Notice);
    // A dynamic forward shows only its bind port.
    assert_eq!(texts(&lines[notice + 1]), "         Bind Port: _");
    assert_eq!(texts(&lines[notice + 2]), "");
}

#[test]
fn type_selector_lines() {
    let l = type_select_lines(1);
    assert_eq!(l.len(), 7);
    assert_eq!(texts(&l[2]), "  SSH Server");
    assert_eq!(texts(&l[3]), "> Kubernetes Workload");
    assert_eq!(l[3][0].1, Tone::Choice);
    assert_eq!(texts(&l[4]), "  sshuttle VPN");
}

#[test]
fn padding_right_aligns_in_fourteen_columns() {
    assert_eq!(pad14_text("Name"), "          Name");
    assert_eq!(pad14_text("Identity File"), " Identity File");
    assert_eq!(pad14_text("A very long label"), "A very long label");
}

#[test]
fn sidebar_geometry() {
    assert_eq!(scroll_indicators(0, 20, 2, 7), (false, false));
    assert_eq!(scroll_indicators(7, 10, 5, 7), (true, true));
    let p = row_placements(3, 0, 20, 6, 7);
    assert_eq!(
        p,
        vec![
            RowPlacement { index: 0, y: 0, height: 6, divider: true },
            RowPlacement { index: 1, y: 7, height: 6, divider: true },
            RowPlacement { index: 2, y: 14, height: 6, divider: false },
        ]
    );
    // Scrolled past the first row; the list holds ten lines.
    let p = row_placements(3, 7, 10, 6, 7);
    assert_eq!(
        p,
        vec![
            RowPlacement { index: 1, y: 0, height: 6, divider: true },
            RowPlacement { index: 2, y: 7, height: 3, divider: false },
        ]
    );
}
