use stunt::pid::{alive_from_signal_probe, is_expected_process, is_live_tunnel, name_matches, TunnelProcessType, EPERM};

#[test]
fn test_name_matches_with_and_without_exe_suffix() {
    assert!(name_matches("ssh", TunnelProcessType::Ssh));
    assert!(name_matches("ssh.exe", TunnelProcessType::Ssh));
    assert!(name_matches("kubectl.exe", TunnelProcessType::Kubectl));
    assert!(name_matches("sshuttle", TunnelProcessType::Sshuttle));

    assert!(!name_matches("kubectl.exe", TunnelProcessType::Ssh));
    assert!(!name_matches("bash.exe", TunnelProcessType::Ssh));
}

#[test]
fn pid_test_is_live_tunnel_dead_pid() {
    // A process that the liveness probe reports dead is never a live tunnel.
    assert!(!is_live_tunnel(false, None, TunnelProcessType::Ssh), "dead PID should not be a live ssh tunnel");
    assert!(
        !is_live_tunnel(false, Some("kubectl"), TunnelProcessType::Kubectl),
        "dead PID should not be a live kubectl tunnel"
    );
}

#[test]
fn test_is_live_tunnel_sshuttle_dead_pid() {
    assert!(
        !is_live_tunnel(false, Some("sshuttle"), TunnelProcessType::Sshuttle),
        "dead PID should not be a live sshuttle tunnel"
    );
}

#[test]
fn live_process_with_other_name_is_not_a_tunnel() {
    assert!(!is_live_tunnel(true, Some("cargo-test"), TunnelProcessType::Ssh));
    assert!(!is_live_tunnel(true, Some("bash"), TunnelProcessType::Kubectl));
    assert!(is_live_tunnel(true, Some("ssh\n"), TunnelProcessType::Ssh));
    assert!(is_live_tunnel(true, None, TunnelProcessType::Sshuttle));
}

#[test]
fn unreadable_name_is_trusted() {
    assert!(is_expected_process(None, TunnelProcessType::Ssh));
    assert!(is_expected_process(Some("  sshd "), TunnelProcessType::Ssh));
    assert!(!is_expected_process(Some("zsh"), TunnelProcessType::Ssh));
}

#[test]
fn signal_probe_results() {
    assert!(alive_from_signal_probe(0, 0));
    assert!(alive_from_signal_probe(-1, EPERM));
    assert!(!alive_from_signal_probe(-1, 3));
}
