use stunt::command::{
    build_kubectl_command, build_ssh_command, build_sshuttle_command, launch_command, process_type_of, StdioMode,
};
use stunt::model::{K8sEntry, K8sPortForward, K8sResourceType, ServerEntry, SshuttleEntry, TunnelEntry, TunnelForward};
use stunt::pid::TunnelProcessType;

fn has(args: &[String], s: &str) -> bool {
    args.iter().any(|a| a == s)
}

#[test]
fn test_build_ssh_command_basic() {
    let entry = ServerEntry {
        id: 1,
        name: "test".to_string(),
        host: "example.com".to_string(),
        port: 22,
        user: None,
        identity_file: None,
        forwards: vec![],
        auto_restart: false,
    };
    let cmd = build_ssh_command(&entry);
    assert_eq!(cmd.program, "ssh");
    assert!(has(&cmd.args, "-N"));
    assert!(has(&cmd.args, "ExitOnForwardFailure=yes"));
    assert!(has(&cmd.args, "example.com"));
    // port 22 should not produce a -p flag
    assert!(!has(&cmd.args, "-p"));
}

#[test]
fn test_build_ssh_command_with_all_options() {
    let entry = ServerEntry {
        id: 2,
        name: "full".to_string(),
        host: "bastion.example.com".to_string(),
        port: 2222,
        user: Some("deploy".to_string()),
        identity_file: Some("~/.ssh/id_ed25519".to_string()),
        forwards: vec![
            TunnelForward::Local {
                bind_address: "127.0.0.1".to_string(),
                bind_port: 5432,
                remote_host: "db.internal".to_string(),
                remote_port: 5432,
            },
            TunnelForward::Remote {
                bind_address: "127.0.0.1".to_string(),
                bind_port: 8080,
                remote_host: "localhost".to_string(),
                remote_port: 3000,
            },
            TunnelForward::Dynamic { bind_address: "127.0.0.1".to_string(), bind_port: 1080 },
        ],
        auto_restart: false,
    };
    let cmd = build_ssh_command(&entry);
    let args = &cmd.args;
    assert!(has(args, "-p"));
    assert!(has(args, "2222"));
    assert!(has(args, "-l"));
    assert!(has(args, "deploy"));
    assert!(has(args, "-i"));
    assert!(has(args, "~/.ssh/id_ed25519"));
    assert!(has(args, "-L"));
    assert!(has(args, "-R"));
    assert!(has(args, "-D"));
    // The exact order: options, forwards, then the host last.
    let expected: Vec<String> = [
        "-N", "-o", "ExitOnForwardFailure=yes", "-p", "2222", "-l", "deploy", "-i", "~/.ssh/id_ed25519",
        "-L", "127.0.0.1:5432:db.internal:5432", "-R", "127.0.0.1:8080:localhost:3000", "-D",
        "127.0.0.1:1080", "bastion.example.com",
    ]
    .iter()
    .map(|s| s.to_string())
    .collect();
    assert_eq!(cmd.args, expected);
}

fn make_k8s_entry(context: Option<&str>, namespace: Option<&str>, resource_type: K8sResourceType, resource_name: &str) -> K8sEntry {
    K8sEntry {
        id: 3,
        name: "test".to_string(),
        kubeconfig: None,
        context: context.map(|s| s.to_string()),
        namespace: namespace.map(|s| s.to_string()),
        resource_type,
        resource_name: resource_name.to_string(),
        forwards: vec![],
        auto_restart: false,
    }
}

fn make_k8s_fwd(local_port: u16, remote_port: u16) -> K8sPortForward {
    K8sPortForward { local_bind_address: "127.0.0.1".to_string(), local_port, remote_port }
}

#[test]
fn test_build_kubectl_command_all_options() {
    let entry = make_k8s_entry(Some("prod"), Some("default"), K8sResourceType::Deployment, "api");
    let fwd = make_k8s_fwd(8080, 80);
    let cmd = build_kubectl_command(&entry, &fwd);
    assert_eq!(cmd.program, "kubectl");
    assert!(has(&cmd.args, "port-forward"));
    assert!(has(&cmd.args, "--context"));
    assert!(has(&cmd.args, "prod"));
    assert!(has(&cmd.args, "-n"));
    assert!(has(&cmd.args, "default"));
    assert!(has(&cmd.args, "deployment/api"));
    assert!(has(&cmd.args, "127.0.0.1:8080:80"));
}

#[test]
fn test_build_kubectl_command_no_optional_fields() {
    let entry = make_k8s_entry(None, None, K8sResourceType::Service, "postgres");
    let fwd = make_k8s_fwd(5432, 5432);
    let cmd = build_kubectl_command(&entry, &fwd);
    assert!(!has(&cmd.args, "--context"));
    assert!(!has(&cmd.args, "-n"));
    assert!(has(&cmd.args, "service/postgres"));
    assert!(has(&cmd.args, "127.0.0.1:5432:5432"));
}

#[test]
fn test_build_kubectl_command_pod_resource() {
    let entry = make_k8s_entry(None, Some("kube-system"), K8sResourceType::Pod, "my-pod-abc");
    let fwd = make_k8s_fwd(9090, 9090);
    let cmd = build_kubectl_command(&entry, &fwd);
    assert!(has(&cmd.args, "pod/my-pod-abc"));
    assert!(has(&cmd.args, "-n"));
    assert!(has(&cmd.args, "kube-system"));
}

fn make_sshuttle_entry(host: &str, port: Option<u16>, user: Option<&str>, identity_file: Option<&str>, subnets: &[&str]) -> SshuttleEntry {
    SshuttleEntry {
        id: 4,
        name: "test-vpn".to_string(),
        host: host.to_string(),
        port,
        user: user.map(|s| s.to_string()),
        identity_file: identity_file.map(|s| s.to_string()),
        subnets: subnets.iter().map(|s| s.to_string()).collect(),
        auto_restart: false,
    }
}

#[test]
fn test_build_sshuttle_command_minimal() {
    let entry = make_sshuttle_entry("bastion.example.com", None, None, None, &["10.0.0.0/8"]);
    let cmd = build_sshuttle_command(&entry);
    assert_eq!(cmd.program, "sshuttle");
    assert!(has(&cmd.args, "-r"));
    assert!(has(&cmd.args, "bastion.example.com"));
    assert!(has(&cmd.args, "10.0.0.0/8"));
    assert!(!has(&cmd.args, "-e"));
}

#[test]
fn test_build_sshuttle_command_full() {
    let entry = make_sshuttle_entry(
        "bastion.example.com",
        Some(2222),
        Some("alice"),
        Some("~/.ssh/id_ed25519"),
        &["10.0.0.0/8", "192.168.0.0/16"],
    );
    let cmd = build_sshuttle_command(&entry);
    let args = &cmd.args;
    let r_idx = args.iter().position(|a| a == "-r").expect("-r not found");
    assert_eq!(args[r_idx + 1], "alice@bastion.example.com:2222");
    assert!(has(args, "-e"));
    let e_idx = args.iter().position(|a| a == "-e").unwrap();
    assert_eq!(args[e_idx + 1], "ssh -i ~/.ssh/id_ed25519");
    assert!(has(args, "10.0.0.0/8"));
    assert!(has(args, "192.168.0.0/16"));
}

#[test]
fn test_build_sshuttle_command_no_user_no_port() {
    let entry = make_sshuttle_entry("vpn.example.com", None, None, None, &["172.16.0.0/12"]);
    let cmd = build_sshuttle_command(&entry);
    let r_idx = cmd.args.iter().position(|a| a == "-r").expect("-r not found");
    assert_eq!(cmd.args[r_idx + 1], "vpn.example.com");
}

#[test]
fn launch_command_uses_first_binding_and_needs_one() {
    let mut k = make_k8s_entry(None, None, K8sResourceType::Service, "db");
    assert!(launch_command(&TunnelEntry::K8s(k.clone())).is_none());
    k.forwards = vec![make_k8s_fwd(1000, 2000), make_k8s_fwd(3000, 4000)];
    let cmd = launch_command(&TunnelEntry::K8s(k.clone())).unwrap();
    assert_eq!(cmd, build_kubectl_command(&k, &k.forwards[0]));
    assert_eq!(process_type_of(&TunnelEntry::K8s(k)), TunnelProcessType::Kubectl);
    let s = make_sshuttle_entry("h", Some(1), None, None, &["10.0.0.0/8"]);
    assert_eq!(launch_command(&TunnelEntry::Sshuttle(s.clone())).unwrap(), build_sshuttle_command(&s));
    assert_eq!(process_type_of(&TunnelEntry::Sshuttle(s)), TunnelProcessType::Sshuttle);
}

#[test]
fn tunnel_commands_discard_input_and_output_and_pipe_errors() {
    let ssh = build_ssh_command(&ServerEntry {
        id: 1,
        name: "s".to_string(),
        host: "h".to_string(),
        port: 22,
        user: None,
        identity_file: None,
        forwards: vec![],
        auto_restart: false,
    });
    let mut k = make_k8s_entry(None, None, K8sResourceType::Pod, "p");
    k.forwards = vec![make_k8s_fwd(1000, 2000)];
    let kubectl = build_kubectl_command(&k, &k.forwards[0]);
    let sshuttle = build_sshuttle_command(&make_sshuttle_entry("h", None, None, None, &["10.0.0.0/8"]));
    for c in [ssh, kubectl, sshuttle] {
        assert_eq!(c.stdin, StdioMode::Null);
        assert_eq!(c.stdout, StdioMode::Null);
        assert_eq!(c.stderr, StdioMode::Piped);
    }
}
