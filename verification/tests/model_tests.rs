use stunt::model::{
    default_bind_address, default_ssh_port, is_legacy_format, Config, K8sEntry, K8sPortForward,
    K8sResourceType, ServerEntry, SshuttleEntry, TunnelEntry, TunnelForward,
};

#[test]
fn test_ssh_flag_local() {
    let fwd = TunnelForward::Local {
        bind_address: "127.0.0.1".to_string(),
        bind_port: 5432,
        remote_host: "db.internal".to_string(),
        remote_port: 5432,
    };
    assert_eq!(fwd.to_ssh_flag(), "-L 127.0.0.1:5432:db.internal:5432");
}

#[test]
fn test_ssh_flag_remote() {
    let fwd = TunnelForward::Remote {
        bind_address: "127.0.0.1".to_string(),
        bind_port: 8080,
        remote_host: "localhost".to_string(),
        remote_port: 3000,
    };
    assert_eq!(fwd.to_ssh_flag(), "-R 127.0.0.1:8080:localhost:3000");
}

#[test]
fn test_ssh_flag_dynamic() {
    let fwd = TunnelForward::Dynamic {
        bind_address: "127.0.0.1".to_string(),
        bind_port: 1080,
    };
    assert_eq!(fwd.to_ssh_flag(), "-D 127.0.0.1:1080");
}

#[test]
fn test_k8s_port_forward_defaults() {
    let fwd = K8sPortForward {
        local_bind_address: default_bind_address(),
        local_port: 8080,
        remote_port: 80,
    };
    assert_eq!(fwd.local_bind_address, "127.0.0.1");
    assert_eq!(fwd.kubectl_arg(), "127.0.0.1:8080:80");
    assert_eq!(fwd.display_address(), "8080 -> :80");
}

#[test]
fn test_k8s_entry_resource_identifier() {
    let entry = K8sEntry {
        id: 1,
        name: "api".to_string(),
        kubeconfig: None,
        context: None,
        namespace: None,
        resource_type: K8sResourceType::Deployment,
        resource_name: "api-server".to_string(),
        forwards: vec![],
        auto_restart: false,
    };
    assert_eq!(entry.resource_identifier(), "deployment/api-server");
    assert_eq!(entry.display_label(), "api (deployment/api-server)");
}

#[test]
fn test_tunnel_entry_helpers() {
    let ssh = TunnelEntry::Ssh(ServerEntry {
        id: 7,
        name: "my-server".to_string(),
        host: "example.com".to_string(),
        port: 22,
        user: None,
        identity_file: None,
        forwards: vec![],
        auto_restart: true,
    });
    assert_eq!(ssh.name(), "my-server");
    assert!(ssh.auto_restart());

    let k8s = TunnelEntry::K8s(K8sEntry {
        id: 8,
        name: "k8s-entry".to_string(),
        kubeconfig: None,
        context: None,
        namespace: None,
        resource_type: K8sResourceType::Pod,
        resource_name: "my-pod".to_string(),
        forwards: vec![],
        auto_restart: false,
    });
    assert_eq!(k8s.name(), "k8s-entry");
    assert!(!k8s.auto_restart());
    assert_eq!(ssh.id(), 7);
    assert_eq!(k8s.id(), 8);
}

#[test]
fn test_k8s_resource_type_as_str() {
    assert_eq!(K8sResourceType::Pod.as_str(), "pod");
    assert_eq!(K8sResourceType::Service.as_str(), "service");
    assert_eq!(K8sResourceType::Deployment.as_str(), "deployment");
}

#[test]
fn test_tunnel_entry_helpers_sshuttle() {
    let entry = TunnelEntry::Sshuttle(SshuttleEntry {
        id: 3,
        name: "my-vpn".to_string(),
        host: "vpn.example.com".to_string(),
        port: None,
        user: None,
        identity_file: None,
        subnets: vec!["10.0.0.0/8".to_string()],
        auto_restart: true,
    });
    assert_eq!(entry.name(), "my-vpn");
    assert!(entry.auto_restart());
}

#[test]
fn test_legacy_migration_detection() {
    let legacy = r#"
[[server]]
name = "bastion"
host = "bastion.example.com"
"#;
    assert!(is_legacy_format(legacy));

    let modern = r#"
[[entries]]
type = "ssh"
name = "bastion"
host = "bastion.example.com"
"#;
    assert!(!is_legacy_format(modern));
}

#[test]
fn legacy_servers_become_ssh_entries_in_order() {
    let a = ServerEntry {
        id: 1,
        name: "bastion".to_string(),
        host: "bastion.example.com".to_string(),
        port: 22,
        user: None,
        identity_file: None,
        forwards: vec![],
        auto_restart: false,
    };
    let b = ServerEntry {
        id: 2,
        name: "db-tunnel".to_string(),
        host: "db.internal".to_string(),
        port: 2222,
        user: Some("deploy".to_string()),
        identity_file: None,
        forwards: vec![],
        auto_restart: true,
    };
    let config = Config::from_legacy_servers(vec![a.clone(), b.clone()]);
    assert_eq!(config.entries, vec![TunnelEntry::Ssh(a), TunnelEntry::Ssh(b)]);
    assert!(Config::empty().entries.is_empty());
}

#[test]
fn defaults_and_display_addresses() {
    assert_eq!(default_ssh_port(), 22);
    let l = TunnelForward::Local {
        bind_address: "127.0.0.1".to_string(),
        bind_port: 5432,
        remote_host: "db".to_string(),
        remote_port: 5433,
    };
    let r = TunnelForward::Remote {
        bind_address: "127.0.0.1".to_string(),
        bind_port: 8080,
        remote_host: "localhost".to_string(),
        remote_port: 3000,
    };
    let d = TunnelForward::Dynamic { bind_address: "127.0.0.1".to_string(), bind_port: 1080 };
    assert_eq!(l.display_address(), "5432 -> db:5433");
    assert_eq!(r.display_address(), "8080 <- localhost:3000");
    assert_eq!(d.display_address(), "1080 (SOCKS)");
    assert_eq!(l.type_label(), "L");
    assert_eq!(r.type_label(), "R");
    assert_eq!(d.type_label(), "D");
    assert!(!is_legacy_format("[[server ]]"));
    assert!(!is_legacy_format("[[entries]]\nname = \"x\"\n[[server]]\n"));
    assert!(is_legacy_format("[[server]]\n[[server]]\n"));
}
