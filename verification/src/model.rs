//! The tunnel configuration model: SSH servers, Kubernetes workloads and
//! sshuttle sessions, with the text they contribute to commands and displays.

use vstd::prelude::*;

use crate::text::{decimal, push_decimal};

verus! {

/// Identifier of a tunnel entry (the 128-bit value of its UUID).
pub type EntryId = u128;

/// The value of an optional string.
pub open spec fn opt_view(o: Option<String>) -> Option<Seq<char>> {
    match o {
        Some(s) => Some(s@),
        None => None,
    }
}

/// A copy of an optional string.
pub fn copy_opt(o: &Option<String>) -> (r: Option<String>)
    ensures
        opt_view(r) == opt_view(*o),
{
    match o {
        Some(s) => Some(s.clone()),
        None => None,
    }
}

/// A string holding the characters of the literal `s`.
pub fn lit(s: &str) -> (r: String)
    ensures
        r@ == s@,
{
    String::from_str(s)
}

/// The decimal text of `n`.
pub fn dec(n: u64) -> (r: String)
    ensures
        r@ == decimal(n as nat),
{
    let mut r = String::new();
    push_decimal(&mut r, n);
    assert(r@ =~= decimal(n as nat));
    r
}

/// The type of Kubernetes resource targeted by a port-forward.
#[derive(Debug, Clone, Copy, PartialEq, Eq, Structural)]
pub enum K8sResourceType {
    /// A pod resource.
    Pod,
    /// A service resource.
    Service,
    /// A deployment resource.
    Deployment,
}

impl K8sResourceType {
    /// The lowercase word used in kubectl commands.
    pub open spec fn word(self) -> Seq<char> {
        match self {
            K8sResourceType::Pod => "pod"@,
            K8sResourceType::Service => "service"@,
            K8sResourceType::Deployment => "deployment"@,
        }
    }

    /// Returns the lowercase string used in kubectl commands.
    pub fn as_str(self) -> (r: &'static str)
        ensures
            r@ == self.word(),
    {
        match self {
            K8sResourceType::Pod => "pod",
            K8sResourceType::Service => "service",
            K8sResourceType::Deployment => "deployment",
        }
    }
}

/// A single Kubernetes port-forward binding (local to remote port).
#[derive(Debug, Clone, PartialEq, Eq)]
pub struct K8sPortForward {
    /// Local address to bind (default: "127.0.0.1").
    pub local_bind_address: String,
    /// Local port to listen on.
    pub local_port: u16,
    /// Remote (container) port to forward to.
    pub remote_port: u16,
}

/// The value of a [`K8sPortForward`].
pub struct K8sPortForwardView {
    pub local_bind_address: Seq<char>,
    pub local_port: u16,
    pub remote_port: u16,
}

impl View for K8sPortForward {
    type V = K8sPortForwardView;

    open spec fn view(&self) -> K8sPortForwardView {
        K8sPortForwardView {
            local_bind_address: self.local_bind_address@,
            local_port: self.local_port,
            remote_port: self.remote_port,
        }
    }
}

impl K8sPortForwardView {
    /// `<bind>:<local>:<remote>`, the mapping argument of `kubectl port-forward`.
    pub open spec fn kubectl_arg(self) -> Seq<char> {
        self.local_bind_address + ":"@ + decimal(self.local_port as nat) + ":"@ + decimal(
            self.remote_port as nat,
        )
    }

    /// `<local> -> :<remote>`.
    pub open spec fn display_address(self) -> Seq<char> {
        decimal(self.local_port as nat) + " -> :"@ + decimal(self.remote_port as nat)
    }
}

impl K8sPortForward {
    /// A copy of this binding.
    pub fn copy(&self) -> (r: Self)
        ensures
            r@ == self@,
    {
        K8sPortForward {
            local_bind_address: self.local_bind_address.clone(),
            local_port: self.local_port,
            remote_port: self.remote_port,
        }
    }

    /// Returns the port-mapping argument for `kubectl port-forward`
    /// in the form `<bind>:<local>:<remote>`.
    pub fn kubectl_arg(&self) -> (r: String)
        ensures
            r@ == self@.kubectl_arg(),
    {
        let mut r = self.local_bind_address.clone();
        r.append(":");
        r.append(dec(self.local_port as u64).as_str());
        r.append(":");
        r.append(dec(self.remote_port as u64).as_str());
        r
    }

    /// Returns a human-readable display string.
    pub fn display_address(&self) -> (r: String)
        ensures
            r@ == self@.display_address(),
    {
        let mut r = dec(self.local_port as u64);
        r.append(" -> :");
        r.append(dec(self.remote_port as u64).as_str());
        r
    }
}

/// An SSH port-forwarding definition.
#[derive(Debug, Clone, PartialEq, Eq)]
pub enum TunnelForward {
    /// Local port forward (`ssh -L`).
    Local {
        /// Local address to bind (default: "127.0.0.1").
        bind_address: String,
        /// Local port to bind.
        bind_port: u16,
        /// Remote host to forward to.
        remote_host: String,
        /// Remote port to forward to.
        remote_port: u16,
    },
    /// Remote port forward (`ssh -R`).
    Remote {
        /// Remote address to bind (default: "127.0.0.1").
        bind_address: String,
        /// Remote port to bind.
        bind_port: u16,
        /// Local host to forward to.
        remote_host: String,
        /// Local port to forward to.
        remote_port: u16,
    },
    /// Dynamic SOCKS proxy (`ssh -D`).
    Dynamic {
        /// Local address to bind (default: "127.0.0.1").
        bind_address: String,
        /// Local port to bind.
        bind_port: u16,
    },
}

/// The value of a [`TunnelForward`].
pub enum TunnelForwardView {
    Local { bind_address: Seq<char>, bind_port: u16, remote_host: Seq<char>, remote_port: u16 },
    Remote { bind_address: Seq<char>, bind_port: u16, remote_host: Seq<char>, remote_port: u16 },
    Dynamic { bind_address: Seq<char>, bind_port: u16 },
}

impl View for TunnelForward {
    type V = TunnelForwardView;

    open spec fn view(&self) -> TunnelForwardView {
        match self {
            TunnelForward::Local { bind_address, bind_port, remote_host, remote_port } =>
                TunnelForwardView::Local {
                bind_address: bind_address@,
                bind_port: *bind_port,
                remote_host: remote_host@,
                remote_port: *remote_port,
            },
            TunnelForward::Remote { bind_address, bind_port, remote_host, remote_port } =>
                TunnelForwardView::Remote {
                bind_address: bind_address@,
                bind_port: *bind_port,
                remote_host: remote_host@,
                remote_port: *remote_port,
            },
            TunnelForward::Dynamic { bind_address, bind_port } => TunnelForwardView::Dynamic {
                bind_address: bind_address@,
                bind_port: *bind_port,
            },
        }
    }
}

impl TunnelForwardView {
    /// The ssh option letter: `-L`, `-R` or `-D`.
    pub open spec fn flag(self) -> Seq<char> {
        match self {
            TunnelForwardView::Local { .. } => "-L"@,
            TunnelForwardView::Remote { .. } => "-R"@,
            TunnelForwardView::Dynamic { .. } => "-D"@,
        }
    }

    /// The ssh option value: `bind:port:host:port`, or `bind:port` for SOCKS.
    pub open spec fn flag_value(self) -> Seq<char> {
        match self {
            TunnelForwardView::Local { bind_address, bind_port, remote_host, remote_port } =>
                bind_address + ":"@ + decimal(bind_port as nat) + ":"@ + remote_host + ":"@
                    + decimal(remote_port as nat),
            TunnelForwardView::Remote { bind_address, bind_port, remote_host, remote_port } =>
                bind_address + ":"@ + decimal(bind_port as nat) + ":"@ + remote_host + ":"@
                    + decimal(remote_port as nat),
            TunnelForwardView::Dynamic { bind_address, bind_port } => bind_address + ":"@
                + decimal(bind_port as nat),
        }
    }

    /// The whole ssh flag, e.g. `-L 127.0.0.1:5432:db:5432`.
    pub open spec fn ssh_flag(self) -> Seq<char> {
        self.flag() + " "@ + self.flag_value()
    }

    /// `L`, `R` or `D`.
    pub open spec fn type_label(self) -> Seq<char> {
        match self {
            TunnelForwardView::Local { .. } => "L"@,
            TunnelForwardView::Remote { .. } => "R"@,
            TunnelForwardView::Dynamic { .. } => "D"@,
        }
    }

    /// The bound port, for every kind of forward.
    pub open spec fn bind_port(self) -> u16 {
        match self {
            TunnelForwardView::Local { bind_port, .. } => bind_port,
            TunnelForwardView::Remote { bind_port, .. } => bind_port,
            TunnelForwardView::Dynamic { bind_port, .. } => bind_port,
        }
    }

    /// `port -> host:port`, `port <- host:port` or `port (SOCKS)`.
    pub open spec fn display_address(self) -> Seq<char> {
        match self {
            TunnelForwardView::Local { bind_port, remote_host, remote_port, .. } => decimal(
                bind_port as nat,
            ) + " -> "@ + remote_host + ":"@ + decimal(remote_port as nat),
            TunnelForwardView::Remote { bind_port, remote_host, remote_port, .. } => decimal(
                bind_port as nat,
            ) + " <- "@ + remote_host + ":"@ + decimal(remote_port as nat),
            TunnelForwardView::Dynamic { bind_port, .. } => decimal(bind_port as nat)
                + " (SOCKS)"@,
        }
    }
}

/// `a:port:b:port` as a string.
fn addr_port_addr_port(a: &String, p: u16, b: &String, q: u16) -> (r: String)
    ensures
        r@ == a@ + ":"@ + decimal(p as nat) + ":"@ + b@ + ":"@ + decimal(q as nat),
{
    let mut r = a.clone();
    r.append(":");
    r.append(dec(p as u64).as_str());
    r.append(":");
    r.append(b.as_str());
    r.append(":");
    r.append(dec(q as u64).as_str());
    r
}

impl TunnelForward {
    /// A copy of this forward.
    pub fn copy(&self) -> (r: Self)
        ensures
            r@ == self@,
    {
        match self {
            TunnelForward::Local { bind_address, bind_port, remote_host, remote_port } =>
                TunnelForward::Local {
                bind_address: bind_address.clone(),
                bind_port: *bind_port,
                remote_host: remote_host.clone(),
                remote_port: *remote_port,
            },
            TunnelForward::Remote { bind_address, bind_port, remote_host, remote_port } =>
                TunnelForward::Remote {
                bind_address: bind_address.clone(),
                bind_port: *bind_port,
                remote_host: remote_host.clone(),
                remote_port: *remote_port,
            },
            TunnelForward::Dynamic { bind_address, bind_port } => TunnelForward::Dynamic {
                bind_address: bind_address.clone(),
                bind_port: *bind_port,
            },
        }
    }

    /// The ssh option letter (`-L`, `-R`, `-D`).
    pub fn flag(&self) -> (r: &'static str)
        ensures
            r@ == self@.flag(),
    {
        match self {
            TunnelForward::Local { .. } => "-L",
            TunnelForward::Remote { .. } => "-R",
            TunnelForward::Dynamic { .. } => "-D",
        }
    }

    /// The value that follows the ssh option letter.
    pub fn flag_value(&self) -> (r: String)
        ensures
            r@ == self@.flag_value(),
    {
        match self {
            TunnelForward::Local { bind_address, bind_port, remote_host, remote_port } =>
                addr_port_addr_port(bind_address, *bind_port, remote_host, *remote_port),
            TunnelForward::Remote { bind_address, bind_port, remote_host, remote_port } =>
                addr_port_addr_port(bind_address, *bind_port, remote_host, *remote_port),
            TunnelForward::Dynamic { bind_address, bind_port } => {
                let mut r = bind_address.clone();
                r.append(":");
                r.append(dec(*bind_port as u64).as_str());
                r
            },
        }
    }

    /// Returns the ssh flag representation of this forward.
    pub fn to_ssh_flag(&self) -> (r: String)
        ensures
            r@ == self@.ssh_flag(),
    {
        let mut r = lit(self.flag());
        r.append(" ");
        r.append(self.flag_value().as_str());
        r
    }

    /// Returns a short type label for display.
    pub fn type_label(&self) -> (r: &'static str)
        ensures
            r@ == self@.type_label(),
    {
        match self {
            TunnelForward::Local { .. } => "L",
            TunnelForward::Remote { .. } => "R",
            TunnelForward::Dynamic { .. } => "D",
        }
    }

    /// Returns a display string for the forward's addressing.
    pub fn display_address(&self) -> (r: String)
        ensures
            r@ == self@.display_address(),
    {
        match self {
            TunnelForward::Local { bind_port, remote_host, remote_port, .. } => {
                let mut r = dec(*bind_port as u64);
                r.append(" -> ");
                r.append(remote_host.as_str());
                r.append(":");
                r.append(dec(*remote_port as u64).as_str());
                r
            },
            TunnelForward::Remote { bind_port, remote_host, remote_port, .. } => {
                let mut r = dec(*bind_port as u64);
                r.append(" <- ");
                r.append(remote_host.as_str());
                r.append(":");
                r.append(dec(*remote_port as u64).as_str());
                r
            },
            TunnelForward::Dynamic { bind_port, .. } => {
                let mut r = dec(*bind_port as u64);
                r.append(" (SOCKS)");
                r
            },
        }
    }
}

/// The default SSH port.
pub fn default_ssh_port() -> (r: u16)
    ensures
        r == 22,
{
    22
}

/// The default bind address for tunnel forwards.
pub fn default_bind_address() -> (r: String)
    ensures
        r@ == "127.0.0.1"@,
{
    lit("127.0.0.1")
}


/// The values of a list of SSH forwards.
pub open spec fn forwards_view(v: Seq<TunnelForward>) -> Seq<TunnelForwardView> {
    v.map_values(|f: TunnelForward| f@)
}

/// The values of a list of Kubernetes bindings.
pub open spec fn k8s_forwards_view(v: Seq<K8sPortForward>) -> Seq<K8sPortForwardView> {
    v.map_values(|f: K8sPortForward| f@)
}

/// A copy of a list of SSH forwards.
pub fn copy_forwards(v: &Vec<TunnelForward>) -> (r: Vec<TunnelForward>)
    ensures
        forwards_view(r@) == forwards_view(v@),
{
    let mut r: Vec<TunnelForward> = Vec::new();
    let mut i: usize = 0;
    while i < v.len()
        invariant
            i <= v@.len(),
            r@.len() == i,
            forall|k: int| 0 <= k < i ==> (#[trigger] r@[k])@ == v@[k]@,
        decreases v@.len() - i,
    {
        r.push(v[i].copy());
        i = i + 1;
    }
    assert(forwards_view(r@) =~= forwards_view(v@));
    r
}

/// A copy of a list of Kubernetes bindings.
pub fn copy_k8s_forwards(v: &Vec<K8sPortForward>) -> (r: Vec<K8sPortForward>)
    ensures
        k8s_forwards_view(r@) == k8s_forwards_view(v@),
{
    let mut r: Vec<K8sPortForward> = Vec::new();
    let mut i: usize = 0;
    while i < v.len()
        invariant
            i <= v@.len(),
            r@.len() == i,
            forall|k: int| 0 <= k < i ==> (#[trigger] r@[k])@ == v@[k]@,
        decreases v@.len() - i,
    {
        r.push(v[i].copy());
        i = i + 1;
    }
    assert(k8s_forwards_view(r@) =~= k8s_forwards_view(v@));
    r
}

/// A copy of a list of strings.
pub fn copy_strings(v: &Vec<String>) -> (r: Vec<String>)
    ensures
        r.deep_view() == v.deep_view(),
{
    let mut r: Vec<String> = Vec::new();
    let mut i: usize = 0;
    while i < v.len()
        invariant
            i <= v@.len(),
            r@.len() == i,
            forall|k: int| 0 <= k < i ==> (#[trigger] r@[k])@ == v@[k]@,
        decreases v@.len() - i,
    {
        r.push(v[i].clone());
        i = i + 1;
    }
    assert(r.deep_view() =~= v.deep_view());
    r
}

/// An SSH server with connection details and tunnel forward definitions.
#[derive(Debug, Clone, PartialEq)]
pub struct ServerEntry {
    /// Unique identifier for this entry.
    pub id: EntryId,
    /// Display name for this server entry.
    pub name: String,
    /// SSH server hostname or IP address.
    pub host: String,
    /// SSH server port.
    pub port: u16,
    /// SSH username (uses system default if omitted).
    pub user: Option<String>,
    /// Path to the SSH identity (private key) file.
    pub identity_file: Option<String>,
    /// Tunnel forward definitions for this server.
    pub forwards: Vec<TunnelForward>,
    /// Whether to automatically restart this tunnel on unexpected disconnect.
    pub auto_restart: bool,
}

/// The value of a [`ServerEntry`].
pub struct ServerEntryView {
    pub id: EntryId,
    pub name: Seq<char>,
    pub host: Seq<char>,
    pub port: u16,
    pub user: Option<Seq<char>>,
    pub identity_file: Option<Seq<char>>,
    pub forwards: Seq<TunnelForwardView>,
    pub auto_restart: bool,
}

impl View for ServerEntry {
    type V = ServerEntryView;

    open spec fn view(&self) -> ServerEntryView {
        ServerEntryView {
            id: self.id,
            name: self.name@,
            host: self.host@,
            port: self.port,
            user: opt_view(self.user),
            identity_file: opt_view(self.identity_file),
            forwards: forwards_view(self.forwards@),
            auto_restart: self.auto_restart,
        }
    }
}

/// A Kubernetes workload target with port-forward bindings.
#[derive(Debug, Clone, PartialEq)]
pub struct K8sEntry {
    /// Unique identifier for this entry.
    pub id: EntryId,
    /// Display name for this entry.
    pub name: String,
    /// Path to an alternate kubeconfig file (uses default kubeconfig if omitted).
    pub kubeconfig: Option<String>,
    /// kubeconfig context to use (uses default context if omitted).
    pub context: Option<String>,
    /// Kubernetes namespace (uses default namespace if omitted).
    pub namespace: Option<String>,
    /// The type of Kubernetes resource to port-forward to.
    pub resource_type: K8sResourceType,
    /// The name of the Kubernetes resource.
    pub resource_name: String,
    /// Port-forward bindings for this workload.
    pub forwards: Vec<K8sPortForward>,
    /// Whether to automatically restart this tunnel on unexpected disconnect.
    pub auto_restart: bool,
}

/// The value of a [`K8sEntry`].
pub struct K8sEntryView {
    pub id: EntryId,
    pub name: Seq<char>,
    pub kubeconfig: Option<Seq<char>>,
    pub context: Option<Seq<char>>,
    pub namespace: Option<Seq<char>>,
    pub resource_type: K8sResourceType,
    pub resource_name: Seq<char>,
    pub forwards: Seq<K8sPortForwardView>,
    pub auto_restart: bool,
}

impl View for K8sEntry {
    type V = K8sEntryView;

    open spec fn view(&self) -> K8sEntryView {
        K8sEntryView {
            id: self.id,
            name: self.name@,
            kubeconfig: opt_view(self.kubeconfig),
            context: opt_view(self.context),
            namespace: opt_view(self.namespace),
            resource_type: self.resource_type,
            resource_name: self.resource_name@,
            forwards: k8s_forwards_view(self.forwards@),
            auto_restart: self.auto_restart,
        }
    }
}

impl ServerEntry {
    /// A copy of this entry.
    pub fn copy(&self) -> (r: Self)
        ensures
            r@ == self@,
    {
        ServerEntry {
            id: self.id,
            name: self.name.clone(),
            host: self.host.clone(),
            port: self.port,
            user: copy_opt(&self.user),
            identity_file: copy_opt(&self.identity_file),
            forwards: copy_forwards(&self.forwards),
            auto_restart: self.auto_restart,
        }
    }
}

impl K8sEntryView {
    /// `<type>/<name>`, e.g. `deployment/api`.
    pub open spec fn resource_identifier(self) -> Seq<char> {
        self.resource_type.word() + "/"@ + self.resource_name
    }

    /// `<entry name> (<type>/<name>)`.
    pub open spec fn display_label(self) -> Seq<char> {
        self.name + " ("@ + self.resource_identifier() + ")"@
    }
}

impl K8sEntry {
    /// Returns the resource identifier string used in `kubectl port-forward`
    /// (e.g., `"deployment/api"`, `"service/postgres"`).
    pub fn resource_identifier(&self) -> (r: String)
        ensures
            r@ == self@.resource_identifier(),
    {
        let mut r = lit(self.resource_type.as_str());
        r.append("/");
        r.append(self.resource_name.as_str());
        r
    }

    /// Returns a display label showing the entry name and resource identifier.
    pub fn display_label(&self) -> (r: String)
        ensures
            r@ == self@.display_label(),
    {
        let mut r = self.name.clone();
        r.append(" (");
        r.append(self.resource_identifier().as_str());
        r.append(")");
        r
    }
}

/// An sshuttle VPN-over-SSH session routing one or more subnets.
#[derive(Debug, Clone, PartialEq)]
pub struct SshuttleEntry {
    /// Unique identifier for this entry.
    pub id: EntryId,
    /// Display name for this entry.
    pub name: String,
    /// SSH server hostname or IP address.
    pub host: String,
    /// SSH server port (uses sshuttle default if omitted).
    pub port: Option<u16>,
    /// SSH username (uses system default if omitted).
    pub user: Option<String>,
    /// Path to the SSH identity (private key) file.
    pub identity_file: Option<String>,
    /// Subnets to route through the tunnel (e.g. `["10.0.0.0/8"]`).
    pub subnets: Vec<String>,
    /// Whether to automatically restart this tunnel on unexpected disconnect.
    pub auto_restart: bool,
}

/// The value of a [`SshuttleEntry`].
pub struct SshuttleEntryView {
    pub id: EntryId,
    pub name: Seq<char>,
    pub host: Seq<char>,
    pub port: Option<u16>,
    pub user: Option<Seq<char>>,
    pub identity_file: Option<Seq<char>>,
    pub subnets: Seq<Seq<char>>,
    pub auto_restart: bool,
}

impl View for SshuttleEntry {
    type V = SshuttleEntryView;

    open spec fn view(&self) -> SshuttleEntryView {
        SshuttleEntryView {
            id: self.id,
            name: self.name@,
            host: self.host@,
            port: self.port,
            user: opt_view(self.user),
            identity_file: opt_view(self.identity_file),
            subnets: self.subnets.deep_view(),
            auto_restart: self.auto_restart,
        }
    }
}

/// A tunnel entry: an SSH server, a Kubernetes workload target, or an
/// sshuttle VPN session.
#[derive(Debug, Clone, PartialEq)]
pub enum TunnelEntry {
    /// An SSH server with port-forward definitions.
    Ssh(ServerEntry),
    /// A Kubernetes workload target with port-forward bindings.
    K8s(K8sEntry),
    /// An sshuttle VPN-over-SSH session routing one or more subnets.
    Sshuttle(SshuttleEntry),
}

/// The value of a [`TunnelEntry`].
pub enum TunnelEntryView {
    Ssh(ServerEntryView),
    K8s(K8sEntryView),
    Sshuttle(SshuttleEntryView),
}

impl View for TunnelEntry {
    type V = TunnelEntryView;

    open spec fn view(&self) -> TunnelEntryView {
        match self {
            TunnelEntry::Ssh(e) => TunnelEntryView::Ssh(e@),
            TunnelEntry::K8s(e) => TunnelEntryView::K8s(e@),
            TunnelEntry::Sshuttle(e) => TunnelEntryView::Sshuttle(e@),
        }
    }
}

impl TunnelEntryView {
    /// The entry's identifier.
    pub open spec fn id(self) -> EntryId {
        match self {
            TunnelEntryView::Ssh(e) => e.id,
            TunnelEntryView::K8s(e) => e.id,
            TunnelEntryView::Sshuttle(e) => e.id,
        }
    }

    /// The entry's display name.
    pub open spec fn name(self) -> Seq<char> {
        match self {
            TunnelEntryView::Ssh(e) => e.name,
            TunnelEntryView::K8s(e) => e.name,
            TunnelEntryView::Sshuttle(e) => e.name,
        }
    }

    /// Whether the entry restarts on its own after an unexpected disconnect.
    pub open spec fn auto_restart(self) -> bool {
        match self {
            TunnelEntryView::Ssh(e) => e.auto_restart,
            TunnelEntryView::K8s(e) => e.auto_restart,
            TunnelEntryView::Sshuttle(e) => e.auto_restart,
        }
    }
}

impl TunnelEntry {
    /// Returns the unique ID of this entry.
    pub fn id(&self) -> (r: EntryId)
        ensures
            r == self@.id(),
    {
        match self {
            TunnelEntry::Ssh(e) => e.id,
            TunnelEntry::K8s(e) => e.id,
            TunnelEntry::Sshuttle(e) => e.id,
        }
    }

    /// Returns the display name of this entry.
    pub fn name(&self) -> (r: &str)
        ensures
            r@ == self@.name(),
    {
        match self {
            TunnelEntry::Ssh(e) => e.name.as_str(),
            TunnelEntry::K8s(e) => e.name.as_str(),
            TunnelEntry::Sshuttle(e) => e.name.as_str(),
        }
    }

    /// Returns whether auto-restart is enabled for this entry.
    pub fn auto_restart(&self) -> (r: bool)
        ensures
            r == self@.auto_restart(),
    {
        match self {
            TunnelEntry::Ssh(e) => e.auto_restart,
            TunnelEntry::K8s(e) => e.auto_restart,
            TunnelEntry::Sshuttle(e) => e.auto_restart,
        }
    }
}

/// The values of a list of entries.
pub open spec fn entries_view(v: Seq<TunnelEntry>) -> Seq<TunnelEntryView> {
    v.map_values(|e: TunnelEntry| e@)
}

/// Top-level configuration containing all tunnel entries.
#[derive(Debug, Clone, PartialEq)]
pub struct Config {
    /// List of configured tunnel entries (SSH servers, Kubernetes workloads,
    /// sshuttle sessions).
    pub entries: Vec<TunnelEntry>,
}

impl Config {
    /// The configuration without any entry.
    pub fn empty() -> (c: Config)
        ensures
            c.entries@.len() == 0,
    {
        Config { entries: Vec::new() }
    }

    /// Converts the server list of the legacy `[[server]]` layout into the
    /// current layout: each server, in order, becomes an SSH entry.
    pub fn from_legacy_servers(servers: Vec<ServerEntry>) -> (c: Config)
        ensures
            entries_view(c.entries@) == servers@.map_values(|s: ServerEntry| TunnelEntryView::Ssh(s@)),
    {
        let mut entries: Vec<TunnelEntry> = Vec::new();
        let mut i: usize = 0;
        while i < servers.len()
            invariant
                i <= servers@.len(),
                entries@.len() == i,
                forall|k: int| 0 <= k < i ==> (#[trigger] entries@[k])@ == TunnelEntryView::Ssh(servers@[k]@),
            decreases servers@.len() - i,
        {
            entries.push(TunnelEntry::Ssh(servers[i].copy()));
            i = i + 1;
        }
        assert(entries_view(entries@) =~= servers@.map_values(|s: ServerEntry| TunnelEntryView::Ssh(s@)));
        Config { entries }
    }
}


/// Whether configuration text uses the legacy layout: it holds a
/// `[[server]]` table and no `[[entries]]` table.
pub fn is_legacy_format(content: &str) -> (r: bool)
    ensures
        r == (crate::text::has_infix(content@, "[[server]]"@) && !crate::text::has_infix(content@, "[[entries]]"@)),
{
    let c = crate::text::chars_of(content);
    let server = crate::text::chars_of("[[server]]");
    let entries = crate::text::chars_of("[[entries]]");
    crate::text::contains(c.as_slice(), server.as_slice()) && !crate::text::contains(c.as_slice(), entries.as_slice())
}

} // verus!
