//! The command lines that start each kind of tunnel: `ssh`, `kubectl
//! port-forward` and `sshuttle`.

use vstd::prelude::*;

use crate::model::{
    dec, forwards_view, lit, opt_view, K8sEntry, K8sEntryView, K8sPortForward,
    K8sPortForwardView, ServerEntry, ServerEntryView, SshuttleEntry, SshuttleEntryView,
    TunnelEntry, TunnelEntryView, TunnelForwardView,
};
use crate::pid::TunnelProcessType;
use crate::text::decimal;

verus! {

/// Where a standard stream of a tunnel process is connected.
#[derive(Debug, Clone, Copy, PartialEq, Eq, Structural)]
pub enum StdioMode {
    /// Connected to the null device.
    Null,
    /// A pipe the supervisor reads from.
    Piped,
}

/// A program, its arguments and its standard streams, as handed to the
/// operating system.
#[derive(Debug, Clone, PartialEq, Eq)]
pub struct TunnelCommand {
    /// The program to run.
    pub program: String,
    /// Its arguments, in order.
    pub args: Vec<String>,
    /// Where its standard input comes from.
    pub stdin: StdioMode,
    /// Where its standard output goes.
    pub stdout: StdioMode,
    /// Where its standard error goes.
    pub stderr: StdioMode,
}

impl TunnelCommand {
    /// The arguments' values.
    pub open spec fn args_view(&self) -> Seq<Seq<char>> {
        self.args.deep_view()
    }

    /// The streams of every tunnel process: no input, output discarded,
    /// errors piped so that the supervisor can capture them.
    pub open spec fn detached_streams(&self) -> bool {
        &&& self.stdin == StdioMode::Null
        &&& self.stdout == StdioMode::Null
        &&& self.stderr == StdioMode::Piped
    }
}

/// A command for `program` with `args` and the streams of a tunnel process.
fn tunnel_command(program: &str, args: Vec<String>) -> (c: TunnelCommand)
    ensures
        c.program@ == program@,
        c.args_view() == args.deep_view(),
        c.detached_streams(),
{
    TunnelCommand {
        program: lit(program),
        args,
        stdin: StdioMode::Null,
        stdout: StdioMode::Null,
        stderr: StdioMode::Piped,
    }
}

/// `[flag, value]` when `value` is present, nothing otherwise.
pub open spec fn opt_pair(flag: Seq<char>, value: Option<Seq<char>>) -> Seq<Seq<char>> {
    match value {
        Some(v) => seq![flag, v],
        None => Seq::empty(),
    }
}

/// The ssh arguments of a list of forwards: each forward's flag and value.
pub open spec fn forward_args(fs: Seq<TunnelForwardView>) -> Seq<Seq<char>>
    decreases fs.len(),
{
    if fs.len() == 0 {
        Seq::empty()
    } else {
        forward_args(fs.drop_last()) + seq![fs.last().flag(), fs.last().flag_value()]
    }
}

/// The arguments of `ssh` for a server entry: no remote command, fail when
/// a forward cannot be set up, the port unless it is 22, user, identity
/// file, every forward, then the host.
pub open spec fn ssh_args(e: ServerEntryView) -> Seq<Seq<char>> {
    seq!["-N"@, "-o"@, "ExitOnForwardFailure=yes"@] + (if e.port != 22 {
        seq!["-p"@, decimal(e.port as nat)]
    } else {
        Seq::empty()
    }) + opt_pair("-l"@, e.user) + opt_pair("-i"@, e.identity_file) + forward_args(e.forwards)
        + seq![e.host]
}

/// The arguments of `kubectl` for one binding of a workload.
pub open spec fn kubectl_args(e: K8sEntryView, f: K8sPortForwardView) -> Seq<Seq<char>> {
    seq!["port-forward"@] + opt_pair("--context"@, e.context) + opt_pair("-n"@, e.namespace)
        + seq![e.resource_identifier(), f.kubectl_arg()]
}

/// `[user@]host[:port]`, the remote of an sshuttle session.
pub open spec fn sshuttle_remote(e: SshuttleEntryView) -> Seq<char> {
    let host_part = match e.user {
        Some(u) => u + "@"@ + e.host,
        None => e.host,
    };
    match e.port {
        Some(p) => host_part + ":"@ + decimal(p as nat),
        None => host_part,
    }
}

/// The arguments of `sshuttle` for a session: the remote, the ssh command
/// carrying the identity file if any, then every subnet.
pub open spec fn sshuttle_args(e: SshuttleEntryView) -> Seq<Seq<char>> {
    seq!["-r"@, sshuttle_remote(e)] + (match e.identity_file {
        Some(k) => seq!["-e"@, "ssh -i "@ + k],
        None => Seq::empty(),
    }) + e.subnets
}

fn push_lit(args: &mut Vec<String>, s: &str)
    ensures
        final(args).deep_view() == old(args).deep_view().push(s@),
{
    let ghost before = args.deep_view();
    args.push(lit(s));
    assert(args.deep_view() =~= before.push(s@));
}

fn push_string(args: &mut Vec<String>, s: String)
    ensures
        final(args).deep_view() == old(args).deep_view().push(s@),
{
    let ghost before = args.deep_view();
    args.push(s);
    assert(args.deep_view() =~= before.push(s@));
}

fn push_opt_pair(args: &mut Vec<String>, flag: &str, value: &Option<String>)
    ensures
        final(args).deep_view() == old(args).deep_view() + opt_pair(flag@, opt_view(*value)),
{
    let ghost before = args.deep_view();
    match value {
        Some(v) => {
            push_lit(args, flag);
            push_string(args, v.clone());
            assert(args.deep_view() =~= before + opt_pair(flag@, opt_view(*value)));
        },
        None => {
            assert(args.deep_view() =~= before + opt_pair(flag@, opt_view(*value)));
        },
    }
}

/// Build the `ssh` command for a server entry.
///
/// The command includes `-N` (no remote command), `-o
/// ExitOnForwardFailure=yes`, `-p <port>` (if not 22), `-l <user>` (if set),
/// `-i <identity_file>` (if set), the `-L`/`-R`/`-D` flag and value of each
/// forward, and finally the host. Its input and output are the null device;
/// its errors are piped.
pub fn build_ssh_command(entry: &ServerEntry) -> (cmd: TunnelCommand)
    ensures
        cmd.program@ == "ssh"@,
        cmd.detached_streams(),
        cmd.args_view() == ssh_args(entry@),
{
    let mut args: Vec<String> = Vec::new();
    push_lit(&mut args, "-N");
    push_lit(&mut args, "-o");
    push_lit(&mut args, "ExitOnForwardFailure=yes");
    let ghost a0 = args.deep_view();
    if entry.port != 22 {
        push_lit(&mut args, "-p");
        push_string(&mut args, dec(entry.port as u64));
    }
    assert(args.deep_view() =~= a0 + (if entry.port != 22 {
        seq!["-p"@, decimal(entry.port as nat)]
    } else {
        Seq::empty()
    }));
    push_opt_pair(&mut args, "-l", &entry.user);
    push_opt_pair(&mut args, "-i", &entry.identity_file);
    let ghost a1 = args.deep_view();
    let mut i: usize = 0;
    while i < entry.forwards.len()
        invariant
            i <= entry.forwards@.len(),
            args.deep_view() == a1 + forward_args(forwards_view(entry.forwards@.take(i as int))),
        decreases entry.forwards@.len() - i,
    {
        let fwd = &entry.forwards[i];
        let ghost prev = args.deep_view();
        push_lit(&mut args, fwd.flag());
        push_string(&mut args, fwd.flag_value());
        assert(forwards_view(entry.forwards@.take(i + 1)).drop_last() =~= forwards_view(
            entry.forwards@.take(i as int),
        ));
        i = i + 1;
        assert(args.deep_view() =~= a1 + forward_args(forwards_view(entry.forwards@.take(i as int))));
    }
    assert(entry.forwards@.take(entry.forwards@.len() as int) =~= entry.forwards@);
    push_string(&mut args, entry.host.clone());
    assert(args.deep_view() =~= ssh_args(entry@));
    tunnel_command("ssh", args)
}

/// Build the `kubectl port-forward` command for one binding of a workload:
/// `kubectl port-forward [--context <ctx>] [-n <namespace>] <type>/<name>
/// <bind>:<local>:<remote>`, with input and output on the null device and
/// errors piped.
pub fn build_kubectl_command(entry: &K8sEntry, forward: &K8sPortForward) -> (cmd: TunnelCommand)
    ensures
        cmd.program@ == "kubectl"@,
        cmd.detached_streams(),
        cmd.args_view() == kubectl_args(entry@, forward@),
{
    let mut args: Vec<String> = Vec::new();
    push_lit(&mut args, "port-forward");
    push_opt_pair(&mut args, "--context", &entry.context);
    push_opt_pair(&mut args, "-n", &entry.namespace);
    push_string(&mut args, entry.resource_identifier());
    push_string(&mut args, forward.kubectl_arg());
    assert(args.deep_view() =~= kubectl_args(entry@, forward@));
    tunnel_command("kubectl", args)
}

/// Build the `sshuttle` command for a session: `sshuttle -r
/// [user@]host[:port] [-e 'ssh -i <identity_file>'] <subnet>...`, with input
/// and output on the null device and errors piped.
pub fn build_sshuttle_command(entry: &SshuttleEntry) -> (cmd: TunnelCommand)
    ensures
        cmd.program@ == "sshuttle"@,
        cmd.detached_streams(),
        cmd.args_view() == sshuttle_args(entry@),
{
    let mut remote = match &entry.user {
        Some(user) => {
            let mut r = user.clone();
            r.append("@");
            r.append(entry.host.as_str());
            r
        },
        None => entry.host.clone(),
    };
    match entry.port {
        Some(port) => {
            remote.append(":");
            remote.append(dec(port as u64).as_str());
        },
        None => {},
    }
    let mut args: Vec<String> = Vec::new();
    push_lit(&mut args, "-r");
    push_string(&mut args, remote);
    let ghost a0 = args.deep_view();
    match &entry.identity_file {
        Some(k) => {
            push_lit(&mut args, "-e");
            let mut e = lit("ssh -i ");
            e.append(k.as_str());
            push_string(&mut args, e);
        },
        None => {},
    }
    let ghost a1 = args.deep_view();
    let mut i: usize = 0;
    while i < entry.subnets.len()
        invariant
            i <= entry.subnets@.len(),
            args.deep_view() == a1 + entry.subnets.deep_view().take(i as int),
        decreases entry.subnets@.len() - i,
    {
        push_string(&mut args, entry.subnets[i].clone());
        i = i + 1;
        assert(args.deep_view() =~= a1 + entry.subnets.deep_view().take(i as int));
    }
    assert(entry.subnets.deep_view().take(entry.subnets@.len() as int) =~= entry.subnets.deep_view());
    assert(args.deep_view() =~= sshuttle_args(entry@));
    tunnel_command("sshuttle", args)
}

/// Law: the `kubectl port-forward` arguments of a workload binding are the
/// subcommand, then a `--context` pair and a `-n` pair for the options that
/// are set (in that order), then the resource as `<type>/<name>`, and last
/// the binding as `<bind>:<local port>:<remote port>`; nothing else.
pub proof fn law_kubectl_args_layout(e: K8sEntryView, f: K8sPortForwardView)
    ensures
        ({
            let args = kubectl_args(e, f);
            let nc: int = if e.context is Some { 2 } else { 0 };
            let nn: int = if e.namespace is Some { 2 } else { 0 };
            &&& args.len() == 3 + nc + nn
            &&& args[0] == "port-forward"@
            &&& (e.context matches Some(c) ==> args[1] == "--context"@ && args[2] == c)
            &&& (e.namespace matches Some(n) ==> args[1 + nc] == "-n"@ && args[2 + nc] == n)
            &&& args[args.len() - 2] == e.resource_type.word() + "/"@ + e.resource_name
            &&& args[args.len() - 1] == f.local_bind_address + ":"@ + decimal(f.local_port as nat) + ":"@
                + decimal(f.remote_port as nat)
        }),
{
    let args = kubectl_args(e, f);
    let p = seq!["port-forward"@] + opt_pair("--context"@, e.context) + opt_pair("-n"@, e.namespace);
    assert(args == p + seq![e.resource_identifier(), f.kubectl_arg()]);
    assert(args[args.len() - 2] == e.resource_identifier());
    assert(args[args.len() - 1] == f.kubectl_arg());
}

/// The process type that supervises an entry.
pub open spec fn process_type_spec(e: TunnelEntryView) -> TunnelProcessType {
    match e {
        TunnelEntryView::Ssh(_) => TunnelProcessType::Ssh,
        TunnelEntryView::K8s(_) => TunnelProcessType::Kubectl,
        TunnelEntryView::Sshuttle(_) => TunnelProcessType::Sshuttle,
    }
}

/// The process type that supervises an entry.
pub fn process_type_of(entry: &TunnelEntry) -> (r: TunnelProcessType)
    ensures
        r == process_type_spec(entry@),
{
    match entry {
        TunnelEntry::Ssh(_) => TunnelProcessType::Ssh,
        TunnelEntry::K8s(_) => TunnelProcessType::Kubectl,
        TunnelEntry::Sshuttle(_) => TunnelProcessType::Sshuttle,
    }
}

/// The command that starts the tunnel of an entry. A workload is forwarded
/// through its first binding only; one without bindings has no command.
pub fn launch_command(entry: &TunnelEntry) -> (r: Option<TunnelCommand>)
    ensures
        match entry@ {
            TunnelEntryView::Ssh(e) => r matches Some(c) && c.program@ == "ssh"@ && c.args_view()
                == ssh_args(e) && c.detached_streams(),
            TunnelEntryView::K8s(e) => if e.forwards.len() == 0 {
                r is None
            } else {
                r matches Some(c) && c.program@ == "kubectl"@ && c.args_view() == kubectl_args(
                    e,
                    e.forwards[0],
                ) && c.detached_streams()
            },
            TunnelEntryView::Sshuttle(e) => r matches Some(c) && c.program@ == "sshuttle"@
                && c.args_view() == sshuttle_args(e) && c.detached_streams(),
        },
{
    match entry {
        TunnelEntry::Ssh(e) => Some(build_ssh_command(e)),
        TunnelEntry::K8s(e) => {
            if e.forwards.len() == 0 {
                None
            } else {
                Some(build_kubectl_command(e, &e.forwards[0]))
            }
        },
        TunnelEntry::Sshuttle(e) => Some(build_sshuttle_command(e)),
    }
}

} // verus!
