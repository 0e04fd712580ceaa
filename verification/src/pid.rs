//! Deciding whether a recorded process is still the tunnel it was: a live
//! process whose executable name matches the expected tunnel binary.

use vstd::prelude::*;

use crate::text::{chars_of, ends_with, has_prefix, has_suffix, starts_with, trim, trimmed};

verus! {

/// The type of tunnel process being supervised.
#[derive(Debug, Clone, Copy, PartialEq, Eq, Structural)]
pub enum TunnelProcessType {
    /// An SSH tunnel process (`ssh` binary).
    Ssh,
    /// A Kubernetes port-forward process (`kubectl` binary).
    Kubectl,
    /// An sshuttle VPN-over-SSH process (`sshuttle` binary).
    Sshuttle,
}

impl TunnelProcessType {
    /// The name of the binary for a process type.
    pub open spec fn binary(self) -> Seq<char> {
        match self {
            TunnelProcessType::Ssh => "ssh"@,
            TunnelProcessType::Kubectl => "kubectl"@,
            TunnelProcessType::Sshuttle => "sshuttle"@,
        }
    }

    fn binary_name(self) -> (r: &'static str)
        ensures
            r@ == self.binary(),
    {
        match self {
            TunnelProcessType::Ssh => "ssh",
            TunnelProcessType::Kubectl => "kubectl",
            TunnelProcessType::Sshuttle => "sshuttle",
        }
    }
}

/// `name` without a trailing `.exe`.
pub open spec fn exe_stem(name: Seq<char>) -> Seq<char> {
    if has_suffix(name, ".exe"@) {
        name.subrange(0, name.len() - 4)
    } else {
        name
    }
}

/// Whether an executable name denotes the tunnel binary of `t`: after
/// trimming and dropping an optional `.exe`, it starts with the binary name.
pub open spec fn name_matches_spec(name: Seq<char>, t: TunnelProcessType) -> bool {
    has_prefix(exe_stem(trim(name)), t.binary())
}

/// Match an executable's base name against the expected tunnel binary.
///
/// Accepts an optional `.exe` suffix so the same logic works for Windows
/// image names (`ssh.exe`) and Unix command names (`ssh`).
pub fn name_matches(name: &str, process_type: TunnelProcessType) -> (r: bool)
    ensures
        r == name_matches_spec(name@, process_type),
{
    let raw = chars_of(name);
    let t = trimmed(raw.as_slice());
    let exe = chars_of(".exe");
    proof {
        reveal_strlit(".exe");
    }
    let stem: Vec<char> = if ends_with(t.as_slice(), exe.as_slice()) {
        let mut s: Vec<char> = Vec::new();
        let stop = t.len() - 4;
        let mut i: usize = 0;
        while i < stop
            invariant
                stop == t@.len() - 4,
                i <= stop,
                s@ == t@.subrange(0, i as int),
            decreases stop - i,
        {
            s.push(t[i]);
            i = i + 1;
            assert(s@ =~= t@.subrange(0, i as int));
        }
        s
    } else {
        t
    };
    let bin = chars_of(process_type.binary_name());
    starts_with(stem.as_slice(), bin.as_slice())
}

/// Whether a process is the expected tunnel binary, given the name it runs
/// under (`None` when the name could not be read, in which case the
/// recorded process is trusted).
pub fn is_expected_process(comm: Option<&str>, process_type: TunnelProcessType) -> (r: bool)
    ensures
        r == match comm {
            None => true,
            Some(c) => name_matches_spec(c@, process_type),
        },
{
    match comm {
        None => true,
        Some(c) => name_matches(c, process_type),
    }
}

/// Whether a process is a live tunnel of the expected type: it must be
/// alive and its name must match the expected binary.
pub fn is_live_tunnel(alive: bool, comm: Option<&str>, process_type: TunnelProcessType) -> (r: bool)
    ensures
        r == (alive && match comm {
            None => true,
            Some(c) => name_matches_spec(c@, process_type),
        }),
{
    alive && is_expected_process(comm, process_type)
}

/// The `EPERM` error number: the process exists but may not be signalled.
pub const EPERM: i32 = 1;

/// Whether a probe with signal 0 shows the process to exist: the probe
/// succeeded, or it failed only for lack of permission.
pub fn alive_from_signal_probe(ret: i32, errno: i32) -> (r: bool)
    ensures
        r == (ret == 0 || errno == EPERM),
{
    ret == 0 || errno == EPERM
}

} // verus!
