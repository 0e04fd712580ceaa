//! The text and geometry that the terminal screen is drawn from: sidebar
//! scrolling and the one-line summaries of each entry.

use vstd::prelude::*;

use crate::model::{
    dec, k8s_forwards_view, lit, K8sPortForward, K8sPortForwardView, TunnelForward,
    TunnelForwardView,
};
use crate::text::decimal;

verus! {

/// The scroll offset that keeps the selected row visible: the current
/// offset, moved up to the top of the selected row if that is above the
/// viewport, or moved down so that the bottom of the row is the bottom of
/// the viewport if it is below.
pub open spec fn scroll_offset_spec(
    selected: int,
    current_offset: int,
    entry_count: int,
    viewport_height: int,
    row_h: int,
) -> int {
    if entry_count == 0 || viewport_height == 0 {
        0
    } else {
        let top = selected * row_h;
        let bottom = top + row_h;
        let o1 = if top < current_offset { top } else { current_offset };
        if bottom > o1 + viewport_height {
            if bottom >= viewport_height { bottom - viewport_height } else { 0 }
        } else {
            o1
        }
    }
}

/// Compute the scroll offset (in lines) to keep the selected entry visible.
/// All rows have uniform height, so this is O(1).
pub fn compute_scroll_offset(
    selected: usize,
    current_offset: usize,
    entry_count: usize,
    viewport_height: usize,
    row_h: usize,
) -> (r: usize)
    requires
        (selected + 1) * row_h <= usize::MAX,
        current_offset + viewport_height <= usize::MAX,
    ensures
        r == scroll_offset_spec(
            selected as int,
            current_offset as int,
            entry_count as int,
            viewport_height as int,
            row_h as int,
        ),
{
    if entry_count == 0 || viewport_height == 0 {
        return 0;
    }
    assert(selected * row_h + row_h == (selected + 1) * row_h) by (nonlinear_arith);
    let top_of_selected = selected * row_h;
    let bottom_of_selected = top_of_selected + row_h;
    let mut offset = current_offset;
    if top_of_selected < offset {
        offset = top_of_selected;
    }
    if bottom_of_selected > offset + viewport_height {
        offset = bottom_of_selected.saturating_sub(viewport_height);
    }
    offset
}

/// Law: when the selected row fits in the viewport, the offset makes the
/// whole row visible.
pub proof fn law_scroll_keeps_selection_visible(
    selected: int,
    current_offset: int,
    entry_count: int,
    viewport_height: int,
    row_h: int,
)
    requires
        0 <= selected < entry_count,
        0 <= current_offset,
        0 < row_h <= viewport_height,
    ensures
        ({
            let o = scroll_offset_spec(selected, current_offset, entry_count, viewport_height, row_h);
            o <= selected * row_h && selected * row_h + row_h <= o + viewport_height
        }),
{
    assert(0 <= selected * row_h) by (nonlinear_arith)
        requires
            0 <= selected,
            0 < row_h,
    ;
}

/// A forward as listed alone in a sidebar row.
pub open spec fn forward_item_single(f: TunnelForwardView) -> Seq<char> {
    match f {
        TunnelForwardView::Local { bind_port, remote_host, remote_port, .. } => decimal(
            bind_port as nat,
        ) + "→"@ + remote_host + ":"@ + decimal(remote_port as nat),
        TunnelForwardView::Remote { bind_port, remote_host, remote_port, .. } => decimal(
            bind_port as nat,
        ) + "←"@ + remote_host + ":"@ + decimal(remote_port as nat),
        TunnelForwardView::Dynamic { bind_port, .. } => decimal(bind_port as nat) + " (SOCKS)"@,
    }
}

/// A forward as listed next to another one in a sidebar row.
pub open spec fn forward_item_pair(f: TunnelForwardView) -> Seq<char> {
    match f {
        TunnelForwardView::Dynamic { bind_port, .. } => decimal(bind_port as nat) + "(SOCKS)"@,
        _ => forward_item_single(f),
    }
}

/// The sidebar summary of forwards: nothing, `label: item`, `label: item,
/// item`, or `<count><label>` for three or more.
pub open spec fn ssh_forward_summary_spec(fs: Seq<TunnelForwardView>, label: Seq<char>) -> Seq<
    char,
> {
    if fs.len() == 0 {
        Seq::empty()
    } else if fs.len() == 1 {
        label + ": "@ + forward_item_single(fs[0])
    } else if fs.len() == 2 {
        label + ": "@ + forward_item_pair(fs[0]) + ", "@ + forward_item_pair(fs[1])
    } else {
        decimal(fs.len()) + label
    }
}

fn forward_item(f: &TunnelForward, paired: bool) -> (r: String)
    ensures
        r@ == if paired { forward_item_pair(f@) } else { forward_item_single(f@) },
{
    match f {
        TunnelForward::Local { bind_port, remote_host, remote_port, .. } => {
            let mut r = dec(*bind_port as u64);
            r.append("→");
            r.append(remote_host.as_str());
            r.append(":");
            r.append(dec(*remote_port as u64).as_str());
            r
        },
        TunnelForward::Remote { bind_port, remote_host, remote_port, .. } => {
            let mut r = dec(*bind_port as u64);
            r.append("←");
            r.append(remote_host.as_str());
            r.append(":");
            r.append(dec(*remote_port as u64).as_str());
            r
        },
        TunnelForward::Dynamic { bind_port, .. } => {
            let mut r = dec(*bind_port as u64);
            if paired {
                r.append("(SOCKS)");
            } else {
                r.append(" (SOCKS)");
            }
            r
        },
    }
}

/// Summarise a list of SSH forwards inline if there are at most two, else
/// as a count. `label` is "L", "R", or "D".
pub fn ssh_forward_summary(forwards: &[TunnelForward], label: &str) -> (r: String)
    ensures
        r@ == ssh_forward_summary_spec(forwards@.map_values(|f: TunnelForward| f@), label@),
{
    let ghost fs = forwards@.map_values(|f: TunnelForward| f@);
    let n = forwards.len();
    if n == 0 {
        String::new()
    } else if n == 1 {
        let mut r = lit(label);
        r.append(": ");
        r.append(forward_item(&forwards[0], false).as_str());
        assert(fs[0] == forwards@[0]@);
        r
    } else if n == 2 {
        let mut r = lit(label);
        r.append(": ");
        r.append(forward_item(&forwards[0], true).as_str());
        r.append(", ");
        r.append(forward_item(&forwards[1], true).as_str());
        assert(fs[0] == forwards@[0]@);
        assert(fs[1] == forwards@[1]@);
        r
    } else {
        let mut r = dec(n as u64);
        r.append(label);
        r
    }
}

/// One binding as `local→:remote`.
pub open spec fn binding_item(f: K8sPortForwardView) -> Seq<char> {
    decimal(f.local_port as nat) + "→:"@ + decimal(f.remote_port as nat)
}

/// The sidebar summary of workload bindings: nothing, one or two items, or
/// `<count> bindings`.
pub open spec fn k8s_bindings_summary_spec(fs: Seq<K8sPortForwardView>) -> Seq<char> {
    if fs.len() == 0 {
        Seq::empty()
    } else if fs.len() == 1 {
        binding_item(fs[0])
    } else if fs.len() == 2 {
        binding_item(fs[0]) + ", "@ + binding_item(fs[1])
    } else {
        decimal(fs.len()) + " bindings"@
    }
}

fn binding_text(f: &K8sPortForward) -> (r: String)
    ensures
        r@ == binding_item(f@),
{
    let mut r = dec(f.local_port as u64);
    r.append("→:");
    r.append(dec(f.remote_port as u64).as_str());
    r
}

/// Summarise Kubernetes port bindings: at most two inline, more as a count.
pub fn k8s_bindings_summary(forwards: &[K8sPortForward]) -> (r: String)
    ensures
        r@ == k8s_bindings_summary_spec(k8s_forwards_view(forwards@)),
{
    let ghost fs = k8s_forwards_view(forwards@);
    let n = forwards.len();
    if n == 0 {
        String::new()
    } else if n == 1 {
        assert(fs[0] == forwards@[0]@);
        binding_text(&forwards[0])
    } else if n == 2 {
        let mut r = binding_text(&forwards[0]);
        r.append(", ");
        r.append(binding_text(&forwards[1]).as_str());
        assert(fs[0] == forwards@[0]@);
        assert(fs[1] == forwards@[1]@);
        r
    } else {
        let mut r = dec(n as u64);
        r.append(" bindings");
        r
    }
}

/// The status-bar summary: ` N entries  N connected  N failed`, followed by
/// `  N suspended` when any entry is suspended.
pub open spec fn status_summary_spec(total: nat, connected: nat, failed: nat, suspended: nat) -> Seq<
    char,
> {
    " "@ + decimal(total) + " entries  "@ + decimal(connected) + " connected  "@ + decimal(failed)
        + " failed"@ + if suspended > 0 {
        "  "@ + decimal(suspended) + " suspended"@
    } else {
        Seq::empty()
    }
}

/// Builds the status-bar summary of connection counts.
pub fn status_summary(total: usize, connected: usize, failed: usize, suspended: usize) -> (r: String)
    ensures
        r@ == status_summary_spec(total as nat, connected as nat, failed as nat, suspended as nat),
{
    let mut r = lit(" ");
    r.append(dec(total as u64).as_str());
    r.append(" entries  ");
    r.append(dec(connected as u64).as_str());
    r.append(" connected  ");
    r.append(dec(failed as u64).as_str());
    r.append(" failed");
    if suspended > 0 {
        r.append("  ");
        r.append(dec(suspended as u64).as_str());
        r.append(" suspended");
    }
    r
}

/// The sidebar summary of an sshuttle session's subnets: nothing, the only
/// subnet, or `<count> subnets`.
pub open spec fn subnet_summary_spec(subnets: Seq<Seq<char>>) -> Seq<char> {
    if subnets.len() == 0 {
        Seq::empty()
    } else if subnets.len() == 1 {
        subnets[0]
    } else {
        decimal(subnets.len()) + " subnets"@
    }
}

/// Summarises the subnets routed by an sshuttle session.
pub fn subnet_summary(subnets: &Vec<String>) -> (r: String)
    ensures
        r@ == subnet_summary_spec(subnets.deep_view()),
{
    let n = subnets.len();
    if n == 0 {
        String::new()
    } else if n == 1 {
        subnets[0].clone()
    } else {
        let mut r = dec(n as u64);
        r.append(" subnets");
        r
    }
}

/// The identity line of a row: `user:U  key:K`, either half alone, or
/// nothing.
pub open spec fn identity_line_spec(user: Option<Seq<char>>, key: Option<Seq<char>>) -> Seq<char> {
    match (user, key) {
        (Some(u), Some(k)) => "user:"@ + u + "  key:"@ + k,
        (Some(u), None) => "user:"@ + u,
        (None, Some(k)) => "key:"@ + k,
        (None, None) => Seq::empty(),
    }
}

/// Builds the identity line of a sidebar row.
pub fn identity_line(user: &Option<String>, key: &Option<String>) -> (r: String)
    ensures
        r@ == identity_line_spec(crate::model::opt_view(*user), crate::model::opt_view(*key)),
{
    match (user, key) {
        (Some(u), Some(k)) => {
            let mut r = lit("user:");
            r.append(u.as_str());
            r.append("  key:");
            r.append(k.as_str());
            r
        },
        (Some(u), None) => {
            let mut r = lit("user:");
            r.append(u.as_str());
            r
        },
        (None, Some(k)) => {
            let mut r = lit("key:");
            r.append(k.as_str());
            r
        },
        (None, None) => String::new(),
    }
}


/// The summary line of the splash: `N entries · N connected · N failed`,
/// followed by ` · N suspended` when any entry is suspended.
pub open spec fn splash_summary_spec(total: nat, connected: nat, failed: nat, suspended: nat) -> Seq<char> {
    decimal(total) + " entries · "@ + decimal(connected) + " connected · "@ + decimal(failed) + " failed"@
        + if suspended > 0 {
        " · "@ + decimal(suspended) + " suspended"@
    } else {
        Seq::empty()
    }
}

/// Builds the summary line of the splash.
pub fn splash_summary(total: usize, connected: usize, failed: usize, suspended: usize) -> (r: String)
    ensures
        r@ == splash_summary_spec(total as nat, connected as nat, failed as nat, suspended as nat),
{
    let mut r = dec(total as u64);
    r.append(" entries · ");
    r.append(dec(connected as u64).as_str());
    r.append(" connected · ");
    r.append(dec(failed as u64).as_str());
    r.append(" failed");
    if suspended > 0 {
        r.append(" · ");
        r.append(dec(suspended as u64).as_str());
        r.append(" suspended");
    }
    r
}

} // verus!
