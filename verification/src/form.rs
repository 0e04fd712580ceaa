//! The entry form: its fields for each kind of entry, how it is filled from
//! an existing entry, and how each key moves through it.

use vstd::prelude::*;

use crate::model::{
    copy_forwards, copy_k8s_forwards, dec, default_bind_address, forwards_view,
    k8s_forwards_view, lit, opt_view, EntryId, K8sEntry, K8sPortForward, K8sPortForwardView,
    ServerEntry, SshuttleEntry, TunnelForward, TunnelForwardView,
};
use crate::model::K8sResourceType;
use crate::text::{
    chars_of, decimal, eq_ignore_ascii_case, equals_ignore_ascii_case, join, join_strings, parse_u16,
    parse_u16_chars, trim, trimmed,
};

verus! {

/// State for the entry-type selection step.
#[derive(Debug, Clone, Copy, PartialEq, Eq, Structural)]
pub struct EntryTypeSelection {
    /// 0 = SSH, 1 = K8s, 2 = sshuttle
    pub selected: usize,
}

/// Which section of the form currently has focus.
#[derive(Debug, Clone, Copy, PartialEq, Eq, Structural)]
pub enum FormFocus {
    /// Focused on the connection fields (name, host, port, etc.).
    ServerFields,
    /// Focused on the forwards list, selecting an existing forward.
    ForwardList,
    /// Actively editing a forward's fields (new or existing).
    ForwardEdit {
        /// Index of the forward being edited, or `None` for a new forward.
        editing_index: Option<usize>,
    },
}

/// The type of entry being edited in the form.
#[derive(Debug, Clone, Copy, PartialEq, Eq, Structural)]
pub enum FormEntryType {
    /// SSH server entry.
    Ssh,
    /// Kubernetes workload entry.
    K8s,
    /// sshuttle VPN-over-SSH entry.
    Sshuttle,
}

/// A single form field.
#[derive(Debug, Clone, PartialEq, Eq)]
pub struct FormField {
    /// Field label.
    pub label: String,
    /// Current value.
    pub value: String,
}

/// The value of a [`FormField`].
pub struct FormFieldView {
    pub label: Seq<char>,
    pub value: Seq<char>,
}

impl View for FormField {
    type V = FormFieldView;

    open spec fn view(&self) -> FormFieldView {
        FormFieldView { label: self.label@, value: self.value@ }
    }
}

/// A field with the given label and value.
pub open spec fn fv(label: Seq<char>, value: Seq<char>) -> FormFieldView {
    FormFieldView { label, value }
}

/// The values of a list of fields.
pub open spec fn fields_view(v: Seq<FormField>) -> Seq<FormFieldView> {
    v.map_values(|f: FormField| f@)
}

/// State for the entry form (new or edit).
#[derive(Debug, Clone, PartialEq)]
pub struct FormState {
    /// Which field is currently focused in the connection fields section.
    pub focused_field: usize,
    /// Whether we are editing an existing entry (Some(id)) or creating new (None).
    pub editing_id: Option<EntryId>,
    /// The type of entry being edited.
    pub entry_type: FormEntryType,
    /// The connection field values.
    pub fields: Vec<FormField>,
    /// SSH only: forwards being edited.
    pub forwards: Vec<TunnelForward>,
    /// Which section of the form currently has focus.
    pub focus: FormFocus,
    /// Currently selected forward index in the list.
    pub selected_forward: usize,
    /// Current forward field being edited (within the forward sub-form).
    pub forward_field: usize,
    /// Forward type selector index (0=Local, 1=Remote, 2=Dynamic) for SSH.
    pub forward_type: usize,
    /// Forward field values.
    pub forward_fields: Vec<FormField>,
    /// Kubernetes only: port-forward bindings being edited.
    pub k8s_forwards: Vec<K8sPortForward>,
}

/// The value of a [`FormState`].
pub struct FormStateView {
    pub focused_field: usize,
    pub editing_id: Option<EntryId>,
    pub entry_type: FormEntryType,
    pub fields: Seq<FormFieldView>,
    pub forwards: Seq<TunnelForwardView>,
    pub focus: FormFocus,
    pub selected_forward: usize,
    pub forward_field: usize,
    pub forward_type: usize,
    pub forward_fields: Seq<FormFieldView>,
    pub k8s_forwards: Seq<K8sPortForwardView>,
}

impl View for FormState {
    type V = FormStateView;

    open spec fn view(&self) -> FormStateView {
        FormStateView {
            focused_field: self.focused_field,
            editing_id: self.editing_id,
            entry_type: self.entry_type,
            fields: fields_view(self.fields@),
            forwards: forwards_view(self.forwards@),
            focus: self.focus,
            selected_forward: self.selected_forward,
            forward_field: self.forward_field,
            forward_type: self.forward_type,
            forward_fields: fields_view(self.forward_fields@),
            k8s_forwards: k8s_forwards_view(self.k8s_forwards@),
        }
    }
}

/// `yes` or `no`.
pub open spec fn yes_no(b: bool) -> Seq<char> {
    if b { "yes"@ } else { "no"@ }
}

/// The text of an optional value, empty when absent.
pub open spec fn or_empty(o: Option<Seq<char>>) -> Seq<char> {
    match o {
        Some(s) => s,
        None => Seq::empty(),
    }
}

/// How many connection fields the form of each entry type has.
pub open spec fn field_count(t: FormEntryType) -> nat {
    match t {
        FormEntryType::Sshuttle => 7,
        _ => 6,
    }
}

impl FormStateView {
    /// The number of forwards in the list that the form edits.
    pub open spec fn forward_count(self) -> nat {
        match self.entry_type {
            FormEntryType::Ssh => self.forwards.len(),
            FormEntryType::K8s => self.k8s_forwards.len(),
            FormEntryType::Sshuttle => 0,
        }
    }

    /// Well-formedness: the field list has the length of its entry type,
    /// the focused field exists, a selected forward exists while the list
    /// has focus, an sshuttle form never leaves its connection fields, and
    /// the forward type is one of the three.
    pub open spec fn wf(self) -> bool {
        &&& self.fields.len() == field_count(self.entry_type)
        &&& self.focused_field < self.fields.len()
        &&& (self.focus == FormFocus::ForwardList ==> self.selected_forward < self.forward_count())
        &&& (self.entry_type == FormEntryType::Sshuttle ==> self.focus == FormFocus::ServerFields)
        &&& self.forward_type < 3
    }
}

/// The empty sub-form of an SSH forward.
pub open spec fn default_ssh_forward_fields_spec() -> Seq<FormFieldView> {
    seq![
        fv("Bind Port"@, Seq::empty()),
        fv("Remote Host"@, Seq::empty()),
        fv("Remote Port"@, Seq::empty()),
    ]
}

/// The empty sub-form of a Kubernetes binding.
pub open spec fn default_k8s_forward_fields_spec() -> Seq<FormFieldView> {
    seq![fv("Local Port"@, Seq::empty()), fv("Remote Port"@, Seq::empty())]
}

/// A form in its initial position over the given fields.
pub open spec fn form_spec(
    editing_id: Option<EntryId>,
    entry_type: FormEntryType,
    fields: Seq<FormFieldView>,
    forwards: Seq<TunnelForwardView>,
    forward_fields: Seq<FormFieldView>,
    k8s_forwards: Seq<K8sPortForwardView>,
) -> FormStateView {
    FormStateView {
        focused_field: 0,
        editing_id,
        entry_type,
        fields,
        forwards,
        focus: FormFocus::ServerFields,
        selected_forward: 0,
        forward_field: 0,
        forward_type: 0,
        forward_fields,
        k8s_forwards,
    }
}

/// The empty SSH form.
pub open spec fn new_ssh_form_spec() -> FormStateView {
    form_spec(
        None,
        FormEntryType::Ssh,
        seq![
            fv("Name"@, Seq::empty()),
            fv("Host"@, Seq::empty()),
            fv("Port"@, "22"@),
            fv("User"@, Seq::empty()),
            fv("Identity File"@, Seq::empty()),
            fv("Auto Restart"@, "no"@),
        ],
        Seq::empty(),
        default_ssh_forward_fields_spec(),
        Seq::empty(),
    )
}

/// The empty Kubernetes form.
pub open spec fn new_k8s_form_spec() -> FormStateView {
    form_spec(
        None,
        FormEntryType::K8s,
        seq![
            fv("Name"@, Seq::empty()),
            fv("Context"@, Seq::empty()),
            fv("Namespace"@, Seq::empty()),
            fv("Resource Type"@, "deployment"@),
            fv("Resource Name"@, Seq::empty()),
            fv("Auto Restart"@, "no"@),
        ],
        Seq::empty(),
        default_k8s_forward_fields_spec(),
        Seq::empty(),
    )
}

/// The empty sshuttle form.
pub open spec fn new_sshuttle_form_spec() -> FormStateView {
    form_spec(
        None,
        FormEntryType::Sshuttle,
        seq![
            fv("Name"@, Seq::empty()),
            fv("Host"@, Seq::empty()),
            fv("Subnets"@, Seq::empty()),
            fv("Port"@, Seq::empty()),
            fv("User"@, Seq::empty()),
            fv("Identity File"@, Seq::empty()),
            fv("Auto Restart"@, "no"@),
        ],
        Seq::empty(),
        Seq::empty(),
        Seq::empty(),
    )
}

/// A field with a literal label.
fn field(label: &str, value: String) -> (r: FormField)
    ensures
        r@ == fv(label@, value@),
{
    FormField { label: lit(label), value }
}

fn yes_no_text(b: bool) -> (r: String)
    ensures
        r@ == yes_no(b),
{
    if b { lit("yes") } else { lit("no") }
}

fn or_empty_text(o: &Option<String>) -> (r: String)
    ensures
        r@ == or_empty(opt_view(*o)),
{
    match o {
        Some(s) => s.clone(),
        None => String::new(),
    }
}

/// Default fields for the SSH forward sub-form.
pub fn default_ssh_forward_fields() -> (r: Vec<FormField>)
    ensures
        fields_view(r@) == default_ssh_forward_fields_spec(),
{
    let r = vec![
        field("Bind Port", String::new()),
        field("Remote Host", String::new()),
        field("Remote Port", String::new()),
    ];
    assert(fields_view(r@) =~= default_ssh_forward_fields_spec());
    r
}

/// Default fields for the Kubernetes forward sub-form.
pub fn default_k8s_forward_fields() -> (r: Vec<FormField>)
    ensures
        fields_view(r@) == default_k8s_forward_fields_spec(),
{
    let r = vec![field("Local Port", String::new()), field("Remote Port", String::new())];
    assert(fields_view(r@) =~= default_k8s_forward_fields_spec());
    r
}

/// Build a new empty SSH entry form.
pub fn new_ssh_form() -> (r: FormState)
    ensures
        r@ == new_ssh_form_spec(),
{
    let fields = vec![
        field("Name", String::new()),
        field("Host", String::new()),
        field("Port", lit("22")),
        field("User", String::new()),
        field("Identity File", String::new()),
        field("Auto Restart", lit("no")),
    ];
    let r = FormState {
        focused_field: 0,
        editing_id: None,
        entry_type: FormEntryType::Ssh,
        fields,
        forwards: Vec::new(),
        focus: FormFocus::ServerFields,
        selected_forward: 0,
        forward_field: 0,
        forward_type: 0,
        forward_fields: default_ssh_forward_fields(),
        k8s_forwards: Vec::new(),
    };
    assert(r@.fields =~= new_ssh_form_spec().fields);
    assert(r@.forwards =~= Seq::<TunnelForwardView>::empty());
    assert(r@.k8s_forwards =~= Seq::<K8sPortForwardView>::empty());
    r
}

/// Build a new empty Kubernetes entry form.
pub fn new_k8s_form() -> (r: FormState)
    ensures
        r@ == new_k8s_form_spec(),
{
    let fields = vec![
        field("Name", String::new()),
        field("Context", String::new()),
        field("Namespace", String::new()),
        field("Resource Type", lit("deployment")),
        field("Resource Name", String::new()),
        field("Auto Restart", lit("no")),
    ];
    let r = FormState {
        focused_field: 0,
        editing_id: None,
        entry_type: FormEntryType::K8s,
        fields,
        forwards: Vec::new(),
        focus: FormFocus::ServerFields,
        selected_forward: 0,
        forward_field: 0,
        forward_type: 0,
        forward_fields: default_k8s_forward_fields(),
        k8s_forwards: Vec::new(),
    };
    assert(r@.fields =~= new_k8s_form_spec().fields);
    assert(r@.forwards =~= Seq::<TunnelForwardView>::empty());
    assert(r@.k8s_forwards =~= Seq::<K8sPortForwardView>::empty());
    r
}

/// Build a new empty sshuttle entry form.
pub fn new_sshuttle_form() -> (r: FormState)
    ensures
        r@ == new_sshuttle_form_spec(),
{
    let fields = vec![
        field("Name", String::new()),
        field("Host", String::new()),
        field("Subnets", String::new()),
        field("Port", String::new()),
        field("User", String::new()),
        field("Identity File", String::new()),
        field("Auto Restart", lit("no")),
    ];
    let r = FormState {
        focused_field: 0,
        editing_id: None,
        entry_type: FormEntryType::Sshuttle,
        fields,
        forwards: Vec::new(),
        focus: FormFocus::ServerFields,
        selected_forward: 0,
        forward_field: 0,
        forward_type: 0,
        forward_fields: Vec::new(),
        k8s_forwards: Vec::new(),
    };
    assert(r@.fields =~= new_sshuttle_form_spec().fields);
    assert(r@.forwards =~= Seq::<TunnelForwardView>::empty());
    assert(r@.k8s_forwards =~= Seq::<K8sPortForwardView>::empty());
    assert(r@.forward_fields =~= Seq::<FormFieldView>::empty());
    r
}

/// The form for editing an SSH entry.
pub open spec fn ssh_entry_form_spec(e: crate::model::ServerEntryView) -> FormStateView {
    form_spec(
        Some(e.id),
        FormEntryType::Ssh,
        seq![
            fv("Name"@, e.name),
            fv("Host"@, e.host),
            fv("Port"@, decimal(e.port as nat)),
            fv("User"@, or_empty(e.user)),
            fv("Identity File"@, or_empty(e.identity_file)),
            fv("Auto Restart"@, yes_no(e.auto_restart)),
        ],
        e.forwards,
        default_ssh_forward_fields_spec(),
        Seq::empty(),
    )
}

/// The form for editing a Kubernetes entry.
pub open spec fn k8s_entry_form_spec(e: crate::model::K8sEntryView) -> FormStateView {
    form_spec(
        Some(e.id),
        FormEntryType::K8s,
        seq![
            fv("Name"@, e.name),
            fv("Context"@, or_empty(e.context)),
            fv("Namespace"@, or_empty(e.namespace)),
            fv("Resource Type"@, e.resource_type.word()),
            fv("Resource Name"@, e.resource_name),
            fv("Auto Restart"@, yes_no(e.auto_restart)),
        ],
        Seq::empty(),
        default_k8s_forward_fields_spec(),
        e.forwards,
    )
}

/// The form for editing an sshuttle entry.
pub open spec fn sshuttle_entry_form_spec(e: crate::model::SshuttleEntryView) -> FormStateView {
    form_spec(
        Some(e.id),
        FormEntryType::Sshuttle,
        seq![
            fv("Name"@, e.name),
            fv("Host"@, e.host),
            fv("Subnets"@, join(e.subnets, ", "@)),
            fv("Port"@, match e.port { Some(p) => decimal(p as nat), None => Seq::empty() }),
            fv("User"@, or_empty(e.user)),
            fv("Identity File"@, or_empty(e.identity_file)),
            fv("Auto Restart"@, yes_no(e.auto_restart)),
        ],
        Seq::empty(),
        Seq::empty(),
        Seq::empty(),
    )
}

/// Build a form pre-populated from an existing SSH entry.
pub fn ssh_entry_to_form(entry: &ServerEntry) -> (r: FormState)
    ensures
        r@ == ssh_entry_form_spec(entry@),
{
    let fields = vec![
        field("Name", entry.name.clone()),
        field("Host", entry.host.clone()),
        field("Port", dec(entry.port as u64)),
        field("User", or_empty_text(&entry.user)),
        field("Identity File", or_empty_text(&entry.identity_file)),
        field("Auto Restart", yes_no_text(entry.auto_restart)),
    ];
    let r = FormState {
        focused_field: 0,
        editing_id: Some(entry.id),
        entry_type: FormEntryType::Ssh,
        fields,
        forwards: copy_forwards(&entry.forwards),
        focus: FormFocus::ServerFields,
        selected_forward: 0,
        forward_field: 0,
        forward_type: 0,
        forward_fields: default_ssh_forward_fields(),
        k8s_forwards: Vec::new(),
    };
    assert(r@.fields =~= ssh_entry_form_spec(entry@).fields);
    assert(r@.k8s_forwards =~= Seq::<K8sPortForwardView>::empty());
    r
}

/// Build a form pre-populated from an existing Kubernetes entry.
pub fn k8s_entry_to_form(entry: &K8sEntry) -> (r: FormState)
    ensures
        r@ == k8s_entry_form_spec(entry@),
{
    let fields = vec![
        field("Name", entry.name.clone()),
        field("Context", or_empty_text(&entry.context)),
        field("Namespace", or_empty_text(&entry.namespace)),
        field("Resource Type", lit(entry.resource_type.as_str())),
        field("Resource Name", entry.resource_name.clone()),
        field("Auto Restart", yes_no_text(entry.auto_restart)),
    ];
    let r = FormState {
        focused_field: 0,
        editing_id: Some(entry.id),
        entry_type: FormEntryType::K8s,
        fields,
        forwards: Vec::new(),
        focus: FormFocus::ServerFields,
        selected_forward: 0,
        forward_field: 0,
        forward_type: 0,
        forward_fields: default_k8s_forward_fields(),
        k8s_forwards: copy_k8s_forwards(&entry.forwards),
    };
    assert(r@.fields =~= k8s_entry_form_spec(entry@).fields);
    assert(r@.forwards =~= Seq::<TunnelForwardView>::empty());
    r
}

/// Build a form pre-populated from an existing sshuttle entry.
pub fn sshuttle_entry_to_form(entry: &SshuttleEntry) -> (r: FormState)
    ensures
        r@ == sshuttle_entry_form_spec(entry@),
{
    let port_text = match entry.port {
        Some(p) => dec(p as u64),
        None => String::new(),
    };
    let fields = vec![
        field("Name", entry.name.clone()),
        field("Host", entry.host.clone()),
        field("Subnets", join_strings(&entry.subnets, ", ")),
        field("Port", port_text),
        field("User", or_empty_text(&entry.user)),
        field("Identity File", or_empty_text(&entry.identity_file)),
        field("Auto Restart", yes_no_text(entry.auto_restart)),
    ];
    let r = FormState {
        focused_field: 0,
        editing_id: Some(entry.id),
        entry_type: FormEntryType::Sshuttle,
        fields,
        forwards: Vec::new(),
        focus: FormFocus::ServerFields,
        selected_forward: 0,
        forward_field: 0,
        forward_type: 0,
        forward_fields: Vec::new(),
        k8s_forwards: Vec::new(),
    };
    assert(r@.fields =~= sshuttle_entry_form_spec(entry@).fields);
    assert(r@.forwards =~= Seq::<TunnelForwardView>::empty());
    assert(r@.k8s_forwards =~= Seq::<K8sPortForwardView>::empty());
    assert(r@.forward_fields =~= Seq::<FormFieldView>::empty());
    r
}


/// The toggled value of the auto-restart field.
pub open spec fn toggle_yes_no(v: Seq<char>) -> Seq<char> {
    if v == "yes"@ { "no"@ } else { "yes"@ }
}

/// `v` without its last character, if any.
pub open spec fn pop_last(v: Seq<char>) -> Seq<char> {
    if v.len() > 0 { v.drop_last() } else { v }
}

/// The form with the value of connection field `i` replaced.
pub open spec fn set_field_value(f: FormStateView, i: int, v: Seq<char>) -> FormStateView {
    FormStateView { fields: f.fields.update(i, fv(f.fields[i].label, v)), ..f }
}

/// The form with the value of forward field `i` replaced.
pub open spec fn set_forward_field_value(f: FormStateView, i: int, v: Seq<char>) -> FormStateView {
    FormStateView { forward_fields: f.forward_fields.update(i, fv(f.forward_fields[i].label, v)), ..f }
}

/// The SSH forward sub-form filled from a forward, with its type index.
pub open spec fn ssh_forward_fields_spec(w: TunnelForwardView) -> (usize, Seq<FormFieldView>) {
    match w {
        TunnelForwardView::Local { bind_port, remote_host, remote_port, .. } => (
            0,
            seq![
                fv("Bind Port"@, decimal(bind_port as nat)),
                fv("Remote Host"@, remote_host),
                fv("Remote Port"@, decimal(remote_port as nat)),
            ],
        ),
        TunnelForwardView::Remote { bind_port, remote_host, remote_port, .. } => (
            1,
            seq![
                fv("Bind Port"@, decimal(bind_port as nat)),
                fv("Remote Host"@, remote_host),
                fv("Remote Port"@, decimal(remote_port as nat)),
            ],
        ),
        TunnelForwardView::Dynamic { bind_port, .. } => (
            2,
            seq![
                fv("Bind Port"@, decimal(bind_port as nat)),
                fv("Remote Host"@, Seq::empty()),
                fv("Remote Port"@, Seq::empty()),
            ],
        ),
    }
}

/// The Kubernetes binding sub-form filled from a binding.
pub open spec fn k8s_forward_fields_spec(w: K8sPortForwardView) -> Seq<FormFieldView> {
    seq![
        fv("Local Port"@, decimal(w.local_port as nat)),
        fv("Remote Port"@, decimal(w.remote_port as nat)),
    ]
}

/// The SSH forward described by the sub-form: the bind port must parse; a
/// local or remote forward also needs a non-empty host and a remote port
/// that parses. Forwards bind to 127.0.0.1.
pub open spec fn ssh_forward_from_fields(forward_type: usize, ff: Seq<FormFieldView>) -> Option<
    TunnelForwardView,
> {
    if ff.len() < 1 {
        None
    } else {
        match parse_u16(ff[0].value) {
            None => None,
            Some(bp) => if forward_type == 0 || forward_type == 1 {
                if ff.len() < 3 {
                    None
                } else {
                    match parse_u16(ff[2].value) {
                        None => None,
                        Some(rp) => if ff[1].value.len() == 0 {
                            None
                        } else if forward_type == 0 {
                            Some(
                                TunnelForwardView::Local {
                                    bind_address: "127.0.0.1"@,
                                    bind_port: bp,
                                    remote_host: ff[1].value,
                                    remote_port: rp,
                                },
                            )
                        } else {
                            Some(
                                TunnelForwardView::Remote {
                                    bind_address: "127.0.0.1"@,
                                    bind_port: bp,
                                    remote_host: ff[1].value,
                                    remote_port: rp,
                                },
                            )
                        },
                    }
                }
            } else if forward_type == 2 {
                Some(TunnelForwardView::Dynamic { bind_address: "127.0.0.1"@, bind_port: bp })
            } else {
                None
            },
        }
    }
}

/// The Kubernetes binding described by the sub-form: both ports must parse.
pub open spec fn k8s_forward_from_fields(ff: Seq<FormFieldView>) -> Option<K8sPortForwardView> {
    if ff.len() < 2 {
        None
    } else {
        match (parse_u16(ff[0].value), parse_u16(ff[1].value)) {
            (Some(l), Some(r)) => Some(
                K8sPortForwardView { local_bind_address: "127.0.0.1"@, local_port: l, remote_port: r },
            ),
            _ => None,
        }
    }
}

/// The form after committing an SSH forward: it replaces the forward being
/// edited if that exists, and is appended otherwise; it becomes selected.
pub open spec fn commit_ssh_spec(f: FormStateView, w: TunnelForwardView) -> FormStateView {
    match f.focus {
        FormFocus::ForwardEdit { editing_index: Some(idx) } => if idx < f.forwards.len() {
            FormStateView { forwards: f.forwards.update(idx as int, w), selected_forward: idx, ..f }
        } else {
            FormStateView {
                forwards: f.forwards.push(w),
                selected_forward: f.forwards.len() as usize,
                ..f
            }
        },
        _ => FormStateView {
            forwards: f.forwards.push(w),
            selected_forward: f.forwards.len() as usize,
            ..f
        },
    }
}

/// The form after committing a Kubernetes binding (as for SSH forwards).
pub open spec fn commit_k8s_spec(f: FormStateView, w: K8sPortForwardView) -> FormStateView {
    match f.focus {
        FormFocus::ForwardEdit { editing_index: Some(idx) } => if idx < f.k8s_forwards.len() {
            FormStateView {
                k8s_forwards: f.k8s_forwards.update(idx as int, w),
                selected_forward: idx,
                ..f
            }
        } else {
            FormStateView {
                k8s_forwards: f.k8s_forwards.push(w),
                selected_forward: f.k8s_forwards.len() as usize,
                ..f
            }
        },
        _ => FormStateView {
            k8s_forwards: f.k8s_forwards.push(w),
            selected_forward: f.k8s_forwards.len() as usize,
            ..f
        },
    }
}

/// `min(a, b.saturating_sub(1))`, the clamped selection.
pub open spec fn clamp_selection(a: usize, len: nat) -> usize {
    let top = if len > 0 { (len - 1) as int } else { 0 };
    if a < top { a } else { top as usize }
}

/// Tab: the next connection field, then into the forward list (when it has
/// items), then down the list; inside a forward, the next sub-form field.
pub open spec fn next_field_spec(f: FormStateView) -> FormStateView {
    match f.entry_type {
        FormEntryType::Sshuttle => if f.focused_field + 1 < f.fields.len() {
            FormStateView { focused_field: (f.focused_field + 1) as usize, ..f }
        } else {
            f
        },
        _ => match f.focus {
            FormFocus::ServerFields => if f.focused_field + 1 < f.fields.len() {
                FormStateView { focused_field: (f.focused_field + 1) as usize, ..f }
            } else if f.forward_count() > 0 {
                FormStateView { focus: FormFocus::ForwardList, selected_forward: 0, ..f }
            } else {
                f
            },
            FormFocus::ForwardList => if f.selected_forward + 1 < f.forward_count() {
                FormStateView { selected_forward: (f.selected_forward + 1) as usize, ..f }
            } else {
                f
            },
            FormFocus::ForwardEdit { .. } => {
                let max: usize = if f.entry_type == FormEntryType::K8s {
                    1
                } else if f.forward_type == 2 {
                    0
                } else {
                    2
                };
                if f.forward_field < max {
                    FormStateView { forward_field: (f.forward_field + 1) as usize, ..f }
                } else {
                    f
                }
            },
        },
    }
}

/// Shift-Tab: the reverse of [`next_field_spec`]; from the top of the
/// forward list back to the last connection field.
pub open spec fn prev_field_spec(f: FormStateView) -> FormStateView {
    match f.entry_type {
        FormEntryType::Sshuttle => if f.focused_field > 0 {
            FormStateView { focused_field: (f.focused_field - 1) as usize, ..f }
        } else {
            f
        },
        _ => match f.focus {
            FormFocus::ServerFields => if f.focused_field > 0 {
                FormStateView { focused_field: (f.focused_field - 1) as usize, ..f }
            } else {
                f
            },
            FormFocus::ForwardList => if f.selected_forward > 0 {
                FormStateView { selected_forward: (f.selected_forward - 1) as usize, ..f }
            } else {
                FormStateView {
                    focus: FormFocus::ServerFields,
                    focused_field: (f.fields.len() - 1) as usize,
                    ..f
                }
            },
            FormFocus::ForwardEdit { .. } => if f.forward_field > 0 {
                FormStateView { forward_field: (f.forward_field - 1) as usize, ..f }
            } else {
                f
            },
        },
    }
}

/// A typed character: appended to the focused field; on the auto-restart
/// field only a space, which toggles it.
pub open spec fn input_spec(f: FormStateView, ch: char) -> FormStateView {
    match f.focus {
        FormFocus::ServerFields => if f.focused_field < f.fields.len() {
            let fl = f.fields[f.focused_field as int];
            if fl.label == "Auto Restart"@ {
                if ch == ' ' {
                    set_field_value(f, f.focused_field as int, toggle_yes_no(fl.value))
                } else {
                    f
                }
            } else {
                set_field_value(f, f.focused_field as int, fl.value.push(ch))
            }
        } else {
            f
        },
        FormFocus::ForwardList => f,
        FormFocus::ForwardEdit { .. } => if f.forward_field < f.forward_fields.len() {
            set_forward_field_value(
                f,
                f.forward_field as int,
                f.forward_fields[f.forward_field as int].value.push(ch),
            )
        } else {
            f
        },
    }
}

/// Backspace: removes the last character of the focused field; on the
/// auto-restart field it toggles.
pub open spec fn backspace_spec(f: FormStateView) -> FormStateView {
    match f.focus {
        FormFocus::ServerFields => if f.focused_field < f.fields.len() {
            let fl = f.fields[f.focused_field as int];
            if fl.label == "Auto Restart"@ {
                set_field_value(f, f.focused_field as int, toggle_yes_no(fl.value))
            } else {
                set_field_value(f, f.focused_field as int, pop_last(fl.value))
            }
        } else {
            f
        },
        FormFocus::ForwardList => f,
        FormFocus::ForwardEdit { .. } => if f.forward_field < f.forward_fields.len() {
            set_forward_field_value(
                f,
                f.forward_field as int,
                pop_last(f.forward_fields[f.forward_field as int].value),
            )
        } else {
            f
        },
    }
}

/// A fresh, empty forward sub-form for a new forward.
pub open spec fn open_new_forward_spec(f: FormStateView) -> FormStateView {
    match f.entry_type {
        FormEntryType::Ssh => FormStateView {
            focus: FormFocus::ForwardEdit { editing_index: None },
            forward_field: 0,
            forward_type: 0,
            forward_fields: default_ssh_forward_fields_spec(),
            ..f
        },
        _ => FormStateView {
            focus: FormFocus::ForwardEdit { editing_index: None },
            forward_field: 0,
            forward_fields: default_k8s_forward_fields_spec(),
            ..f
        },
    }
}

/// Ctrl+A: start a new forward; while editing one, first commit it (if its
/// fields are valid; otherwise nothing happens).
pub open spec fn add_forward_spec(f: FormStateView) -> FormStateView {
    match f.entry_type {
        FormEntryType::Sshuttle => f,
        FormEntryType::Ssh => match f.focus {
            FormFocus::ForwardEdit { .. } => match ssh_forward_from_fields(f.forward_type, f.forward_fields) {
                Some(w) => open_new_forward_spec(commit_ssh_spec(f, w)),
                None => f,
            },
            _ => open_new_forward_spec(f),
        },
        FormEntryType::K8s => match f.focus {
            FormFocus::ForwardEdit { .. } => match k8s_forward_from_fields(f.forward_fields) {
                Some(w) => open_new_forward_spec(commit_k8s_spec(f, w)),
                None => f,
            },
            _ => open_new_forward_spec(f),
        },
    }
}

/// Ctrl+D: while editing a forward, abandon it (back to the list, or to the
/// connection fields when the list is empty); in the list, delete the
/// selected forward.
pub open spec fn delete_forward_spec(f: FormStateView) -> FormStateView {
    match f.focus {
        FormFocus::ForwardEdit { .. } => if f.entry_type == FormEntryType::Sshuttle {
            f
        } else if f.forward_count() == 0 {
            FormStateView { focus: FormFocus::ServerFields, ..f }
        } else {
            FormStateView {
                selected_forward: clamp_selection(f.selected_forward, f.forward_count()),
                focus: FormFocus::ForwardList,
                ..f
            }
        },
        FormFocus::ForwardList => match f.entry_type {
            FormEntryType::Sshuttle => f,
            FormEntryType::Ssh => if f.forwards.len() == 0 {
                f
            } else {
                let rest = f.forwards.remove(f.selected_forward as int);
                if rest.len() == 0 {
                    FormStateView {
                        forwards: rest,
                        focus: FormFocus::ServerFields,
                        focused_field: (f.fields.len() - 1) as usize,
                        ..f
                    }
                } else {
                    FormStateView {
                        forwards: rest,
                        selected_forward: clamp_selection(f.selected_forward, rest.len()),
                        ..f
                    }
                }
            },
            FormEntryType::K8s => if f.k8s_forwards.len() == 0 {
                f
            } else {
                let rest = f.k8s_forwards.remove(f.selected_forward as int);
                if rest.len() == 0 {
                    FormStateView {
                        k8s_forwards: rest,
                        focus: FormFocus::ServerFields,
                        focused_field: (f.fields.len() - 1) as usize,
                        ..f
                    }
                } else {
                    FormStateView {
                        k8s_forwards: rest,
                        selected_forward: clamp_selection(f.selected_forward, rest.len()),
                        ..f
                    }
                }
            },
        },
        FormFocus::ServerFields => f,
    }
}

/// The resource type named in the form, compared case-insensitively:
/// `pod`, `service`, and anything else is a deployment.
pub open spec fn resource_type_from(v: Seq<char>) -> K8sResourceType {
    if eq_ignore_ascii_case(v, "pod"@) {
        K8sResourceType::Pod
    } else if eq_ignore_ascii_case(v, "service"@) {
        K8sResourceType::Service
    } else {
        K8sResourceType::Deployment
    }
}

/// The resource type that follows `t` when cycling: pod, service,
/// deployment, and back to pod.
pub open spec fn next_resource_type(t: K8sResourceType) -> K8sResourceType {
    match t {
        K8sResourceType::Pod => K8sResourceType::Service,
        K8sResourceType::Service => K8sResourceType::Deployment,
        K8sResourceType::Deployment => K8sResourceType::Pod,
    }
}

/// Ctrl+T: in a Kubernetes form, cycle the resource type (pod, service,
/// deployment); while editing an SSH forward, cycle Local, Remote, Dynamic
/// and clear the sub-form.
pub open spec fn cycle_forward_type_spec(f: FormStateView) -> FormStateView {
    if f.entry_type == FormEntryType::K8s {
        if f.fields.len() > 3 {
            set_field_value(f, 3, next_resource_type(resource_type_from(trim(f.fields[3].value))).word())
        } else {
            f
        }
    } else {
        match f.focus {
            FormFocus::ForwardEdit { .. } => if f.entry_type == FormEntryType::Ssh {
                FormStateView {
                    forward_type: ((f.forward_type + 1) % 3) as usize,
                    forward_fields: default_ssh_forward_fields_spec(),
                    forward_field: 0,
                    ..f
                }
            } else {
                f
            },
            _ => f,
        }
    }
}

/// Enter while editing a forward: commit it (if valid) and return to the
/// list with it selected.
pub open spec fn submit_forward_spec(f: FormStateView) -> FormStateView {
    match f.entry_type {
        FormEntryType::Sshuttle => f,
        FormEntryType::Ssh => match ssh_forward_from_fields(f.forward_type, f.forward_fields) {
            Some(w) => {
                let g = commit_ssh_spec(f, w);
                FormStateView {
                    selected_forward: clamp_selection(g.selected_forward, g.forwards.len()),
                    focus: FormFocus::ForwardList,
                    ..g
                }
            },
            None => f,
        },
        FormEntryType::K8s => match k8s_forward_from_fields(f.forward_fields) {
            Some(w) => {
                let g = commit_k8s_spec(f, w);
                FormStateView {
                    selected_forward: clamp_selection(g.selected_forward, g.k8s_forwards.len()),
                    focus: FormFocus::ForwardList,
                    ..g
                }
            },
            None => f,
        },
    }
}

/// Enter in the forward list: open the selected forward for editing.
pub open spec fn open_selected_forward_spec(f: FormStateView) -> FormStateView {
    match f.entry_type {
        FormEntryType::Sshuttle => f,
        FormEntryType::Ssh => if f.selected_forward < f.forwards.len() {
            let (t, ff) = ssh_forward_fields_spec(f.forwards[f.selected_forward as int]);
            FormStateView {
                focus: FormFocus::ForwardEdit { editing_index: Some(f.selected_forward) },
                forward_type: t,
                forward_fields: ff,
                forward_field: 0,
                ..f
            }
        } else {
            f
        },
        FormEntryType::K8s => if f.selected_forward < f.k8s_forwards.len() {
            FormStateView {
                focus: FormFocus::ForwardEdit { editing_index: Some(f.selected_forward) },
                forward_fields: k8s_forward_fields_spec(f.k8s_forwards[f.selected_forward as int]),
                forward_field: 0,
                ..f
            }
        } else {
            f
        },
    }
}

/// Esc while editing a forward: back to the list (or to the connection
/// fields when the list is empty).
pub open spec fn cancel_forward_spec(f: FormStateView) -> FormStateView {
    if f.forward_count() == 0 {
        FormStateView { focus: FormFocus::ServerFields, ..f }
    } else {
        FormStateView {
            selected_forward: clamp_selection(f.selected_forward, f.forward_count()),
            focus: FormFocus::ForwardList,
            ..f
        }
    }
}


/// Parses the value of a field as a port number.
fn parse_field(f: &FormField) -> (r: Option<u16>)
    ensures
        r == parse_u16(f@.value),
{
    let cs = chars_of(f.value.as_str());
    parse_u16_chars(cs.as_slice())
}

/// Replaces the value of field `i`, keeping its label.
/// The trimmed characters of field `i`.
pub(crate) fn trimmed_field(fields: &Vec<FormField>, i: usize) -> (r: Vec<char>)
    requires
        i < fields@.len(),
    ensures
        r@ == trim(fields_view(fields@)[i as int].value),
{
    assert(fields_view(fields@)[i as int] == fields@[i as int]@);
    let c = chars_of(fields[i].value.as_str());
    trimmed(c.as_slice())
}

/// The resource type named by the trimmed text (see [`resource_type_from`]).
pub(crate) fn resource_type_of(t: &Vec<char>) -> (r: K8sResourceType)
    ensures
        r == resource_type_from(t@),
{
    let pod = chars_of("pod");
    let service = chars_of("service");
    if equals_ignore_ascii_case(t.as_slice(), pod.as_slice()) {
        K8sResourceType::Pod
    } else if equals_ignore_ascii_case(t.as_slice(), service.as_slice()) {
        K8sResourceType::Service
    } else {
        K8sResourceType::Deployment
    }
}

fn next_resource_type_of(t: K8sResourceType) -> (r: K8sResourceType)
    ensures
        r == next_resource_type(t),
{
    match t {
        K8sResourceType::Pod => K8sResourceType::Service,
        K8sResourceType::Service => K8sResourceType::Deployment,
        K8sResourceType::Deployment => K8sResourceType::Pod,
    }
}

fn set_value(fields: &mut Vec<FormField>, i: usize, value: String)
    requires
        i < old(fields)@.len(),
    ensures
        fields_view(final(fields)@) == fields_view(old(fields)@).update(
            i as int,
            fv(old(fields)@[i as int]@.label, value@),
        ),
{
    let label = fields[i].label.clone();
    fields.set(i, FormField { label, value });
    assert(fields_view(fields@) =~= fields_view(old(fields)@).update(
        i as int,
        fv(old(fields)@[i as int]@.label, value@),
    ));
}

/// Extract SSH forward type index and form fields from an existing forward.
pub fn ssh_forward_to_fields(fwd: &TunnelForward) -> (r: (usize, Vec<FormField>))
    ensures
        r.0 == ssh_forward_fields_spec(fwd@).0,
        fields_view(r.1@) == ssh_forward_fields_spec(fwd@).1,
{
    match fwd {
        TunnelForward::Local { bind_port, remote_host, remote_port, .. } => {
            let v = vec![
                field("Bind Port", dec(*bind_port as u64)),
                field("Remote Host", remote_host.clone()),
                field("Remote Port", dec(*remote_port as u64)),
            ];
            assert(fields_view(v@) =~= ssh_forward_fields_spec(fwd@).1);
            (0, v)
        },
        TunnelForward::Remote { bind_port, remote_host, remote_port, .. } => {
            let v = vec![
                field("Bind Port", dec(*bind_port as u64)),
                field("Remote Host", remote_host.clone()),
                field("Remote Port", dec(*remote_port as u64)),
            ];
            assert(fields_view(v@) =~= ssh_forward_fields_spec(fwd@).1);
            (1, v)
        },
        TunnelForward::Dynamic { bind_port, .. } => {
            let v = vec![
                field("Bind Port", dec(*bind_port as u64)),
                field("Remote Host", String::new()),
                field("Remote Port", String::new()),
            ];
            assert(fields_view(v@) =~= ssh_forward_fields_spec(fwd@).1);
            (2, v)
        },
    }
}

/// Extract Kubernetes forward form fields from an existing binding.
pub fn k8s_forward_to_fields(fwd: &K8sPortForward) -> (r: Vec<FormField>)
    ensures
        fields_view(r@) == k8s_forward_fields_spec(fwd@),
{
    let v = vec![
        field("Local Port", dec(fwd.local_port as u64)),
        field("Remote Port", dec(fwd.remote_port as u64)),
    ];
    assert(fields_view(v@) =~= k8s_forward_fields_spec(fwd@));
    v
}

/// Build a `TunnelForward` from the forward sub-form.
pub fn build_ssh_forward_from_form(form: &FormState) -> (r: Option<TunnelForward>)
    ensures
        match r {
            Some(w) => ssh_forward_from_fields(form@.forward_type, form@.forward_fields) == Some(w@),
            None => ssh_forward_from_fields(form@.forward_type, form@.forward_fields) is None,
        },
{
    let ff = &form.forward_fields;
    if ff.len() < 1 {
        return None;
    }
    assert(ff@[0]@ == form@.forward_fields[0]);
    let bind_port = match parse_field(&ff[0]) {
        Some(p) => p,
        None => return None,
    };
    if form.forward_type == 0 || form.forward_type == 1 {
        if ff.len() < 3 {
            return None;
        }
        assert(ff@[1]@ == form@.forward_fields[1]);
        assert(ff@[2]@ == form@.forward_fields[2]);
        let remote_host = ff[1].value.clone();
        let remote_port = match parse_field(&ff[2]) {
            Some(p) => p,
            None => return None,
        };
        if remote_host.as_str().is_empty() {
            return None;
        }
        if form.forward_type == 0 {
            Some(TunnelForward::Local { bind_address: default_bind_address(), bind_port, remote_host, remote_port })
        } else {
            Some(TunnelForward::Remote { bind_address: default_bind_address(), bind_port, remote_host, remote_port })
        }
    } else if form.forward_type == 2 {
        Some(TunnelForward::Dynamic { bind_address: default_bind_address(), bind_port })
    } else {
        None
    }
}

/// Build a `K8sPortForward` from the binding sub-form.
pub fn build_k8s_forward_from_form(form: &FormState) -> (r: Option<K8sPortForward>)
    ensures
        match r {
            Some(w) => k8s_forward_from_fields(form@.forward_fields) == Some(w@),
            None => k8s_forward_from_fields(form@.forward_fields) is None,
        },
{
    let ff = &form.forward_fields;
    if ff.len() < 2 {
        return None;
    }
    assert(ff@[0]@ == form@.forward_fields[0]);
    assert(ff@[1]@ == form@.forward_fields[1]);
    let local_port = match parse_field(&ff[0]) {
        Some(p) => p,
        None => return None,
    };
    let remote_port = match parse_field(&ff[1]) {
        Some(p) => p,
        None => return None,
    };
    Some(K8sPortForward { local_bind_address: default_bind_address(), local_port, remote_port })
}

fn min_top(a: usize, len: usize) -> (r: usize)
    ensures
        r == clamp_selection(a, len as nat),
{
    let top = if len > 0 { len - 1 } else { 0 };
    if a < top { a } else { top }
}

impl FormState {
    /// Commit a built SSH forward to the form.
    pub fn commit_ssh_forward(self, fwd: TunnelForward) -> (r: Self)
        ensures
            r@ == commit_ssh_spec(self@, fwd@),
    {
        let mut f = self;
        let ghost w = fwd@;
        match f.focus {
            FormFocus::ForwardEdit { editing_index: Some(idx) } => {
                if idx < f.forwards.len() {
                    f.forwards.set(idx, fwd);
                    f.selected_forward = idx;
                    assert(f@.forwards =~= self@.forwards.update(idx as int, w));
                } else {
                    f.forwards.push(fwd);
                    f.selected_forward = f.forwards.len() - 1;
                    assert(f@.forwards =~= self@.forwards.push(w));
                }
            },
            _ => {
                f.forwards.push(fwd);
                f.selected_forward = f.forwards.len() - 1;
                assert(f@.forwards =~= self@.forwards.push(w));
            },
        }
        f
    }

    /// Commit a built Kubernetes binding to the form.
    pub fn commit_k8s_forward(self, fwd: K8sPortForward) -> (r: Self)
        ensures
            r@ == commit_k8s_spec(self@, fwd@),
    {
        let mut f = self;
        let ghost w = fwd@;
        match f.focus {
            FormFocus::ForwardEdit { editing_index: Some(idx) } => {
                if idx < f.k8s_forwards.len() {
                    f.k8s_forwards.set(idx, fwd);
                    f.selected_forward = idx;
                    assert(f@.k8s_forwards =~= self@.k8s_forwards.update(idx as int, w));
                } else {
                    f.k8s_forwards.push(fwd);
                    f.selected_forward = f.k8s_forwards.len() - 1;
                    assert(f@.k8s_forwards =~= self@.k8s_forwards.push(w));
                }
            },
            _ => {
                f.k8s_forwards.push(fwd);
                f.selected_forward = f.k8s_forwards.len() - 1;
                assert(f@.k8s_forwards =~= self@.k8s_forwards.push(w));
            },
        }
        f
    }

    fn forward_count(&self) -> (r: usize)
        ensures
            r == self@.forward_count(),
    {
        match self.entry_type {
            FormEntryType::Ssh => self.forwards.len(),
            FormEntryType::K8s => self.k8s_forwards.len(),
            FormEntryType::Sshuttle => 0,
        }
    }

    /// Tab (see [`next_field_spec`]).
    pub fn next_field(self) -> (r: Self)
        ensures
            r@ == next_field_spec(self@),
    {
        let mut f = self;
        match f.entry_type {
            FormEntryType::Sshuttle => {
                if f.focused_field < f.fields.len() && f.focused_field + 1 < f.fields.len() {
                    f.focused_field = f.focused_field + 1;
                }
            },
            _ => match f.focus {
                FormFocus::ServerFields => {
                    if f.focused_field < f.fields.len() && f.focused_field + 1 < f.fields.len() {
                        f.focused_field = f.focused_field + 1;
                    } else if f.forward_count() > 0 {
                        f.focus = FormFocus::ForwardList;
                        f.selected_forward = 0;
                    }
                },
                FormFocus::ForwardList => {
                    let n = f.forward_count();
                    if f.selected_forward < n && f.selected_forward + 1 < n {
                        f.selected_forward = f.selected_forward + 1;
                    }
                },
                FormFocus::ForwardEdit { .. } => {
                    let max: usize = if f.entry_type == FormEntryType::K8s {
                        1
                    } else if f.forward_type == 2 {
                        0
                    } else {
                        2
                    };
                    if f.forward_field < max {
                        f.forward_field = f.forward_field + 1;
                    }
                },
            },
        }
        f
    }

    /// Shift-Tab (see [`prev_field_spec`]).
    pub fn prev_field(self) -> (r: Self)
        requires
            self@.fields.len() > 0,
        ensures
            r@ == prev_field_spec(self@),
    {
        let mut f = self;
        match f.entry_type {
            FormEntryType::Sshuttle => {
                if f.focused_field > 0 {
                    f.focused_field = f.focused_field - 1;
                }
            },
            _ => match f.focus {
                FormFocus::ServerFields => {
                    if f.focused_field > 0 {
                        f.focused_field = f.focused_field - 1;
                    }
                },
                FormFocus::ForwardList => {
                    if f.selected_forward > 0 {
                        f.selected_forward = f.selected_forward - 1;
                    } else {
                        f.focus = FormFocus::ServerFields;
                        f.focused_field = f.fields.len() - 1;
                    }
                },
                FormFocus::ForwardEdit { .. } => {
                    if f.forward_field > 0 {
                        f.forward_field = f.forward_field - 1;
                    }
                },
            },
        }
        f
    }

    /// A typed character (see [`input_spec`]).
    pub fn input(self, ch: char) -> (r: Self)
        ensures
            r@ == input_spec(self@, ch),
    {
        let mut f = self;
        match f.focus {
            FormFocus::ServerFields => {
                if f.focused_field < f.fields.len() {
                    let i = f.focused_field;
                    assert(f.fields@[i as int]@ == self@.fields[i as int]);
                    let is_toggle = f.fields[i].label == lit("Auto Restart");
                    if is_toggle {
                        if ch == ' ' {
                            let v = if f.fields[i].value == lit("yes") { lit("no") } else { lit("yes") };
                            set_value(&mut f.fields, i, v);
                        }
                    } else {
                        let mut v = f.fields[i].value.clone();
                        crate::text::push_char(&mut v, ch);
                        set_value(&mut f.fields, i, v);
                    }
                }
            },
            FormFocus::ForwardList => {},
            FormFocus::ForwardEdit { .. } => {
                if f.forward_field < f.forward_fields.len() {
                    let i = f.forward_field;
                    assert(f.forward_fields@[i as int]@ == self@.forward_fields[i as int]);
                    let mut v = f.forward_fields[i].value.clone();
                    crate::text::push_char(&mut v, ch);
                    set_value(&mut f.forward_fields, i, v);
                }
            },
        }
        f
    }

    /// Backspace (see [`backspace_spec`]).
    pub fn backspace(self) -> (r: Self)
        ensures
            r@ == backspace_spec(self@),
    {
        let mut f = self;
        match f.focus {
            FormFocus::ServerFields => {
                if f.focused_field < f.fields.len() {
                    let i = f.focused_field;
                    assert(f.fields@[i as int]@ == self@.fields[i as int]);
                    let is_toggle = f.fields[i].label == lit("Auto Restart");
                    if is_toggle {
                        let v = if f.fields[i].value == lit("yes") { lit("no") } else { lit("yes") };
                        set_value(&mut f.fields, i, v);
                    } else {
                        let mut v = f.fields[i].value.clone();
                        crate::text::pop_char(&mut v);
                        set_value(&mut f.fields, i, v);
                    }
                }
            },
            FormFocus::ForwardList => {},
            FormFocus::ForwardEdit { .. } => {
                if f.forward_field < f.forward_fields.len() {
                    let i = f.forward_field;
                    assert(f.forward_fields@[i as int]@ == self@.forward_fields[i as int]);
                    let mut v = f.forward_fields[i].value.clone();
                    crate::text::pop_char(&mut v);
                    set_value(&mut f.forward_fields, i, v);
                }
            },
        }
        f
    }

    fn open_new_forward(self) -> (r: Self)
        ensures
            r@ == open_new_forward_spec(self@),
    {
        let mut f = self;
        f.focus = FormFocus::ForwardEdit { editing_index: None };
        f.forward_field = 0;
        match f.entry_type {
            FormEntryType::Ssh => {
                f.forward_type = 0;
                f.forward_fields = default_ssh_forward_fields();
            },
            _ => {
                f.forward_fields = default_k8s_forward_fields();
            },
        }
        f
    }

    /// Ctrl+A (see [`add_forward_spec`]).
    pub fn add_forward(self) -> (r: Self)
        ensures
            r@ == add_forward_spec(self@),
    {
        match self.entry_type {
            FormEntryType::Sshuttle => self,
            FormEntryType::Ssh => match self.focus {
                FormFocus::ForwardEdit { .. } => match build_ssh_forward_from_form(&self) {
                    Some(w) => self.commit_ssh_forward(w).open_new_forward(),
                    None => self,
                },
                _ => self.open_new_forward(),
            },
            FormEntryType::K8s => match self.focus {
                FormFocus::ForwardEdit { .. } => match build_k8s_forward_from_form(&self) {
                    Some(w) => self.commit_k8s_forward(w).open_new_forward(),
                    None => self,
                },
                _ => self.open_new_forward(),
            },
        }
    }

    /// Ctrl+D (see [`delete_forward_spec`]).
    pub fn delete_forward(self) -> (r: Self)
        requires
            self@.fields.len() > 0,
            self@.focus == FormFocus::ForwardList ==> self@.selected_forward < self@.forward_count(),
        ensures
            r@ == delete_forward_spec(self@),
    {
        let mut f = self;
        match f.focus {
            FormFocus::ForwardEdit { .. } => {
                if f.entry_type != FormEntryType::Sshuttle {
                    let n = f.forward_count();
                    if n == 0 {
                        f.focus = FormFocus::ServerFields;
                    } else {
                        f.selected_forward = min_top(f.selected_forward, n);
                        f.focus = FormFocus::ForwardList;
                    }
                }
            },
            FormFocus::ForwardList => match f.entry_type {
                FormEntryType::Sshuttle => {},
                FormEntryType::Ssh => {
                    if f.forwards.len() > 0 {
                        f.forwards.remove(f.selected_forward);
                        assert(f@.forwards =~= self@.forwards.remove(self@.selected_forward as int));
                        if f.forwards.len() == 0 {
                            f.focus = FormFocus::ServerFields;
                            f.focused_field = f.fields.len() - 1;
                        } else {
                            f.selected_forward = min_top(f.selected_forward, f.forwards.len());
                        }
                    }
                },
                FormEntryType::K8s => {
                    if f.k8s_forwards.len() > 0 {
                        f.k8s_forwards.remove(f.selected_forward);
                        assert(f@.k8s_forwards =~= self@.k8s_forwards.remove(self@.selected_forward as int));
                        if f.k8s_forwards.len() == 0 {
                            f.focus = FormFocus::ServerFields;
                            f.focused_field = f.fields.len() - 1;
                        } else {
                            f.selected_forward = min_top(f.selected_forward, f.k8s_forwards.len());
                        }
                    }
                },
            },
            FormFocus::ServerFields => {},
        }
        f
    }

    /// Ctrl+T (see [`cycle_forward_type_spec`]).
    pub fn cycle_forward_type(self) -> (r: Self)
        requires
            self@.forward_type < 3,
        ensures
            r@ == cycle_forward_type_spec(self@),
    {
        let mut f = self;
        if f.entry_type == FormEntryType::K8s {
            if f.fields.len() > 3 {
                let t = resource_type_of(&trimmed_field(&f.fields, 3));
                set_value(&mut f.fields, 3, lit(next_resource_type_of(t).as_str()));
            }
            return f;
        }
        match f.focus {
            FormFocus::ForwardEdit { .. } => {
                if f.entry_type == FormEntryType::Ssh {
                    f.forward_type = (f.forward_type + 1) % 3;
                    f.forward_fields = default_ssh_forward_fields();
                    f.forward_field = 0;
                }
            },
            _ => {},
        }
        f
    }

    /// Enter while editing a forward (see [`submit_forward_spec`]).
    pub fn submit_forward(self) -> (r: Self)
        ensures
            r@ == submit_forward_spec(self@),
    {
        match self.entry_type {
            FormEntryType::Sshuttle => self,
            FormEntryType::Ssh => match build_ssh_forward_from_form(&self) {
                Some(w) => {
                    let mut g = self.commit_ssh_forward(w);
                    g.selected_forward = min_top(g.selected_forward, g.forwards.len());
                    g.focus = FormFocus::ForwardList;
                    g
                },
                None => self,
            },
            FormEntryType::K8s => match build_k8s_forward_from_form(&self) {
                Some(w) => {
                    let mut g = self.commit_k8s_forward(w);
                    g.selected_forward = min_top(g.selected_forward, g.k8s_forwards.len());
                    g.focus = FormFocus::ForwardList;
                    g
                },
                None => self,
            },
        }
    }

    /// Enter in the forward list (see [`open_selected_forward_spec`]).
    pub fn open_selected_forward(self) -> (r: Self)
        ensures
            r@ == open_selected_forward_spec(self@),
    {
        let mut f = self;
        let idx = f.selected_forward;
        match f.entry_type {
            FormEntryType::Sshuttle => {},
            FormEntryType::Ssh => {
                if idx < f.forwards.len() {
                    let (t, fields) = ssh_forward_to_fields(&f.forwards[idx]);
                    f.focus = FormFocus::ForwardEdit { editing_index: Some(idx) };
                    f.forward_type = t;
                    f.forward_fields = fields;
                    f.forward_field = 0;
                }
            },
            FormEntryType::K8s => {
                if idx < f.k8s_forwards.len() {
                    let fields = k8s_forward_to_fields(&f.k8s_forwards[idx]);
                    f.focus = FormFocus::ForwardEdit { editing_index: Some(idx) };
                    f.forward_fields = fields;
                    f.forward_field = 0;
                }
            },
        }
        f
    }

    /// Esc while editing a forward (see [`cancel_forward_spec`]).
    pub fn cancel_forward(self) -> (r: Self)
        ensures
            r@ == cancel_forward_spec(self@),
    {
        let mut f = self;
        let n = f.forward_count();
        if n == 0 {
            f.focus = FormFocus::ServerFields;
        } else {
            f.selected_forward = min_top(f.selected_forward, n);
            f.focus = FormFocus::ForwardList;
        }
        f
    }
}


/// Law: every key handled inside the form keeps it well-formed (so the
/// fields that submitting reads exist, and the selected forward exists
/// whenever the list has focus).
pub proof fn law_form_steps_preserve_wf(f: FormStateView, ch: char)
    requires
        f.wf(),
    ensures
        next_field_spec(f).wf(),
        prev_field_spec(f).wf(),
        input_spec(f, ch).wf(),
        backspace_spec(f).wf(),
        add_forward_spec(f).wf(),
        delete_forward_spec(f).wf(),
        cycle_forward_type_spec(f).wf(),
        submit_forward_spec(f).wf(),
        open_selected_forward_spec(f).wf(),
        cancel_forward_spec(f).wf(),
{
    match ssh_forward_from_fields(f.forward_type, f.forward_fields) {
        Some(w) => {
            let g = commit_ssh_spec(f, w);
            assert(g.forwards.len() > 0);
        },
        None => {},
    }
    match k8s_forward_from_fields(f.forward_fields) {
        Some(w) => {
            let g = commit_k8s_spec(f, w);
            assert(g.k8s_forwards.len() > 0);
        },
        None => {},
    }
    if f.focus == FormFocus::ForwardList && f.entry_type == FormEntryType::Ssh && f.forwards.len() > 0 {
        assert(f.forwards.remove(f.selected_forward as int).len() == f.forwards.len() - 1);
    }
    if f.focus == FormFocus::ForwardList && f.entry_type == FormEntryType::K8s && f.k8s_forwards.len() > 0 {
        assert(f.k8s_forwards.remove(f.selected_forward as int).len() == f.k8s_forwards.len() - 1);
    }
    if f.entry_type == FormEntryType::Ssh && f.selected_forward < f.forwards.len() {
        let (t, ff) = ssh_forward_fields_spec(f.forwards[f.selected_forward as int]);
        assert(t < 3);
    }
}

/// Law: a freshly opened form, empty or filled from an entry, is
/// well-formed.
pub proof fn law_new_forms_wf(
    s: crate::model::ServerEntryView,
    k: crate::model::K8sEntryView,
    u: crate::model::SshuttleEntryView,
)
    ensures
        new_ssh_form_spec().wf(),
        new_k8s_form_spec().wf(),
        new_sshuttle_form_spec().wf(),
        ssh_entry_form_spec(s).wf(),
        k8s_entry_form_spec(k).wf(),
        sshuttle_entry_form_spec(u).wf(),
{
}


/// Law: the binding read from the Kubernetes sub-form takes its local port
/// from the field labelled "Local Port" and its remote port from the field
/// labelled "Remote Port", binds 127.0.0.1, and exists exactly when both
/// ports parse.
pub proof fn law_k8s_binding_from_fields(ff: Seq<FormFieldView>)
    requires
        ff.len() == 2,
        ff[0].label == "Local Port"@,
        ff[1].label == "Remote Port"@,
    ensures
        (k8s_forward_from_fields(ff) is Some) == (parse_u16(ff[0].value) is Some && parse_u16(ff[1].value) is Some),
        k8s_forward_from_fields(ff) matches Some(b) ==> {
            &&& parse_u16(ff[0].value) == Some(b.local_port)
            &&& parse_u16(ff[1].value) == Some(b.remote_port)
            &&& b.local_bind_address == "127.0.0.1"@
        },
{
}

/// Law: opening a Kubernetes binding of the list and submitting the
/// sub-form unchanged gives the same bindings back, with the same one
/// selected; the sub-form shows the local port under "Local Port" and the
/// remote port under "Remote Port".
pub proof fn law_k8s_binding_round_trip(f: FormStateView)
    requires
        f.entry_type == FormEntryType::K8s,
        f.focus == FormFocus::ForwardList,
        f.selected_forward < f.k8s_forwards.len(),
        f.k8s_forwards[f.selected_forward as int].local_bind_address == "127.0.0.1"@,
    ensures
        ({
            let w = f.k8s_forwards[f.selected_forward as int];
            let g = open_selected_forward_spec(f);
            let h = submit_forward_spec(g);
            &&& g.forward_fields.len() == 2
            &&& g.forward_fields[0].label == "Local Port"@
            &&& g.forward_fields[0].value == decimal(w.local_port as nat)
            &&& g.forward_fields[1].label == "Remote Port"@
            &&& g.forward_fields[1].value == decimal(w.remote_port as nat)
            &&& h.k8s_forwards == f.k8s_forwards
            &&& h.selected_forward == f.selected_forward
            &&& h.focus == FormFocus::ForwardList
        }),
{
    let w = f.k8s_forwards[f.selected_forward as int];
    crate::text::lemma_parse_decimal(w.local_port);
    crate::text::lemma_parse_decimal(w.remote_port);
    let g = open_selected_forward_spec(f);
    assert(k8s_forward_from_fields(g.forward_fields) == Some(w));
    assert(f.k8s_forwards.update(f.selected_forward as int, w) =~= f.k8s_forwards);
}

/// Law: Ctrl+T in a Kubernetes form walks pod, service, deployment and
/// back: the word it writes reads back as the type it chose, and three
/// presses return to the start.
pub proof fn law_resource_type_cycles(t: K8sResourceType)
    ensures
        resource_type_from(trim(next_resource_type(t).word())) == next_resource_type(t),
        next_resource_type(next_resource_type(next_resource_type(t))) == t,
{
    reveal_strlit("pod");
    reveal_strlit("service");
    reveal_strlit("deployment");
    let w = next_resource_type(t).word();
    assert(trim(w) == w) by {
        assert(crate::text::trim_start(w) == w);
        assert(crate::text::trim_end(w) == w);
    }
    assert(!eq_ignore_ascii_case("service"@, "pod"@));
    assert(!eq_ignore_ascii_case("deployment"@, "pod"@));
    assert(!eq_ignore_ascii_case("deployment"@, "service"@));
    assert(eq_ignore_ascii_case("pod"@, "pod"@));
    assert(eq_ignore_ascii_case("service"@, "service"@));
}

} // verus!
