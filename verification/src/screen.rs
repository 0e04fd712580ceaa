//! The text of the screen, line by line: each line is a list of pieces of
//! text with the tone they are drawn in. The caller maps tones to colours.

use vstd::prelude::*;

use crate::form::{FormEntryType, FormField, FormFieldView, FormFocus, FormState, FormStateView};
use crate::model::{
    dec, lit, K8sEntry, K8sPortForwardView, ServerEntry, SshuttleEntry, TunnelEntry, TunnelEntryView,
    TunnelForward, TunnelForwardView,
};
use crate::state::ConnectionState;
use crate::text::{chars_of, decimal};
use crate::ui::{
    identity_line, identity_line_spec, k8s_bindings_summary, k8s_bindings_summary_spec,
    ssh_forward_summary, ssh_forward_summary_spec, subnet_summary, subnet_summary_spec,
};

verus! {

/// How a piece of text is drawn.
#[derive(Debug, Clone, Copy, PartialEq, Eq, Structural)]
pub enum Tone {
    /// A heading.
    Title,
    /// The label of a field without focus.
    Label,
    /// The label of the focused field.
    LabelFocused,
    /// A field's value.
    Value,
    /// The value of the focused field.
    ValueFocused,
    /// `yes` of a yes/no toggle that is set.
    YesOn,
    /// `no` of a yes/no toggle that is set.
    NoOn,
    /// The option of a toggle that is not set.
    Off,
    /// Text without styling.
    Plain,
    /// A hint.
    Hint,
    /// The value of a field that is changed by typing a choice.
    Choice,
    /// The heading of the forwards section.
    Section,
    /// The type tag of a forward.
    ForwardTag,
    /// The type tag of the selected forward.
    ForwardTagSelected,
    /// The address of a forward.
    Address,
    /// The address of the selected forward.
    AddressSelected,
    /// The tag of a workload binding.
    BindingTag,
    /// A notice about the sub-form being edited.
    Notice,
    /// The kind badge of an SSH row.
    BadgeSsh,
    /// The kind badge of a workload row.
    BadgeK8s,
    /// The kind badge of an sshuttle row.
    BadgeSshuttle,
    /// An entry's name in its row.
    Name,
    /// The connection state in a row (coloured by the state).
    State,
    /// The auto-restart marker.
    Restart,
    /// A detail line of a row.
    Detail,
    /// A secondary detail line of a row.
    DetailDim,
    /// A summary of forwards or bindings.
    ForwardSummary,
    /// A workload's resource.
    Resource,
    /// An sshuttle session's subnets.
    Subnets,
}

/// A piece of text and its tone.
pub type Piece = (String, Tone);

/// The text and tone of a piece.
pub open spec fn pieces_view(v: Seq<Piece>) -> Seq<(Seq<char>, Tone)> {
    v.map_values(|p: Piece| (p.0@, p.1))
}

/// The text and tone of every piece of every line.
pub open spec fn lines_view(v: Seq<Vec<Piece>>) -> Seq<Seq<(Seq<char>, Tone)>> {
    v.map_values(|l: Vec<Piece>| pieces_view(l@))
}

/// `n` spaces.
pub open spec fn spaces(n: nat) -> Seq<char> {
    Seq::new(n, |i: int| ' ')
}

/// `s` right-aligned in 14 columns (`{:>14}`).
pub open spec fn pad14(s: Seq<char>) -> Seq<char> {
    if s.len() < 14 { spaces((14 - s.len()) as nat) + s } else { s }
}

/// The title of the form.
pub open spec fn form_title_spec(t: FormEntryType, is_edit: bool) -> Seq<char> {
    match t {
        FormEntryType::Ssh => if is_edit { "Edit SSH Entry"@ } else { "New SSH Entry"@ },
        FormEntryType::K8s => if is_edit { "Edit K8s Entry"@ } else { "New K8s Entry"@ },
        FormEntryType::Sshuttle => if is_edit { "Edit sshuttle Entry"@ } else { "New sshuttle Entry"@ },
    }
}

/// The line of connection field `f`, focused or not.
pub open spec fn field_line_spec(f: FormFieldView, focused: bool) -> Seq<(Seq<char>, Tone)> {
    let label = (pad14(f.label) + ": "@, if focused { Tone::LabelFocused } else { Tone::Label });
    if f.label == "Auto Restart"@ {
        let on = f.value == "yes"@;
        seq![
            label,
            ("yes"@, if on { Tone::YesOn } else { Tone::Off }),
            (" / "@, Tone::Plain),
            ("no"@, if !on { Tone::NoOn } else { Tone::Off }),
            (if focused { "  (space to toggle)"@ } else { ""@ }, Tone::Hint),
        ]
    } else if f.label == "Resource Type"@ {
        seq![label, (f.value, Tone::Choice), (if focused { "  (type to change)"@ } else { ""@ }, Tone::Hint)]
    } else {
        seq![
            label,
            (f.value + if focused { "_"@ } else { ""@ }, if focused { Tone::ValueFocused } else { Tone::Value }),
        ]
    }
}

/// The line of forward field `f` in the sub-form, focused or not.
pub open spec fn forward_field_line_spec(f: FormFieldView, focused: bool) -> Seq<(Seq<char>, Tone)> {
    seq![
        ("    "@ + pad14(f.label) + ": "@, if focused { Tone::LabelFocused } else { Tone::Label }),
        (f.value + if focused { "_"@ } else { ""@ }, if focused { Tone::ValueFocused } else { Tone::Value }),
    ]
}

/// The list prefix of a forward, selected or not.
pub open spec fn list_prefix(sel: bool) -> Seq<char> {
    if sel { "  > "@ } else { "    "@ }
}

/// The line of an SSH forward in the list.
pub open spec fn ssh_forward_line_spec(w: TunnelForwardView, sel: bool) -> Seq<(Seq<char>, Tone)> {
    seq![
        (list_prefix(sel) + "["@ + w.type_label() + "] "@, if sel { Tone::ForwardTagSelected } else { Tone::ForwardTag }),
        (w.display_address(), if sel { Tone::AddressSelected } else { Tone::Address }),
    ]
}

/// The line of a workload binding in the list.
pub open spec fn binding_line_spec(w: K8sPortForwardView, sel: bool) -> Seq<(Seq<char>, Tone)> {
    seq![
        (list_prefix(sel) + "[K] "@, Tone::BindingTag),
        (w.display_address(), if sel { Tone::AddressSelected } else { Tone::Address }),
    ]
}

/// The hint next to the forwards heading.
pub open spec fn section_hint(focus: FormFocus) -> Seq<char> {
    match focus {
        FormFocus::ForwardList => "(Enter edit  Ctrl+A add  Ctrl+D del)"@,
        FormFocus::ForwardEdit { .. } => "(Enter save  Esc cancel)"@,
        FormFocus::ServerFields => "(Ctrl+A add  Tab to list)"@,
    }
}

/// The hint at the bottom of the form.
pub open spec fn bottom_hint(focus: FormFocus) -> Seq<char> {
    match focus {
        FormFocus::ForwardEdit { .. } => "  Enter: save  Esc: cancel  Tab/Shift+Tab: fields"@,
        FormFocus::ForwardList => "  Enter: edit  Esc: cancel form  Tab/Shift+Tab: navigate"@,
        FormFocus::ServerFields => "  Enter: save entry  Esc: cancel  Tab/Shift+Tab: fields"@,
    }
}

/// The name of an SSH forward type in the sub-form.
pub open spec fn forward_type_name(t: usize) -> Seq<char> {
    if t == 0 {
        "Local (-L)"@
    } else if t == 1 {
        "Remote (-R)"@
    } else if t == 2 {
        "Dynamic (-D)"@
    } else {
        "Unknown"@
    }
}

/// The notice above the sub-form.
pub open spec fn edit_notice(f: FormStateView) -> Seq<char> {
    let what = match f.focus {
        FormFocus::ForwardEdit { editing_index: Some(_) } => "Editing binding"@,
        _ => "New binding"@,
    };
    if f.entry_type == FormEntryType::Ssh {
        "    "@ + what + " — Type: "@ + forward_type_name(f.forward_type) + "  (Ctrl+T to cycle)"@
    } else {
        "    "@ + what + " — kubectl port-forward"@
    }
}

/// How many sub-form fields are shown.
pub open spec fn shown_forward_fields(f: FormStateView) -> nat {
    let n: nat = if f.entry_type == FormEntryType::Ssh {
        if f.forward_type == 2 { 1 } else { 3 }
    } else {
        2
    };
    if n < f.forward_fields.len() { n } else { f.forward_fields.len() }
}

/// The lines of the forwards section (none for an sshuttle form).
pub open spec fn forwards_section_spec(f: FormStateView) -> Seq<Seq<(Seq<char>, Tone)>> {
    let editing = f.focus is ForwardEdit;
    let in_list = f.focus == FormFocus::ForwardList;
    match f.entry_type {
        FormEntryType::Sshuttle => seq![],
        FormEntryType::Ssh => seq![
            seq![],
            seq![("  Forwards "@, Tone::Section), (section_hint(f.focus), Tone::Hint)],
        ] + Seq::new(
            f.forwards.len(),
            |i: int| ssh_forward_line_spec(f.forwards[i], in_list && i == f.selected_forward),
        ) + if f.forwards.len() == 0 && !editing {
            seq![seq![("    (none — Ctrl+A to add)"@, Tone::Hint)]]
        } else {
            seq![]
        },
        FormEntryType::K8s => seq![
            seq![],
            seq![("  Port Bindings "@, Tone::Section), (section_hint(f.focus), Tone::Hint)],
        ] + Seq::new(
            f.k8s_forwards.len(),
            |i: int| binding_line_spec(f.k8s_forwards[i], in_list && i == f.selected_forward),
        ) + if f.k8s_forwards.len() == 0 && !editing {
            seq![seq![("    (none — Ctrl+A to add)"@, Tone::Hint)]]
        } else {
            seq![]
        },
    }
}

/// The lines of the sub-form, while a forward is being edited.
pub open spec fn sub_form_spec(f: FormStateView) -> Seq<Seq<(Seq<char>, Tone)>> {
    if f.focus is ForwardEdit && f.entry_type != FormEntryType::Sshuttle {
        seq![seq![(edit_notice(f), Tone::Notice)]] + Seq::new(
            shown_forward_fields(f),
            |i: int| forward_field_line_spec(f.forward_fields[i], i == f.forward_field),
        )
    } else {
        seq![]
    }
}

/// All lines of the form: title, connection fields, forwards section,
/// sub-form, and the bottom hint.
pub open spec fn form_lines_spec(f: FormStateView) -> Seq<Seq<(Seq<char>, Tone)>> {
    seq![seq![(form_title_spec(f.entry_type, f.editing_id is Some), Tone::Title)], seq![]]
        + Seq::new(
        f.fields.len(),
        |i: int| field_line_spec(f.fields[i], f.focus == FormFocus::ServerFields && i == f.focused_field),
    ) + forwards_section_spec(f) + sub_form_spec(f) + seq![seq![], seq![(bottom_hint(f.focus), Tone::Hint)]]
}

fn piece(s: &str, t: Tone) -> (r: Piece)
    ensures
        r.0@ == s@,
        r.1 == t,
{
    (lit(s), t)
}

fn cat(a: &str, b: &str) -> (r: String)
    ensures
        r@ == a@ + b@,
{
    let mut r = lit(a);
    r.append(b);
    r
}

/// `s` right-aligned in 14 columns.
pub fn pad14_text(s: &str) -> (r: String)
    ensures
        r@ == pad14(s@),
{
    let n = chars_of(s).len();
    let mut r = String::new();
    if n < 14 {
        let mut k: usize = 0;
        while k < 14 - n
            invariant
                n < 14,
                k <= 14 - n,
                r@ == spaces(k as nat),
            decreases 14 - n - k,
        {
            crate::text::push_char(&mut r, ' ');
            assert(r@ =~= spaces((k + 1) as nat));
            k = k + 1;
        }
    }
    r.append(s);
    assert(r@ =~= pad14(s@));
    r
}

/// The title of a form.
pub fn form_title(t: FormEntryType, is_edit: bool) -> (r: &'static str)
    ensures
        r@ == form_title_spec(t, is_edit),
{
    match t {
        FormEntryType::Ssh => if is_edit { "Edit SSH Entry" } else { "New SSH Entry" },
        FormEntryType::K8s => if is_edit { "Edit K8s Entry" } else { "New K8s Entry" },
        FormEntryType::Sshuttle => if is_edit { "Edit sshuttle Entry" } else { "New sshuttle Entry" },
    }
}

/// The line of a connection field.
pub fn field_line(f: &FormField, focused: bool) -> (r: Vec<Piece>)
    ensures
        pieces_view(r@) == field_line_spec(f@, focused),
{
    let mut label = pad14_text(f.label.as_str());
    label.append(": ");
    let lt = if focused { Tone::LabelFocused } else { Tone::Label };
    let r = if f.label == lit("Auto Restart") {
        let on = f.value == lit("yes");
        vec![
            (label, lt),
            piece("yes", if on { Tone::YesOn } else { Tone::Off }),
            piece(" / ", Tone::Plain),
            piece("no", if !on { Tone::NoOn } else { Tone::Off }),
            piece(if focused { "  (space to toggle)" } else { "" }, Tone::Hint),
        ]
    } else if f.label == lit("Resource Type") {
        vec![
            (label, lt),
            (f.value.clone(), Tone::Choice),
            piece(if focused { "  (type to change)" } else { "" }, Tone::Hint),
        ]
    } else {
        vec![
            (label, lt),
            (cat(f.value.as_str(), if focused { "_" } else { "" }), if focused { Tone::ValueFocused } else { Tone::Value }),
        ]
    };
    assert(pieces_view(r@) =~= field_line_spec(f@, focused));
    r
}


/// The line of a sub-form field.
pub fn forward_field_line(f: &FormField, focused: bool) -> (r: Vec<Piece>)
    ensures
        pieces_view(r@) == forward_field_line_spec(f@, focused),
{
    let mut label = lit("    ");
    label.append(pad14_text(f.label.as_str()).as_str());
    label.append(": ");
    let r = vec![
        (label, if focused { Tone::LabelFocused } else { Tone::Label }),
        (cat(f.value.as_str(), if focused { "_" } else { "" }), if focused { Tone::ValueFocused } else { Tone::Value }),
    ];
    assert(pieces_view(r@) =~= forward_field_line_spec(f@, focused));
    r
}

fn prefix_text(sel: bool) -> (r: &'static str)
    ensures
        r@ == list_prefix(sel),
{
    if sel { "  > " } else { "    " }
}

/// The line of an SSH forward in the list.
pub fn ssh_forward_line(w: &crate::model::TunnelForward, sel: bool) -> (r: Vec<Piece>)
    ensures
        pieces_view(r@) == ssh_forward_line_spec(w@, sel),
{
    let mut tag = lit(prefix_text(sel));
    tag.append("[");
    tag.append(w.type_label());
    tag.append("] ");
    let r = vec![
        (tag, if sel { Tone::ForwardTagSelected } else { Tone::ForwardTag }),
        (w.display_address(), if sel { Tone::AddressSelected } else { Tone::Address }),
    ];
    assert(pieces_view(r@) =~= ssh_forward_line_spec(w@, sel));
    r
}

/// The line of a workload binding in the list.
pub fn binding_line(w: &crate::model::K8sPortForward, sel: bool) -> (r: Vec<Piece>)
    ensures
        pieces_view(r@) == binding_line_spec(w@, sel),
{
    let r = vec![
        (cat(prefix_text(sel), "[K] "), Tone::BindingTag),
        (w.display_address(), if sel { Tone::AddressSelected } else { Tone::Address }),
    ];
    assert(pieces_view(r@) =~= binding_line_spec(w@, sel));
    r
}

fn section_hint_text(focus: FormFocus) -> (r: &'static str)
    ensures
        r@ == section_hint(focus),
{
    match focus {
        FormFocus::ForwardList => "(Enter edit  Ctrl+A add  Ctrl+D del)",
        FormFocus::ForwardEdit { .. } => "(Enter save  Esc cancel)",
        FormFocus::ServerFields => "(Ctrl+A add  Tab to list)",
    }
}

fn bottom_hint_text(focus: FormFocus) -> (r: &'static str)
    ensures
        r@ == bottom_hint(focus),
{
    match focus {
        FormFocus::ForwardEdit { .. } => "  Enter: save  Esc: cancel  Tab/Shift+Tab: fields",
        FormFocus::ForwardList => "  Enter: edit  Esc: cancel form  Tab/Shift+Tab: navigate",
        FormFocus::ServerFields => "  Enter: save entry  Esc: cancel  Tab/Shift+Tab: fields",
    }
}

fn forward_type_text(t: usize) -> (r: &'static str)
    ensures
        r@ == forward_type_name(t),
{
    if t == 0 {
        "Local (-L)"
    } else if t == 1 {
        "Remote (-R)"
    } else if t == 2 {
        "Dynamic (-D)"
    } else {
        "Unknown"
    }
}

fn edit_notice_text(f: &FormState) -> (r: String)
    ensures
        r@ == edit_notice(f@),
{
    let what = match f.focus {
        FormFocus::ForwardEdit { editing_index: Some(_) } => "Editing binding",
        _ => "New binding",
    };
    let mut r = lit("    ");
    r.append(what);
    if f.entry_type == FormEntryType::Ssh {
        r.append(" — Type: ");
        r.append(forward_type_text(f.forward_type));
        r.append("  (Ctrl+T to cycle)");
    } else {
        r.append(" — kubectl port-forward");
    }
    r
}

/// Appends `line` to `lines`.
fn push_line(lines: &mut Vec<Vec<Piece>>, line: Vec<Piece>)
    ensures
        lines_view(final(lines)@) == lines_view(old(lines)@).push(pieces_view(line@)),
{
    let ghost l = pieces_view(line@);
    lines.push(line);
    assert(lines_view(lines@) =~= lines_view(old(lines)@).push(l));
}

/// The lines of the forwards section.
fn forwards_section(f: &FormState, lines: &mut Vec<Vec<Piece>>)
    ensures
        lines_view(final(lines)@) == lines_view(old(lines)@) + forwards_section_spec(f@),
{
    let ghost v = f@;
    let ghost start = lines_view(lines@);
    let editing = match f.focus {
        FormFocus::ForwardEdit { .. } => true,
        _ => false,
    };
    let in_list = f.focus == FormFocus::ForwardList;
    match f.entry_type {
        FormEntryType::Sshuttle => {
            assert(lines_view(lines@) =~= start + forwards_section_spec(v));
        },
        FormEntryType::Ssh => {
            let empty: Vec<Piece> = Vec::new();
            assert(pieces_view(empty@) =~= Seq::<(Seq<char>, Tone)>::empty());
            push_line(lines, empty);
            let header = vec![piece("  Forwards ", Tone::Section), piece(section_hint_text(f.focus), Tone::Hint)];
            assert(pieces_view(header@) =~= seq![("  Forwards "@, Tone::Section), (section_hint(v.focus), Tone::Hint)]);
            push_line(lines, header);
            let ghost head = lines_view(lines@);
            assert(head =~= start + seq![
                seq![],
                seq![("  Forwards "@, Tone::Section), (section_hint(v.focus), Tone::Hint)],
            ]);
            let n = f.forwards.len();
            let mut i: usize = 0;
            while i < n
                invariant
                    n == f.forwards@.len(),
                    v == f@,
                    in_list == (v.focus == FormFocus::ForwardList),
                    i <= n,
                    lines_view(lines@) == head + Seq::new(
                        i as nat,
                        |k: int| ssh_forward_line_spec(v.forwards[k], in_list && k == v.selected_forward),
                    ),
                decreases n - i,
            {
                assert(v.forwards[i as int] == f.forwards@[i as int]@);
                let line = ssh_forward_line(&f.forwards[i], in_list && i == f.selected_forward);
                push_line(lines, line);
                i = i + 1;
                assert(lines_view(lines@) =~= head + Seq::new(
                    i as nat,
                    |k: int| ssh_forward_line_spec(v.forwards[k], in_list && k == v.selected_forward),
                ));
            }
            let ghost body = lines_view(lines@);
            if n == 0 && !editing {
                let none = vec![piece("    (none — Ctrl+A to add)", Tone::Hint)];
                assert(pieces_view(none@) =~= seq![("    (none — Ctrl+A to add)"@, Tone::Hint)]);
                push_line(lines, none);
                assert(lines_view(lines@) =~= body + seq![seq![("    (none — Ctrl+A to add)"@, Tone::Hint)]]);
            } else {
                assert(lines_view(lines@) =~= body + Seq::<Seq<(Seq<char>, Tone)>>::empty());
            }
            assert(lines_view(lines@) =~= start + forwards_section_spec(v));
        },
        FormEntryType::K8s => {
            let empty: Vec<Piece> = Vec::new();
            assert(pieces_view(empty@) =~= Seq::<(Seq<char>, Tone)>::empty());
            push_line(lines, empty);
            let header = vec![piece("  Port Bindings ", Tone::Section), piece(section_hint_text(f.focus), Tone::Hint)];
            assert(pieces_view(header@) =~= seq![("  Port Bindings "@, Tone::Section), (section_hint(v.focus), Tone::Hint)]);
            push_line(lines, header);
            let ghost head = lines_view(lines@);
            assert(head =~= start + seq![
                seq![],
                seq![("  Port Bindings "@, Tone::Section), (section_hint(v.focus), Tone::Hint)],
            ]);
            let n = f.k8s_forwards.len();
            let mut i: usize = 0;
            while i < n
                invariant
                    n == f.k8s_forwards@.len(),
                    v == f@,
                    in_list == (v.focus == FormFocus::ForwardList),
                    i <= n,
                    lines_view(lines@) == head + Seq::new(
                        i as nat,
                        |k: int| binding_line_spec(v.k8s_forwards[k], in_list && k == v.selected_forward),
                    ),
                decreases n - i,
            {
                assert(v.k8s_forwards[i as int] == f.k8s_forwards@[i as int]@);
                let line = binding_line(&f.k8s_forwards[i], in_list && i == f.selected_forward);
                push_line(lines, line);
                i = i + 1;
                assert(lines_view(lines@) =~= head + Seq::new(
                    i as nat,
                    |k: int| binding_line_spec(v.k8s_forwards[k], in_list && k == v.selected_forward),
                ));
            }
            let ghost body = lines_view(lines@);
            if n == 0 && !editing {
                let none = vec![piece("    (none — Ctrl+A to add)", Tone::Hint)];
                assert(pieces_view(none@) =~= seq![("    (none — Ctrl+A to add)"@, Tone::Hint)]);
                push_line(lines, none);
                assert(lines_view(lines@) =~= body + seq![seq![("    (none — Ctrl+A to add)"@, Tone::Hint)]]);
            } else {
                assert(lines_view(lines@) =~= body + Seq::<Seq<(Seq<char>, Tone)>>::empty());
            }
            assert(lines_view(lines@) =~= start + forwards_section_spec(v));
        },
    }
}


/// The lines of the sub-form.
fn sub_form(f: &FormState, lines: &mut Vec<Vec<Piece>>)
    ensures
        lines_view(final(lines)@) == lines_view(old(lines)@) + sub_form_spec(f@),
{
    let ghost v = f@;
    let ghost start = lines_view(lines@);
    let editing = match f.focus {
        FormFocus::ForwardEdit { .. } => true,
        _ => false,
    };
    if !editing || f.entry_type == FormEntryType::Sshuttle {
        assert(lines_view(lines@) =~= start + sub_form_spec(v));
        return;
    }
    let notice = vec![(edit_notice_text(f), Tone::Notice)];
    assert(pieces_view(notice@) =~= seq![(edit_notice(v), Tone::Notice)]);
    push_line(lines, notice);
    let ghost head = lines_view(lines@);
    let want: usize = if f.entry_type == FormEntryType::Ssh {
        if f.forward_type == 2 { 1 } else { 3 }
    } else {
        2
    };
    let n = if want < f.forward_fields.len() { want } else { f.forward_fields.len() };
    assert(n == shown_forward_fields(v));
    let mut i: usize = 0;
    while i < n
        invariant
            n == shown_forward_fields(v),
            n <= f.forward_fields@.len(),
            v == f@,
            i <= n,
            lines_view(lines@) == head + Seq::new(
                i as nat,
                |k: int| forward_field_line_spec(v.forward_fields[k], k == v.forward_field),
            ),
        decreases n - i,
    {
        assert(v.forward_fields[i as int] == f.forward_fields@[i as int]@);
        let line = forward_field_line(&f.forward_fields[i], i == f.forward_field);
        push_line(lines, line);
        i = i + 1;
        assert(lines_view(lines@) =~= head + Seq::new(
            i as nat,
            |k: int| forward_field_line_spec(v.forward_fields[k], k == v.forward_field),
        ));
    }
    assert(lines_view(lines@) =~= start + sub_form_spec(v));
}

/// The lines of the form, each a list of pieces of text with their tone
/// (see [`form_lines_spec`]).
pub fn form_lines(f: &FormState) -> (r: Vec<Vec<Piece>>)
    ensures
        lines_view(r@) == form_lines_spec(f@),
{
    let ghost v = f@;
    let mut lines: Vec<Vec<Piece>> = Vec::new();
    let title = vec![piece(form_title(f.entry_type, f.editing_id.is_some()), Tone::Title)];
    assert(pieces_view(title@) =~= seq![(form_title_spec(v.entry_type, v.editing_id is Some), Tone::Title)]);
    push_line(&mut lines, title);
    let empty: Vec<Piece> = Vec::new();
    assert(pieces_view(empty@) =~= Seq::<(Seq<char>, Tone)>::empty());
    push_line(&mut lines, empty);
    let ghost head = lines_view(lines@);
    assert(head =~= seq![seq![(form_title_spec(v.entry_type, v.editing_id is Some), Tone::Title)], seq![]]);
    let server = f.focus == FormFocus::ServerFields;
    let n = f.fields.len();
    let mut i: usize = 0;
    while i < n
        invariant
            n == f.fields@.len(),
            v == f@,
            server == (v.focus == FormFocus::ServerFields),
            i <= n,
            lines_view(lines@) == head + Seq::new(
                i as nat,
                |k: int| field_line_spec(v.fields[k], server && k == v.focused_field),
            ),
        decreases n - i,
    {
        assert(v.fields[i as int] == f.fields@[i as int]@);
        let line = field_line(&f.fields[i], server && i == f.focused_field);
        push_line(&mut lines, line);
        i = i + 1;
        assert(lines_view(lines@) =~= head + Seq::new(
            i as nat,
            |k: int| field_line_spec(v.fields[k], server && k == v.focused_field),
        ));
    }
    let ghost body = lines_view(lines@);
    forwards_section(f, &mut lines);
    sub_form(f, &mut lines);
    let empty2: Vec<Piece> = Vec::new();
    assert(pieces_view(empty2@) =~= Seq::<(Seq<char>, Tone)>::empty());
    push_line(&mut lines, empty2);
    let hint = vec![piece(bottom_hint_text(f.focus), Tone::Hint)];
    assert(pieces_view(hint@) =~= seq![(bottom_hint(v.focus), Tone::Hint)]);
    push_line(&mut lines, hint);
    assert(lines_view(lines@) =~= form_lines_spec(v));
    lines
}


/// 0 for a local forward, 1 for a remote one, 2 for a dynamic one.
pub open spec fn forward_kind(w: TunnelForwardView) -> int {
    match w {
        TunnelForwardView::Local { .. } => 0,
        TunnelForwardView::Remote { .. } => 1,
        TunnelForwardView::Dynamic { .. } => 2,
    }
}

/// The forwards of one kind, in order.
pub open spec fn forwards_of_kind(fs: Seq<TunnelForwardView>, k: int) -> Seq<TunnelForwardView>
    decreases fs.len(),
{
    if fs.len() == 0 {
        seq![]
    } else {
        let rest = forwards_of_kind(fs.drop_last(), k);
        if forward_kind(fs.last()) == k { rest.push(fs.last()) } else { rest }
    }
}

fn kind_of(w: &TunnelForward) -> (r: u8)
    ensures
        r as int == forward_kind(w@),
{
    match w {
        TunnelForward::Local { .. } => 0,
        TunnelForward::Remote { .. } => 1,
        TunnelForward::Dynamic { .. } => 2,
    }
}

/// Copies of the forwards of kind `k`, in order.
fn select_kind(fs: &Vec<TunnelForward>, k: u8) -> (r: Vec<TunnelForward>)
    ensures
        r@.map_values(|f: TunnelForward| f@) == forwards_of_kind(crate::model::forwards_view(fs@), k as int),
{
    let ghost all = crate::model::forwards_view(fs@);
    let mut r: Vec<TunnelForward> = Vec::new();
    let mut i: usize = 0;
    while i < fs.len()
        invariant
            i <= fs@.len(),
            all == crate::model::forwards_view(fs@),
            r@.map_values(|f: TunnelForward| f@) == forwards_of_kind(all.take(i as int), k as int),
        decreases fs@.len() - i,
    {
        assert(all.take(i + 1).drop_last() =~= all.take(i as int));
        assert(all.take(i + 1).last() == fs@[i as int]@);
        if kind_of(&fs[i]) == k {
            let ghost before = r@;
            r.push(fs[i].copy());
            assert(r@.map_values(|f: TunnelForward| f@) =~= before.map_values(|f: TunnelForward| f@).push(fs@[i as int]@));
        }
        i = i + 1;
    }
    assert(all.take(fs@.len() as int) =~= all);
    r
}

/// The state label of a row: `[state] `.
pub open spec fn state_piece(st: ConnectionState) -> (Seq<char>, Tone) {
    ("["@ + st.label_text() + "] "@, Tone::State)
}

/// The first line of a row: badge, name, state, and the auto-restart marker.
pub open spec fn row_head(badge: (Seq<char>, Tone), name: Seq<char>, st: ConnectionState, auto_restart: bool) -> Seq<
    (Seq<char>, Tone),
> {
    seq![badge, (name + " "@, Tone::Name), state_piece(st)] + if auto_restart {
        seq![(" [R]"@, Tone::Restart)]
    } else {
        seq![]
    }
}

/// The six lines of the sidebar row of an entry in state `st`.
pub open spec fn entry_row_spec(e: TunnelEntryView, st: ConnectionState) -> Seq<Seq<(Seq<char>, Tone)>> {
    match e {
        TunnelEntryView::Ssh(x) => seq![
            row_head(("[SSH] "@, Tone::BadgeSsh), x.name, st, x.auto_restart),
            seq![(x.host + ":"@ + decimal(x.port as nat), Tone::Detail)],
            seq![(identity_line_spec(x.user, x.identity_file), Tone::DetailDim)],
            seq![(ssh_forward_summary_spec(forwards_of_kind(x.forwards, 0), "L"@), Tone::ForwardSummary)],
            seq![(ssh_forward_summary_spec(forwards_of_kind(x.forwards, 1), "R"@), Tone::ForwardSummary)],
            seq![(ssh_forward_summary_spec(forwards_of_kind(x.forwards, 2), "D"@), Tone::ForwardSummary)],
        ],
        TunnelEntryView::K8s(x) => seq![
            row_head(("[K8S] "@, Tone::BadgeK8s), x.name, st, x.auto_restart),
            seq![(crate::form::or_empty(x.context), Tone::DetailDim)],
            seq![(crate::form::or_empty(x.namespace), Tone::DetailDim)],
            seq![(x.resource_identifier(), Tone::Resource)],
            seq![(k8s_bindings_summary_spec(x.forwards), Tone::ForwardSummary)],
            seq![],
        ],
        TunnelEntryView::Sshuttle(x) => seq![
            row_head(("[sshuttle] "@, Tone::BadgeSshuttle), x.name, st, x.auto_restart),
            seq![(
                match x.port {
                    Some(p) => x.host + ":"@ + decimal(p as nat),
                    None => x.host,
                },
                Tone::Detail,
            )],
            seq![(identity_line_spec(x.user, x.identity_file), Tone::DetailDim)],
            seq![(subnet_summary_spec(x.subnets), Tone::Subnets)],
            seq![],
            seq![],
        ],
    }
}

fn row_head_line(badge: &str, bt: Tone, name: &str, st: ConnectionState, auto_restart: bool) -> (r: Vec<Piece>)
    ensures
        pieces_view(r@) == row_head((badge@, bt), name@, st, auto_restart),
{
    let mut label = lit("[");
    label.append(st.label());
    label.append("] ");
    let mut r = vec![piece(badge, bt), (cat(name, " "), Tone::Name), (label, Tone::State)];
    if auto_restart {
        r.push(piece(" [R]", Tone::Restart));
    }
    assert(pieces_view(r@) =~= row_head((badge@, bt), name@, st, auto_restart));
    r
}

fn one(s: String, t: Tone) -> (r: Vec<Piece>)
    ensures
        pieces_view(r@) == seq![(s@, t)],
{
    let ghost v = s@;
    let r = vec![(s, t)];
    assert(pieces_view(r@) =~= seq![(v, t)]);
    r
}

fn none_line() -> (r: Vec<Piece>)
    ensures
        pieces_view(r@) == Seq::<(Seq<char>, Tone)>::empty(),
{
    let r: Vec<Piece> = Vec::new();
    assert(pieces_view(r@) =~= Seq::<(Seq<char>, Tone)>::empty());
    r
}

fn host_port(host: &str, port: u16) -> (r: String)
    ensures
        r@ == host@ + ":"@ + decimal(port as nat),
{
    let mut r = lit(host);
    r.append(":");
    r.append(dec(port as u64).as_str());
    r
}

fn ssh_row(x: &ServerEntry, st: ConnectionState) -> (r: Vec<Vec<Piece>>)
    ensures
        lines_view(r@) == entry_row_spec(TunnelEntryView::Ssh(x@), st),
{
    let locals = select_kind(&x.forwards, 0);
    let remotes = select_kind(&x.forwards, 1);
    let dynamics = select_kind(&x.forwards, 2);
    let r = vec![
        row_head_line("[SSH] ", Tone::BadgeSsh, x.name.as_str(), st, x.auto_restart),
        one(host_port(x.host.as_str(), x.port), Tone::Detail),
        one(identity_line(&x.user, &x.identity_file), Tone::DetailDim),
        one(ssh_forward_summary(locals.as_slice(), "L"), Tone::ForwardSummary),
        one(ssh_forward_summary(remotes.as_slice(), "R"), Tone::ForwardSummary),
        one(ssh_forward_summary(dynamics.as_slice(), "D"), Tone::ForwardSummary),
    ];
    assert(lines_view(r@) =~= entry_row_spec(TunnelEntryView::Ssh(x@), st));
    r
}

fn or_empty_text(o: &Option<String>) -> (r: String)
    ensures
        r@ == crate::form::or_empty(crate::model::opt_view(*o)),
{
    match o {
        Some(s) => s.clone(),
        None => String::new(),
    }
}

fn k8s_row(x: &K8sEntry, st: ConnectionState) -> (r: Vec<Vec<Piece>>)
    ensures
        lines_view(r@) == entry_row_spec(TunnelEntryView::K8s(x@), st),
{
    let r = vec![
        row_head_line("[K8S] ", Tone::BadgeK8s, x.name.as_str(), st, x.auto_restart),
        one(or_empty_text(&x.context), Tone::DetailDim),
        one(or_empty_text(&x.namespace), Tone::DetailDim),
        one(x.resource_identifier(), Tone::Resource),
        one(k8s_bindings_summary(x.forwards.as_slice()), Tone::ForwardSummary),
        none_line(),
    ];
    assert(lines_view(r@) =~= entry_row_spec(TunnelEntryView::K8s(x@), st));
    r
}

fn sshuttle_row(x: &SshuttleEntry, st: ConnectionState) -> (r: Vec<Vec<Piece>>)
    ensures
        lines_view(r@) == entry_row_spec(TunnelEntryView::Sshuttle(x@), st),
{
    let host = match x.port {
        Some(p) => host_port(x.host.as_str(), p),
        None => x.host.clone(),
    };
    let r = vec![
        row_head_line("[sshuttle] ", Tone::BadgeSshuttle, x.name.as_str(), st, x.auto_restart),
        one(host, Tone::Detail),
        one(identity_line(&x.user, &x.identity_file), Tone::DetailDim),
        one(subnet_summary(&x.subnets), Tone::Subnets),
        none_line(),
        none_line(),
    ];
    assert(lines_view(r@) =~= entry_row_spec(TunnelEntryView::Sshuttle(x@), st));
    r
}

/// The six lines of the sidebar row of `e` in state `st` (see
/// [`entry_row_spec`]).
pub fn entry_row(e: &TunnelEntry, st: ConnectionState) -> (r: Vec<Vec<Piece>>)
    ensures
        lines_view(r@) == entry_row_spec(e@, st),
{
    match e {
        TunnelEntry::Ssh(x) => ssh_row(x, st),
        TunnelEntry::K8s(x) => k8s_row(x, st),
        TunnelEntry::Sshuttle(x) => sshuttle_row(x, st),
    }
}


/// The three options of the type selector.
pub open spec fn type_option(i: int) -> Seq<char> {
    if i == 0 {
        "SSH Server"@
    } else if i == 1 {
        "Kubernetes Workload"@
    } else {
        "sshuttle VPN"@
    }
}

/// The line of option `i` of the type selector.
pub open spec fn type_option_line(i: int, selected: usize) -> Seq<(Seq<char>, Tone)> {
    if i == selected {
        seq![("> "@ + type_option(i), Tone::Choice)]
    } else {
        seq![("  "@ + type_option(i), Tone::Value)]
    }
}

/// The lines of the type selector.
pub open spec fn type_select_lines_spec(selected: usize) -> Seq<Seq<(Seq<char>, Tone)>> {
    seq![
        seq![("New Entry — Select Type"@, Tone::Title)],
        seq![],
        type_option_line(0, selected),
        type_option_line(1, selected),
        type_option_line(2, selected),
        seq![],
        seq![("Tab/↑↓: select  Enter: confirm  Esc: cancel"@, Tone::Hint)],
    ]
}

fn option_line(i: usize, selected: usize) -> (r: Vec<Piece>)
    requires
        i < 3,
    ensures
        pieces_view(r@) == type_option_line(i as int, selected),
{
    let name = if i == 0 {
        "SSH Server"
    } else if i == 1 {
        "Kubernetes Workload"
    } else {
        "sshuttle VPN"
    };
    if i == selected {
        one(cat("> ", name), Tone::Choice)
    } else {
        one(cat("  ", name), Tone::Value)
    }
}

/// The lines of the type selector with option `selected` highlighted.
pub fn type_select_lines(selected: usize) -> (r: Vec<Vec<Piece>>)
    ensures
        lines_view(r@) == type_select_lines_spec(selected),
{
    let r = vec![
        one(lit("New Entry — Select Type"), Tone::Title),
        none_line(),
        option_line(0, selected),
        option_line(1, selected),
        option_line(2, selected),
        none_line(),
        one(lit("Tab/↑↓: select  Enter: confirm  Esc: cancel"), Tone::Hint),
    ];
    assert(lines_view(r@) =~= type_select_lines_spec(selected));
    r
}

/// The message at the right of the status bar: the current status
/// message, else the kubectl warning, else the sshuttle warning, each
/// warning marked with `⚠ `.
pub open spec fn status_bar_message_spec(
    active: Option<Seq<char>>,
    kubectl: Option<Seq<char>>,
    sshuttle: Option<Seq<char>>,
) -> Option<Seq<char>> {
    match active {
        Some(m) => Some(m),
        None => match kubectl {
            Some(w) => Some("⚠ "@ + w),
            None => match sshuttle {
                Some(w) => Some("⚠ "@ + w),
                None => None,
            },
        },
    }
}

/// Picks the message shown at the right of the status bar.
pub fn status_bar_message(active: Option<&str>, kubectl: &Option<String>, sshuttle: &Option<String>) -> (r: Option<
    String,
>)
    ensures
        crate::model::opt_view(r) == status_bar_message_spec(
            match active {
                Some(m) => Some(m@),
                None => None,
            },
            crate::model::opt_view(*kubectl),
            crate::model::opt_view(*sshuttle),
        ),
{
    match active {
        Some(m) => Some(lit(m)),
        None => match kubectl {
            Some(w) => Some(cat("⚠ ", w.as_str())),
            None => match sshuttle {
                Some(w) => Some(cat("⚠ ", w.as_str())),
                None => None,
            },
        },
    }
}

/// Where a row of the sidebar is drawn: its entry, its top line in the
/// list, its height, and whether a divider follows it.
#[derive(Debug, Clone, Copy, PartialEq, Eq, Structural)]
pub struct RowPlacement {
    pub index: usize,
    pub y: usize,
    pub height: usize,
    pub divider: bool,
}

/// The rows drawn from entry `i` on, the next one starting at line `y`:
/// rows that end above the scroll offset are skipped, drawing stops when
/// the list is full, each row takes `row_h` lines (clipped at the bottom),
/// and a divider line follows every row but the last while there is room.
pub open spec fn placements_spec(i: nat, y: nat, n: nat, offset: nat, height: nat, row_h: nat, stride: nat) -> Seq<
    RowPlacement,
>
    decreases n - i,
{
    if i >= n {
        seq![]
    } else if i * stride + stride <= offset {
        placements_spec(i + 1, y, n, offset, height, row_h, stride)
    } else if y >= height {
        seq![]
    } else {
        let h = if row_h < height - y { row_h } else { (height - y) as nat };
        let y2 = y + row_h;
        let div = i + 1 < n && y2 < height;
        seq![RowPlacement { index: i as usize, y: y as usize, height: h as usize, divider: div }] + placements_spec(
            i + 1,
            if div { y2 + 1 } else { y2 },
            n,
            offset,
            height,
            row_h,
            stride,
        )
    }
}

/// The rows of the sidebar to draw, from the top of the list.
pub fn row_placements(n: usize, offset: usize, height: usize, row_h: usize, stride: usize) -> (r: Vec<RowPlacement>)
    requires
        n * stride <= usize::MAX,
        height + row_h + 1 <= usize::MAX,
    ensures
        r@ == placements_spec(0, 0, n as nat, offset as nat, height as nat, row_h as nat, stride as nat),
{
    let mut r: Vec<RowPlacement> = Vec::new();
    let mut i: usize = 0;
    let mut y: usize = 0;
    let mut done = false;
    while i < n && !done
        invariant
            i <= n,
            n * stride <= usize::MAX,
            height + row_h + 1 <= usize::MAX,
            y <= height + row_h + 1,
            done ==> placements_spec(i as nat, y as nat, n as nat, offset as nat, height as nat, row_h as nat, stride as nat)
                == Seq::<RowPlacement>::empty(),
            r@ + placements_spec(i as nat, y as nat, n as nat, offset as nat, height as nat, row_h as nat, stride as nat)
                == placements_spec(0, 0, n as nat, offset as nat, height as nat, row_h as nat, stride as nat),
        decreases n - i, if done { 0int } else { 1int },
    {
        assert(i * stride + stride <= n * stride) by (nonlinear_arith)
            requires
                i < n,
        ;
        let top = i * stride;
        if top + stride <= offset {
            i = i + 1;
        } else if y >= height {
            done = true;
        } else {
            let h = if row_h < height - y { row_h } else { height - y };
            let y2 = y + row_h;
            let div = i + 1 < n && y2 < height;
            let y_next: usize = if div { y2 + 1 } else { y2 };
            let ghost rest = placements_spec((i + 1) as nat, y_next as nat, n as nat, offset as nat, height as nat, row_h as nat, stride as nat);
            let ghost before = r@;
            r.push(RowPlacement { index: i, y, height: h, divider: div });
            assert(r@ + rest =~= before + (seq![RowPlacement { index: i, y, height: h, divider: div }] + rest));
            y = y_next;
            i = i + 1;
        }
    }
    assert(r@ + placements_spec(i as nat, y as nat, n as nat, offset as nat, height as nat, row_h as nat, stride as nat) =~= r@);
    r
}


/// Whether the sidebar shows the arrows above and below the list: there is
/// content above the scroll offset, or below the end of the viewport.
pub fn scroll_indicators(offset: usize, viewport: usize, n: usize, stride: usize) -> (r: (bool, bool))
    requires
        offset + viewport <= usize::MAX,
        n * stride <= usize::MAX,
    ensures
        r.0 == (offset > 0),
        r.1 == (offset + viewport < n * stride),
{
    (offset > 0, offset + viewport < n * stride)
}

} // verus!
