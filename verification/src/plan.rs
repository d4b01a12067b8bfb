use vstd::prelude::*;

use crate::params::DialogParams;

verus! {

/// Which of the two native dialog kinds a session drives.
#[derive(Debug, Clone, Copy, PartialEq, Eq, Structural)]
pub enum DialogKind {
    /// A file/folder open dialog, returning one or more items.
    Open,
    /// A file save dialog, returning a single item.
    Save,
}

/// One native configuration call, carrying the plain values the call
/// needs.  A session applies its plan in order, one step per native
/// call, and aborts the whole session on the first failing step.
///
/// A path field becomes a pair of steps: `Resolve` turns the path into
/// a native item held as the session's pending item, and the following
/// `Bind*` step hands that pending item to the dialog and releases it,
/// whether or not the bind succeeded.
#[derive(Debug, Clone, PartialEq, Eq)]
pub enum PlanStep {
    /// Resolve a path to a native item, held as the pending item.
    Resolve(String),
    /// Seed a save dialog with the pending item, then release it.
    BindSaveAsItem,
    /// Set the pending item as the default folder, then release it.
    BindDefaultFolder,
    /// Set the pending item as the forced folder, then release it.
    BindFolder,
    /// Set the default file extension.
    SetDefaultExtension(String),
    /// Pre-populate the file name edit box.
    SetFileName(String),
    /// Label the file name edit box.
    SetFileNameLabel(String),
    /// Hand the dialog its list of (description, pattern) file types.
    SetFileTypes(Vec<(String, String)>),
    /// Select the 1-based default file type index.
    SetFileTypeIndex(u32),
    /// Replace the OK button's label.
    SetOkButtonLabel(String),
    /// Read the dialog's existing option flags.
    GetOptions,
    /// OR the carried flags into the flags just read, and set the
    /// result, so native default flags are preserved.
    SetOptions(u32),
    /// Set the dialog's title.
    SetTitle(String),
}

/// True of the steps that bind the pending item to the dialog.
pub open spec fn is_bind_step(s: PlanStep) -> bool {
    ||| s is BindSaveAsItem
    ||| s is BindDefaultFolder
    ||| s is BindFolder
}

/// True of the steps that neither produce nor consume a pending item
/// and do not depend on a previously read value.
pub open spec fn is_simple_step(s: PlanStep) -> bool {
    ||| s is SetDefaultExtension
    ||| s is SetFileName
    ||| s is SetFileNameLabel
    ||| s is SetFileTypes
    ||| s is SetFileTypeIndex
    ||| s is SetOkButtonLabel
    ||| s is SetTitle
}

/// A coherent plan tail: every `Resolve` is immediately followed by a
/// `Bind*` step, every `GetOptions` by a `SetOptions`, and no `Bind*`
/// or `SetOptions` appears without its prefix step.
pub open spec fn plan_ok(p: Seq<PlanStep>) -> bool
    decreases p.len(),
{
    if p.len() == 0 {
        true
    } else if p[0] is Resolve {
        p.len() >= 2 && is_bind_step(p[1]) && plan_ok(p.skip(2))
    } else if p[0] is GetOptions {
        p.len() >= 2 && p[1] is SetOptions && plan_ok(p.skip(2))
    } else if is_simple_step(p[0]) {
        plan_ok(p.skip(1))
    } else {
        false
    }
}

/// How many `Resolve` steps a plan tail still contains.  Each one
/// will have the driver acquire one native item.
pub open spec fn num_resolves(p: Seq<PlanStep>) -> int
    decreases p.len(),
{
    if p.len() == 0 {
        0
    } else {
        (if p[0] is Resolve {
            1int
        } else {
            0
        }) + num_resolves(p.skip(1))
    }
}

pub proof fn lemma_num_resolves_nonneg(p: Seq<PlanStep>)
    ensures
        num_resolves(p) >= 0,
    decreases p.len(),
{
    if p.len() > 0 {
        lemma_num_resolves_nonneg(p.skip(1));
    }
}

pub proof fn lemma_num_resolves_add(a: Seq<PlanStep>, b: Seq<PlanStep>)
    ensures
        num_resolves(a + b) == num_resolves(a) + num_resolves(b),
    decreases a.len(),
{
    if a.len() == 0 {
        assert(a + b =~= b);
    } else {
        assert((a + b).skip(1) =~= a.skip(1) + b);
        lemma_num_resolves_add(a.skip(1), b);
    }
}

/// The save-as seeding steps: present only for a save dialog with a
/// non-empty `save_as_item`, and applied before the shared
/// configuration.
pub open spec fn save_as_part(kind: DialogKind, params: DialogParams) -> Seq<PlanStep> {
    if kind is Save && params.save_as_item@.len() != 0 {
        seq![PlanStep::Resolve(params.save_as_item), PlanStep::BindSaveAsItem]
    } else {
        Seq::empty()
    }
}

pub open spec fn default_extension_part(params: DialogParams) -> Seq<PlanStep> {
    if params.default_extension@.len() != 0 {
        seq![PlanStep::SetDefaultExtension(params.default_extension)]
    } else {
        Seq::empty()
    }
}

pub open spec fn default_folder_part(params: DialogParams) -> Seq<PlanStep> {
    if params.default_folder@.len() != 0 {
        seq![PlanStep::Resolve(params.default_folder), PlanStep::BindDefaultFolder]
    } else {
        Seq::empty()
    }
}

pub open spec fn folder_part(params: DialogParams) -> Seq<PlanStep> {
    if params.folder@.len() != 0 {
        seq![PlanStep::Resolve(params.folder), PlanStep::BindFolder]
    } else {
        Seq::empty()
    }
}

pub open spec fn file_name_part(params: DialogParams) -> Seq<PlanStep> {
    if params.file_name@.len() != 0 {
        seq![PlanStep::SetFileName(params.file_name)]
    } else {
        Seq::empty()
    }
}

pub open spec fn file_name_label_part(params: DialogParams) -> Seq<PlanStep> {
    if params.file_name_label@.len() != 0 {
        seq![PlanStep::SetFileNameLabel(params.file_name_label)]
    } else {
        Seq::empty()
    }
}

pub open spec fn file_types_part(params: DialogParams) -> Seq<PlanStep> {
    if params.file_types@.len() != 0 {
        seq![PlanStep::SetFileTypes(params.file_types)]
    } else {
        Seq::empty()
    }
}

/// The default file type index is applied only when file types were
/// applied and the index is positive.
pub open spec fn file_type_index_part(params: DialogParams) -> Seq<PlanStep> {
    if params.file_types@.len() != 0 && params.file_type_index > 0 {
        seq![PlanStep::SetFileTypeIndex(params.file_type_index)]
    } else {
        Seq::empty()
    }
}

pub open spec fn ok_button_label_part(params: DialogParams) -> Seq<PlanStep> {
    if params.ok_button_label@.len() != 0 {
        seq![PlanStep::SetOkButtonLabel(params.ok_button_label)]
    } else {
        Seq::empty()
    }
}

/// Option flags are applied as a read-modify-write pair, so that flags
/// the dialog already carries are preserved.
pub open spec fn options_part(params: DialogParams) -> Seq<PlanStep> {
    if params.options > 0 {
        seq![PlanStep::GetOptions, PlanStep::SetOptions(params.options)]
    } else {
        Seq::empty()
    }
}

pub open spec fn title_part(params: DialogParams) -> Seq<PlanStep> {
    if params.title@.len() != 0 {
        seq![PlanStep::SetTitle(params.title)]
    } else {
        Seq::empty()
    }
}

/// The full configuration plan of a session: each field of the
/// configuration contributes its steps exactly when it is set, in this
/// fixed order.
pub open spec fn spec_plan(kind: DialogKind, params: DialogParams) -> Seq<PlanStep> {
    save_as_part(kind, params) + default_extension_part(params) + default_folder_part(params)
        + folder_part(params) + file_name_part(params) + file_name_label_part(params)
        + file_types_part(params) + file_type_index_part(params) + ok_button_label_part(params)
        + options_part(params) + title_part(params)
}

/// A group is empty, a single simple step, a resolve-and-bind pair, or
/// a read-modify-write pair of the option flags.
pub open spec fn group_ok(g: Seq<PlanStep>) -> bool {
    ||| g.len() == 0
    ||| (g.len() == 1 && is_simple_step(g[0]))
    ||| (g.len() == 2 && g[0] is Resolve && is_bind_step(g[1]))
    ||| (g.len() == 2 && g[0] is GetOptions && g[1] is SetOptions)
}

/// A coherent group alone is a coherent plan.
pub proof fn lemma_plan_ok_group(g: Seq<PlanStep>)
    requires
        group_ok(g),
    ensures
        plan_ok(g),
{
    assert(plan_ok(Seq::<PlanStep>::empty()));
    if g.len() == 1 {
        assert(g.skip(1) =~= Seq::<PlanStep>::empty());
    } else if g.len() == 2 {
        assert(g.skip(2) =~= Seq::<PlanStep>::empty());
    }
}

/// Appending a coherent group to a coherent plan yields a coherent
/// plan.
pub proof fn lemma_plan_ok_append_group(a: Seq<PlanStep>, g: Seq<PlanStep>)
    requires
        plan_ok(a),
        group_ok(g),
    ensures
        plan_ok(a + g),
    decreases a.len(),
{
    if a.len() == 0 {
        assert(a + g =~= g);
        lemma_plan_ok_group(g);
    } else if a[0] is Resolve || a[0] is GetOptions {
        assert((a + g)[0] == a[0]);
        assert((a + g)[1] == a[1]);
        assert((a + g).skip(2) =~= a.skip(2) + g);
        lemma_plan_ok_append_group(a.skip(2), g);
    } else {
        assert((a + g)[0] == a[0]);
        assert((a + g).skip(1) =~= a.skip(1) + g);
        lemma_plan_ok_append_group(a.skip(1), g);
    }
}

/// Every plan this library builds is coherent.
pub proof fn lemma_spec_plan_ok(kind: DialogKind, params: DialogParams)
    ensures
        plan_ok(spec_plan(kind, params)),
{
    let q1 = save_as_part(kind, params);
    let q2 = q1 + default_extension_part(params);
    let q3 = q2 + default_folder_part(params);
    let q4 = q3 + folder_part(params);
    let q5 = q4 + file_name_part(params);
    let q6 = q5 + file_name_label_part(params);
    let q7 = q6 + file_types_part(params);
    let q8 = q7 + file_type_index_part(params);
    let q9 = q8 + ok_button_label_part(params);
    let q10 = q9 + options_part(params);
    lemma_plan_ok_group(q1);
    lemma_plan_ok_append_group(q1, default_extension_part(params));
    lemma_plan_ok_append_group(q2, default_folder_part(params));
    lemma_plan_ok_append_group(q3, folder_part(params));
    lemma_plan_ok_append_group(q4, file_name_part(params));
    lemma_plan_ok_append_group(q5, file_name_label_part(params));
    lemma_plan_ok_append_group(q6, file_types_part(params));
    lemma_plan_ok_append_group(q7, file_type_index_part(params));
    lemma_plan_ok_append_group(q8, ok_button_label_part(params));
    lemma_plan_ok_append_group(q9, options_part(params));
    lemma_plan_ok_append_group(q10, title_part(params));
}

/// A group contributes one resolve exactly when it starts with one.
proof fn lemma_num_resolves_group(g: Seq<PlanStep>)
    requires
        group_ok(g),
    ensures
        num_resolves(g) == (if g.len() > 0 && g[0] is Resolve {
            1int
        } else {
            0
        }),
{
    assert(num_resolves(Seq::<PlanStep>::empty()) == 0);
    if g.len() == 1 {
        assert(g.skip(1) =~= Seq::<PlanStep>::empty());
    } else if g.len() == 2 {
        assert(g.skip(1).skip(1) =~= Seq::<PlanStep>::empty());
        assert(g.skip(1)[0] == g[1]);
        assert(num_resolves(g.skip(1)) == 0);
    }
}

/// A session's plan asks the driver to resolve at most three items:
/// the save-as seed, the default folder and the forced folder.
pub proof fn lemma_spec_plan_resolves(kind: DialogKind, params: DialogParams)
    ensures
        0 <= num_resolves(spec_plan(kind, params)) <= 3,
{
    let q1 = save_as_part(kind, params);
    let q2 = q1 + default_extension_part(params);
    let q3 = q2 + default_folder_part(params);
    let q4 = q3 + folder_part(params);
    let q5 = q4 + file_name_part(params);
    let q6 = q5 + file_name_label_part(params);
    let q7 = q6 + file_types_part(params);
    let q8 = q7 + file_type_index_part(params);
    let q9 = q8 + ok_button_label_part(params);
    let q10 = q9 + options_part(params);
    lemma_num_resolves_group(save_as_part(kind, params));
    lemma_num_resolves_group(default_extension_part(params));
    lemma_num_resolves_group(default_folder_part(params));
    lemma_num_resolves_group(folder_part(params));
    lemma_num_resolves_group(file_name_part(params));
    lemma_num_resolves_group(file_name_label_part(params));
    lemma_num_resolves_group(file_types_part(params));
    lemma_num_resolves_group(file_type_index_part(params));
    lemma_num_resolves_group(ok_button_label_part(params));
    lemma_num_resolves_group(options_part(params));
    lemma_num_resolves_group(title_part(params));
    lemma_num_resolves_add(q1, default_extension_part(params));
    lemma_num_resolves_add(q2, default_folder_part(params));
    lemma_num_resolves_add(q3, folder_part(params));
    lemma_num_resolves_add(q4, file_name_part(params));
    lemma_num_resolves_add(q5, file_name_label_part(params));
    lemma_num_resolves_add(q6, file_types_part(params));
    lemma_num_resolves_add(q7, file_type_index_part(params));
    lemma_num_resolves_add(q8, ok_button_label_part(params));
    lemma_num_resolves_add(q9, options_part(params));
    lemma_num_resolves_add(q10, title_part(params));
}

/// Build the configuration plan of one session.  The configuration is
/// consumed: its string values move into the plan unchanged.
#[verifier::rlimit(100)]
pub fn build_plan(kind: DialogKind, params: DialogParams) -> (p: Vec<PlanStep>)
    ensures
        p@ == spec_plan(kind, params),
        plan_ok(p@),
{
    let DialogParams {
        default_extension,
        default_folder,
        file_name,
        file_name_label,
        file_type_index,
        file_types,
        folder,
        ok_button_label,
        options,
        owner: _,
        save_as_item,
        title,
    } = params;
    let mut p: Vec<PlanStep> = Vec::new();
    let mut seg: Vec<PlanStep> = Vec::new();
    if kind == DialogKind::Save && !save_as_item.as_str().is_empty() {
        seg.push(PlanStep::Resolve(save_as_item));
        seg.push(PlanStep::BindSaveAsItem);
    }
    assert(seg@ =~= save_as_part(kind, params));
    p.append(&mut seg);
    if !default_extension.as_str().is_empty() {
        seg.push(PlanStep::SetDefaultExtension(default_extension));
    }
    assert(seg@ =~= default_extension_part(params));
    p.append(&mut seg);
    if !default_folder.as_str().is_empty() {
        seg.push(PlanStep::Resolve(default_folder));
        seg.push(PlanStep::BindDefaultFolder);
    }
    assert(seg@ =~= default_folder_part(params));
    p.append(&mut seg);
    if !folder.as_str().is_empty() {
        seg.push(PlanStep::Resolve(folder));
        seg.push(PlanStep::BindFolder);
    }
    assert(seg@ =~= folder_part(params));
    p.append(&mut seg);
    if !file_name.as_str().is_empty() {
        seg.push(PlanStep::SetFileName(file_name));
    }
    assert(seg@ =~= file_name_part(params));
    p.append(&mut seg);
    if !file_name_label.as_str().is_empty() {
        seg.push(PlanStep::SetFileNameLabel(file_name_label));
    }
    assert(seg@ =~= file_name_label_part(params));
    p.append(&mut seg);
    let has_file_types = file_types.len() != 0;
    if has_file_types {
        seg.push(PlanStep::SetFileTypes(file_types));
    }
    assert(seg@ =~= file_types_part(params));
    p.append(&mut seg);
    if has_file_types && file_type_index > 0 {
        seg.push(PlanStep::SetFileTypeIndex(file_type_index));
    }
    assert(seg@ =~= file_type_index_part(params));
    p.append(&mut seg);
    if !ok_button_label.as_str().is_empty() {
        seg.push(PlanStep::SetOkButtonLabel(ok_button_label));
    }
    assert(seg@ =~= ok_button_label_part(params));
    p.append(&mut seg);
    if options > 0 {
        seg.push(PlanStep::GetOptions);
        seg.push(PlanStep::SetOptions(options));
    }
    assert(seg@ =~= options_part(params));
    p.append(&mut seg);
    if !title.as_str().is_empty() {
        seg.push(PlanStep::SetTitle(title));
    }
    assert(seg@ =~= title_part(params));
    p.append(&mut seg);
    proof {
        lemma_spec_plan_ok(kind, params);
    }
    p
}

} // verus!
