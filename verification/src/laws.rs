use vstd::prelude::*;

use crate::params::DialogParams;
use crate::plan::{
    default_extension_part, default_folder_part, file_name_label_part, file_name_part,
    file_type_index_part, file_types_part, folder_part, ok_button_label_part, options_part,
    save_as_part, spec_plan, title_part, DialogKind, PlanStep,
};
use crate::session::Session;

verus! {

/// A finished session has asked the driver to release exactly as many
/// native handles as it asked it to acquire: no handle leaks on any
/// exit path, successful or failing.
pub proof fn lemma_finished_session_balanced(s: Session)
    requires
        s.wf(),
        s.phase is Done,
    ensures
        s.acquired == s.released,
{
}

/// A configuration that sets nothing but its filter list and filter
/// index — as the default configuration does, with its catch-all
/// filter and index 1 — plans exactly two calls: hand over the filter
/// list, then select the default index.
pub proof fn lemma_filters_only_plan(kind: DialogKind, params: DialogParams)
    requires
        params.save_as_item@.len() == 0,
        params.default_extension@.len() == 0,
        params.default_folder@.len() == 0,
        params.folder@.len() == 0,
        params.file_name@.len() == 0,
        params.file_name_label@.len() == 0,
        params.ok_button_label@.len() == 0,
        params.title@.len() == 0,
        params.options == 0,
        params.file_types@.len() > 0,
        params.file_type_index > 0,
    ensures
        spec_plan(kind, params) == seq![
            PlanStep::SetFileTypes(params.file_types),
            PlanStep::SetFileTypeIndex(params.file_type_index),
        ],
{
    assert(spec_plan(kind, params) =~= seq![
        PlanStep::SetFileTypes(params.file_types),
        PlanStep::SetFileTypeIndex(params.file_type_index),
    ]);
}

/// Whenever a configuration carries a non-empty filter list and a
/// positive default index, its plan selects exactly that index.  A
/// native layer that echoes the selected index back thus reports the
/// configured index in the session's result when the user leaves the
/// filter untouched.
pub proof fn lemma_plan_selects_filter_index(kind: DialogKind, params: DialogParams)
    requires
        params.file_types@.len() > 0,
        params.file_type_index > 0,
    ensures
        spec_plan(kind, params).contains(PlanStep::SetFileTypeIndex(params.file_type_index)),
{
    let target = PlanStep::SetFileTypeIndex(params.file_type_index);
    let a = save_as_part(kind, params) + default_extension_part(params) + default_folder_part(
        params,
    ) + folder_part(params) + file_name_part(params) + file_name_label_part(params)
        + file_types_part(params);
    let i = a.len() as int;
    assert(file_type_index_part(params)[0] == target);
    assert((a + file_type_index_part(params))[i] == target);
    assert((a + file_type_index_part(params) + ok_button_label_part(params))[i] == target);
    assert((a + file_type_index_part(params) + ok_button_label_part(params) + options_part(
        params,
    ))[i] == target);
    assert(spec_plan(kind, params)[i] == target);
    assert(spec_plan(kind, params).contains(target));
}

/// When the native layer reports at most one selected item — as it
/// does whenever the multi-select flag was not set — an open session
/// ends with at most one path.
pub proof fn lemma_single_selection(s: Session)
    requires
        s.wf(),
        s.phase is DropEnv,
        s.kind is Open,
        s.item_count <= 1,
    ensures
        s.paths@.len() <= 1,
{
}

} // verus!
