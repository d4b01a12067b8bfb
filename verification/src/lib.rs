//! A library for driving native open/save file dialog sessions.
//!
//! A dialog session is a strictly sequential conversation with the
//! operating system's modal dialog subsystem: acquire the native
//! environment, create a dialog instance, apply the caller's
//! configuration one native call at a time, show the dialog, extract
//! the user's selection, and release every native handle on every exit
//! path.  This crate holds the verified half of that conversation: the
//! state machine that decides which native call comes next, how each
//! native status code is translated into a typed error, and how the
//! selected items become a result.  The unverified half — the code that
//! actually performs each native call — drives the machine from
//! outside, handing back one event per call.

mod error;
mod laws;
mod options;
mod params;
mod plan;
mod results;
mod session;
mod wide;

pub use error::DialogError;
pub use laws::{
    lemma_filters_only_plan, lemma_finished_session_balanced, lemma_plan_selects_filter_index,
    lemma_single_selection,
};
pub use options::{
    FOS_ALLNONSTORAGEITEMS, FOS_ALLOWMULTISELECT, FOS_CREATEPROMPT, FOS_DEFAULTNOMINIMODE,
    FOS_DONTADDTORECENT, FOS_FILEMUSTEXIST, FOS_FORCEFILESYSTEM, FOS_FORCEPREVIEWPANEON,
    FOS_FORCESHOWHIDDEN, FOS_HIDEMRUPLACES, FOS_HIDEPINNEDPLACES, FOS_NOCHANGEDIR,
    FOS_NODEREFERENCELINKS, FOS_NOREADONLYRETURN, FOS_NOTESTFILECREATE, FOS_NOVALIDATE,
    FOS_OVERWRITEPROMPT, FOS_PATHMUSTEXIST, FOS_PICKFOLDERS, FOS_SHAREAWARE,
    FOS_STRICTFILETYPES, FOS_SUPPORTSTREAMABLEITEMS, SFGAO_FILESYSTEM, STATUS_USER_CANCELLED,
};
pub use params::DialogParams;
pub use plan::{
    build_plan, group_ok, is_bind_step, is_simple_step, num_resolves, plan_ok, spec_plan,
    DialogKind, PlanStep,
};
pub use results::{OpenDialogResult, SaveDialogResult};
pub use session::{
    advance_action, config_kind_of, config_method_name, event_matches, event_status, event_value,
    expects_value, is_release_action, plan_after, plan_tail_ok, step_action, step_error,
    ConfigKind, NativeAction, NativeEvent, Session, SessionPhase, Step,
};
pub use wide::{as_null_term_utf16, utf16_encode, utf16_units};
