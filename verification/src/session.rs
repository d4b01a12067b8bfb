use vstd::prelude::*;

use crate::error::DialogError;
use crate::options::{SFGAO_FILESYSTEM, STATUS_USER_CANCELLED};
use crate::params::DialogParams;
use crate::plan::{
    build_plan, is_bind_step, num_resolves, plan_ok, spec_plan, DialogKind, PlanStep,
};
use crate::results::{OpenDialogResult, SaveDialogResult};

verus! {

/// The next native call a session asks its driver to perform, with the
/// plain values the call needs.  Calls marked "acquires" hand the
/// driver a native handle; calls marked "releases" give one back.  The
/// item-binding calls (`SetSaveAsItem`, `SetDefaultFolder`,
/// `SetFolder`) consume the pending item resolved by the preceding
/// `ResolveItem`: the driver makes the bind call and then releases the
/// pending item, whether or not the bind succeeded.
/// `GetItemDisplayName` acquires the native name buffer, copies it
/// into the returned text and releases it within the same call.
#[derive(Debug, Clone, PartialEq, Eq)]
pub enum NativeAction {
    /// Initialize the native dialog environment for this thread
    /// (acquires).
    InitEnvironment,
    /// Create the native open-dialog instance (acquires).
    CreateOpenDialog,
    /// Create the native save-dialog instance (acquires).
    CreateSaveDialog,
    /// Resolve a path to a native item, held as the pending item
    /// (acquires).
    ResolveItem(String),
    /// Seed the save dialog with the pending item, then release it
    /// (releases).
    SetSaveAsItem,
    /// Set the pending item as the default folder, then release it
    /// (releases).
    SetDefaultFolder,
    /// Set the pending item as the forced folder, then release it
    /// (releases).
    SetFolder,
    /// Set the default file extension.
    SetDefaultExtension(String),
    /// Pre-populate the file name edit box.
    SetFileName(String),
    /// Label the file name edit box.
    SetFileNameLabel(String),
    /// Hand the dialog its (description, pattern) file types.  The
    /// driver must keep the backing string buffers alive until the one
    /// native call that consumes the pointer array has returned.
    SetFileTypes(Vec<(String, String)>),
    /// Select the 1-based default file type index.
    SetFileTypeIndex(u32),
    /// Replace the OK button's label.
    SetOkButtonLabel(String),
    /// Read the dialog's current option flags.
    GetOptions,
    /// Set the dialog's option flags to the carried word.
    SetOptions(u32),
    /// Set the dialog's title.
    SetTitle(String),
    /// Show the dialog modally, owned by the given window handle if
    /// any; blocks until the user confirms or cancels.
    ShowDialog(Option<usize>),
    /// Fetch the open dialog's result item collection (acquires).
    GetResults,
    /// Count the items of the result collection.
    GetCount,
    /// Fetch the result item at the given index (acquires).
    GetItemAt(u32),
    /// Query the current item's filesystem-backed attribute.
    GetItemAttributes,
    /// Resolve the current item's filesystem path (acquires and
    /// releases the native name buffer within the call).
    GetItemDisplayName,
    /// Fetch the save dialog's single result item (acquires).
    GetSaveResult,
    /// Query the 1-based index of the file type active at
    /// confirmation.
    GetFileTypeIndex,
    /// Release the current item (releases).
    ReleaseItem,
    /// Release the result item collection (releases).
    ReleaseItemArray,
    /// Release the dialog instance (releases).
    ReleaseDialog,
    /// Tear down the native dialog environment (releases).
    ReleaseEnvironment,
}

/// What the driver reports back after performing one action.  Every
/// report carries the native status code; a negative code is a
/// failure.  Reports for actions that return a value carry it beside
/// the code.
#[derive(Debug, Clone, PartialEq, Eq)]
pub enum NativeEvent {
    /// The action returned only a status code.  Also used to report
    /// completion of a release action, whose code is ignored: cleanup
    /// is best-effort and never produces an error.
    Status(i32),
    /// The action returned a numeric value (a flag word, a count or an
    /// index) beside its status code.
    Value(i32, u32),
    /// The action returned a text (an item's filesystem path) beside
    /// its status code.
    Text(i32, String),
}

/// What a session hands back after each event: either the next action
/// to perform, or the finished session's result.
#[derive(Debug, PartialEq, Eq)]
pub enum Step {
    /// The session continues; perform this action and report back.
    Continue(NativeAction),
    /// An open session is over.
    FinishedOpen(Result<OpenDialogResult, DialogError>),
    /// A save session is over.
    FinishedSave(Result<SaveDialogResult, DialogError>),
}

/// Which configuration call the session is waiting on.
#[derive(Debug, Clone, Copy, PartialEq, Eq, Structural)]
pub enum ConfigKind {
    /// Waiting on a path-to-item resolution.
    Resolve,
    /// Waiting on the save-as seeding call.
    BindSaveAs,
    /// Waiting on the default-folder call.
    BindDefaultFolder,
    /// Waiting on the forced-folder call.
    BindFolder,
    /// Waiting on the default-extension call.
    DefaultExtension,
    /// Waiting on the file-name call.
    FileName,
    /// Waiting on the file-name-label call.
    FileNameLabel,
    /// Waiting on the file-types call.
    FileTypes,
    /// Waiting on the file-type-index call.
    FileTypeIndex,
    /// Waiting on the OK-button-label call.
    OkButtonLabel,
    /// Waiting on the option-flags read.
    GetOptions,
    /// Waiting on the option-flags write.
    SetOptions,
    /// Waiting on the title call.
    Title,
}

/// Which native call the session is waiting on.  Every phase but
/// `Done` awaits exactly one event.
#[derive(Debug, Clone, Copy, PartialEq, Eq, Structural)]
pub enum SessionPhase {
    /// Awaiting environment initialization.
    Env,
    /// Awaiting dialog instance creation.
    Create,
    /// Awaiting the named configuration call.
    Config(ConfigKind),
    /// Awaiting the modal display's outcome.
    Show,
    /// Awaiting the open dialog's result collection.
    Results,
    /// Awaiting the result collection's count.
    Count,
    /// Awaiting the item at the current index.
    Item,
    /// Awaiting the current item's attributes.
    Attribs,
    /// Awaiting the current item's filesystem path.
    Name,
    /// Awaiting the release of the current item.
    DropItem,
    /// Awaiting the release of the result collection.
    DropArray,
    /// Awaiting the save dialog's single result item.
    SaveItem,
    /// Awaiting the active file type index.
    Index,
    /// Awaiting the release of the dialog instance.
    DropDialog,
    /// Awaiting the release of the environment.
    DropEnv,
    /// A step failed; awaiting the release of the remaining handles
    /// before delivering the recorded error.
    Cleanup,
    /// The session is over; no further event is expected.
    Done,
}

/// True of the actions that only give a native handle back.
pub open spec fn is_release_action(a: NativeAction) -> bool {
    ||| a is ReleaseItem
    ||| a is ReleaseItemArray
    ||| a is ReleaseDialog
    ||| a is ReleaseEnvironment
}

/// The status code carried by an event.
pub open spec fn event_status(e: NativeEvent) -> i32 {
    match e {
        NativeEvent::Status(c) => c,
        NativeEvent::Value(c, _) => c,
        NativeEvent::Text(c, _) => c,
    }
}

/// The numeric value carried by an event, zero for the others.
pub open spec fn event_value(e: NativeEvent) -> u32 {
    match e {
        NativeEvent::Value(_, v) => v,
        _ => 0,
    }
}

/// The event shape each phase awaits: a numeric value for the
/// flag/count/index queries, a text for the path query, a bare status
/// for everything else.
pub open spec fn expects_value(phase: SessionPhase) -> bool {
    ||| phase is Count
    ||| phase is Attribs
    ||| phase is Index
    ||| (phase matches SessionPhase::Config(k) && k is GetOptions)
}

/// True when the event has the shape the phase awaits.
pub open spec fn event_matches(phase: SessionPhase, e: NativeEvent) -> bool {
    if phase is Name {
        e is Text
    } else if expects_value(phase) {
        e is Value
    } else {
        e is Status
    }
}

/// The configuration phase corresponding to a plan step.
pub open spec fn config_kind_of(s: PlanStep) -> ConfigKind {
    match s {
        PlanStep::Resolve(_) => ConfigKind::Resolve,
        PlanStep::BindSaveAsItem => ConfigKind::BindSaveAs,
        PlanStep::BindDefaultFolder => ConfigKind::BindDefaultFolder,
        PlanStep::BindFolder => ConfigKind::BindFolder,
        PlanStep::SetDefaultExtension(_) => ConfigKind::DefaultExtension,
        PlanStep::SetFileName(_) => ConfigKind::FileName,
        PlanStep::SetFileNameLabel(_) => ConfigKind::FileNameLabel,
        PlanStep::SetFileTypes(_) => ConfigKind::FileTypes,
        PlanStep::SetFileTypeIndex(_) => ConfigKind::FileTypeIndex,
        PlanStep::SetOkButtonLabel(_) => ConfigKind::OkButtonLabel,
        PlanStep::GetOptions => ConfigKind::GetOptions,
        PlanStep::SetOptions(_) => ConfigKind::SetOptions,
        PlanStep::SetTitle(_) => ConfigKind::Title,
    }
}

/// The native action a plan step turns into when issued.  A
/// `SetOptions` step ORs its requested flags into the flags read by
/// the preceding `GetOptions`, so native defaults are preserved.
pub open spec fn step_action(s: PlanStep, existing: u32) -> NativeAction {
    match s {
        PlanStep::Resolve(p) => NativeAction::ResolveItem(p),
        PlanStep::BindSaveAsItem => NativeAction::SetSaveAsItem,
        PlanStep::BindDefaultFolder => NativeAction::SetDefaultFolder,
        PlanStep::BindFolder => NativeAction::SetFolder,
        PlanStep::SetDefaultExtension(x) => NativeAction::SetDefaultExtension(x),
        PlanStep::SetFileName(x) => NativeAction::SetFileName(x),
        PlanStep::SetFileNameLabel(x) => NativeAction::SetFileNameLabel(x),
        PlanStep::SetFileTypes(v) => NativeAction::SetFileTypes(v),
        PlanStep::SetFileTypeIndex(i) => NativeAction::SetFileTypeIndex(i),
        PlanStep::SetOkButtonLabel(x) => NativeAction::SetOkButtonLabel(x),
        PlanStep::GetOptions => NativeAction::GetOptions,
        PlanStep::SetOptions(req) => NativeAction::SetOptions(existing | req),
        PlanStep::SetTitle(x) => NativeAction::SetTitle(x),
    }
}

/// The action issued when the session moves past a successful
/// configuration call: the head of the remaining plan, or the modal
/// display once the plan is exhausted.
pub open spec fn advance_action(
    plan: Seq<PlanStep>,
    existing: u32,
    owner: Option<usize>,
) -> NativeAction {
    if plan.len() == 0 {
        NativeAction::ShowDialog(owner)
    } else {
        step_action(plan[0], existing)
    }
}

/// The remaining plan after the session moves past one configuration
/// call.
pub open spec fn plan_after(plan: Seq<PlanStep>) -> Seq<PlanStep> {
    if plan.len() == 0 {
        plan
    } else {
        plan.skip(1)
    }
}

/// A plan as it stands while a session is between configuration
/// calls: either coherent as built, or headed by the second half of a
/// resolve-bind or read-modify-write pair whose first half has already
/// been issued.
pub open spec fn plan_tail_ok(p: Seq<PlanStep>) -> bool {
    ||| plan_ok(p)
    ||| (p.len() >= 1 && (is_bind_step(p[0]) || p[0] is SetOptions) && plan_ok(p.skip(1)))
}

/// The error a step leaves the session with: the error it delivered,
/// or the recorded error it is still cleaning up after, or none.
pub open spec fn step_error(s: Session, r: Step) -> Option<DialogError> {
    match r {
        Step::FinishedOpen(Err(e)) => Some(e),
        Step::FinishedSave(Err(e)) => Some(e),
        _ => s.outcome,
    }
}

/// One dialog session: the verified state machine behind one open or
/// save invocation.  The driver starts it with [`Session::begin_open`]
/// or [`Session::begin_save`], performs each returned
/// [`NativeAction`], and feeds the outcome back through
/// [`Session::step`] until a finished result comes back.
///
/// The `acquired` and `released` counters record every native handle
/// the session has asked the driver to obtain and to give back; a
/// finished session has them equal, on every path.
pub struct Session {
    /// Which dialog kind this session drives.
    pub kind: DialogKind,
    /// The configuration calls not yet issued.
    pub plan: Vec<PlanStep>,
    /// The owning window handle passed to the modal display.
    pub owner: Option<usize>,
    /// Which native call the session is waiting on.
    pub phase: SessionPhase,
    /// The option flags read from the dialog by the flags read call.
    pub existing_options: u32,
    /// The number of items the result collection reported.
    pub item_count: u32,
    /// The index of the item currently being examined.
    pub cur_item: u32,
    /// The file type index reported at confirmation.
    pub filter_index: u32,
    /// The filesystem paths collected so far, in selection order.
    pub paths: Vec<String>,
    /// Whether the native environment is currently held.
    pub env_held: bool,
    /// Whether the dialog instance is currently held.
    pub dialog_held: bool,
    /// Whether the result collection is currently held.
    pub array_held: bool,
    /// Whether a result item is currently held.
    pub item_held: bool,
    /// The error recorded by a failed step, delivered once cleanup is
    /// over.
    pub outcome: Option<DialogError>,
    /// How many native handles the session has asked the driver to
    /// obtain.
    pub acquired: u64,
    /// How many native handles the session has asked the driver to
    /// give back.
    pub released: u64,
}

impl Session {
    /// How many native handles the session currently holds.
    pub open spec fn held_count(self) -> int {
        (if self.env_held { 1int } else { 0 }) + (if self.dialog_held { 1int } else { 0 })
            + (if self.array_held { 1int } else { 0 }) + (if self.item_held { 1int } else { 0 })
    }

    /// The phase-dependent ceiling on `acquired`: environment, dialog,
    /// at most three resolved items, the result collection, and two
    /// handles per examined item.
    pub open spec fn acquired_bound(self) -> int {
        match self.phase {
            SessionPhase::Env => 0,
            SessionPhase::Create => 1,
            SessionPhase::Config(k) => 5 - num_resolves(self.plan@) - (
            if k is Resolve {
                1int
            } else {
                0
            }),
            SessionPhase::Show => 5,
            SessionPhase::Results => 5,
            SessionPhase::SaveItem => 5,
            SessionPhase::Count => 6,
            SessionPhase::Item => 6 + 2 * (self.cur_item as int),
            SessionPhase::Attribs => 7 + 2 * (self.cur_item as int),
            SessionPhase::Name => if self.kind is Open {
                7 + 2 * (self.cur_item as int)
            } else {
                6
            },
            SessionPhase::DropItem => if self.kind is Open {
                8 + 2 * (self.cur_item as int)
            } else {
                7
            },
            SessionPhase::DropArray => 6 + 2 * (self.item_count as int),
            SessionPhase::Index => if self.kind is Open {
                6 + 2 * (self.item_count as int)
            } else {
                7
            },
            SessionPhase::DropDialog => 7 + 2 * (self.item_count as int),
            SessionPhase::DropEnv => 7 + 2 * (self.item_count as int),
            SessionPhase::Cleanup => 8 + 2 * (self.item_count as int),
            SessionPhase::Done => 8 + 2 * (self.item_count as int),
        }
    }

    /// True of the phases whose native call can fail and be reported:
    /// the release phases ignore their status, cleanup never reports.
    pub open spec fn fallible(self) -> bool {
        match self.phase {
            SessionPhase::Env => true,
            SessionPhase::Create => true,
            SessionPhase::Config(_) => true,
            SessionPhase::Show => true,
            SessionPhase::Results => true,
            SessionPhase::Count => true,
            SessionPhase::Item => true,
            SessionPhase::Attribs => true,
            SessionPhase::Name => true,
            SessionPhase::SaveItem => true,
            SessionPhase::Index => true,
            _ => false,
        }
    }

    /// The name of the native method whose failure the current phase
    /// would report.
    pub open spec fn method_name(self) -> Seq<char> {
        match self.phase {
            SessionPhase::Env => "CoInitializeEx"@,
            SessionPhase::Create => if self.kind is Open {
                "CoCreateInstance - IFileOpenDialog"@
            } else {
                "CoCreateInstance - FileSaveDialog"@
            },
            SessionPhase::Config(k) => config_method_name(k),
            SessionPhase::Show => "IModalWindow::Show"@,
            SessionPhase::Results => "IFileOpenDialog::GetResults"@,
            SessionPhase::Count => "IShellItemArray::GetCount"@,
            SessionPhase::Item => "IShellItemArray::GetItemAt"@,
            SessionPhase::Attribs => "IShellItem::GetAttributes"@,
            SessionPhase::Name => "IShellItem::GetDisplayName"@,
            SessionPhase::SaveItem => "IFileDialog::GetResult"@,
            SessionPhase::Index => "IFileDialog::GetFileTypeIndex"@,
            _ => Seq::empty(),
        }
    }

    /// The session's well-formedness invariant: the handle accounting
    /// balances, handles are held in acquisition order, and each phase
    /// holds exactly the handles and intermediate values it needs.
    pub open spec fn wf(self) -> bool {
        &&& self.acquired as int == self.released as int + self.held_count()
        &&& self.acquired as int <= self.acquired_bound()
        &&& self.cur_item <= self.item_count
        &&& (self.dialog_held ==> self.env_held)
        &&& (self.array_held ==> self.dialog_held)
        &&& (self.item_held ==> self.dialog_held)
        &&& (self.kind is Save ==> self.item_count == 0 && self.cur_item == 0 && !self.array_held)
        &&& match self.phase {
            SessionPhase::Env => {
                &&& !self.env_held && !self.dialog_held && !self.array_held && !self.item_held
                &&& self.outcome is None
                &&& self.paths@.len() == 0
                &&& self.cur_item == 0 && self.item_count == 0
                &&& self.acquired == 0 && self.released == 0
                &&& plan_ok(self.plan@)
                &&& num_resolves(self.plan@) <= 3
            },
            SessionPhase::Create => {
                &&& self.env_held && !self.dialog_held && !self.array_held && !self.item_held
                &&& self.outcome is None
                &&& self.paths@.len() == 0
                &&& self.cur_item == 0 && self.item_count == 0
                &&& plan_ok(self.plan@)
                &&& num_resolves(self.plan@) <= 3
            },
            SessionPhase::Config(k) => {
                &&& self.env_held && self.dialog_held && !self.array_held && !self.item_held
                &&& self.outcome is None
                &&& self.paths@.len() == 0
                &&& self.cur_item == 0 && self.item_count == 0
                &&& if k is Resolve {
                    &&& self.plan@.len() >= 1
                    &&& is_bind_step(self.plan@[0])
                    &&& plan_ok(self.plan@.skip(1))
                } else if k is GetOptions {
                    &&& self.plan@.len() >= 1
                    &&& self.plan@[0] is SetOptions
                    &&& plan_ok(self.plan@.skip(1))
                } else {
                    plan_ok(self.plan@)
                }
            },
            SessionPhase::Show | SessionPhase::Results | SessionPhase::SaveItem => {
                &&& self.env_held && self.dialog_held && !self.array_held && !self.item_held
                &&& self.outcome is None
                &&& self.paths@.len() == 0
                &&& self.cur_item == 0 && self.item_count == 0
                &&& self.plan@.len() == 0
                &&& (self.phase is Results ==> self.kind is Open)
                &&& (self.phase is SaveItem ==> self.kind is Save)
            },
            SessionPhase::Count => {
                &&& self.kind is Open
                &&& self.env_held && self.dialog_held && self.array_held && !self.item_held
                &&& self.outcome is None
                &&& self.paths@.len() == 0
                &&& self.cur_item == 0 && self.item_count == 0
            },
            SessionPhase::Item => {
                &&& self.kind is Open
                &&& self.env_held && self.dialog_held && self.array_held && !self.item_held
                &&& self.outcome is None
                &&& self.cur_item < self.item_count
                &&& self.paths@.len() <= self.cur_item
            },
            SessionPhase::Attribs => {
                &&& self.kind is Open
                &&& self.env_held && self.dialog_held && self.array_held && self.item_held
                &&& self.outcome is None
                &&& self.cur_item < self.item_count
                &&& self.paths@.len() <= self.cur_item
            },
            SessionPhase::Name => {
                &&& self.env_held && self.dialog_held && self.item_held
                &&& self.outcome is None
                &&& (self.kind is Open ==> self.array_held && self.cur_item < self.item_count
                    && self.paths@.len() <= self.cur_item)
                &&& (self.kind is Save ==> self.paths@.len() == 0)
            },
            SessionPhase::DropItem => {
                &&& self.env_held && self.dialog_held && !self.item_held
                &&& self.outcome is None
                &&& (self.kind is Open ==> self.array_held && self.cur_item < self.item_count
                    && self.paths@.len() <= self.cur_item + 1)
                &&& (self.kind is Save ==> self.paths@.len() == 1)
            },
            SessionPhase::DropArray => {
                &&& self.kind is Open
                &&& self.env_held && self.dialog_held && !self.array_held && !self.item_held
                &&& self.outcome is None
                &&& self.cur_item == self.item_count
                &&& self.paths@.len() <= self.item_count
            },
            SessionPhase::Index => {
                &&& self.env_held && self.dialog_held && !self.array_held && !self.item_held
                &&& self.outcome is None
                &&& (self.kind is Open ==> self.paths@.len() <= self.item_count)
                &&& (self.kind is Save ==> self.paths@.len() == 1)
            },
            SessionPhase::DropDialog => {
                &&& self.env_held && !self.dialog_held && !self.array_held && !self.item_held
                &&& self.outcome is None
                &&& (self.kind is Open ==> self.paths@.len() <= self.item_count)
                &&& (self.kind is Save ==> self.paths@.len() == 1)
            },
            SessionPhase::DropEnv => {
                &&& !self.env_held && !self.dialog_held && !self.array_held && !self.item_held
                &&& self.outcome is None
                &&& (self.kind is Open ==> self.paths@.len() <= self.item_count)
                &&& (self.kind is Save ==> self.paths@.len() == 1)
            },
            SessionPhase::Cleanup => {
                &&& self.outcome is Some
                &&& !self.item_held
            },
            SessionPhase::Done => {
                &&& !self.env_held && !self.dialog_held && !self.array_held && !self.item_held
            },
        }
    }

    /// Start an open-dialog session.  The returned action is always
    /// the environment initialization; feed its outcome to
    /// [`Session::step`].
    pub fn begin_open(params: DialogParams) -> (sa: (Session, NativeAction))
        ensures
            sa.0.wf(),
            sa.0.kind is Open,
            sa.0.phase is Env,
            sa.0.plan@ == spec_plan(DialogKind::Open, params),
            sa.0.owner == params.owner,
            sa.0.acquired == 0 && sa.0.released == 0,
            sa.1 == NativeAction::InitEnvironment,
    {
        Self::begin(DialogKind::Open, params)
    }

    /// Start a save-dialog session.
    pub fn begin_save(params: DialogParams) -> (sa: (Session, NativeAction))
        ensures
            sa.0.wf(),
            sa.0.kind is Save,
            sa.0.phase is Env,
            sa.0.plan@ == spec_plan(DialogKind::Save, params),
            sa.0.owner == params.owner,
            sa.0.acquired == 0 && sa.0.released == 0,
            sa.1 == NativeAction::InitEnvironment,
    {
        Self::begin(DialogKind::Save, params)
    }

    fn begin(kind: DialogKind, params: DialogParams) -> (sa: (Session, NativeAction))
        ensures
            sa.0.wf(),
            sa.0.kind == kind,
            sa.0.phase is Env,
            sa.0.plan@ == spec_plan(kind, params),
            sa.0.owner == params.owner,
            sa.0.acquired == 0 && sa.0.released == 0,
            sa.1 == NativeAction::InitEnvironment,
    {
        let owner = params.owner;
        proof {
            crate::plan::lemma_spec_plan_resolves(kind, params);
        }
        let plan = build_plan(kind, params);
        let session = Session {
            kind,
            plan,
            owner,
            phase: SessionPhase::Env,
            existing_options: 0,
            item_count: 0,
            cur_item: 0,
            filter_index: 0,
            paths: Vec::new(),
            env_held: false,
            dialog_held: false,
            array_held: false,
            item_held: false,
            outcome: None,
            acquired: 0,
            released: 0,
        };
        (session, NativeAction::InitEnvironment)
    }

    /// Feed the outcome of the last issued action back into the
    /// session, and get the next action or the finished result.
    ///
    /// The contract pins the whole conversation down: which action
    /// follows each successful call, that a failing status code at any
    /// reporting step turns into `HResultFailed` naming exactly that
    /// step and code — except the user's cancellation of the modal
    /// display, which turns into `UserCancelled` — that after a
    /// failure nothing but release actions are ever issued, and that a
    /// finished session has released exactly as many native handles as
    /// it acquired, on every path.
    pub fn step(&mut self, event: NativeEvent) -> (r: Step)
        requires
            old(self).wf(),
            !(old(self).phase is Done),
            event_matches(old(self).phase, event),
        ensures
            final(self).wf(),
            final(self).kind == old(self).kind,
            // what a step does not touch, it leaves alone
            final(self).owner == old(self).owner,
            !(old(self).phase is Create || old(self).phase matches SessionPhase::Config(_))
                ==> final(self).plan@ == old(self).plan@,
            !(old(self).phase matches SessionPhase::Config(k0) && k0 is GetOptions)
                ==> final(self).existing_options == old(self).existing_options,
            !(old(self).phase is Count) ==> final(self).item_count == old(self).item_count,
            !(old(self).phase is Index) ==> final(self).filter_index == old(self).filter_index,
            !(old(self).phase is Name) && !(old(self).phase is DropEnv) ==> final(self).paths@
                == old(self).paths@,
            // a session ends exactly when a result comes back, with the
            // handle accounting balanced
            (r is Continue) <==> !(final(self).phase is Done),
            final(self).phase is Done ==> final(self).acquired == final(self).released,
            r is FinishedOpen ==> old(self).kind is Open,
            r is FinishedSave ==> old(self).kind is Save,
            // a failing status code at a reporting step becomes exactly
            // that step's error
            old(self).fallible() && event_status(event) < 0 && !(old(self).phase is Show
                && event_status(event) == STATUS_USER_CANCELLED) ==> (step_error(
                *final(self),
                r,
            ) matches Some(DialogError::HResultFailed { error_method, hresult })
                && error_method@ == old(self).method_name() && hresult == event_status(event)),
            // the user's cancellation of the modal display becomes
            // exactly UserCancelled, whatever the configuration
            old(self).phase is Show && event_status(event) == STATUS_USER_CANCELLED ==> step_error(
                *final(self),
                r,
            ) == Some(DialogError::UserCancelled),
            // after a failure, only release actions are ever issued
            old(self).outcome is Some ==> step_error(*final(self), r) == old(self).outcome,
            final(self).phase is Cleanup ==> (r matches Step::Continue(a) && is_release_action(a)),
            // a successful open result is never empty: it carries every
            // collected path, first one out in front, and the reported
            // file type index
            r matches Step::FinishedOpen(Ok(res)) ==> res.wf() && res.selected_file_paths@ == old(
                self,
            ).paths@ && res.selected_file_paths@.len() <= old(self).item_count
                && res.selected_file_type_index == old(self).filter_index && old(
                self,
            ).phase is DropEnv,
            // an open selection with no filesystem-backed item is an
            // error, never an empty success
            old(self).phase is DropEnv && old(self).kind is Open && old(self).paths@.len() == 0
                ==> r == Step::FinishedOpen(Err(DialogError::UnsupportedFilepath)),
            old(self).phase is DropEnv && old(self).kind is Open && old(self).paths@.len() > 0
                ==> r matches Step::FinishedOpen(Ok(_)),
            old(self).phase is DropEnv && old(self).kind is Save ==> r matches Step::FinishedSave(
                Ok(_),
            ),
            r matches Step::FinishedSave(Ok(res)) ==> old(self).paths@.len() == 1
                && res.selected_file_path == old(self).paths@[0] && res.selected_filter_index
                == old(self).filter_index && old(self).phase is DropEnv,
            // the conversation's order: each successful call issues
            // exactly the next call of the session
            old(self).phase is Env && event_status(event) >= 0 ==> final(self).phase is Create
                && r == Step::Continue(
                if old(self).kind is Open {
                    NativeAction::CreateOpenDialog
                } else {
                    NativeAction::CreateSaveDialog
                },
            ),
            (old(self).phase is Create || old(self).phase matches SessionPhase::Config(_))
                && event_status(event) >= 0 ==> r == Step::Continue(
                advance_action(
                    old(self).plan@,
                    (if old(self).phase matches SessionPhase::Config(k) && k is GetOptions {
                        event_value(event)
                    } else {
                        old(self).existing_options
                    }),
                    old(self).owner,
                ),
            ) && final(self).plan@ == plan_after(old(self).plan@) && final(self).phase == (
            if old(self).plan@.len() == 0 {
                SessionPhase::Show
            } else {
                SessionPhase::Config(config_kind_of(old(self).plan@[0]))
            }),
            old(self).phase is Show && event_status(event) >= 0 ==> r == Step::Continue(
                if old(self).kind is Open {
                    NativeAction::GetResults
                } else {
                    NativeAction::GetSaveResult
                },
            ) && final(self).phase == (if old(self).kind is Open {
                SessionPhase::Results
            } else {
                SessionPhase::SaveItem
            }),
            old(self).phase is Results && event_status(event) >= 0 ==> r == Step::Continue(
                NativeAction::GetCount,
            ) && final(self).phase is Count,
            old(self).phase is Count && event_status(event) >= 0 ==> final(self).item_count
                == event_value(event) && r == Step::Continue(
                if event_value(event) > 0 {
                    NativeAction::GetItemAt(0)
                } else {
                    NativeAction::ReleaseItemArray
                },
            ) && final(self).phase == (if event_value(event) > 0 {
                SessionPhase::Item
            } else {
                SessionPhase::DropArray
            }),
            old(self).phase is Item && event_status(event) >= 0 ==> r == Step::Continue(
                NativeAction::GetItemAttributes,
            ) && final(self).phase is Attribs,
            // items without the filesystem attribute are skipped
            // silently; the others have their paths collected in order
            old(self).phase is Attribs && event_status(event) >= 0 ==> r == Step::Continue(
                if (event_value(event) & SFGAO_FILESYSTEM) != 0 {
                    NativeAction::GetItemDisplayName
                } else {
                    NativeAction::ReleaseItem
                },
            ) && ((event_value(event) & SFGAO_FILESYSTEM) == 0 ==> final(self).paths@ == old(
                self,
            ).paths@) && final(self).phase == (if (event_value(event) & SFGAO_FILESYSTEM) != 0 {
                SessionPhase::Name
            } else {
                SessionPhase::DropItem
            }),
            old(self).phase is Name && event_status(event) >= 0 ==> (event matches
                NativeEvent::Text(tc, p) && final(self).paths@ == old(self).paths@.push(p)
                && r == Step::Continue(NativeAction::ReleaseItem)
                && final(self).phase is DropItem),
            old(self).phase is DropItem && old(self).kind is Open ==> final(self).cur_item == old(
                self,
            ).cur_item + 1 && r == Step::Continue(
                if old(self).cur_item + 1 < old(self).item_count {
                    NativeAction::GetItemAt((old(self).cur_item + 1) as u32)
                } else {
                    NativeAction::ReleaseItemArray
                },
            ) && final(self).phase == (if old(self).cur_item + 1 < old(self).item_count {
                SessionPhase::Item
            } else {
                SessionPhase::DropArray
            }),
            old(self).phase is DropItem && old(self).kind is Save ==> r == Step::Continue(
                NativeAction::GetFileTypeIndex,
            ) && final(self).phase is Index,
            old(self).phase is DropArray ==> r == Step::Continue(NativeAction::GetFileTypeIndex)
                && final(self).phase is Index,
            old(self).phase is SaveItem && event_status(event) >= 0 ==> r == Step::Continue(
                NativeAction::GetItemDisplayName,
            ) && final(self).phase is Name,
            old(self).phase is Index && event_status(event) >= 0 ==> final(self).filter_index
                == event_value(event) && r == Step::Continue(NativeAction::ReleaseDialog)
                && final(self).phase is DropDialog,
            old(self).phase is DropDialog ==> r == Step::Continue(NativeAction::ReleaseEnvironment)
                && final(self).phase is DropEnv,
    {
        let c = event_status_of(&event);
        match self.phase {
            SessionPhase::Env => {
                if c >= 0 {
                    self.env_held = true;
                    self.acquired = self.acquired + 1;
                    self.phase = SessionPhase::Create;
                    proof {
                        crate::plan::lemma_num_resolves_nonneg(self.plan@);
                    }
                    match self.kind {
                        DialogKind::Open => Step::Continue(NativeAction::CreateOpenDialog),
                        DialogKind::Save => Step::Continue(NativeAction::CreateSaveDialog),
                    }
                } else {
                    self.fail(
                        DialogError::HResultFailed {
                            error_method: "CoInitializeEx".to_owned(),
                            hresult: c,
                        },
                    )
                }
            },
            SessionPhase::Create => {
                if c >= 0 {
                    proof {
                        crate::plan::lemma_num_resolves_nonneg(self.plan@);
                    }
                    self.dialog_held = true;
                    self.acquired = self.acquired + 1;
                    self.advance()
                } else {
                    let error_method = match self.kind {
                        DialogKind::Open => "CoCreateInstance - IFileOpenDialog".to_owned(),
                        DialogKind::Save => "CoCreateInstance - FileSaveDialog".to_owned(),
                    };
                    self.fail(DialogError::HResultFailed { error_method, hresult: c })
                }
            },
            SessionPhase::Config(k) => {
                proof {
                    crate::plan::lemma_num_resolves_nonneg(self.plan@);
                }
                if c >= 0 {
                    if k == ConfigKind::GetOptions {
                        let v = match &event {
                            NativeEvent::Value(_, v) => *v,
                            _ => 0,
                        };
                        self.existing_options = v;
                    } else if k == ConfigKind::Resolve {
                        // the resolved item is acquired here and will
                        // be released by the bind call issued next
                        self.acquired = self.acquired + 1;
                        self.released = self.released + 1;
                    }
                    self.advance()
                } else {
                    self.fail(
                        DialogError::HResultFailed {
                            error_method: config_method_string(k),
                            hresult: c,
                        },
                    )
                }
            },
            SessionPhase::Show => {
                if c >= 0 {
                    match self.kind {
                        DialogKind::Open => {
                            self.phase = SessionPhase::Results;
                            Step::Continue(NativeAction::GetResults)
                        },
                        DialogKind::Save => {
                            self.phase = SessionPhase::SaveItem;
                            Step::Continue(NativeAction::GetSaveResult)
                        },
                    }
                } else if c == STATUS_USER_CANCELLED {
                    self.fail(DialogError::UserCancelled)
                } else {
                    self.fail(
                        DialogError::HResultFailed {
                            error_method: "IModalWindow::Show".to_owned(),
                            hresult: c,
                        },
                    )
                }
            },
            SessionPhase::Results => {
                if c >= 0 {
                    self.array_held = true;
                    self.acquired = self.acquired + 1;
                    self.phase = SessionPhase::Count;
                    Step::Continue(NativeAction::GetCount)
                } else {
                    self.fail(
                        DialogError::HResultFailed {
                            error_method: "IFileOpenDialog::GetResults".to_owned(),
                            hresult: c,
                        },
                    )
                }
            },
            SessionPhase::Count => {
                if c >= 0 {
                    let n = match &event {
                        NativeEvent::Value(_, v) => *v,
                        _ => 0,
                    };
                    self.item_count = n;
                    self.cur_item = 0;
                    if n > 0 {
                        self.phase = SessionPhase::Item;
                        Step::Continue(NativeAction::GetItemAt(0))
                    } else {
                        self.array_held = false;
                        self.released = self.released + 1;
                        self.phase = SessionPhase::DropArray;
                        Step::Continue(NativeAction::ReleaseItemArray)
                    }
                } else {
                    self.fail(
                        DialogError::HResultFailed {
                            error_method: "IShellItemArray::GetCount".to_owned(),
                            hresult: c,
                        },
                    )
                }
            },
            SessionPhase::Item => {
                if c >= 0 {
                    self.item_held = true;
                    self.acquired = self.acquired + 1;
                    self.phase = SessionPhase::Attribs;
                    Step::Continue(NativeAction::GetItemAttributes)
                } else {
                    self.fail(
                        DialogError::HResultFailed {
                            error_method: "IShellItemArray::GetItemAt".to_owned(),
                            hresult: c,
                        },
                    )
                }
            },
            SessionPhase::Attribs => {
                if c >= 0 {
                    let a = match &event {
                        NativeEvent::Value(_, v) => *v,
                        _ => 0,
                    };
                    if a & SFGAO_FILESYSTEM != 0 {
                        self.phase = SessionPhase::Name;
                        Step::Continue(NativeAction::GetItemDisplayName)
                    } else {
                        // not filesystem-backed: skip it silently
                        self.item_held = false;
                        self.released = self.released + 1;
                        self.phase = SessionPhase::DropItem;
                        Step::Continue(NativeAction::ReleaseItem)
                    }
                } else {
                    self.fail(
                        DialogError::HResultFailed {
                            error_method: "IShellItem::GetAttributes".to_owned(),
                            hresult: c,
                        },
                    )
                }
            },
            SessionPhase::Name => {
                if c >= 0 {
                    let text = match event {
                        NativeEvent::Text(_, t) => t,
                        _ => String::new(),
                    };
                    // the name buffer is acquired by the call and freed
                    // by the driver within the same call
                    self.acquired = self.acquired + 1;
                    self.released = self.released + 1;
                    self.paths.push(text);
                    self.item_held = false;
                    self.released = self.released + 1;
                    self.phase = SessionPhase::DropItem;
                    Step::Continue(NativeAction::ReleaseItem)
                } else {
                    self.fail(
                        DialogError::HResultFailed {
                            error_method: "IShellItem::GetDisplayName".to_owned(),
                            hresult: c,
                        },
                    )
                }
            },
            SessionPhase::DropItem => {
                match self.kind {
                    DialogKind::Save => {
                        self.phase = SessionPhase::Index;
                        Step::Continue(NativeAction::GetFileTypeIndex)
                    },
                    DialogKind::Open => {
                        self.cur_item = self.cur_item + 1;
                        if self.cur_item < self.item_count {
                            self.phase = SessionPhase::Item;
                            Step::Continue(NativeAction::GetItemAt(self.cur_item))
                        } else {
                            self.array_held = false;
                            self.released = self.released + 1;
                            self.phase = SessionPhase::DropArray;
                            Step::Continue(NativeAction::ReleaseItemArray)
                        }
                    },
                }
            },
            SessionPhase::DropArray => {
                self.phase = SessionPhase::Index;
                Step::Continue(NativeAction::GetFileTypeIndex)
            },
            SessionPhase::SaveItem => {
                if c >= 0 {
                    self.item_held = true;
                    self.acquired = self.acquired + 1;
                    self.phase = SessionPhase::Name;
                    Step::Continue(NativeAction::GetItemDisplayName)
                } else {
                    self.fail(
                        DialogError::HResultFailed {
                            error_method: "IFileDialog::GetResult".to_owned(),
                            hresult: c,
                        },
                    )
                }
            },
            SessionPhase::Index => {
                if c >= 0 {
                    let i = match &event {
                        NativeEvent::Value(_, v) => *v,
                        _ => 0,
                    };
                    self.filter_index = i;
                    self.dialog_held = false;
                    self.released = self.released + 1;
                    self.phase = SessionPhase::DropDialog;
                    Step::Continue(NativeAction::ReleaseDialog)
                } else {
                    self.fail(
                        DialogError::HResultFailed {
                            error_method: "IFileDialog::GetFileTypeIndex".to_owned(),
                            hresult: c,
                        },
                    )
                }
            },
            SessionPhase::DropDialog => {
                self.env_held = false;
                self.released = self.released + 1;
                self.phase = SessionPhase::DropEnv;
                Step::Continue(NativeAction::ReleaseEnvironment)
            },
            SessionPhase::DropEnv => {
                self.phase = SessionPhase::Done;
                let mut paths: Vec<String> = Vec::new();
                core::mem::swap(&mut self.paths, &mut paths);
                match self.kind {
                    DialogKind::Open => {
                        if paths.len() == 0 {
                            Step::FinishedOpen(Err(DialogError::UnsupportedFilepath))
                        } else {
                            let selected_file_path = paths[0].clone();
                            Step::FinishedOpen(
                                Ok(
                                    OpenDialogResult {
                                        selected_file_path,
                                        selected_file_paths: paths,
                                        selected_file_type_index: self.filter_index,
                                    },
                                ),
                            )
                        }
                    },
                    DialogKind::Save => {
                        let selected_file_path = paths.remove(0);
                        Step::FinishedSave(
                            Ok(
                                SaveDialogResult {
                                    selected_file_path,
                                    selected_filter_index: self.filter_index,
                                },
                            ),
                        )
                    },
                }
            },
            SessionPhase::Cleanup => self.continue_cleanup(),
            SessionPhase::Done => vstd::pervasive::unreached(),
        }
    }

    /// Record the given error and begin releasing whatever handles are
    /// still held; with nothing held, deliver the error at once.
    fn fail(&mut self, err: DialogError) -> (r: Step)
        requires
            old(self).outcome is None,
            old(self).acquired as int == old(self).released as int + old(self).held_count(),
            old(self).acquired as int <= 8 + 2 * (old(self).item_count as int),
            old(self).cur_item <= old(self).item_count,
            old(self).dialog_held ==> old(self).env_held,
            old(self).array_held ==> old(self).dialog_held,
            old(self).item_held ==> old(self).dialog_held,
            old(self).kind is Save ==> old(self).item_count == 0 && old(self).cur_item == 0
                && !old(self).array_held,
        ensures
            final(self).wf(),
            final(self).kind == old(self).kind,
            final(self).item_count == old(self).item_count,
            final(self).owner == old(self).owner,
            final(self).plan@ == old(self).plan@,
            final(self).existing_options == old(self).existing_options,
            final(self).filter_index == old(self).filter_index,
            final(self).cur_item == old(self).cur_item,
            final(self).paths@ == old(self).paths@,
            step_error(*final(self), r) == Some(err),
            (r is Continue) <==> !(final(self).phase is Done),
            final(self).phase is Done || final(self).phase is Cleanup,
            final(self).phase is Done ==> final(self).acquired == final(self).released,
            r matches Step::Continue(a) ==> is_release_action(a) && final(self).phase is Cleanup
                && final(self).outcome == Some(err),
            r is FinishedOpen ==> old(self).kind is Open,
            r is FinishedSave ==> old(self).kind is Save,
            !(r matches Step::FinishedOpen(Ok(_))),
            !(r matches Step::FinishedSave(Ok(_))),
    {
        if self.item_held {
            self.item_held = false;
            self.released = self.released + 1;
            self.outcome = Some(err);
            self.phase = SessionPhase::Cleanup;
            Step::Continue(NativeAction::ReleaseItem)
        } else if self.array_held {
            self.array_held = false;
            self.released = self.released + 1;
            self.outcome = Some(err);
            self.phase = SessionPhase::Cleanup;
            Step::Continue(NativeAction::ReleaseItemArray)
        } else if self.dialog_held {
            self.dialog_held = false;
            self.released = self.released + 1;
            self.outcome = Some(err);
            self.phase = SessionPhase::Cleanup;
            Step::Continue(NativeAction::ReleaseDialog)
        } else if self.env_held {
            self.env_held = false;
            self.released = self.released + 1;
            self.outcome = Some(err);
            self.phase = SessionPhase::Cleanup;
            Step::Continue(NativeAction::ReleaseEnvironment)
        } else {
            self.phase = SessionPhase::Done;
            match self.kind {
                DialogKind::Open => Step::FinishedOpen(Err(err)),
                DialogKind::Save => Step::FinishedSave(Err(err)),
            }
        }
    }

    /// Release the next held handle, or deliver the recorded error
    /// once nothing is held.
    fn continue_cleanup(&mut self) -> (r: Step)
        requires
            old(self).wf(),
            old(self).phase is Cleanup,
        ensures
            final(self).wf(),
            final(self).kind == old(self).kind,
            final(self).owner == old(self).owner,
            final(self).plan@ == old(self).plan@,
            final(self).existing_options == old(self).existing_options,
            final(self).item_count == old(self).item_count,
            final(self).filter_index == old(self).filter_index,
            final(self).cur_item == old(self).cur_item,
            final(self).paths@ == old(self).paths@,
            step_error(*final(self), r) == old(self).outcome,
            (r is Continue) <==> !(final(self).phase is Done),
            final(self).phase is Done ==> final(self).acquired == final(self).released,
            r matches Step::Continue(a) ==> is_release_action(a) && final(self).phase is Cleanup
                && final(self).outcome == old(self).outcome,
            r is FinishedOpen ==> old(self).kind is Open,
            r is FinishedSave ==> old(self).kind is Save,
            !(r matches Step::FinishedOpen(Ok(_))),
            !(r matches Step::FinishedSave(Ok(_))),
    {
        if self.array_held {
            self.array_held = false;
            self.released = self.released + 1;
            Step::Continue(NativeAction::ReleaseItemArray)
        } else if self.dialog_held {
            self.dialog_held = false;
            self.released = self.released + 1;
            Step::Continue(NativeAction::ReleaseDialog)
        } else if self.env_held {
            self.env_held = false;
            self.released = self.released + 1;
            Step::Continue(NativeAction::ReleaseEnvironment)
        } else {
            let err = self.outcome.take().unwrap();
            self.phase = SessionPhase::Done;
            match self.kind {
                DialogKind::Open => Step::FinishedOpen(Err(err)),
                DialogKind::Save => Step::FinishedSave(Err(err)),
            }
        }
    }

    /// Issue the next configuration call, or the modal display once
    /// the plan is exhausted.
    fn advance(&mut self) -> (r: Step)
        requires
            old(self).env_held && old(self).dialog_held && !old(self).array_held && !old(
                self,
            ).item_held,
            old(self).outcome is None,
            old(self).paths@.len() == 0,
            old(self).cur_item == 0 && old(self).item_count == 0,
            old(self).acquired as int == old(self).released as int + 2,
            old(self).acquired as int + num_resolves(old(self).plan@) <= 5,
            old(self).kind is Save ==> !old(self).array_held,
            plan_tail_ok(old(self).plan@),
        ensures
            final(self).wf(),
            final(self).kind == old(self).kind,
            final(self).owner == old(self).owner,
            final(self).existing_options == old(self).existing_options,
            final(self).acquired == old(self).acquired,
            final(self).released == old(self).released,
            final(self).outcome is None,
            final(self).paths@ == old(self).paths@,
            final(self).item_count == old(self).item_count,
            final(self).cur_item == old(self).cur_item,
            final(self).filter_index == old(self).filter_index,
            r == Step::Continue(
                advance_action(old(self).plan@, old(self).existing_options, old(self).owner),
            ),
            final(self).plan@ == plan_after(old(self).plan@),
            final(self).phase == (if old(self).plan@.len() == 0 {
                SessionPhase::Show
            } else {
                SessionPhase::Config(config_kind_of(old(self).plan@[0]))
            }),
    {
        if self.plan.len() == 0 {
            proof {
                assert(num_resolves(old(self).plan@) == 0);
            }
            self.phase = SessionPhase::Show;
            Step::Continue(NativeAction::ShowDialog(self.owner))
        } else {
            let s = self.plan.remove(0);
            proof {
                let p = old(self).plan@;
                assert(p.remove(0) =~= p.skip(1));
                assert(num_resolves(Seq::<PlanStep>::empty()) == 0);
                if p[0] is Resolve {
                    assert(plan_ok(p));
                    assert(num_resolves(p) == 1 + num_resolves(p.skip(1)));
                    assert(p.skip(1).skip(1) =~= p.skip(2));
                } else {
                    assert(num_resolves(p) == num_resolves(p.skip(1)));
                    if p[0] is GetOptions {
                        assert(p.skip(1).skip(1) =~= p.skip(2));
                    }
                }
            }
            match s {
                PlanStep::Resolve(p) => {
                    self.phase = SessionPhase::Config(ConfigKind::Resolve);
                    Step::Continue(NativeAction::ResolveItem(p))
                },
                PlanStep::BindSaveAsItem => {
                    self.phase = SessionPhase::Config(ConfigKind::BindSaveAs);
                    Step::Continue(NativeAction::SetSaveAsItem)
                },
                PlanStep::BindDefaultFolder => {
                    self.phase = SessionPhase::Config(ConfigKind::BindDefaultFolder);
                    Step::Continue(NativeAction::SetDefaultFolder)
                },
                PlanStep::BindFolder => {
                    self.phase = SessionPhase::Config(ConfigKind::BindFolder);
                    Step::Continue(NativeAction::SetFolder)
                },
                PlanStep::SetDefaultExtension(x) => {
                    self.phase = SessionPhase::Config(ConfigKind::DefaultExtension);
                    Step::Continue(NativeAction::SetDefaultExtension(x))
                },
                PlanStep::SetFileName(x) => {
                    self.phase = SessionPhase::Config(ConfigKind::FileName);
                    Step::Continue(NativeAction::SetFileName(x))
                },
                PlanStep::SetFileNameLabel(x) => {
                    self.phase = SessionPhase::Config(ConfigKind::FileNameLabel);
                    Step::Continue(NativeAction::SetFileNameLabel(x))
                },
                PlanStep::SetFileTypes(v) => {
                    self.phase = SessionPhase::Config(ConfigKind::FileTypes);
                    Step::Continue(NativeAction::SetFileTypes(v))
                },
                PlanStep::SetFileTypeIndex(i) => {
                    self.phase = SessionPhase::Config(ConfigKind::FileTypeIndex);
                    Step::Continue(NativeAction::SetFileTypeIndex(i))
                },
                PlanStep::SetOkButtonLabel(x) => {
                    self.phase = SessionPhase::Config(ConfigKind::OkButtonLabel);
                    Step::Continue(NativeAction::SetOkButtonLabel(x))
                },
                PlanStep::GetOptions => {
                    self.phase = SessionPhase::Config(ConfigKind::GetOptions);
                    Step::Continue(NativeAction::GetOptions)
                },
                PlanStep::SetOptions(req) => {
                    self.phase = SessionPhase::Config(ConfigKind::SetOptions);
                    Step::Continue(NativeAction::SetOptions(self.existing_options | req))
                },
                PlanStep::SetTitle(x) => {
                    self.phase = SessionPhase::Config(ConfigKind::Title);
                    Step::Continue(NativeAction::SetTitle(x))
                },
            }
        }
    }
}

/// The name of the native method behind each configuration phase.
pub open spec fn config_method_name(k: ConfigKind) -> Seq<char> {
    match k {
        ConfigKind::Resolve => "SHCreateItemFromParsingName"@,
        ConfigKind::BindSaveAs => "IFileDialog::SetSaveAsItem"@,
        ConfigKind::BindDefaultFolder => "IFileDialog::SetDefaultFolder"@,
        ConfigKind::BindFolder => "IFileDialog::SetFolder"@,
        ConfigKind::DefaultExtension => "IFileDialog::SetDefaultExtension"@,
        ConfigKind::FileName => "IFileDialog::SetFileName"@,
        ConfigKind::FileNameLabel => "IFileDialog::SetFileNameLabel"@,
        ConfigKind::FileTypes => "IFileDialog::SetFileTypes"@,
        ConfigKind::FileTypeIndex => "IFileDialog::SetFileTypeIndex"@,
        ConfigKind::OkButtonLabel => "IFileDialog::SetOkButtonLabel"@,
        ConfigKind::GetOptions => "IFileDialog::GetOptions"@,
        ConfigKind::SetOptions => "IFileDialog::SetOptions"@,
        ConfigKind::Title => "IFileDialog::SetTitle"@,
    }
}

/// The configuration method names, as owned strings for error
/// reports.
fn config_method_string(k: ConfigKind) -> (s: String)
    ensures
        s@ == config_method_name(k),
{
    match k {
        ConfigKind::Resolve => "SHCreateItemFromParsingName".to_owned(),
        ConfigKind::BindSaveAs => "IFileDialog::SetSaveAsItem".to_owned(),
        ConfigKind::BindDefaultFolder => "IFileDialog::SetDefaultFolder".to_owned(),
        ConfigKind::BindFolder => "IFileDialog::SetFolder".to_owned(),
        ConfigKind::DefaultExtension => "IFileDialog::SetDefaultExtension".to_owned(),
        ConfigKind::FileName => "IFileDialog::SetFileName".to_owned(),
        ConfigKind::FileNameLabel => "IFileDialog::SetFileNameLabel".to_owned(),
        ConfigKind::FileTypes => "IFileDialog::SetFileTypes".to_owned(),
        ConfigKind::FileTypeIndex => "IFileDialog::SetFileTypeIndex".to_owned(),
        ConfigKind::OkButtonLabel => "IFileDialog::SetOkButtonLabel".to_owned(),
        ConfigKind::GetOptions => "IFileDialog::GetOptions".to_owned(),
        ConfigKind::SetOptions => "IFileDialog::SetOptions".to_owned(),
        ConfigKind::Title => "IFileDialog::SetTitle".to_owned(),
    }
}

/// The status code carried by an event.
fn event_status_of(e: &NativeEvent) -> (c: i32)
    ensures
        c == event_status(*e),
{
    match e {
        NativeEvent::Status(c) => *c,
        NativeEvent::Value(c, _) => *c,
        NativeEvent::Text(c, _) => *c,
    }
}

} // verus!
