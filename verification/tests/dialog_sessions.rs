//! Sessions driven end to end against an instrumented fake native
//! layer that counts every acquire and release.

use wfd::{
    DialogError, DialogParams, NativeAction, NativeEvent, OpenDialogResult, SaveDialogResult,
    Session, Step, FOS_ALLOWMULTISELECT, FOS_PICKFOLDERS, STATUS_USER_CANCELLED,
};

/// One selectable item of the fake native layer: its attribute word
/// and its display path.
#[derive(Clone)]
struct FakeItem {
    attributes: u32,
    path: &'static str,
}

const FS: u32 = 0x40000000;

/// An instrumented fake native layer.  It counts acquire and release
/// calls, remembers what was configured, echoes the selected filter
/// index back, and can be told to fail one named method with a given
/// status code, or to cancel the modal display.
struct FakeNative {
    acquires: u64,
    releases: u64,
    existing_options: u32,
    options_written: Option<u32>,
    filters: Vec<(String, String)>,
    filter_index: u32,
    items: Vec<FakeItem>,
    cur_item: usize,
    cancel: bool,
    fail: Option<(&'static str, i32)>,
    log: Vec<&'static str>,
}

impl FakeNative {
    fn new(items: Vec<FakeItem>) -> FakeNative {
        FakeNative {
            acquires: 0,
            releases: 0,
            existing_options: 0,
            options_written: None,
            filters: Vec::new(),
            filter_index: 0,
            items,
            cur_item: 0,
            cancel: false,
            fail: None,
            log: Vec::new(),
        }
    }

    fn balanced(&self) -> bool {
        self.acquires == self.releases
    }
}

/// The native method behind each action, named as the session names
/// it in its errors.
fn method_of(a: &NativeAction) -> &'static str {
    match a {
        NativeAction::InitEnvironment => "CoInitializeEx",
        NativeAction::CreateOpenDialog => "CoCreateInstance - IFileOpenDialog",
        NativeAction::CreateSaveDialog => "CoCreateInstance - FileSaveDialog",
        NativeAction::ResolveItem(_) => "SHCreateItemFromParsingName",
        NativeAction::SetSaveAsItem => "IFileDialog::SetSaveAsItem",
        NativeAction::SetDefaultFolder => "IFileDialog::SetDefaultFolder",
        NativeAction::SetFolder => "IFileDialog::SetFolder",
        NativeAction::SetDefaultExtension(_) => "IFileDialog::SetDefaultExtension",
        NativeAction::SetFileName(_) => "IFileDialog::SetFileName",
        NativeAction::SetFileNameLabel(_) => "IFileDialog::SetFileNameLabel",
        NativeAction::SetFileTypes(_) => "IFileDialog::SetFileTypes",
        NativeAction::SetFileTypeIndex(_) => "IFileDialog::SetFileTypeIndex",
        NativeAction::SetOkButtonLabel(_) => "IFileDialog::SetOkButtonLabel",
        NativeAction::GetOptions => "IFileDialog::GetOptions",
        NativeAction::SetOptions(_) => "IFileDialog::SetOptions",
        NativeAction::SetTitle(_) => "IFileDialog::SetTitle",
        NativeAction::ShowDialog(_) => "IModalWindow::Show",
        NativeAction::GetResults => "IFileOpenDialog::GetResults",
        NativeAction::GetCount => "IShellItemArray::GetCount",
        NativeAction::GetItemAt(_) => "IShellItemArray::GetItemAt",
        NativeAction::GetItemAttributes => "IShellItem::GetAttributes",
        NativeAction::GetItemDisplayName => "IShellItem::GetDisplayName",
        NativeAction::GetSaveResult => "IFileDialog::GetResult",
        NativeAction::GetFileTypeIndex => "IFileDialog::GetFileTypeIndex",
        NativeAction::ReleaseItem => "IShellItem::Release",
        NativeAction::ReleaseItemArray => "IShellItemArray::Release",
        NativeAction::ReleaseDialog => "IFileDialog::Release",
        NativeAction::ReleaseEnvironment => "CoUninitialize",
    }
}

fn is_release(a: &NativeAction) -> bool {
    matches!(
        a,
        NativeAction::ReleaseItem
            | NativeAction::ReleaseItemArray
            | NativeAction::ReleaseDialog
            | NativeAction::ReleaseEnvironment
    )
}

impl FakeNative {
    /// Perform one action and report its outcome, exactly as a real
    /// driver would: acquires and releases are counted, and a bind
    /// call releases the pending resolved item whether it succeeded or
    /// not.
    fn perform(&mut self, a: &NativeAction) -> NativeEvent {
        let name = method_of(a);
        self.log.push(name);
        let code: i32 = match self.fail {
            Some((m, c)) if m == name => c,
            _ => 0,
        };
        let failed = code < 0;
        match a {
            NativeAction::InitEnvironment
            | NativeAction::CreateOpenDialog
            | NativeAction::CreateSaveDialog
            | NativeAction::ResolveItem(_)
            | NativeAction::GetResults => {
                if !failed {
                    self.acquires += 1;
                }
                NativeEvent::Status(code)
            }
            NativeAction::SetSaveAsItem
            | NativeAction::SetDefaultFolder
            | NativeAction::SetFolder => {
                // the pending resolved item is released either way
                self.releases += 1;
                NativeEvent::Status(code)
            }
            NativeAction::SetDefaultExtension(_)
            | NativeAction::SetFileName(_)
            | NativeAction::SetFileNameLabel(_)
            | NativeAction::SetOkButtonLabel(_)
            | NativeAction::SetTitle(_) => NativeEvent::Status(code),
            NativeAction::SetFileTypes(v) => {
                if !failed {
                    self.filters = v.clone();
                }
                NativeEvent::Status(code)
            }
            NativeAction::SetFileTypeIndex(i) => {
                if !failed {
                    self.filter_index = *i;
                }
                NativeEvent::Status(code)
            }
            NativeAction::GetOptions => NativeEvent::Value(code, self.existing_options),
            NativeAction::SetOptions(w) => {
                if !failed {
                    self.options_written = Some(*w);
                }
                NativeEvent::Status(code)
            }
            NativeAction::ShowDialog(_) => {
                if self.cancel {
                    NativeEvent::Status(STATUS_USER_CANCELLED)
                } else {
                    NativeEvent::Status(code)
                }
            }
            NativeAction::GetCount => {
                let multi = self
                    .options_written
                    .map(|w| w & FOS_ALLOWMULTISELECT != 0)
                    .unwrap_or(false);
                let n = if multi {
                    self.items.len() as u32
                } else {
                    self.items.len().min(1) as u32
                };
                NativeEvent::Value(code, n)
            }
            NativeAction::GetItemAt(i) => {
                if !failed {
                    self.cur_item = *i as usize;
                    self.acquires += 1;
                }
                NativeEvent::Status(code)
            }
            NativeAction::GetItemAttributes => {
                NativeEvent::Value(code, self.items[self.cur_item].attributes & FS)
            }
            NativeAction::GetItemDisplayName => {
                if failed {
                    NativeEvent::Text(code, String::new())
                } else {
                    // the name buffer is acquired and freed within
                    // this one call
                    self.acquires += 1;
                    self.releases += 1;
                    NativeEvent::Text(code, self.items[self.cur_item].path.to_string())
                }
            }
            NativeAction::GetSaveResult => {
                if !failed {
                    self.cur_item = 0;
                    self.acquires += 1;
                }
                NativeEvent::Status(code)
            }
            NativeAction::GetFileTypeIndex => NativeEvent::Value(code, self.filter_index),
            NativeAction::ReleaseItem
            | NativeAction::ReleaseItemArray
            | NativeAction::ReleaseDialog
            | NativeAction::ReleaseEnvironment => {
                self.releases += 1;
                NativeEvent::Status(0)
            }
        }
    }
}

fn run_open(f: &mut FakeNative, params: DialogParams) -> Result<OpenDialogResult, DialogError> {
    let (mut s, mut a) = Session::begin_open(params);
    let mut failed_once = false;
    loop {
        let e = f.perform(&a);
        match s.step(e) {
            Step::Continue(next) => {
                if failed_once {
                    assert!(is_release(&next), "after a failure only releases may follow");
                }
                if s.outcome.is_some() {
                    failed_once = true;
                }
                a = next;
            }
            Step::FinishedOpen(r) => {
                assert_eq!(s.acquired, s.released, "session accounting must balance");
                assert_eq!(s.acquired, f.acquires, "session and native acquire counts agree");
                assert_eq!(s.released, f.releases, "session and native release counts agree");
                return r;
            }
            Step::FinishedSave(_) => panic!("a save result from an open session"),
        }
    }
}

fn run_save(f: &mut FakeNative, params: DialogParams) -> Result<SaveDialogResult, DialogError> {
    let (mut s, mut a) = Session::begin_save(params);
    loop {
        let e = f.perform(&a);
        match s.step(e) {
            Step::Continue(next) => a = next,
            Step::FinishedSave(r) => {
                assert_eq!(s.acquired, s.released, "session accounting must balance");
                assert_eq!(s.acquired, f.acquires, "session and native acquire counts agree");
                assert_eq!(s.released, f.releases, "session and native release counts agree");
                return r;
            }
            Step::FinishedOpen(_) => panic!("an open result from a save session"),
        }
    }
}

fn fs_item(path: &'static str) -> FakeItem {
    FakeItem { attributes: FS, path }
}

fn virtual_item(path: &'static str) -> FakeItem {
    FakeItem { attributes: 0, path }
}

#[test]
fn default_open_returns_single_path_and_catch_all_filter() {
    let mut f = FakeNative::new(vec![fs_item("C:\\data\\report.txt")]);
    let r = run_open(&mut f, DialogParams::default()).unwrap();
    assert_eq!(r.selected_file_path, "C:\\data\\report.txt");
    assert_eq!(r.selected_file_paths, vec!["C:\\data\\report.txt".to_string()]);
    // the default configuration applies the catch-all filter and
    // selects index 1
    assert_eq!(
        f.filters,
        vec![("All types (*.*)".to_string(), "*.*".to_string())]
    );
    assert_eq!(r.selected_file_type_index, 1);
    assert!(f.balanced());
}

#[test]
fn cancel_is_exactly_user_cancelled() {
    let mut f = FakeNative::new(vec![fs_item("C:\\a.txt")]);
    f.cancel = true;
    let params = DialogParams {
        title: "pick something".to_string(),
        default_extension: "txt".to_string(),
        options: FOS_PICKFOLDERS,
        ..DialogParams::default()
    };
    let r = run_open(&mut f, params);
    assert_eq!(r.unwrap_err(), DialogError::UserCancelled);
    assert!(f.balanced());
}

#[test]
fn save_cancel_is_user_cancelled_too() {
    let mut f = FakeNative::new(vec![fs_item("C:\\a.txt")]);
    f.cancel = true;
    let r = run_save(&mut f, DialogParams::default());
    assert_eq!(r.unwrap_err(), DialogError::UserCancelled);
    assert!(f.balanced());
}

#[test]
fn show_failure_with_other_code_is_hresult_failed() {
    let mut f = FakeNative::new(vec![fs_item("C:\\a.txt")]);
    f.fail = Some(("IModalWindow::Show", -2147024809));
    let r = run_open(&mut f, DialogParams::default());
    assert_eq!(
        r.unwrap_err(),
        DialogError::HResultFailed {
            error_method: "IModalWindow::Show".to_string(),
            hresult: -2147024809,
        }
    );
    assert!(f.balanced());
}

#[test]
fn config_failure_carries_method_and_code_and_short_circuits() {
    let mut f = FakeNative::new(vec![fs_item("C:\\a.txt")]);
    f.fail = Some(("IFileDialog::SetDefaultExtension", -7));
    let params = DialogParams {
        default_extension: "jpg".to_string(),
        title: "never set".to_string(),
        ..DialogParams::default()
    };
    let r = run_open(&mut f, params);
    assert_eq!(
        r.unwrap_err(),
        DialogError::HResultFailed {
            error_method: "IFileDialog::SetDefaultExtension".to_string(),
            hresult: -7,
        }
    );
    // no step after the failing one was performed
    assert!(!f.log.contains(&"IFileDialog::SetTitle"));
    assert!(!f.log.contains(&"IFileDialog::SetFileTypes"));
    assert!(!f.log.contains(&"IModalWindow::Show"));
    assert!(f.balanced());
}

#[test]
fn folder_resolution_failure_is_an_error_not_a_skip() {
    let mut f = FakeNative::new(vec![fs_item("C:\\a.txt")]);
    f.fail = Some(("SHCreateItemFromParsingName", -11));
    let params = DialogParams {
        default_folder: "C:\\missing".to_string(),
        ..DialogParams::default()
    };
    let r = run_open(&mut f, params);
    assert_eq!(
        r.unwrap_err(),
        DialogError::HResultFailed {
            error_method: "SHCreateItemFromParsingName".to_string(),
            hresult: -11,
        }
    );
    assert!(!f.log.contains(&"IFileDialog::SetDefaultFolder"));
    assert!(f.balanced());
}

#[test]
fn create_failure_still_releases_the_environment() {
    let mut f = FakeNative::new(vec![]);
    f.fail = Some(("CoCreateInstance - IFileOpenDialog", -1));
    let r = run_open(&mut f, DialogParams::default());
    assert_eq!(
        r.unwrap_err(),
        DialogError::HResultFailed {
            error_method: "CoCreateInstance - IFileOpenDialog".to_string(),
            hresult: -1,
        }
    );
    assert_eq!(f.acquires, 1);
    assert_eq!(f.releases, 1);
    assert!(f.log.contains(&"CoUninitialize"));
}

#[test]
fn all_virtual_items_give_unsupported_filepath() {
    let mut f = FakeNative::new(vec![virtual_item("This Computer"), virtual_item("Phone")]);
    let params = DialogParams {
        options: FOS_ALLOWMULTISELECT,
        ..DialogParams::default()
    };
    let r = run_open(&mut f, params);
    assert_eq!(r.unwrap_err(), DialogError::UnsupportedFilepath);
    assert!(f.balanced());
}

#[test]
fn empty_native_selection_gives_unsupported_filepath() {
    let mut f = FakeNative::new(vec![]);
    let r = run_open(&mut f, DialogParams::default());
    assert_eq!(r.unwrap_err(), DialogError::UnsupportedFilepath);
    assert!(f.balanced());
}

#[test]
fn virtual_items_are_skipped_silently() {
    let mut f = FakeNative::new(vec![
        virtual_item("Phone"),
        fs_item("C:\\kept.txt"),
        virtual_item("This Computer"),
    ]);
    let params = DialogParams {
        options: FOS_ALLOWMULTISELECT,
        ..DialogParams::default()
    };
    let r = run_open(&mut f, params).unwrap();
    assert_eq!(r.selected_file_paths, vec!["C:\\kept.txt".to_string()]);
    assert_eq!(r.selected_file_path, "C:\\kept.txt");
    assert!(f.balanced());
}

#[test]
fn without_multi_select_at_most_one_path_comes_back() {
    let mut f = FakeNative::new(vec![fs_item("C:\\a.txt"), fs_item("C:\\b.txt")]);
    let r = run_open(&mut f, DialogParams::default()).unwrap();
    assert_eq!(r.selected_file_paths.len(), 1);
    assert!(f.balanced());
}

#[test]
fn multi_select_returns_all_paths_in_order() {
    let mut f = FakeNative::new(vec![fs_item("C:\\a.txt"), fs_item("C:\\b.txt")]);
    let params = DialogParams {
        options: FOS_ALLOWMULTISELECT,
        ..DialogParams::default()
    };
    let r = run_open(&mut f, params).unwrap();
    assert_eq!(
        r.selected_file_paths,
        vec!["C:\\a.txt".to_string(), "C:\\b.txt".to_string()]
    );
    assert_eq!(r.selected_file_path, "C:\\a.txt");
    assert!(f.balanced());
}

#[test]
fn filter_index_round_trips() {
    let mut f = FakeNative::new(vec![fs_item("C:\\photo.jpg")]);
    let params = DialogParams {
        file_types: vec![
            ("JPG Files".to_string(), "*.jpg;*.jpeg".to_string()),
            ("PDF Files".to_string(), "*.pdf".to_string()),
            ("Text Files".to_string(), "*.txt".to_string()),
        ],
        file_type_index: 2,
        ..DialogParams::default()
    };
    let r = run_open(&mut f, params).unwrap();
    assert_eq!(r.selected_file_type_index, 2);
    assert_eq!(f.filters.len(), 3);
    assert_eq!(f.filters[1], ("PDF Files".to_string(), "*.pdf".to_string()));
    assert!(f.balanced());
}

#[test]
fn empty_filter_list_sets_no_filter_at_all() {
    let mut f = FakeNative::new(vec![fs_item("C:\\a.txt")]);
    let params = DialogParams {
        file_types: Vec::new(),
        ..DialogParams::default()
    };
    let r = run_open(&mut f, params).unwrap();
    assert!(!f.log.contains(&"IFileDialog::SetFileTypes"));
    assert!(!f.log.contains(&"IFileDialog::SetFileTypeIndex"));
    assert_eq!(r.selected_file_paths.len(), 1);
    assert!(f.balanced());
}

#[test]
fn options_are_merged_with_existing_flags() {
    let mut f = FakeNative::new(vec![fs_item("C:\\folder")]);
    f.existing_options = 0x1000;
    let params = DialogParams {
        options: FOS_PICKFOLDERS,
        ..DialogParams::default()
    };
    run_open(&mut f, params).unwrap();
    assert_eq!(f.options_written, Some(0x1000 | FOS_PICKFOLDERS));
}

#[test]
fn zero_options_are_never_written() {
    let mut f = FakeNative::new(vec![fs_item("C:\\a.txt")]);
    run_open(&mut f, DialogParams::default()).unwrap();
    assert!(!f.log.contains(&"IFileDialog::GetOptions"));
    assert!(!f.log.contains(&"IFileDialog::SetOptions"));
}

#[test]
fn save_returns_path_and_filter_index() {
    let mut f = FakeNative::new(vec![fs_item("C:\\out\\new.pdf")]);
    let params = DialogParams {
        file_types: vec![
            ("JPG Files".to_string(), "*.jpg".to_string()),
            ("PDF Files".to_string(), "*.pdf".to_string()),
        ],
        file_type_index: 2,
        save_as_item: "C:\\out\\old.pdf".to_string(),
        ..DialogParams::default()
    };
    let r = run_save(&mut f, params).unwrap();
    assert_eq!(r.selected_file_path, "C:\\out\\new.pdf");
    assert_eq!(r.selected_filter_index, 2);
    assert!(f.log.contains(&"IFileDialog::SetSaveAsItem"));
    assert!(f.balanced());
}

#[test]
fn save_without_seed_skips_the_seeding_calls() {
    let mut f = FakeNative::new(vec![fs_item("C:\\out\\new.txt")]);
    let r = run_save(&mut f, DialogParams::default()).unwrap();
    assert_eq!(r.selected_file_path, "C:\\out\\new.txt");
    assert!(!f.log.contains(&"IFileDialog::SetSaveAsItem"));
    assert!(f.balanced());
}

#[test]
fn failure_in_the_item_loop_still_balances() {
    let mut f = FakeNative::new(vec![fs_item("C:\\a.txt"), fs_item("C:\\b.txt")]);
    f.fail = Some(("IShellItem::GetAttributes", -9));
    let params = DialogParams {
        options: FOS_ALLOWMULTISELECT,
        ..DialogParams::default()
    };
    let r = run_open(&mut f, params);
    assert_eq!(
        r.unwrap_err(),
        DialogError::HResultFailed {
            error_method: "IShellItem::GetAttributes".to_string(),
            hresult: -9,
        }
    );
    assert!(f.balanced());
}

#[test]
fn environment_init_failure_releases_nothing() {
    let mut f = FakeNative::new(vec![]);
    f.fail = Some(("CoInitializeEx", -13));
    let r = run_open(&mut f, DialogParams::default());
    assert_eq!(
        r.unwrap_err(),
        DialogError::HResultFailed {
            error_method: "CoInitializeEx".to_string(),
            hresult: -13,
        }
    );
    assert_eq!(f.acquires, 0);
    assert_eq!(f.releases, 0);
}

#[test]
fn configuration_calls_follow_the_documented_order() {
    let mut f = FakeNative::new(vec![fs_item("C:\\a.txt")]);
    let params = DialogParams {
        default_extension: "txt".to_string(),
        default_folder: "C:\\start".to_string(),
        folder: "C:\\forced".to_string(),
        file_name: "draft.txt".to_string(),
        file_name_label: "Name".to_string(),
        ok_button_label: "Go".to_string(),
        options: FOS_ALLOWMULTISELECT,
        title: "Open".to_string(),
        ..DialogParams::default()
    };
    run_open(&mut f, params).unwrap();
    let order = [
        "IFileDialog::SetDefaultExtension",
        "IFileDialog::SetDefaultFolder",
        "IFileDialog::SetFolder",
        "IFileDialog::SetFileName",
        "IFileDialog::SetFileNameLabel",
        "IFileDialog::SetFileTypes",
        "IFileDialog::SetFileTypeIndex",
        "IFileDialog::SetOkButtonLabel",
        "IFileDialog::GetOptions",
        "IFileDialog::SetOptions",
        "IFileDialog::SetTitle",
        "IModalWindow::Show",
    ];
    let mut last: usize = 0;
    for m in order {
        let pos = f.log.iter().position(|x| *x == m);
        let pos = pos.expect(m);
        assert!(pos >= last, "{} out of order", m);
        last = pos;
    }
    assert!(f.balanced());
}
