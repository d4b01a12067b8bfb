use vstd::prelude::*;

verus! {

/// The result of an Open dialog session after the user confirmed a
/// selection of one or more files (or a folder).
#[derive(Debug, Clone, PartialEq, Eq)]
pub struct OpenDialogResult {
    /// The first selected path, as a convenience for the common case
    /// where multi-select is not enabled.
    pub selected_file_path: String,
    /// Every selected filesystem-backed path, in native selection
    /// order.  Never empty: a selection with no filesystem-backed item
    /// is reported as an error, not as an empty success.
    pub selected_file_paths: Vec<String>,
    /// The 1-based index of the file type active when the user
    /// confirmed.
    pub selected_file_type_index: u32,
}

impl OpenDialogResult {
    /// An Open result is well formed when its path list is non-empty
    /// and its convenience path is the first entry of that list.
    pub open spec fn wf(self) -> bool {
        &&& self.selected_file_paths@.len() >= 1
        &&& self.selected_file_path@ == self.selected_file_paths@[0]@
    }
}

/// The result of a Save dialog session after the user confirmed a
/// file.
#[derive(Debug, Clone, PartialEq, Eq)]
pub struct SaveDialogResult {
    /// The path the user chose.
    pub selected_file_path: String,
    /// The 1-based index of the file type active when the user
    /// confirmed.
    pub selected_filter_index: u32,
}

} // verus!
