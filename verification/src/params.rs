use vstd::prelude::*;

verus! {

/// The configuration for one dialog session.  All fields are optional
/// in the sense that their default values mean "do not configure this
/// aspect": an empty string field is never applied, a zero `options`
/// word is never applied, and `owner: None` leaves the dialog an
/// independent top-level window.
///
/// The configuration is read-only once handed to a session: a session
/// consumes it into a fixed plan of native calls and never mutates the
/// caller's intent.
#[derive(Debug, Clone)]
pub struct DialogParams {
    /// The default file extension appended to a returned file name
    /// when the user does not type one.
    pub default_extension: String,
    /// The folder the dialog navigates to on first use.  Later uses
    /// remember the last visited folder.
    pub default_folder: String,
    /// The file name pre-populated in the dialog's edit box.
    pub file_name: String,
    /// The label shown beside the file name edit box.
    pub file_name_label: String,
    /// The 1-based index of the file type selected by default.
    pub file_type_index: u32,
    /// The file types shown in the dialog's type selector: each entry
    /// is a human-readable description paired with a filter pattern
    /// (several patterns may be joined with semicolons).
    pub file_types: Vec<(String, String)>,
    /// The folder always selected when the dialog opens, regardless of
    /// previous user action.  `default_folder` is normally preferable.
    pub folder: String,
    /// The label replacing the default text on the dialog's OK button.
    pub ok_button_label: String,
    /// A bitwise OR of `FOS_*` option flags to add to the dialog's
    /// existing flags.
    pub options: u32,
    /// The numeric value of the native window handle that owns the
    /// dialog, if any.
    pub owner: Option<usize>,
    /// The path of the existing file to seed a "save as" dialog with:
    /// sets both the initial folder and the pre-populated file name.
    pub save_as_item: String,
    /// The text in the dialog's title bar.
    pub title: String,
}

impl Default for DialogParams {
    /// The default configuration: every string field empty, no option
    /// flags, no owner, and a single catch-all file type filter with
    /// default selected index 1.
    fn default() -> (d: DialogParams)
        ensures
            d.default_extension@.len() == 0,
            d.default_folder@.len() == 0,
            d.file_name@.len() == 0,
            d.file_name_label@.len() == 0,
            d.file_type_index == 1,
            d.file_types@.len() == 1,
            d.file_types@[0].0@ == "All types (*.*)"@,
            d.file_types@[0].1@ == "*.*"@,
            d.folder@.len() == 0,
            d.ok_button_label@.len() == 0,
            d.options == 0,
            d.owner is None,
            d.save_as_item@.len() == 0,
            d.title@.len() == 0,
    {
        let mut file_types: Vec<(String, String)> = Vec::new();
        file_types.push(("All types (*.*)".to_owned(), "*.*".to_owned()));
        DialogParams {
            default_extension: String::new(),
            default_folder: String::new(),
            file_name: String::new(),
            file_name_label: String::new(),
            file_type_index: 1,
            file_types,
            folder: String::new(),
            ok_button_label: String::new(),
            options: 0,
            owner: None,
            save_as_item: String::new(),
            title: String::new(),
        }
    }
}

} // verus!
