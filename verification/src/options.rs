use vstd::prelude::*;

verus! {

// Option bit flags understood by the native file dialog.  A dialog
// configuration carries a bitwise OR of these in its `options` field;
// the session reads the dialog's existing flags and ORs the requested
// ones in rather than overwriting, so native defaults are preserved.

/// Prompt before overwriting an existing file (save dialogs).
pub const FOS_OVERWRITEPROMPT: u32 = 0x2;
/// Only allow choosing a file with one of the offered file types.
pub const FOS_STRICTFILETYPES: u32 = 0x4;
/// Do not change the process's current working directory.
pub const FOS_NOCHANGEDIR: u32 = 0x8;
/// Present a folder picker instead of a file picker.
pub const FOS_PICKFOLDERS: u32 = 0x20;
/// Only return filesystem-backed items.
pub const FOS_FORCEFILESYSTEM: u32 = 0x40;
/// Allow choosing items that have no filesystem path.
pub const FOS_ALLNONSTORAGEITEMS: u32 = 0x80;
/// Do not validate the chosen item against the dialog's constraints.
pub const FOS_NOVALIDATE: u32 = 0x100;
/// Allow the user to select more than one item.
pub const FOS_ALLOWMULTISELECT: u32 = 0x200;
/// The chosen path must already exist.
pub const FOS_PATHMUSTEXIST: u32 = 0x800;
/// The chosen file must already exist.
pub const FOS_FILEMUSTEXIST: u32 = 0x1000;
/// Prompt for permission to create a file that does not yet exist.
pub const FOS_CREATEPROMPT: u32 = 0x2000;
/// Honour share-violation handling on the chosen item.
pub const FOS_SHAREAWARE: u32 = 0x4000;
/// Do not return read-only items.
pub const FOS_NOREADONLYRETURN: u32 = 0x8000;
/// Do not test whether the file can be created.
pub const FOS_NOTESTFILECREATE: u32 = 0x10000;
/// Hide the list of recent places.
pub const FOS_HIDEMRUPLACES: u32 = 0x20000;
/// Hide the pinned places bar.
pub const FOS_HIDEPINNEDPLACES: u32 = 0x40000;
/// Return shortcut files themselves instead of their targets.
pub const FOS_NODEREFERENCELINKS: u32 = 0x100000;
/// Do not add the chosen item to the recent documents list.
pub const FOS_DONTADDTORECENT: u32 = 0x2000000;
/// Show hidden and system items.
pub const FOS_FORCESHOWHIDDEN: u32 = 0x10000000;
/// Use the expanded, non-minimal dialog mode by default.
pub const FOS_DEFAULTNOMINIMODE: u32 = 0x20000000;
/// Force the preview pane on.
pub const FOS_FORCEPREVIEWPANEON: u32 = 0x40000000;
/// Allow choosing streamable items.
pub const FOS_SUPPORTSTREAMABLEITEMS: u32 = 0x80000000;

/// Native item attribute bit meaning the item is backed by a real
/// filesystem path rather than a virtual or device location.
pub const SFGAO_FILESYSTEM: u32 = 0x40000000;

/// The native status code reported by the modal display call when the
/// user cancels the dialog: the system error "operation cancelled by
/// the user" carried in a status code (0x800704C7 as a signed value).
/// Every other negative status code is a plain failure; a
/// non-negative one is a success.
pub const STATUS_USER_CANCELLED: i32 = -2147023673;

} // verus!
