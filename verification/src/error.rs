use vstd::prelude::*;

verus! {

/// Error returned when a dialog session fails.
///
/// Every session ends in exactly one of three ways short of success:
/// the user dismissed the dialog, the user's selection contained no
/// filesystem-backed item, or some native call returned a failing
/// status code.
#[derive(Debug, Clone, PartialEq, Eq)]
pub enum DialogError {
    /// The user cancelled the dialog.
    UserCancelled,
    /// A nominally successful selection yielded no item with a valid
    /// filesystem path (for example, a virtual device item).
    UnsupportedFilepath,
    /// A native call returned a failing status code.  Carries the raw
    /// code and the name of the native method that produced it, so a
    /// caller can tell a bad configuration from an unrelated system
    /// failure.
    HResultFailed {
        /// The native method that failed.
        error_method: String,
        /// The failing status code.
        hresult: i32,
    },
}

} // verus!
