//! Unwrapping helpers that report a failed outcome through an error dialog.
//!
//! The library decides what a dialog shows and what a fatal fault says; the
//! program around it shows the dialog and ends the process.
use vstd::prelude::*;

pub mod dialog;
pub mod title;
pub mod unwrapper;

pub use dialog::{error_dialog, fatal_message, truncate, DialogRequest};
pub use title::{get_title, DefaultTitle};
pub use unwrapper::{ErrorDialogUnwrapper, FailureReport, SoftUnwrapped, Unwrapped};

verus! {

} // verus!
