//! Unwrapping an outcome: its value, or the dialog and fault that report its error.
use vstd::prelude::*;

use crate::dialog::{dialog_body, error_dialog, fatal_message, fault_message, DialogRequest};
use crate::title::{after_read, get_title, DefaultTitle};

verus! {

/// What reports a failed outcome: the dialog to show, the error's full text, and,
/// for a hard unwrap, the message of the fault that follows the dialog.
pub struct FailureReport {
    pub dialog: DialogRequest,
    pub text: String,
    pub message: String,
}

/// The result of a hard unwrap: the value, or the report of the error, after which
/// the caller does not go on.
pub enum Unwrapped<T> {
    Value(T),
    Fatal(FailureReport),
}

/// The result of a soft unwrap: the value if there is one, and the dialog to show
/// without waiting if there is none.
pub struct SoftUnwrapped<T> {
    pub value: Option<T>,
    pub dialog: Option<DialogRequest>,
}

/// `report` shows the full text `text` under `title`, and its fault message joins them.
pub open spec fn reports(report: FailureReport, title: Seq<char>) -> bool {
    &&& report.dialog.title@ == title
    &&& report.dialog.body@ == dialog_body(report.text@)
    &&& !report.dialog.asynchronous
    &&& report.message@ == fault_message(title, report.text@)
}

/// The result of a hard unwrap of an outcome whose value is `value`, reported under
/// `title` on failure.
pub open spec fn hard_unwrap_result<T>(r: Unwrapped<T>, value: Option<T>, title: Seq<char>) -> bool {
    match value {
        Some(v) => r == Unwrapped::Value(v),
        None => {
            &&& r is Fatal
            &&& reports(r->Fatal_0, title)
        },
    }
}

/// The result of a soft unwrap of an outcome whose value is `value`, reported under
/// `title` on failure.
pub open spec fn soft_unwrap_result<T>(r: SoftUnwrapped<T>, value: Option<T>, title: Seq<char>) -> bool {
    match value {
        Some(v) => r.value == Some(v) && r.dialog is None,
        None => {
            &&& r.value is None
            &&& r.dialog is Some
            &&& r.dialog->0.title@ == title
            &&& r.dialog->0.asynchronous
            &&& exists|text: Seq<char>| r.dialog->0.body@ == #[trigger] dialog_body(text)
        },
    }
}

/// Unwraps an outcome, turning its error into a dialog.
///
/// The hard operations report an error with a dialog that the caller waits for,
/// then a fatal fault; the soft ones with a dialog shown without waiting, then no value.
/// Without an explicit title the default title is read, which resolves it.
pub trait ErrorDialogUnwrapper<T>: Sized {
    /// The value of a successful outcome; `None` for a failed one.
    spec fn success(&self) -> Option<T>;

    fn unwrap_or_dialog(self, titles: &mut DefaultTitle) -> (r: Unwrapped<T>)
        ensures
            self.success() is Some ==> final(titles)@ == old(titles)@,
            self.success() is None ==> final(titles)@ == after_read(old(titles)@),
            hard_unwrap_result(r, self.success(), final(titles)@->0),
    ;

    fn unwrap_or_dialog_with_title(self, title: &str) -> (r: Unwrapped<T>)
        ensures
            hard_unwrap_result(r, self.success(), title@),
    ;

    fn ok_unwrap_or_dialog(self, titles: &mut DefaultTitle) -> (r: SoftUnwrapped<T>)
        ensures
            self.success() is Some ==> final(titles)@ == old(titles)@,
            self.success() is None ==> final(titles)@ == after_read(old(titles)@),
            soft_unwrap_result(r, self.success(), final(titles)@->0),
    ;

    fn ok_unwrap_or_dialog_with_title(self, title: &str) -> (r: SoftUnwrapped<T>)
        ensures
            soft_unwrap_result(r, self.success(), title@),
    ;
}

/// Relies on std's `Debug` formatting (`format!("{:?}", e)`) to render an error as text.
#[verifier::external_body]
fn debug_text<E: std::fmt::Debug>(e: &E) -> String {
    format!("{:?}", e)
}

/// The report of an error with the full text `text`, under `title`.
pub fn failure_report(title: &str, text: String) -> (r: FailureReport)
    ensures
        reports(r, title@),
        r.text@ == text@,
{
    let dialog = error_dialog(title, text.as_str(), false);
    let message = fatal_message(title, text.as_str());
    FailureReport { dialog, text, message }
}

impl<T, E: std::fmt::Debug> ErrorDialogUnwrapper<T> for Result<T, E> {
    open spec fn success(&self) -> Option<T> {
        match self {
            Ok(v) => Some(*v),
            Err(_) => None,
        }
    }

    fn unwrap_or_dialog(self, titles: &mut DefaultTitle) -> (r: Unwrapped<T>) {
        match self {
            Ok(v) => Unwrapped::Value(v),
            Err(e) => {
                let title = get_title(titles);
                Unwrapped::Fatal(failure_report(title.as_str(), debug_text(&e)))
            },
        }
    }

    fn unwrap_or_dialog_with_title(self, title: &str) -> (r: Unwrapped<T>) {
        match self {
            Ok(v) => Unwrapped::Value(v),
            Err(e) => Unwrapped::Fatal(failure_report(title, debug_text(&e))),
        }
    }

    fn ok_unwrap_or_dialog(self, titles: &mut DefaultTitle) -> (r: SoftUnwrapped<T>) {
        match self {
            Ok(v) => SoftUnwrapped { value: Some(v), dialog: None },
            Err(e) => {
                let title = get_title(titles);
                let text = debug_text(&e);
                let dialog = error_dialog(title.as_str(), text.as_str(), true);
                SoftUnwrapped { value: None, dialog: Some(dialog) }
            },
        }
    }

    fn ok_unwrap_or_dialog_with_title(self, title: &str) -> (r: SoftUnwrapped<T>) {
        match self {
            Ok(v) => SoftUnwrapped { value: Some(v), dialog: None },
            Err(e) => {
                let text = debug_text(&e);
                let dialog = error_dialog(title, text.as_str(), true);
                SoftUnwrapped { value: None, dialog: Some(dialog) }
            },
        }
    }
}

} // verus!
