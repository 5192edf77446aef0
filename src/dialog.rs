//! The text of an error dialog and of the fault that ends a hard unwrap.
use vstd::prelude::*;
use vstd::string::*;

verus! {

/// How many characters of an error's text a dialog shows at most.
pub const DIALOG_TEXT_BOUND: usize = 253;

/// What a dialog body ends with, after the shown part of the error's text.
pub const ELLIPSIS: &'static str = "...";

/// The separator between the title and the text in a fault message.
pub const MESSAGE_SEPARATOR: &'static str = ": ";

/// The first `n` characters of `text`, or all of it when it is shorter.
pub open spec fn prefix_of(text: Seq<char>, n: nat) -> Seq<char> {
    if n < text.len() {
        text.subrange(0, n as int)
    } else {
        text
    }
}

/// The body a dialog shows for an error whose full text is `text`.
pub open spec fn dialog_body(text: Seq<char>) -> Seq<char> {
    prefix_of(text, DIALOG_TEXT_BOUND as nat) + ELLIPSIS@
}

/// The message of the fault that ends a hard unwrap.
pub open spec fn fault_message(title: Seq<char>, text: Seq<char>) -> Seq<char> {
    title + MESSAGE_SEPARATOR@ + text
}

/// A dialog to be shown: a title, a body, and whether the caller waits for it.
pub struct DialogRequest {
    pub title: String,
    pub body: String,
    /// `true`: shown without waiting for it to be dismissed.
    pub asynchronous: bool,
}

/// The first `index` characters of `text`, or the whole of it when it has no more.
pub fn truncate(text: &str, index: usize) -> (r: &str)
    ensures
        r@ == prefix_of(text@, index as nat),
{
    let len = text.unicode_len();
    if index < len {
        text.substring_char(0, index)
    } else {
        text
    }
}

/// The dialog for an error with the full text `text`, under `title`.
///
/// The body holds at most `DIALOG_TEXT_BOUND` characters of the text, then `ELLIPSIS`.
pub fn error_dialog(title: &str, text: &str, asynchronous: bool) -> (r: DialogRequest)
    ensures
        r.title@ == title@,
        r.body@ == dialog_body(text@),
        r.asynchronous == asynchronous,
{
    let mut body = String::from_str(truncate(text, DIALOG_TEXT_BOUND));
    body.append(ELLIPSIS);
    DialogRequest { title: String::from_str(title), body, asynchronous }
}

/// The message of the fault that ends a hard unwrap: `"{title}: {text}"`.
pub fn fatal_message(title: &str, text: &str) -> (r: String)
    ensures
        r@ == fault_message(title@, text@),
{
    let mut message = String::from_str(title);
    message.append(MESSAGE_SEPARATOR);
    message.append(text);
    message
}

/// A dialog body is never longer than the bound plus the ellipsis, and it starts
/// with the error's text as far as it shows it.
pub proof fn lemma_dialog_body_bounded(text: Seq<char>)
    ensures
        dialog_body(text).len() <= DIALOG_TEXT_BOUND + ELLIPSIS@.len(),
        text.len() > DIALOG_TEXT_BOUND ==> dialog_body(text).subrange(0, DIALOG_TEXT_BOUND as int)
            == text.subrange(0, DIALOG_TEXT_BOUND as int),
        text.len() <= DIALOG_TEXT_BOUND ==> dialog_body(text) == text + ELLIPSIS@,
{
    let shown = prefix_of(text, DIALOG_TEXT_BOUND as nat);
    if text.len() > DIALOG_TEXT_BOUND {
        assert(dialog_body(text).subrange(0, DIALOG_TEXT_BOUND as int) =~= shown);
    }
}

} // verus!
