//! The items of the `anyhow` crate that the library uses, with what is
//! trusted of them.
use vstd::prelude::*;

verus! {

/// `anyhow::Error`, carried through as an opaque cause of an error.
#[verifier::external_type_specification]
#[verifier::external_body]
pub struct ExAnyhowError(anyhow::Error);

/// The text that an error was made from by `anyhow::Error::msg`, when the
/// error is, outermost, such a message error over a `String` (what
/// `downcast_ref::<String>` gives for it); none for an error of another kind.
pub uninterp spec fn error_message(error: anyhow::Error) -> Option<Seq<char>>;

/// A text that begins with the message of `error`, when it has one.
pub open spec fn begins_with_message(error: anyhow::Error, text: Seq<char>) -> bool {
    error_message(error) matches Some(m) ==> text.len() >= m.len() && text.take(m.len() as int)
        == m
}

/// Calls `anyhow::Error::msg`, which makes a message error over the given
/// text. Nothing else is stated of the result: it may capture a backtrace
/// that depends on the environment.
#[verifier::external_body]
pub(crate) fn error_from_message(message: String) -> (r: anyhow::Error)
    ensures
        error_message(r) == Some(message@),
{
    anyhow::Error::msg(message)
}

/// Calls the `Debug` formatting of `anyhow::Error`, which writes the error's
/// own text first. What follows (its causes and, depending on the
/// environment, a backtrace) is not stated.
#[verifier::external_body]
pub(crate) fn error_debug_text(error: &anyhow::Error) -> (r: String)
    ensures
        begins_with_message(*error, r@),
{
    format!("{:?}", error)
}

/// Calls the `Display` formatting of `anyhow::Error`, which writes the
/// error's own text without its causes or backtrace: for a message error,
/// its message. For errors of other kinds the text is not stated.
#[verifier::external_body]
pub(crate) fn error_display_text(error: &anyhow::Error) -> (r: String)
    ensures
        error_message(*error) matches Some(m) ==> r@ == m,
{
    format!("{}", error)
}

} // verus!
