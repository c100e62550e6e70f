//! Composing the e-mail that goes with a notification.
//!
//! Addresses are parsed and the message is assembled by `lettre`; which
//! failure is reported for what is decided here. Sending is the caller's
//! business.

use crate::errors::{AppError, AppErrorView};
use vstd::prelude::*;

verus! {

/// `lettre`'s mailbox: an address with an optional display name. Opaque
/// here; it is only carried from the parser to the builder, inside a
/// [`ParsedMailbox`].
#[verifier::external_type_specification]
#[verifier::external_body]
pub struct ExMailbox(lettre::message::Mailbox);

/// `lettre`'s reason for refusing an address. Opaque here.
#[verifier::external_type_specification]
#[verifier::external_body]
pub struct ExAddressError(lettre::address::AddressError);

/// `lettre`'s finished message, ready for a transport. Opaque here.
#[verifier::external_type_specification]
#[verifier::external_body]
pub struct ExMessage(lettre::Message);

/// `lettre`'s reason for refusing to build a message. Opaque here.
#[verifier::external_type_specification]
#[verifier::external_body]
pub struct ExEmailError(lettre::error::Error);

/// Whether `lettre` accepts `text` as a mailbox, such as
/// `Some Name <user@domain.tld>` or `user@domain.tld`. Stands for the
/// outcome of `lettre`'s parser, which depends on the text alone.
pub uninterp spec fn is_mailbox(text: Seq<char>) -> bool;

/// A mailbox that came out of `lettre`'s parser.
///
/// The builder is only ever handed these. A mailbox put together by hand
/// can carry what the builder cannot write, such as a line break in the
/// display name; the parser yields no such mailbox.
pub struct ParsedMailbox {
    inner: lettre::message::Mailbox,
}

/// Calls `lettre`'s `Mailbox::from_str`. Nothing is claimed about the
/// mailbox or the error, only that acceptance is a matter of the text.
#[verifier::external_body]
fn parse_mailbox(text: &str) -> (parsed: Result<ParsedMailbox, lettre::address::AddressError>)
    ensures
        parsed is Ok <==> is_mailbox(text@),
{
    match text.parse::<lettre::message::Mailbox>() {
        Ok(inner) => Ok(ParsedMailbox { inner }),
        Err(error) => Err(error),
    }
}

/// Calls `lettre`'s message builder: `Message::builder`, then `from`,
/// `to`, `subject` and `body` on it. Nothing is claimed about the
/// outcome. The builder writes each mailbox out and reads it back, and a
/// mailbox that the parser accepted does not always survive that; the
/// message, where there is one, carries the time it was built at.
#[verifier::external_body]
fn build_message(from: ParsedMailbox, to: ParsedMailbox, subject: String, body: String) -> (built:
    Result<lettre::Message, lettre::error::Error>) {
    lettre::Message::builder().from(from.inner).to(to.inner).subject(subject).body(body)
}

impl ParsedMailbox {
    /// Parses `text` as a mailbox; `None` if `lettre` does not accept it.
    pub fn parse(text: &str) -> (parsed: Option<ParsedMailbox>)
        ensures
            parsed is Some <==> is_mailbox(text@),
    {
        match parse_mailbox(text) {
            Ok(mailbox) => Some(mailbox),
            Err(_) => None,
        }
    }
}

/// What to report for the recipient's address once it was parsed.
pub fn recipient_or_error(parsed: Result<ParsedMailbox, lettre::address::AddressError>) -> (result:
    Result<ParsedMailbox, AppError>)
    ensures
        match parsed {
            Ok(mailbox) => result == Ok::<ParsedMailbox, AppError>(mailbox),
            Err(_) => (result matches Err(error) && error@ == AppErrorView::InternalServerError(
                "Invalid 'to' email address"@,
            )),
        },
{
    match parsed {
        Ok(mailbox) => Ok(mailbox),
        Err(_) => Err(AppError::InternalServerError(String::from_str("Invalid 'to' email address"))),
    }
}

/// What to report once the builder has answered.
pub fn message_or_error(built: Result<lettre::Message, lettre::error::Error>) -> (result: Result<
    lettre::Message,
    AppError,
>)
    ensures
        match built {
            Ok(message) => result == Ok::<lettre::Message, AppError>(message),
            Err(_) => (result matches Err(error) && error@ == AppErrorView::InternalServerError(
                "Failed to build email"@,
            )),
        },
{
    match built {
        Ok(message) => Ok(message),
        Err(_) => Err(AppError::InternalServerError(String::from_str("Failed to build email"))),
    }
}

/// Composes a plain-text e-mail from `from` to the address in `to`.
///
/// An address that `lettre` does not accept as a mailbox is reported as
/// such, and the builder is not asked. Otherwise the result is the
/// builder's: its message, or the one error that stands for any refusal
/// of it.
pub fn compose_email(from: ParsedMailbox, to: &str, subject: String, body: String) -> (result:
    Result<lettre::Message, AppError>)
    ensures
        !is_mailbox(to@) ==> (result matches Err(error) && error@
            == AppErrorView::InternalServerError("Invalid 'to' email address"@)),
        is_mailbox(to@) ==> result is Ok || (result matches Err(error) && error@
            == AppErrorView::InternalServerError("Failed to build email"@)),
{
    let to = match recipient_or_error(parse_mailbox(to)) {
        Ok(mailbox) => mailbox,
        Err(error) => {
            return Err(error);
        },
    };
    message_or_error(build_message(from, to, subject, body))
}

} // verus!
