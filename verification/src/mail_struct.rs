use vstd::prelude::*;
use crate::err::IdentityError;
use crate::util::control_email;
use crate::util::email_format_ok;

verus! {

/// A message to be mailed: to whom, under which name, about what, and the
/// text.
pub struct Report {
    recipient: String,
    alias: String,
    subject: String,
    message: String,
}

/// A message to be mailed, as a value.
pub struct ReportData {
    pub recipient: Seq<char>,
    pub alias: Seq<char>,
    pub subject: Seq<char>,
    pub message: Seq<char>,
}

/// The text of the error for a message without subject.
pub open spec fn subject_missing() -> Seq<char> {
    "Subject of the email is empty"@
}

impl View for Report {
    type V = ReportData;

    closed spec fn view(&self) -> ReportData {
        ReportData {
            recipient: self.recipient@,
            alias: self.alias@,
            subject: self.subject@,
            message: self.message@,
        }
    }
}

impl Report {
    /// A message to `recipient_email`, addressed as `alias_name`, with the
    /// subject `subject_string` and the text `msg`.
    pub fn new(recipient_email: &str, alias_name: &str, subject_string: &str, msg: &str) -> (r:
        Result<Self, IdentityError>)
        ensures
            match r {
                Ok(report) => email_format_ok(recipient_email@) && subject_string@.len() > 0
                    && report@ == (ReportData {
                    recipient: recipient_email@,
                    alias: alias_name@,
                    subject: subject_string@,
                    message: msg@,
                }),
                Err(IdentityError::EmailNotCorrectFormat) => !email_format_ok(recipient_email@),
                Err(IdentityError::CustomError(text)) => email_format_ok(recipient_email@)
                    && subject_string@.len() == 0 && text@ == subject_missing(),
                Err(_) => false,
            },
    {
        if !control_email(recipient_email) {
            return Err(IdentityError::EmailNotCorrectFormat);
        }
        if subject_string.is_empty() {
            return Err(IdentityError::CustomError("Subject of the email is empty".to_owned()));
        }
        Ok(
            Report {
                recipient: recipient_email.to_owned(),
                alias: alias_name.to_owned(),
                subject: subject_string.to_owned(),
                message: msg.to_owned(),
            },
        )
    }

    /// The recipient's address.
    pub fn get_recipient(&self) -> (r: &str)
        ensures
            r@ == self@.recipient,
    {
        self.recipient.as_str()
    }

    /// The name under which the recipient is addressed.
    pub fn get_alias(&self) -> (r: &str)
        ensures
            r@ == self@.alias,
    {
        self.alias.as_str()
    }

    /// The subject.
    pub fn get_subject(&self) -> (r: &str)
        ensures
            r@ == self@.subject,
    {
        self.subject.as_str()
    }

    /// The text.
    pub fn get_message(&self) -> (r: &str)
        ensures
            r@ == self@.message,
    {
        self.message.as_str()
    }
}

} // verus!
