use vstd::prelude::*;

verus! {

/// Every way in which an operation of the identity service can fail.
#[derive(Debug, PartialEq, Eq)]
pub enum IdentityError {
    EmailNotCorrectFormat,
    EmailIsEmpty,
    EmailIsAlreadyTaken,
    IdIsAlreadyTaken,
    EmailAndPasswordIsEmpty,
    PasswordIsNotCorrect,
    PasswordIsEmpty,
    PasswordCannotBeMade,
    PasswordAndPasswordConfirmedNotEqual,
    FirstAndLastNameIsEmpty,
    FirstNameIsEmpty,
    LastNameIsEmpty,
    UserNotFound,
    UserCannotBeAdded,
    UserAlreadyPresent,
    UserIsNotPresent,
    UserDeleteFailed,
    UserCannotBeUpdated,
    IdEqualsAdmin,
    IdNotEqualToAdmin,
    AdminNotPresent,
    SubjectOfTokenIsEmpty,
    TokenCannotBeMadeFromClaim,
    TokenIsEmpty,
    TokenIsInvalid,
    IssuerIsInvalid,
    SignatureHasExpired,
    SmtpDomainNotGood,
    CouldNotSendEmail,
    CustomError(String),
}

impl IdentityError {
    /// The sentence shown to a user for this error.
    pub open spec fn message_text(self) -> Seq<char> {
        match self {
            IdentityError::EmailNotCorrectFormat => "Email is not in the correct form"@,
            IdentityError::EmailIsEmpty => "Email cannot be empty"@,
            IdentityError::EmailIsAlreadyTaken => "User email is already taken"@,
            IdentityError::IdIsAlreadyTaken => "User id is already taken"@,
            IdentityError::EmailAndPasswordIsEmpty => "Email and password can't be equal to nothing"@,
            IdentityError::PasswordIsNotCorrect => "Password is not right"@,
            IdentityError::PasswordIsEmpty => "Password cannot be empty"@,
            IdentityError::PasswordCannotBeMade => "Password couldn't be made"@,
            IdentityError::PasswordAndPasswordConfirmedNotEqual => "Password and confirmed password aren't the same"@,
            IdentityError::FirstAndLastNameIsEmpty => "The first and last name can't be empty"@,
            IdentityError::FirstNameIsEmpty => "The firstname can't be empty"@,
            IdentityError::LastNameIsEmpty => "The last name can't be empty"@,
            IdentityError::UserNotFound => "User cannot be found"@,
            IdentityError::UserCannotBeAdded => "User cannot be added"@,
            IdentityError::UserAlreadyPresent => "User is already present"@,
            IdentityError::UserIsNotPresent => "User is not present"@,
            IdentityError::UserDeleteFailed => "The user's password wasn't correct or delete confirmation was not set to true"@,
            IdentityError::UserCannotBeUpdated => "User cannot be updated."@,
            IdentityError::IdEqualsAdmin => "The given id equals to the id of the admin"@,
            IdentityError::IdNotEqualToAdmin => "The given id isn't equals to the id of the admin"@,
            IdentityError::AdminNotPresent => "Admin is not present"@,
            IdentityError::SubjectOfTokenIsEmpty => "The subject is empty"@,
            IdentityError::TokenCannotBeMadeFromClaim => "Couldn't create a token out of a claim"@,
            IdentityError::TokenIsEmpty => "Token cannot be emtpy"@,
            IdentityError::TokenIsInvalid => "Token is invalid"@,
            IdentityError::IssuerIsInvalid => "Issuer is invalid"@,
            IdentityError::SignatureHasExpired => "Signature has expired"@,
            IdentityError::SmtpDomainNotGood => "Stmp domain is not good"@,
            IdentityError::CouldNotSendEmail => "Could not send the email throught the smtp transport"@,
            IdentityError::CustomError(e) => e@,
        }
    }

    /// The error is a custom one with the text `text`.
    pub open spec fn is_custom(self, text: Seq<char>) -> bool {
        self matches IdentityError::CustomError(s) && s@ == text
    }

    /// Renders the error as text: a fixed sentence for each kind, and for a
    /// custom error the text it carries.
    pub fn message(&self) -> (r: String)
        ensures
            r@ == self.message_text(),
    {
        match self {
            IdentityError::EmailNotCorrectFormat => "Email is not in the correct form".to_owned(),
            IdentityError::EmailIsEmpty => "Email cannot be empty".to_owned(),
            IdentityError::EmailIsAlreadyTaken => "User email is already taken".to_owned(),
            IdentityError::IdIsAlreadyTaken => "User id is already taken".to_owned(),
            IdentityError::EmailAndPasswordIsEmpty => "Email and password can't be equal to nothing".to_owned(),
            IdentityError::PasswordIsNotCorrect => "Password is not right".to_owned(),
            IdentityError::PasswordIsEmpty => "Password cannot be empty".to_owned(),
            IdentityError::PasswordCannotBeMade => "Password couldn't be made".to_owned(),
            IdentityError::PasswordAndPasswordConfirmedNotEqual => "Password and confirmed password aren't the same".to_owned(),
            IdentityError::FirstAndLastNameIsEmpty => "The first and last name can't be empty".to_owned(),
            IdentityError::FirstNameIsEmpty => "The firstname can't be empty".to_owned(),
            IdentityError::LastNameIsEmpty => "The last name can't be empty".to_owned(),
            IdentityError::UserNotFound => "User cannot be found".to_owned(),
            IdentityError::UserCannotBeAdded => "User cannot be added".to_owned(),
            IdentityError::UserAlreadyPresent => "User is already present".to_owned(),
            IdentityError::UserIsNotPresent => "User is not present".to_owned(),
            IdentityError::UserDeleteFailed => "The user's password wasn't correct or delete confirmation was not set to true".to_owned(),
            IdentityError::UserCannotBeUpdated => "User cannot be updated.".to_owned(),
            IdentityError::IdEqualsAdmin => "The given id equals to the id of the admin".to_owned(),
            IdentityError::IdNotEqualToAdmin => "The given id isn't equals to the id of the admin".to_owned(),
            IdentityError::AdminNotPresent => "Admin is not present".to_owned(),
            IdentityError::SubjectOfTokenIsEmpty => "The subject is empty".to_owned(),
            IdentityError::TokenCannotBeMadeFromClaim => "Couldn't create a token out of a claim".to_owned(),
            IdentityError::TokenIsEmpty => "Token cannot be emtpy".to_owned(),
            IdentityError::TokenIsInvalid => "Token is invalid".to_owned(),
            IdentityError::IssuerIsInvalid => "Issuer is invalid".to_owned(),
            IdentityError::SignatureHasExpired => "Signature has expired".to_owned(),
            IdentityError::SmtpDomainNotGood => "Stmp domain is not good".to_owned(),
            IdentityError::CouldNotSendEmail => "Could not send the email throught the smtp transport".to_owned(),
            IdentityError::CustomError(e) => e.clone(),
        }
    }
}

} // verus!
