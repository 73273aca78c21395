//! What a route answers: a reply or one of the authentication errors.

use vstd::prelude::*;

use crate::ids::{hex_decode, is_object_id_text, ObjectId};
use crate::repo::users::model::UserResponse;
use crate::validation::PayloadField;

verus! {

/// The account field that a lookup or a uniqueness check was made on.
#[derive(Clone, Copy, Debug, PartialEq, Eq, Structural)]
pub enum IdentityField {
    Email,
    Username,
}

impl IdentityField {
    pub fn as_str(&self) -> (s: &'static str)
        ensures
            *self == IdentityField::Email ==> s@ == "email"@,
            *self == IdentityField::Username ==> s@ == "username"@,
    {
        match self {
            IdentityField::Email => "email",
            IdentityField::Username => "username",
        }
    }
}

/// Why a request was refused.
#[derive(Clone, Debug, PartialEq, Eq)]
pub enum AuthError {
    /// The payload broke the rules of these fields.
    InvalidPayload(Vec<PayloadField>),
    /// Neither an email nor a username was given.
    InvalidCredentials,
    /// A database, token or mail operation failed.
    Internal,
    UserDoesNotExist(IdentityField),
    UserAlreadyExists(IdentityField),
    WrongPassword,
    InvalidToken,
}

/// A successful answer. `Session` and `Refreshed` also set the access token
/// as a cookie.
#[derive(Clone, Debug)]
pub enum AuthReply {
    Session { user: UserResponse, access_token: String, refresh_token: String },
    Refreshed { access_token: String },
    EmailVerified,
    Profile { user: UserResponse },
    ProfileUpdated,
}

impl AuthReply {
    /// The `message` of replies that carry one.
    pub fn message(&self) -> (m: Option<&'static str>)
        ensures
            self is Refreshed ==> (m matches Some(s) && s@ == "Token refreshed."@),
            self is EmailVerified ==> (m matches Some(s) && s@ == "Email verified."@),
            self is ProfileUpdated ==> (m matches Some(s) && s@ == "User updated."@),
            self is Session || self is Profile ==> m is None,
    {
        match self {
            AuthReply::Refreshed { .. } => Some("Token refreshed."),
            AuthReply::EmailVerified => Some("Email verified."),
            AuthReply::ProfileUpdated => Some("User updated."),
            AuthReply::Session { .. } => None,
            AuthReply::Profile { .. } => None,
        }
    }
}

pub type Outcome = Result<AuthReply, AuthError>;

/// The user id that a token subject names; a subject that is not id text
/// makes the token invalid.
pub fn string_to_oid(subject: &str) -> (res: Result<ObjectId, AuthError>)
    ensures
        !is_object_id_text(subject@) ==> res matches Err(AuthError::InvalidToken),
        is_object_id_text(subject@) ==> (res matches Ok(id) && id.bytes@ == hex_decode(subject@)),
{
    match ObjectId::parse_str(subject) {
        Some(id) => Ok(id),
        None => Err(AuthError::InvalidToken),
    }
}

} // verus!
