//! Marking an account's email as verified with the token from the mail.

use vstd::prelude::*;

use crate::ids::{hex_decode, is_object_id_text, ObjectId};
use crate::routes::outcome::{string_to_oid, AuthError, AuthReply, Outcome};

verus! {

/// The query of the verification link.
#[derive(Clone, Debug)]
pub struct Token {
    pub token: String,
}

/// Waiting for `token` to be decoded into its subject.
#[derive(Clone, Debug)]
pub struct TokenDecoding {
    pub token: String,
}

/// Waiting for the account `user_id` to be marked verified.
#[derive(Clone, Debug)]
pub struct EmailVerification {
    pub user_id: ObjectId,
}

pub enum VerifyEmailStep {
    Done(Outcome),
    MarkVerified(EmailVerification),
}

/// Starts a verification: the query's token is decoded first.
pub fn verify_email(query: Token) -> (decoding: TokenDecoding)
    ensures
        decoding.token == query.token,
{
    TokenDecoding { token: query.token }
}

impl TokenDecoding {
    /// A token that does not decode, or whose subject is not an object id,
    /// is invalid; otherwise that account is marked verified.
    pub fn on_decoded(self, subject: Result<String, ()>) -> (step: VerifyEmailStep)
        ensures
            subject is Err ==> step matches VerifyEmailStep::Done(Err(AuthError::InvalidToken)),
            subject matches Ok(s) ==> (!is_object_id_text(s@) ==> step matches VerifyEmailStep::Done(
                Err(AuthError::InvalidToken),
            )),
            subject matches Ok(s) ==> (is_object_id_text(s@) ==> (step matches VerifyEmailStep::MarkVerified(
                marking,
            ) && marking.user_id.bytes@ == hex_decode(s@))),
    {
        match subject {
            Err(()) => VerifyEmailStep::Done(Err(AuthError::InvalidToken)),
            Ok(s) => match string_to_oid(s.as_str()) {
                Err(e) => VerifyEmailStep::Done(Err(e)),
                Ok(user_id) => VerifyEmailStep::MarkVerified(EmailVerification { user_id }),
            },
        }
    }
}

impl EmailVerification {
    pub fn on_marked(self, marked: Result<(), ()>) -> (out: Outcome)
        ensures
            marked is Err ==> out matches Err(AuthError::Internal),
            marked is Ok ==> out matches Ok(AuthReply::EmailVerified),
    {
        match marked {
            Err(()) => Err(AuthError::Internal),
            Ok(()) => Ok(AuthReply::EmailVerified),
        }
    }
}

} // verus!
