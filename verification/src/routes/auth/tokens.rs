//! Refreshing the access token with a refresh token.

use vstd::prelude::*;

use crate::ids::{hex_decode, is_object_id_text, ObjectId};
use crate::routes::outcome::{string_to_oid, AuthError, AuthReply, Outcome};

verus! {

/// Waiting to know whether the refresh token `token_id` was revoked.
#[derive(Clone, Debug)]
pub struct BlacklistCheck {
    pub token_id: ObjectId,
    pub user_subject: String,
}

/// Waiting for a new access token for `user_subject`.
#[derive(Clone, Debug)]
pub struct AccessIssue {
    pub user_subject: String,
}

pub enum RefreshStep {
    Done(Outcome),
    CheckBlacklist(BlacklistCheck),
    IssueAccess(AccessIssue),
}

/// Starts a refresh with a decoded refresh token: its subject is the token's
/// own id, `user_subject` the user it was issued to. A subject that is not
/// an object id makes the token invalid.
pub fn refresh_token(token_subject: &str, user_subject: String) -> (step: RefreshStep)
    ensures
        !is_object_id_text(token_subject@) ==> step matches RefreshStep::Done(
            Err(AuthError::InvalidToken),
        ),
        is_object_id_text(token_subject@) ==> (step matches RefreshStep::CheckBlacklist(check)
            && check.token_id.bytes@ == hex_decode(token_subject@) && check.user_subject
            == user_subject),
{
    match string_to_oid(token_subject) {
        Err(e) => RefreshStep::Done(Err(e)),
        Ok(token_id) => RefreshStep::CheckBlacklist(BlacklistCheck { token_id, user_subject }),
    }
}

impl BlacklistCheck {
    /// A revoked token is invalid; otherwise an access token is issued.
    pub fn on_checked(self, revoked: Result<bool, ()>) -> (step: RefreshStep)
        ensures
            revoked is Err ==> step matches RefreshStep::Done(Err(AuthError::Internal)),
            revoked == Ok::<bool, ()>(true) ==> step matches RefreshStep::Done(
                Err(AuthError::InvalidToken),
            ),
            revoked == Ok::<bool, ()>(false) ==> (step matches RefreshStep::IssueAccess(issue)
                && issue.user_subject == self.user_subject),
    {
        match revoked {
            Err(()) => RefreshStep::Done(Err(AuthError::Internal)),
            Ok(true) => RefreshStep::Done(Err(AuthError::InvalidToken)),
            Ok(false) => RefreshStep::IssueAccess(AccessIssue { user_subject: self.user_subject }),
        }
    }
}

impl AccessIssue {
    pub fn on_issued(self, access_token: Result<String, ()>) -> (out: Outcome)
        ensures
            access_token is Err ==> out matches Err(AuthError::Internal),
            access_token matches Ok(token) ==> (out matches Ok(AuthReply::Refreshed { access_token })
                && access_token == token),
    {
        match access_token {
            Err(()) => Err(AuthError::Internal),
            Ok(token) => Ok(AuthReply::Refreshed { access_token: token }),
        }
    }
}

} // verus!
