//! The last step of signing in or up: a token pair for the account.

use vstd::prelude::*;

use crate::ids::{hex_decode, hex_lower, is_object_id_text, law_hex_round_trip};
use crate::repo::users::model::{User, UserResponse};
use crate::routes::outcome::{AuthError, AuthReply, Outcome};

verus! {

/// An access token and a refresh token, as the token service issued them.
#[derive(Clone, Debug)]
pub struct TokenPair {
    pub access_token: String,
    pub refresh_token: String,
}

/// Waiting for a token pair whose subject is the user's id (lowercase hex).
#[derive(Clone, Debug)]
pub struct SessionIssue {
    pub user: User,
    pub subject: String,
}

impl SessionIssue {
    pub fn for_user(user: User) -> (issue: SessionIssue)
        ensures
            issue.user == user,
            issue.subject@ == hex_lower(user._id.bytes@),
    {
        let subject = user._id.to_hex();
        SessionIssue { user, subject }
    }

    /// A failed issue is an internal error; otherwise the session reply
    /// carries the user's client view and both tokens.
    pub fn on_tokens(self, tokens: Result<TokenPair, ()>) -> (out: Outcome)
        ensures
            tokens is Err ==> out matches Err(AuthError::Internal),
            tokens matches Ok(pair) ==> (out matches Ok(
                AuthReply::Session { user, access_token, refresh_token },
            ) && user.describes(self.user) && access_token == pair.access_token && refresh_token
                == pair.refresh_token),
    {
        match tokens {
            Err(()) => Err(AuthError::Internal),
            Ok(pair) => Ok(
                AuthReply::Session {
                    user: UserResponse::from_user(self.user),
                    access_token: pair.access_token,
                    refresh_token: pair.refresh_token,
                },
            ),
        }
    }
}

/// The subject that a session is issued on names the session's user: a token
/// that carries it back is accepted as object id text, and it parses to the
/// user's id.
pub proof fn law_session_subject_names_user(issue: SessionIssue)
    requires
        issue.subject@ == hex_lower(issue.user._id.bytes@),
    ensures
        is_object_id_text(issue.subject@),
        hex_decode(issue.subject@) == issue.user._id.bytes@,
{
    law_hex_round_trip(issue.user._id.bytes@);
}

} // verus!
