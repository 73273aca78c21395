//! Signing in with an email or a username and a password.

use vstd::prelude::*;

use crate::ids::hex_lower;
use crate::repo::users::model::User;
use crate::routes::auth::session::SessionIssue;
use crate::routes::outcome::{AuthError, IdentityField, Outcome};
use crate::validation::{email_accepted, username_shape};
use crate::validation::{
    check_field, check_optional_field, flag, flag_opt, law_optional_flag, law_required_flag, PayloadField,
};

verus! {

/// What a client sends to sign in: an email or a username, and a password.
#[derive(Clone, Debug)]
pub struct LoginPayload {
    pub email: Option<String>,
    pub username: Option<String>,
    pub password: String,
}

impl LoginPayload {
    /// The fields that break their rules, in declaration order; absent
    /// identifiers are not checked.
    pub open spec fn validation_errors(&self) -> Seq<PayloadField> {
        flag_opt(PayloadField::Email, self.email) + flag_opt(PayloadField::Username, self.username)
            + flag(PayloadField::Password, self.password@)
    }

    pub fn validate(&self) -> (res: Result<(), Vec<PayloadField>>)
        ensures
            res is Ok <==> self.validation_errors().len() == 0,
            res matches Err(errors) ==> errors@ == self.validation_errors(),
    {
        let mut errors: Vec<PayloadField> = Vec::new();
        check_optional_field(&mut errors, PayloadField::Email, &self.email);
        check_optional_field(&mut errors, PayloadField::Username, &self.username);
        check_field(&mut errors, PayloadField::Password, self.password.as_str());
        assert(errors@ =~= self.validation_errors());
        if errors.len() == 0 {
            Ok(())
        } else {
            Err(errors)
        }
    }
}

/// How an account is looked up.
#[derive(Clone, Debug, PartialEq, Eq)]
pub enum UserKey {
    Email(String),
    Username(String),
}

impl UserKey {
    pub open spec fn field(&self) -> IdentityField {
        match self {
            UserKey::Email(_) => IdentityField::Email,
            UserKey::Username(_) => IdentityField::Username,
        }
    }
}

/// Waiting for the account that `key` names.
#[derive(Clone, Debug)]
pub struct UserLookup {
    pub key: UserKey,
    pub password: String,
}

/// Waiting for the check of `password` against the user's stored hash.
#[derive(Clone, Debug)]
pub struct PasswordCheck {
    pub user: User,
    pub password: String,
}

/// Where a sign-in stands: answered, or waiting for an outside operation.
pub enum LoginStep {
    Done(Outcome),
    FindUser(UserLookup),
    CheckPassword(PasswordCheck),
    IssueTokens(SessionIssue),
}

/// Starts a sign-in. An invalid payload is refused before anything is looked
/// up; so is one without email and username. The account is looked up by
/// email when one is given, else by username.
pub fn login(payload: LoginPayload) -> (step: LoginStep)
    ensures
        payload.validation_errors().len() > 0 ==> (step matches LoginStep::Done(
            Err(AuthError::InvalidPayload(errors)),
        ) && errors@ == payload.validation_errors()),
        payload.validation_errors().len() == 0 && payload.email is None && payload.username is None
            ==> step matches LoginStep::Done(Err(AuthError::InvalidCredentials)),
        payload.validation_errors().len() == 0 && payload.email is Some ==> (step matches LoginStep::FindUser(
            lookup,
        ) && lookup.key == UserKey::Email(payload.email->0) && lookup.password == payload.password),
        payload.validation_errors().len() == 0 && payload.email is None && payload.username is Some
            ==> (step matches LoginStep::FindUser(lookup) && lookup.key == UserKey::Username(
            payload.username->0,
        ) && lookup.password == payload.password),
{
    match payload.validate() {
        Err(errors) => {
            return LoginStep::Done(Err(AuthError::InvalidPayload(errors)));
        },
        Ok(()) => {},
    }
    match payload.email {
        Some(email) => LoginStep::FindUser(
            UserLookup { key: UserKey::Email(email), password: payload.password },
        ),
        None => match payload.username {
            Some(username) => LoginStep::FindUser(
                UserLookup { key: UserKey::Username(username), password: payload.password },
            ),
            None => LoginStep::Done(Err(AuthError::InvalidCredentials)),
        },
    }
}

impl UserLookup {
    /// A failed lookup is an internal error; a missing account is reported on
    /// the field that was looked up; a found account has its password checked.
    pub fn on_user(self, found: Result<Option<User>, ()>) -> (step: LoginStep)
        ensures
            found is Err ==> step matches LoginStep::Done(Err(AuthError::Internal)),
            found matches Ok(None) ==> (step matches LoginStep::Done(
                Err(AuthError::UserDoesNotExist(field)),
            ) && field == self.key.field()),
            found matches Ok(None) && self.key is Email ==> step matches LoginStep::Done(
                Err(AuthError::UserDoesNotExist(IdentityField::Email)),
            ),
            found matches Ok(None) && self.key is Username ==> step matches LoginStep::Done(
                Err(AuthError::UserDoesNotExist(IdentityField::Username)),
            ),
            found matches Ok(Some(user)) ==> (step matches LoginStep::CheckPassword(check)
                && check.user == user && check.password == self.password),
    {
        match found {
            Err(()) => LoginStep::Done(Err(AuthError::Internal)),
            Ok(None) => {
                let field = match self.key {
                    UserKey::Email(_) => IdentityField::Email,
                    UserKey::Username(_) => IdentityField::Username,
                };
                LoginStep::Done(Err(AuthError::UserDoesNotExist(field)))
            },
            Ok(Some(user)) => LoginStep::CheckPassword(PasswordCheck { user, password: self.password }),
        }
    }
}

impl PasswordCheck {
    /// Tokens are issued only when the password matched the stored hash.
    pub fn on_checked(self, verified: bool) -> (step: LoginStep)
        ensures
            !verified ==> step matches LoginStep::Done(Err(AuthError::WrongPassword)),
            verified ==> (step matches LoginStep::IssueTokens(issue) && issue.user == self.user
                && issue.subject@ == hex_lower(self.user._id.bytes@)),
    {
        if verified {
            LoginStep::IssueTokens(SessionIssue::for_user(self.user))
        } else {
            LoginStep::Done(Err(AuthError::WrongPassword))
        }
    }
}

/// A sign-in payload is refused exactly for the given identifiers that break
/// their rules and for a password outside 8-72 characters; an absent email or
/// username is never checked.
pub proof fn law_login_validation(payload: LoginPayload)
    ensures
        payload.validation_errors().contains(PayloadField::Email) <==> (payload.email matches Some(e)
            && !email_accepted(e@)),
        payload.validation_errors().contains(PayloadField::Username) <==> (
        payload.username matches Some(u) && !username_shape(u@)),
        payload.validation_errors().contains(PayloadField::Password) <==> !(8
            <= payload.password@.len() && payload.password@.len() <= 72),
        forall|f: PayloadField| #[trigger] payload.validation_errors().contains(f) ==> f
            == PayloadField::Email || f == PayloadField::Username || f == PayloadField::Password,
{
    let a = flag_opt(PayloadField::Email, payload.email);
    let b = flag_opt(PayloadField::Username, payload.username);
    let c = flag(PayloadField::Password, payload.password@);
    law_optional_flag(PayloadField::Email, payload.email);
    law_optional_flag(PayloadField::Username, payload.username);
    law_required_flag(PayloadField::Password, payload.password@);
    crate::validation::lemma_contains_concat3(a, b, c);
}

} // verus!
