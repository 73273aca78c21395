//! Signing up: uniqueness checks, storing the account, the verification mail
//! and the first session.

use vstd::prelude::*;

use crate::ids::hex_lower;
use crate::mailing::mailer::{MailContent, MailRequest};
use crate::repo::users::model::User;
use crate::repo::users::payload::UserCreatePayload;
use crate::routes::auth::session::SessionIssue;
use crate::routes::outcome::{AuthError, IdentityField, Outcome};

verus! {

/// How long, in minutes, an email verification token stays valid.
pub const VERIFICATION_TOKEN_MINUTES: i64 = 10;

/// The HTML body of the verification mail: a link to the verification route
/// on `host` that carries `token`, over https unless `secure` is false.
pub open spec fn verification_body(host: Seq<char>, token: Seq<char>, secure: bool) -> Seq<char> {
    "<h1>Complete sign-up.</h1><a href=\""@ + (if secure {
        "https://"@
    } else {
        "http://"@
    }) + host + "/api/auth/verify_email?token="@ + token
        + "\">Click here to verify email.</a><p>Link is valid for 10 minutes.</p>"@
}

/// The verification link stands in the body unchanged: after the 35
/// characters of `<h1>Complete sign-up.</h1><a href="` come `https://` (or
/// `http://` when not `secure`), then the host, then
/// `/api/auth/verify_email?token=` (29 characters), then the token.
pub proof fn law_verification_link(host: Seq<char>, token: Seq<char>, secure: bool)
    ensures
        ({
            let body = verification_body(host, token, secure);
            let scheme_len: int = if secure { 8 } else { 7 };
            let at_host = 35 + scheme_len;
            let at_token = at_host + host.len() + 29;
            &&& body.len() == at_token + token.len() + 69
            &&& body.subrange(35, 39) == seq!['h', 't', 't', 'p']
            &&& (secure <==> body[39] == 's')
            &&& body.subrange(at_host, at_host + host.len()) == host
            &&& body.subrange(at_token, at_token + token.len()) == token
        }),
{
    reveal_strlit("<h1>Complete sign-up.</h1><a href=\"");
    reveal_strlit("https://");
    reveal_strlit("http://");
    reveal_strlit("/api/auth/verify_email?token=");
    reveal_strlit("\">Click here to verify email.</a><p>Link is valid for 10 minutes.</p>");
    let body = verification_body(host, token, secure);
    let scheme_len: int = if secure { 8 } else { 7 };
    let at_host = 35 + scheme_len;
    let at_token = at_host + host.len() + 29;
    assert(body.subrange(35, 39) =~= seq!['h', 't', 't', 'p']);
    assert(body.subrange(at_host, at_host + host.len()) =~= host);
    assert(body.subrange(at_token, at_token + token.len()) =~= token);
}

pub fn verification_mail_body(host: &str, token: &str, secure: bool) -> (body: String)
    ensures
        body@ == verification_body(host@, token@, secure),
{
    let mut body = String::from_str("<h1>Complete sign-up.</h1><a href=\"");
    if secure {
        body.append("https://");
    } else {
        body.append("http://");
    }
    body.append(host);
    body.append("/api/auth/verify_email?token=");
    body.append(token);
    body.append("\">Click here to verify email.</a><p>Link is valid for 10 minutes.</p>");
    body
}

/// Waiting to know whether an account already has the payload's email.
#[derive(Clone, Debug)]
pub struct EmailCheck {
    pub payload: UserCreatePayload,
}

/// Waiting to know whether an account already has the payload's username.
#[derive(Clone, Debug)]
pub struct UsernameCheck {
    pub payload: UserCreatePayload,
}

/// Waiting for the hash of the payload's password.
#[derive(Clone, Debug)]
pub struct PasswordHashing {
    pub payload: UserCreatePayload,
}

/// Waiting for the new account to be stored.
#[derive(Clone, Debug)]
pub struct UserStorage {
    pub user: User,
}

/// Waiting for an access token on `subject`, valid for `valid_minutes`, and
/// for the host the request came to.
#[derive(Clone, Debug)]
pub struct VerificationToken {
    pub user: User,
    pub subject: String,
    pub valid_minutes: i64,
}

/// Waiting for the verification mail to be sent.
#[derive(Clone, Debug)]
pub struct VerificationMail {
    pub user: User,
    pub mail: MailRequest,
}

/// Where a sign-up stands: answered, or waiting for an outside operation.
pub enum RegisterStep {
    Done(Outcome),
    CheckEmail(EmailCheck),
    CheckUsername(UsernameCheck),
    HashPassword(PasswordHashing),
    StoreUser(UserStorage),
    IssueVerification(VerificationToken),
    SendVerification(VerificationMail),
    IssueTokens(SessionIssue),
}

/// Starts a sign-up: an invalid payload is refused before any lookup.
pub fn register(payload: UserCreatePayload) -> (step: RegisterStep)
    ensures
        payload.validation_errors().len() > 0 ==> (step matches RegisterStep::Done(
            Err(AuthError::InvalidPayload(errors)),
        ) && errors@ == payload.validation_errors()),
        payload.validation_errors().len() == 0 ==> (step matches RegisterStep::CheckEmail(check)
            && check.payload == payload),
{
    match payload.validate() {
        Err(errors) => RegisterStep::Done(Err(AuthError::InvalidPayload(errors))),
        Ok(()) => RegisterStep::CheckEmail(EmailCheck { payload }),
    }
}

impl EmailCheck {
    /// A taken email refuses the sign-up; the username is checked next.
    pub fn on_result(self, taken: Result<bool, ()>) -> (step: RegisterStep)
        ensures
            taken is Err ==> step matches RegisterStep::Done(Err(AuthError::Internal)),
            taken == Ok::<bool, ()>(true) ==> step matches RegisterStep::Done(
                Err(AuthError::UserAlreadyExists(IdentityField::Email)),
            ),
            taken == Ok::<bool, ()>(false) ==> (step matches RegisterStep::CheckUsername(check)
                && check.payload == self.payload),
    {
        match taken {
            Err(()) => RegisterStep::Done(Err(AuthError::Internal)),
            Ok(true) => RegisterStep::Done(Err(AuthError::UserAlreadyExists(IdentityField::Email))),
            Ok(false) => RegisterStep::CheckUsername(UsernameCheck { payload: self.payload }),
        }
    }
}

impl UsernameCheck {
    /// A taken username refuses the sign-up; the password is hashed next.
    pub fn on_result(self, taken: Result<bool, ()>) -> (step: RegisterStep)
        ensures
            taken is Err ==> step matches RegisterStep::Done(Err(AuthError::Internal)),
            taken == Ok::<bool, ()>(true) ==> step matches RegisterStep::Done(
                Err(AuthError::UserAlreadyExists(IdentityField::Username)),
            ),
            taken == Ok::<bool, ()>(false) ==> (step matches RegisterStep::HashPassword(hashing)
                && hashing.payload == self.payload),
    {
        match taken {
            Err(()) => RegisterStep::Done(Err(AuthError::Internal)),
            Ok(true) => RegisterStep::Done(
                Err(AuthError::UserAlreadyExists(IdentityField::Username)),
            ),
            Ok(false) => RegisterStep::HashPassword(PasswordHashing { payload: self.payload }),
        }
    }
}

impl PasswordHashing {
    /// The new account, holding the hash, is stored next.
    pub fn on_hashed(self, password_hash: String) -> (step: RegisterStep)
        ensures
            step matches RegisterStep::StoreUser(storage) && storage.user.is_new_account(
                self.payload,
                password_hash,
            ) && storage.user.created_at.secs >= 0 && storage.user.created_at.nanos < 1_000_000_000,
    {
        RegisterStep::StoreUser(
            UserStorage { user: User::from_create_payload(self.payload, password_hash) },
        )
    }
}

impl UserStorage {
    /// Once stored, a verification token for the account's id is asked for.
    pub fn on_stored(self, stored: Result<(), ()>) -> (step: RegisterStep)
        ensures
            stored is Err ==> step matches RegisterStep::Done(Err(AuthError::Internal)),
            stored is Ok ==> (step matches RegisterStep::IssueVerification(token) && token.user
                == self.user && token.subject@ == hex_lower(self.user._id.bytes@)
                && token.valid_minutes == VERIFICATION_TOKEN_MINUTES),
    {
        match stored {
            Err(()) => RegisterStep::Done(Err(AuthError::Internal)),
            Ok(()) => {
                let subject = self.user._id.to_hex();
                RegisterStep::IssueVerification(
                    VerificationToken {
                        user: self.user,
                        subject,
                        valid_minutes: VERIFICATION_TOKEN_MINUTES,
                    },
                )
            },
        }
    }
}

impl VerificationToken {
    /// The verification mail goes to the account's email, from "Postland",
    /// as HTML carrying the link with the token.
    pub fn on_encoded(self, token: &str, host: &str, secure: bool) -> (step: RegisterStep)
        ensures
            step matches RegisterStep::SendVerification(sending) && sending.user == self.user
                && sending.mail.to == self.user.email && sending.mail.from@ == "Postland"@
                && sending.mail.subject@ == "Verify your email"@ && sending.mail.body@
                == verification_body(host@, token@, secure) && sending.mail.content_type == Some(
                MailContent::Html,
            ),
    {
        let body = verification_mail_body(host, token, secure);
        let mail = MailRequest {
            to: self.user.email.clone(),
            from: String::from_str("Postland"),
            subject: String::from_str("Verify your email"),
            body,
            content_type: Some(MailContent::Html),
        };
        RegisterStep::SendVerification(VerificationMail { user: self.user, mail })
    }
}

impl VerificationMail {
    /// Once the mail is out, a session is issued for the new account.
    pub fn on_sent(self, sent: Result<(), ()>) -> (step: RegisterStep)
        ensures
            sent is Err ==> step matches RegisterStep::Done(Err(AuthError::Internal)),
            sent is Ok ==> (step matches RegisterStep::IssueTokens(issue) && issue.user == self.user
                && issue.subject@ == hex_lower(self.user._id.bytes@)),
    {
        match sent {
            Err(()) => RegisterStep::Done(Err(AuthError::Internal)),
            Ok(()) => RegisterStep::IssueTokens(SessionIssue::for_user(self.user)),
        }
    }
}

} // verus!
