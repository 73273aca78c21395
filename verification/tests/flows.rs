use auth_service::ids::ObjectId;
use auth_service::mailing::mailer::MailContent;
use auth_service::repo::users::model::{Timestamp, User, UserResponse};
use auth_service::repo::users::payload::UserCreatePayload;
use auth_service::routes::auth::login::{login, LoginPayload, LoginStep, UserKey};
use auth_service::routes::auth::register::{register, verification_mail_body, RegisterStep};
use auth_service::routes::auth::session::TokenPair;
use auth_service::routes::auth::tokens::{refresh_token, RefreshStep};
use auth_service::routes::auth::verify_email::{verify_email, Token, VerifyEmailStep};
use auth_service::routes::outcome::{string_to_oid, AuthError, AuthReply, IdentityField};
use auth_service::routes::users::me::{me, update_me, MeStep, UpdateMeStep, UserUpdatePayload};
use auth_service::validation::PayloadField;

const ID_TEXT: &str = "65a1b2c3d4e5f60718293a4b";

fn stored_user() -> User {
    User {
        _id: ObjectId::parse_str(ID_TEXT).unwrap(),
        username: "alice".to_string(),
        email: "alice@example.com".to_string(),
        email_verified: true,
        name: Some("Alice".to_string()),
        avatar_id: None,
        bio: Some("hi".to_string()),
        location: None,
        password: "$argon2id$hash".to_string(),
        created_at: Timestamp { secs: 1_700_000_000, nanos: 123_456_789 },
    }
}

fn pair() -> TokenPair {
    TokenPair { access_token: "at".to_string(), refresh_token: "rt".to_string() }
}

#[test]
fn user_response_keeps_everything_but_the_password() {
    let r = UserResponse::from_user(stored_user());
    assert_eq!(r.id, ID_TEXT);
    assert_eq!(r.username, "alice");
    assert_eq!(r.email, "alice@example.com");
    assert!(r.email_verified);
    assert_eq!(r.name.as_deref(), Some("Alice"));
    assert_eq!(r.bio.as_deref(), Some("hi"));
    assert_eq!(r.location, None);
    assert_eq!(r.created_at, Timestamp { secs: 1_700_000_000, nanos: 123_456_789 });
    assert_eq!(stored_user().get_password_hash(), "$argon2id$hash");
}

#[test]
fn login_by_email_full_run() {
    let payload = LoginPayload {
        email: Some("alice@example.com".to_string()),
        username: Some("alice".to_string()),
        password: "password1".to_string(),
    };
    let lookup = match login(payload) {
        LoginStep::FindUser(l) => l,
        _ => panic!("expected a lookup"),
    };
    assert_eq!(lookup.key, UserKey::Email("alice@example.com".to_string()));
    let check = match lookup.on_user(Ok(Some(stored_user()))) {
        LoginStep::CheckPassword(c) => c,
        _ => panic!("expected a password check"),
    };
    assert_eq!(check.password, "password1");
    let issue = match check.on_checked(true) {
        LoginStep::IssueTokens(i) => i,
        _ => panic!("expected tokens"),
    };
    assert_eq!(issue.subject, ID_TEXT);
    match issue.on_tokens(Ok(pair())) {
        Ok(AuthReply::Session { user, access_token, refresh_token }) => {
            assert_eq!(user.id, ID_TEXT);
            assert_eq!(access_token, "at");
            assert_eq!(refresh_token, "rt");
        }
        _ => panic!("expected a session"),
    }
}

#[test]
fn login_refusals() {
    let no_id = LoginPayload { email: None, username: None, password: "password1".to_string() };
    assert!(matches!(login(no_id), LoginStep::Done(Err(AuthError::InvalidCredentials))));

    let bad = LoginPayload { email: None, username: None, password: "x".to_string() };
    match login(bad) {
        LoginStep::Done(Err(AuthError::InvalidPayload(e))) => assert_eq!(e, vec![PayloadField::Password]),
        _ => panic!("expected invalid payload"),
    }

    let by_name = LoginPayload { email: None, username: Some("bob".to_string()), password: "password1".to_string() };
    let lookup = match login(by_name) {
        LoginStep::FindUser(l) => l,
        _ => panic!("expected a lookup"),
    };
    assert_eq!(lookup.key, UserKey::Username("bob".to_string()));
    assert!(matches!(
        lookup.clone().on_user(Ok(None)),
        LoginStep::Done(Err(AuthError::UserDoesNotExist(IdentityField::Username)))
    ));
    assert!(matches!(lookup.clone().on_user(Err(())), LoginStep::Done(Err(AuthError::Internal))));
    let check = match lookup.on_user(Ok(Some(stored_user()))) {
        LoginStep::CheckPassword(c) => c,
        _ => panic!("expected a password check"),
    };
    assert!(matches!(check.on_checked(false), LoginStep::Done(Err(AuthError::WrongPassword))));
}

#[test]
fn login_missing_email_account_names_email() {
    let p = LoginPayload { email: Some("x@y.z".to_string()), username: None, password: "password1".to_string() };
    let lookup = match login(p) {
        LoginStep::FindUser(l) => l,
        _ => panic!("expected a lookup"),
    };
    assert!(matches!(
        lookup.on_user(Ok(None)),
        LoginStep::Done(Err(AuthError::UserDoesNotExist(IdentityField::Email)))
    ));
}

fn signup() -> UserCreatePayload {
    UserCreatePayload {
        username: "carol".to_string(),
        email: "carol@example.com".to_string(),
        name: None,
        password: "longenough".to_string(),
    }
}

#[test]
fn register_full_run() {
    let check = match register(signup()) {
        RegisterStep::CheckEmail(c) => c,
        _ => panic!("expected email check"),
    };
    let check = match check.on_result(Ok(false)) {
        RegisterStep::CheckUsername(c) => c,
        _ => panic!("expected username check"),
    };
    let hashing = match check.on_result(Ok(false)) {
        RegisterStep::HashPassword(h) => h,
        _ => panic!("expected hashing"),
    };
    assert_eq!(hashing.payload.password, "longenough");
    let storage = match hashing.on_hashed("HASH".to_string()) {
        RegisterStep::StoreUser(s) => s,
        _ => panic!("expected storage"),
    };
    assert_eq!(storage.user.username, "carol");
    assert_eq!(storage.user.password, "HASH");
    assert!(!storage.user.email_verified);
    assert!(storage.user.avatar_id.is_none() && storage.user.bio.is_none() && storage.user.location.is_none());
    let id = storage.user._id;
    let token = match storage.on_stored(Ok(())) {
        RegisterStep::IssueVerification(t) => t,
        _ => panic!("expected verification token"),
    };
    assert_eq!(token.subject, id.to_hex());
    assert_eq!(token.valid_minutes, 10);
    let mail = match token.on_encoded("TOKEN", "example.org", true) {
        RegisterStep::SendVerification(m) => m,
        _ => panic!("expected mail"),
    };
    assert_eq!(mail.mail.to, "carol@example.com");
    assert_eq!(mail.mail.from, "Postland");
    assert_eq!(mail.mail.subject, "Verify your email");
    assert_eq!(mail.mail.content_type, Some(MailContent::Html));
    assert!(mail.mail.body.contains("https://example.org/api/auth/verify_email?token=TOKEN"));
    let issue = match mail.on_sent(Ok(())) {
        RegisterStep::IssueTokens(i) => i,
        _ => panic!("expected tokens"),
    };
    match issue.on_tokens(Ok(pair())) {
        Ok(AuthReply::Session { user, .. }) => {
            assert_eq!(user.id, id.to_hex());
            assert!(!user.email_verified);
        }
        _ => panic!("expected a session"),
    }
}

#[test]
fn register_refusals() {
    let mut bad = signup();
    bad.email = "no-at-sign".to_string();
    match register(bad) {
        RegisterStep::Done(Err(AuthError::InvalidPayload(e))) => assert_eq!(e, vec![PayloadField::Email]),
        _ => panic!("expected invalid payload"),
    }
    let check = match register(signup()) {
        RegisterStep::CheckEmail(c) => c,
        _ => panic!(),
    };
    assert!(matches!(
        check.clone().on_result(Ok(true)),
        RegisterStep::Done(Err(AuthError::UserAlreadyExists(IdentityField::Email)))
    ));
    assert!(matches!(check.clone().on_result(Err(())), RegisterStep::Done(Err(AuthError::Internal))));
    let check = match check.on_result(Ok(false)) {
        RegisterStep::CheckUsername(c) => c,
        _ => panic!(),
    };
    assert!(matches!(
        check.on_result(Ok(true)),
        RegisterStep::Done(Err(AuthError::UserAlreadyExists(IdentityField::Username)))
    ));
}

#[test]
fn verification_body_text() {
    assert_eq!(
        verification_mail_body("localhost:8080", "abc.def", false),
        "<h1>Complete sign-up.</h1><a href=\"http://localhost:8080/api/auth/verify_email?token=abc.def\">Click here to verify email.</a><p>Link is valid for 10 minutes.</p>"
    );
    assert!(verification_mail_body("h", "t", true).starts_with("<h1>Complete sign-up.</h1><a href=\"https://h/"));
}

#[test]
fn refresh_flow() {
    assert!(matches!(refresh_token("nope", "u".to_string()), RefreshStep::Done(Err(AuthError::InvalidToken))));
    let check = match refresh_token(ID_TEXT, "user-1".to_string()) {
        RefreshStep::CheckBlacklist(c) => c,
        _ => panic!(),
    };
    assert_eq!(check.token_id.to_hex(), ID_TEXT);
    assert!(matches!(check.clone().on_checked(Ok(true)), RefreshStep::Done(Err(AuthError::InvalidToken))));
    assert!(matches!(check.clone().on_checked(Err(())), RefreshStep::Done(Err(AuthError::Internal))));
    let issue = match check.on_checked(Ok(false)) {
        RefreshStep::IssueAccess(i) => i,
        _ => panic!(),
    };
    assert_eq!(issue.user_subject, "user-1");
    assert!(matches!(issue.clone().on_issued(Err(())), Err(AuthError::Internal)));
    match issue.on_issued(Ok("new-at".to_string())) {
        Ok(reply @ AuthReply::Refreshed { .. }) => {
            assert_eq!(reply.message(), Some("Token refreshed."));
            if let AuthReply::Refreshed { access_token } = reply {
                assert_eq!(access_token, "new-at");
            }
        }
        _ => panic!(),
    }
}

#[test]
fn verify_email_flow() {
    let decoding = verify_email(Token { token: "jwt".to_string() });
    assert_eq!(decoding.token, "jwt");
    assert!(matches!(decoding.clone().on_decoded(Err(())), VerifyEmailStep::Done(Err(AuthError::InvalidToken))));
    assert!(matches!(
        decoding.clone().on_decoded(Ok("not-an-id".to_string())),
        VerifyEmailStep::Done(Err(AuthError::InvalidToken))
    ));
    let marking = match decoding.on_decoded(Ok(ID_TEXT.to_string())) {
        VerifyEmailStep::MarkVerified(m) => m,
        _ => panic!(),
    };
    assert_eq!(marking.user_id.to_hex(), ID_TEXT);
    assert!(matches!(marking.clone().on_marked(Err(())), Err(AuthError::Internal)));
    let reply = marking.on_marked(Ok(())).unwrap();
    assert_eq!(reply.message(), Some("Email verified."));
}

#[test]
fn me_flow() {
    assert!(matches!(me("bad"), MeStep::Done(Err(AuthError::InvalidToken))));
    let lookup = match me(ID_TEXT) {
        MeStep::FindUser(l) => l,
        _ => panic!(),
    };
    assert_eq!(lookup.user_id.to_hex(), ID_TEXT);
    assert!(matches!(lookup.clone().on_user(Ok(None)), Err(AuthError::InvalidToken)));
    assert!(matches!(lookup.clone().on_user(Err(())), Err(AuthError::Internal)));
    match lookup.on_user(Ok(Some(stored_user()))) {
        Ok(reply @ AuthReply::Profile { .. }) => {
            assert_eq!(reply.message(), None);
            if let AuthReply::Profile { user } = reply {
                assert_eq!(user.username, "alice");
            }
        }
        _ => panic!(),
    }
}

#[test]
fn update_me_flow() {
    let payload = UserUpdatePayload { name: Some("Al".to_string()), bio: None, location: Some("Oslo".to_string()) };
    let update = match update_me(ID_TEXT, payload.clone()) {
        UpdateMeStep::Update(u) => u,
        _ => panic!(),
    };
    assert_eq!(update.name.as_deref(), Some("Al"));
    assert_eq!(update.bio, None);
    assert_eq!(update.location.as_deref(), Some("Oslo"));
    assert!(matches!(update_me("bad", payload), UpdateMeStep::Done(Err(AuthError::InvalidToken))));
    let bad = UserUpdatePayload { name: Some("A".to_string()), bio: None, location: None };
    assert!(matches!(update_me("bad", bad), UpdateMeStep::Done(Err(AuthError::InvalidPayload(_)))));
    assert!(matches!(update.clone().on_updated(Err(())), Err(AuthError::Internal)));
    assert_eq!(update.on_updated(Ok(())).unwrap().message(), Some("User updated."));
}

#[test]
fn string_to_oid_errors_are_invalid_token() {
    assert_eq!(string_to_oid("xyz"), Err(AuthError::InvalidToken));
    assert_eq!(string_to_oid(ID_TEXT).unwrap().to_hex(), ID_TEXT);
    assert_eq!(IdentityField::Email.as_str(), "email");
    assert_eq!(IdentityField::Username.as_str(), "username");
}

#[test]
fn new_accounts_start_unverified_and_bare() {
    let id = ObjectId::from_bytes([7; 12]);
    let at = Timestamp { secs: 42, nanos: 7 };
    let user = User::from_parts(signup(), id, "HASH".to_string(), at);
    assert_eq!(user._id, id);
    assert_eq!(user.created_at, at);
    assert_eq!(user.username, "carol");
    assert_eq!(user.email, "carol@example.com");
    assert_eq!(user.name, None);
    assert_eq!(user.password, "HASH");
    assert!(!user.email_verified);
    assert!(user.avatar_id.is_none() && user.bio.is_none() && user.location.is_none());
    let fresh = User::from_create_payload(signup(), "H2".to_string());
    assert_eq!(fresh.password, "H2");
    assert!(fresh.created_at.secs > 1_600_000_000 && fresh.created_at.nanos < 1_000_000_000);
    assert!(!fresh.email_verified);
}

#[test]
fn ids_told_to_clients_and_tokens_name_the_user() {
    let user = stored_user();
    let response = UserResponse::from_user(user.clone());
    assert_eq!(ObjectId::parse_str(&response.id), Some(user._id));
    let issue = auth_service::routes::auth::session::SessionIssue::for_user(user.clone());
    match me(&issue.subject) {
        MeStep::FindUser(lookup) => assert_eq!(lookup.user_id, user._id),
        _ => panic!("the session subject must name the user"),
    }
}

#[test]
fn revoked_token_record() {
    let id = ObjectId::from_bytes([1; 12]);
    let record = auth_service::repo::tokens::model::RefreshToken::new(id);
    assert_eq!(record._id, id);
}
