use auth_service::repo::users::payload::UserCreatePayload;
use auth_service::routes::auth::login::LoginPayload;
use auth_service::routes::users::me::UserUpdatePayload;
use auth_service::validation::PayloadField;

fn create(username: &str, email: &str, name: Option<&str>, password: &str) -> UserCreatePayload {
    UserCreatePayload {
        username: username.to_string(),
        email: email.to_string(),
        name: name.map(|n| n.to_string()),
        password: password.to_string(),
    }
}

#[test]
fn username_rule() {
    let f = PayloadField::Username;
    assert!(f.accepts("ab"));
    assert!(f.accepts("user_name-42"));
    assert!(f.accepts(&"a".repeat(32)));
    assert!(!f.accepts("a"));
    assert!(!f.accepts(&"a".repeat(33)));
    assert!(!f.accepts("Upper"));
    assert!(!f.accepts("with space"));
    assert!(!f.accepts("dot.ted"));
    assert!(!f.accepts("trailing\n"));
}

#[test]
fn email_rule() {
    let f = PayloadField::Email;
    assert!(f.accepts("email@here.com"));
    assert!(f.accepts("abc@bar"));
    assert!(!f.accepts(""));
    assert!(!f.accepts("abc"));
    assert!(!f.accepts("abc@"));
    assert!(!f.accepts("a @x.cz"));
    assert!(!f.accepts("something@@somewhere.com"));
}

#[test]
fn length_rules_count_characters() {
    assert!(PayloadField::Name.accepts("éé"));
    assert!(!PayloadField::Name.accepts("é"));
    assert!(PayloadField::Name.accepts(&"n".repeat(50)));
    assert!(!PayloadField::Name.accepts(&"n".repeat(51)));
    assert!(PayloadField::Password.accepts("12345678"));
    assert!(!PayloadField::Password.accepts("1234567"));
    assert!(PayloadField::Password.accepts(&"p".repeat(72)));
    assert!(!PayloadField::Password.accepts(&"p".repeat(73)));
    assert!(PayloadField::Bio.accepts("x"));
    assert!(!PayloadField::Bio.accepts(""));
    assert!(!PayloadField::Location.accepts(&"l".repeat(251)));
}

#[test]
fn field_names_and_messages() {
    assert_eq!(PayloadField::Username.name(), "username");
    assert_eq!(PayloadField::Username.message(), "Invalid username.");
    assert_eq!(PayloadField::Email.message(), "Invalid email.");
    assert_eq!(PayloadField::Name.message(), "Name must be 2-50 characters long.");
    assert_eq!(PayloadField::Password.message(), "Password must be 8-72 characters long.");
    assert_eq!(PayloadField::Bio.message(), "Bio must be 1-250 characters long.");
    assert_eq!(PayloadField::Location.name(), "location");
    assert_eq!(PayloadField::Location.message(), "Location must be 1-250 characters long.");
    assert_eq!(PayloadField::Username.code(), "regex");
    assert_eq!(PayloadField::Email.code(), "email");
    assert_eq!(PayloadField::Password.code(), "length");
    assert_eq!(PayloadField::Bio.code(), "length");
}

#[test]
fn create_payload_valid() {
    assert_eq!(create("alice", "alice@example.com", None, "hunter2hunter2").validate(), Ok(()));
    assert_eq!(create("alice", "alice@example.com", Some("Alice"), "hunter2hunter2").validate(), Ok(()));
}

#[test]
fn create_payload_lists_every_broken_field_in_order() {
    let errors = create("A", "nope", Some("x"), "short").validate().unwrap_err();
    assert_eq!(
        errors,
        vec![PayloadField::Username, PayloadField::Email, PayloadField::Name, PayloadField::Password]
    );
    let errors = create("alice", "alice@example.com", None, "short").validate().unwrap_err();
    assert_eq!(errors, vec![PayloadField::Password]);
}

#[test]
fn login_payload_checks_only_given_identifiers() {
    let p = LoginPayload { email: None, username: None, password: "password1".to_string() };
    assert_eq!(p.validate(), Ok(()));
    let p = LoginPayload {
        email: Some("bad".to_string()),
        username: Some("Bad Name".to_string()),
        password: "pw".to_string(),
    };
    assert_eq!(
        p.validate(),
        Err(vec![PayloadField::Email, PayloadField::Username, PayloadField::Password])
    );
}

#[test]
fn update_payload_rules() {
    let p = UserUpdatePayload { name: None, bio: None, location: None };
    assert_eq!(p.validate(), Ok(()));
    let p = UserUpdatePayload {
        name: Some("N".to_string()),
        bio: Some(String::new()),
        location: Some("Paris".to_string()),
    };
    assert_eq!(p.validate(), Err(vec![PayloadField::Name, PayloadField::Bio]));
}
