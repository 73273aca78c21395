//! The field rules that request payloads are checked against.

use vstd::prelude::*;

verus! {

/// The username pattern of the service: 2 to 32 characters, each a lowercase
/// ASCII letter, a digit, `_` or `-`.
pub const USERNAME_PATTERN: &'static str = "^[a-z0-9_-]{2,32}$";

pub open spec fn is_username_char(c: char) -> bool {
    let n = c as int;
    ||| 97 <= n <= 122
    ||| 48 <= n <= 57
    ||| c == '_'
    ||| c == '-'
}

/// The strings that the username pattern matches as a whole.
pub open spec fn username_shape(s: Seq<char>) -> bool {
    &&& 2 <= s.len() <= 32
    &&& forall|i: int| 0 <= i < s.len() ==> is_username_char(#[trigger] s[i])
}

/// Whether `validator::validate_email` accepts a text (HTML5 address syntax,
/// length limits on both parts, internationalized and literal domains).
pub uninterp spec fn email_accepted(s: Seq<char>) -> bool;

/// Calls `regex::Regex::new(pattern)` and `Regex::is_match(text)` with the
/// username pattern only. Claimed, from the `regex` documentation: `^` and `$`
/// anchor at the start and end of the whole text (no multi-line mode), the
/// class admits exactly `a`-`z`, `0`-`9`, `_` and `-`, and `{2,32}` counts
/// characters; so the text matches exactly when it has that shape. The pattern
/// is valid, so the compilation does not fail.
#[verifier::external_body]
fn regex_is_match(pattern: &str, text: &str) -> (res: bool)
    requires
        pattern@ == USERNAME_PATTERN@,
    ensures
        res == username_shape(text@),
{
    regex::Regex::new(pattern).unwrap().is_match(text)
}

/// Calls `validator::validate_email`. Its result is named `email_accepted`;
/// the one fact stated besides is the source's first test: a text without
/// an `@` is refused.
#[verifier::external_body]
fn validator_email(text: &str) -> (res: bool)
    ensures
        res == email_accepted(text@),
        res ==> text@.contains('@'),
{
    validator::validate_email(text)
}

/// Calls `validator::validate_length` with a lower and an upper bound and no
/// exact length. Claimed, from the source: a `&str` is measured by
/// `chars().count()`, and the result is whether that count lies within both
/// bounds.
#[verifier::external_body]
fn validator_length(text: &str, min: u64, max: u64) -> (res: bool)
    ensures
        res == (min <= text@.len() && text@.len() <= max),
{
    validator::validate_length(text, Some(min), Some(max), None)
}

/// A field of a request payload, named in validation errors.
#[derive(Clone, Copy, Debug, PartialEq, Eq, Structural)]
pub enum PayloadField {
    Username,
    Email,
    Name,
    Password,
    Bio,
    Location,
}

/// Whether a value satisfies the rule of its field.
pub open spec fn field_ok(field: PayloadField, s: Seq<char>) -> bool {
    match field {
        PayloadField::Username => username_shape(s),
        PayloadField::Email => email_accepted(s),
        PayloadField::Name => 2 <= s.len() <= 50,
        PayloadField::Password => 8 <= s.len() <= 72,
        PayloadField::Bio => 1 <= s.len() <= 250,
        PayloadField::Location => 1 <= s.len() <= 250,
    }
}

/// The field, listed once, when its value breaks its rule.
pub open spec fn flag(field: PayloadField, value: Seq<char>) -> Seq<PayloadField> {
    if field_ok(field, value) {
        seq![]
    } else {
        seq![field]
    }
}

/// Like `flag`, for an optional field: an absent value is not checked.
pub open spec fn flag_opt(field: PayloadField, value: Option<String>) -> Seq<PayloadField> {
    match value {
        Some(v) => flag(field, v@),
        None => seq![],
    }
}

impl PayloadField {
    /// The field's name in payloads.
    pub fn name(&self) -> (s: &'static str)
        ensures
            *self == PayloadField::Username ==> s@ == "username"@,
            *self == PayloadField::Email ==> s@ == "email"@,
            *self == PayloadField::Name ==> s@ == "name"@,
            *self == PayloadField::Password ==> s@ == "password"@,
            *self == PayloadField::Bio ==> s@ == "bio"@,
            *self == PayloadField::Location ==> s@ == "location"@,
    {
        match self {
            PayloadField::Username => "username",
            PayloadField::Email => "email",
            PayloadField::Name => "name",
            PayloadField::Password => "password",
            PayloadField::Bio => "bio",
            PayloadField::Location => "location",
        }
    }

    /// The message that tells the client what the field's rule is.
    pub fn message(&self) -> (s: &'static str)
        ensures
            *self == PayloadField::Username ==> s@ == "Invalid username."@,
            *self == PayloadField::Email ==> s@ == "Invalid email."@,
            *self == PayloadField::Name ==> s@ == "Name must be 2-50 characters long."@,
            *self == PayloadField::Password ==> s@ == "Password must be 8-72 characters long."@,
            *self == PayloadField::Bio ==> s@ == "Bio must be 1-250 characters long."@,
            *self == PayloadField::Location ==> s@ == "Location must be 1-250 characters long."@,
    {
        match self {
            PayloadField::Username => "Invalid username.",
            PayloadField::Email => "Invalid email.",
            PayloadField::Name => "Name must be 2-50 characters long.",
            PayloadField::Password => "Password must be 8-72 characters long.",
            PayloadField::Bio => "Bio must be 1-250 characters long.",
            PayloadField::Location => "Location must be 1-250 characters long.",
        }
    }

    /// The code of the rule that the field is checked by: `regex` for the
    /// username pattern, `email` for the email, `length` for the others.
    pub fn code(&self) -> (s: &'static str)
        ensures
            *self == PayloadField::Username ==> s@ == "regex"@,
            *self == PayloadField::Email ==> s@ == "email"@,
            *self != PayloadField::Username && *self != PayloadField::Email ==> s@ == "length"@,
    {
        match self {
            PayloadField::Username => "regex",
            PayloadField::Email => "email",
            PayloadField::Name => "length",
            PayloadField::Password => "length",
            PayloadField::Bio => "length",
            PayloadField::Location => "length",
        }
    }

    /// Checks a value against the rule of this field.
    pub fn accepts(&self, value: &str) -> (ok: bool)
        ensures
            ok == field_ok(*self, value@),
            *self == PayloadField::Username ==> (ok <==> username_shape(value@)),
            *self == PayloadField::Email ==> (ok <==> email_accepted(value@)),
            *self == PayloadField::Name ==> (ok <==> 2 <= value@.len() <= 50),
            *self == PayloadField::Password ==> (ok <==> 8 <= value@.len() <= 72),
            *self == PayloadField::Bio ==> (ok <==> 1 <= value@.len() <= 250),
            *self == PayloadField::Location ==> (ok <==> 1 <= value@.len() <= 250),
    {
        match self {
            PayloadField::Username => regex_is_match(USERNAME_PATTERN, value),
            PayloadField::Email => validator_email(value),
            PayloadField::Name => validator_length(value, 2, 50),
            PayloadField::Password => validator_length(value, 8, 72),
            PayloadField::Bio => validator_length(value, 1, 250),
            PayloadField::Location => validator_length(value, 1, 250),
        }
    }
}

/// Appends `field` to `errors` when `value` breaks its rule.
pub fn check_field(errors: &mut Vec<PayloadField>, field: PayloadField, value: &str)
    ensures
        final(errors)@ == old(errors)@ + flag(field, value@),
{
    if !field.accepts(value) {
        errors.push(field);
    }
    assert(errors@ =~= old(errors)@ + flag(field, value@));
}

/// Appends `field` to `errors` when `value` is present and breaks its rule.
pub fn check_optional_field(errors: &mut Vec<PayloadField>, field: PayloadField, value: &Option<String>)
    ensures
        final(errors)@ == old(errors)@ + flag_opt(field, *value),
{
    match value {
        Some(v) => check_field(errors, field, v.as_str()),
        None => {
            assert(errors@ =~= old(errors)@ + flag_opt(field, *value));
        },
    }
}

/// Each field's rule, as the field's message states it: a username of 2-32
/// characters from `a`-`z`, `0`-`9`, `_`, `-`; an email that `validator`
/// accepts; a name of 2-50 characters; a password of 8-72; a bio and a
/// location of 1-250.
pub proof fn law_field_rules(s: Seq<char>)
    ensures
        field_ok(PayloadField::Username, s) <==> (2 <= s.len() <= 32 && forall|i: int|
            0 <= i < s.len() ==> is_username_char(#[trigger] s[i])),
        field_ok(PayloadField::Email, s) <==> email_accepted(s),
        field_ok(PayloadField::Name, s) <==> (2 <= s.len() && s.len() <= 50),
        field_ok(PayloadField::Password, s) <==> (8 <= s.len() && s.len() <= 72),
        field_ok(PayloadField::Bio, s) <==> (1 <= s.len() && s.len() <= 250),
        field_ok(PayloadField::Location, s) <==> (1 <= s.len() && s.len() <= 250),
{
}

/// A required field is flagged exactly when its value breaks the field's
/// rule, and it flags no other field.
pub proof fn law_required_flag(field: PayloadField, value: Seq<char>)
    ensures
        flag(field, value).contains(field) <==> !field_ok(field, value),
        forall|g: PayloadField| #[trigger] flag(field, value).contains(g) ==> g == field,
{
    if !field_ok(field, value) {
        assert(flag(field, value)[0] == field);
    }
}

/// An optional field is flagged exactly when it is given and breaks its
/// rule, and it flags no other field.
pub proof fn law_optional_flag(field: PayloadField, value: Option<String>)
    ensures
        flag_opt(field, value).contains(field) <==> (value matches Some(v) && !field_ok(field, v@)),
        forall|g: PayloadField| #[trigger] flag_opt(field, value).contains(g) ==> g == field,
{
    match value {
        Some(v) => law_required_flag(field, v@),
        None => {},
    }
}

/// An element is in a concatenation of three sequences exactly when it is in
/// one of them.
pub proof fn lemma_contains_concat3<A>(a: Seq<A>, b: Seq<A>, c: Seq<A>)
    ensures
        forall|x: A| #[trigger] (a + b + c).contains(x) <==> (a.contains(x) || b.contains(x)
            || c.contains(x)),
{
    let e = a + b + c;
    assert forall|x: A| #[trigger] e.contains(x) <==> (a.contains(x) || b.contains(x) || c.contains(
        x,
    )) by {
        if e.contains(x) {
            let i = choose|i: int| 0 <= i < e.len() && e[i] == x;
            if i < a.len() {
                assert(a[i] == x);
            } else if i < a.len() + b.len() {
                assert(b[i - a.len()] == x);
            } else {
                assert(c[i - a.len() - b.len()] == x);
            }
        }
        if a.contains(x) {
            let i = choose|i: int| 0 <= i < a.len() && a[i] == x;
            assert(e[i] == x);
        }
        if b.contains(x) {
            let i = choose|i: int| 0 <= i < b.len() && b[i] == x;
            assert(e[a.len() + i] == x);
        }
        if c.contains(x) {
            let i = choose|i: int| 0 <= i < c.len() && c[i] == x;
            assert(e[a.len() + b.len() + i] == x);
        }
    }
}

/// An element is in a concatenation of four sequences exactly when it is in
/// one of them.
pub proof fn lemma_contains_concat4<A>(a: Seq<A>, b: Seq<A>, c: Seq<A>, d: Seq<A>)
    ensures
        forall|x: A| #[trigger] (a + b + c + d).contains(x) <==> (a.contains(x) || b.contains(x)
            || c.contains(x) || d.contains(x)),
{
    lemma_contains_concat3(a, b, c);
    let e = a + b + c;
    assert forall|x: A| #[trigger] (e + d).contains(x) <==> (e.contains(x) || d.contains(x)) by {
        if (e + d).contains(x) {
            let i = choose|i: int| 0 <= i < (e + d).len() && (e + d)[i] == x;
            if i >= e.len() {
                assert(d[i - e.len()] == x);
            } else {
                assert(e[i] == x);
            }
        }
        if e.contains(x) {
            let i = choose|i: int| 0 <= i < e.len() && e[i] == x;
            assert((e + d)[i] == x);
        }
        if d.contains(x) {
            let i = choose|i: int| 0 <= i < d.len() && d[i] == x;
            assert((e + d)[e.len() + i] == x);
        }
    }
}

} // verus!
