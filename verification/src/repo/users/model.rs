//! The stored user record and the view of it that clients get.

use vstd::prelude::*;

use crate::ids::{hex_decode, hex_lower, is_object_id_text, law_hex_round_trip, ObjectId};
use crate::repo::users::payload::UserCreatePayload;

verus! {

/// A point in time, at chrono's full precision: whole seconds since the Unix
/// epoch and the nanoseconds past that second.
#[derive(Clone, Copy, Debug, PartialEq, Eq, Hash, Structural)]
pub struct Timestamp {
    pub secs: i64,
    pub nanos: u32,
}

/// Calls `chrono::Utc::now`, read back with `DateTime::timestamp` and
/// `DateTime::timestamp_subsec_nanos`. The clock's reading; claimed, from the
/// source (`Utc::now` builds it from the system time's offset from the Unix
/// epoch and its sub-second nanoseconds): it is not before 1970, and its
/// nanoseconds are below one second. `Utc::now` panics when the system clock
/// reads before 1970, which no argument can rule out.
#[verifier::external_body]
fn utc_now() -> (now: Timestamp)
    ensures
        now.secs >= 0,
        now.nanos < 1_000_000_000,
{
    let now = chrono::Utc::now();
    Timestamp { secs: now.timestamp(), nanos: now.timestamp_subsec_nanos() }
}

/// A user account as stored. `password` is the hash of the password, never
/// the password.
#[derive(Clone, Debug)]
pub struct User {
    pub _id: ObjectId,
    pub username: String,
    pub email: String,
    pub email_verified: bool,
    pub name: Option<String>,
    pub avatar_id: Option<u128>,
    pub bio: Option<String>,
    pub location: Option<String>,
    pub password: String,
    pub created_at: Timestamp,
}

impl User {
    /// `self` is an account just made from `payload`: unverified, without
    /// avatar, bio or location, holding `password_hash` as its password.
    pub open spec fn is_new_account(&self, payload: UserCreatePayload, password_hash: String) -> bool {
        &&& self.username == payload.username
        &&& self.email == payload.email
        &&& !self.email_verified
        &&& self.name == payload.name
        &&& self.avatar_id is None
        &&& self.bio is None
        &&& self.location is None
        &&& self.password == password_hash
    }

    pub fn get_password_hash(&self) -> (hash: &str)
        ensures
            hash@ == self.password@,
    {
        self.password.as_str()
    }

    /// A new account from a sign-up payload: it starts with its email
    /// unverified and without avatar, bio or location, and keeps the given
    /// hash in place of the password.
    pub fn from_parts(
        payload: UserCreatePayload,
        id: ObjectId,
        password_hash: String,
        created_at: Timestamp,
    ) -> (user: User)
        ensures
            user.is_new_account(payload, password_hash),
            user._id == id,
            user.created_at == created_at,
            user.username == payload.username,
            user.email == payload.email,
            user.name == payload.name,
            !user.email_verified,
            user.avatar_id is None,
            user.bio is None,
            user.location is None,
            user.password == password_hash,
    {
        User {
            _id: id,
            username: payload.username,
            email: payload.email,
            email_verified: false,
            name: payload.name,
            avatar_id: None,
            bio: None,
            location: None,
            password: password_hash,
            created_at,
        }
    }

    /// Like `from_parts`, with a fresh object id and the current time.
    pub fn from_create_payload(payload: UserCreatePayload, password_hash: String) -> (user: User)
        ensures
            user.is_new_account(payload, password_hash),
            user.username == payload.username,
            user.email == payload.email,
            user.name == payload.name,
            !user.email_verified,
            user.avatar_id is None,
            user.bio is None,
            user.location is None,
            user.password == password_hash,
            user.created_at.secs >= 0,
            user.created_at.nanos < 1_000_000_000,
    {
        let id = ObjectId::new();
        let created_at = utc_now();
        User::from_parts(payload, id, password_hash, created_at)
    }
}

/// What clients are told of a user: everything but the password hash, with
/// the id as lowercase hex.
#[derive(Clone, Debug)]
pub struct UserResponse {
    pub id: String,
    pub username: String,
    pub email: String,
    pub email_verified: bool,
    pub name: Option<String>,
    pub avatar_id: Option<u128>,
    pub bio: Option<String>,
    pub location: Option<String>,
    pub created_at: Timestamp,
}

impl UserResponse {
    /// `self` is the client view of `user`.
    pub open spec fn describes(&self, user: User) -> bool {
        &&& self.id@ == hex_lower(user._id.bytes@)
        &&& self.username == user.username
        &&& self.email == user.email
        &&& self.email_verified == user.email_verified
        &&& self.name == user.name
        &&& self.avatar_id == user.avatar_id
        &&& self.bio == user.bio
        &&& self.location == user.location
        &&& self.created_at == user.created_at
    }

    pub fn from_user(user: User) -> (response: UserResponse)
        ensures
            response.describes(user),
            response.id@ == hex_lower(user._id.bytes@),
            response.username == user.username,
            response.email == user.email,
            response.email_verified == user.email_verified,
            response.name == user.name,
            response.avatar_id == user.avatar_id,
            response.bio == user.bio,
            response.location == user.location,
            response.created_at == user.created_at,
    {
        let id = user._id.to_hex();
        UserResponse {
            id,
            username: user.username,
            email: user.email,
            email_verified: user.email_verified,
            name: user.name,
            avatar_id: user.avatar_id,
            bio: user.bio,
            location: user.location,
            created_at: user.created_at,
        }
    }
}

/// A new account keeps what was given at sign-up: the payload's username,
/// email and name, the password hash in place of the password; its email is
/// unverified and it has no avatar, bio or location yet.
pub proof fn law_new_account_keeps_payload(user: User, payload: UserCreatePayload, password_hash: String)
    requires
        user.is_new_account(payload, password_hash),
    ensures
        user.username == payload.username,
        user.email == payload.email,
        user.name == payload.name,
        user.password == password_hash,
        !user.email_verified,
        user.avatar_id is None,
        user.bio is None,
        user.location is None,
{
}

/// The client view of a user carries every stored field but the password
/// hash unchanged, and the id as its lowercase hex.
pub proof fn law_client_view_keeps_fields(response: UserResponse, user: User)
    requires
        response.describes(user),
    ensures
        response.id@ == hex_lower(user._id.bytes@),
        response.username == user.username,
        response.email == user.email,
        response.email_verified == user.email_verified,
        response.name == user.name,
        response.avatar_id == user.avatar_id,
        response.bio == user.bio,
        response.location == user.location,
        response.created_at == user.created_at,
{
}

/// The id a client is told of a user names that user: it is object id text,
/// and it parses back to the user's id.
pub proof fn law_response_id_names_user(response: UserResponse, user: User)
    requires
        response.describes(user),
    ensures
        is_object_id_text(response.id@),
        hex_decode(response.id@) == user._id.bytes@,
{
    law_hex_round_trip(user._id.bytes@);
}

} // verus!
