//! Reading and updating the signed-in user's own profile.

use vstd::prelude::*;

use crate::ids::{hex_decode, is_object_id_text, ObjectId};
use crate::repo::users::model::{User, UserResponse};
use crate::routes::outcome::{string_to_oid, AuthError, AuthReply, Outcome};
use crate::validation::{
    check_optional_field, flag_opt, law_field_rules, law_optional_flag, lemma_contains_concat3,
    PayloadField,
};

verus! {

/// Waiting for the account `user_id`.
#[derive(Clone, Debug)]
pub struct ProfileLookup {
    pub user_id: ObjectId,
}

pub enum MeStep {
    Done(Outcome),
    FindUser(ProfileLookup),
}

/// Starts reading the profile of the access token's subject.
pub fn me(subject: &str) -> (step: MeStep)
    ensures
        !is_object_id_text(subject@) ==> step matches MeStep::Done(Err(AuthError::InvalidToken)),
        is_object_id_text(subject@) ==> (step matches MeStep::FindUser(lookup)
            && lookup.user_id.bytes@ == hex_decode(subject@)),
{
    match string_to_oid(subject) {
        Err(e) => MeStep::Done(Err(e)),
        Ok(user_id) => MeStep::FindUser(ProfileLookup { user_id }),
    }
}

impl ProfileLookup {
    /// A token whose account is gone is invalid.
    pub fn on_user(self, found: Result<Option<User>, ()>) -> (out: Outcome)
        ensures
            found is Err ==> out matches Err(AuthError::Internal),
            found matches Ok(None) ==> out matches Err(AuthError::InvalidToken),
            found matches Ok(Some(u)) ==> (out matches Ok(AuthReply::Profile { user })
                && user.describes(u)),
    {
        match found {
            Err(()) => Err(AuthError::Internal),
            Ok(None) => Err(AuthError::InvalidToken),
            Ok(Some(u)) => Ok(AuthReply::Profile { user: UserResponse::from_user(u) }),
        }
    }
}

/// What a client sends to change its profile; an absent field is cleared.
#[derive(Clone, Debug)]
pub struct UserUpdatePayload {
    pub name: Option<String>,
    pub bio: Option<String>,
    pub location: Option<String>,
}

impl UserUpdatePayload {
    /// The given fields that break their rules: a name of 2-50 characters, a
    /// bio and a location of 1-250.
    pub open spec fn validation_errors(&self) -> Seq<PayloadField> {
        flag_opt(PayloadField::Name, self.name) + flag_opt(PayloadField::Bio, self.bio) + flag_opt(
            PayloadField::Location,
            self.location,
        )
    }

    pub fn validate(&self) -> (res: Result<(), Vec<PayloadField>>)
        ensures
            res is Ok <==> self.validation_errors().len() == 0,
            res matches Err(errors) ==> errors@ == self.validation_errors(),
    {
        let mut errors: Vec<PayloadField> = Vec::new();
        check_optional_field(&mut errors, PayloadField::Name, &self.name);
        check_optional_field(&mut errors, PayloadField::Bio, &self.bio);
        check_optional_field(&mut errors, PayloadField::Location, &self.location);
        assert(errors@ =~= self.validation_errors());
        if errors.len() == 0 {
            Ok(())
        } else {
            Err(errors)
        }
    }
}

/// Waiting for the account `user_id` to get the new name, bio and location.
#[derive(Clone, Debug)]
pub struct ProfileUpdate {
    pub user_id: ObjectId,
    pub name: Option<String>,
    pub bio: Option<String>,
    pub location: Option<String>,
}

pub enum UpdateMeStep {
    Done(Outcome),
    Update(ProfileUpdate),
}

/// Starts a profile update: the payload is checked first, then the token's
/// subject.
pub fn update_me(subject: &str, payload: UserUpdatePayload) -> (step: UpdateMeStep)
    ensures
        payload.validation_errors().len() > 0 ==> (step matches UpdateMeStep::Done(
            Err(AuthError::InvalidPayload(errors)),
        ) && errors@ == payload.validation_errors()),
        payload.validation_errors().len() == 0 && !is_object_id_text(subject@) ==> step matches UpdateMeStep::Done(
            Err(AuthError::InvalidToken),
        ),
        payload.validation_errors().len() == 0 && is_object_id_text(subject@) ==> (step matches UpdateMeStep::Update(
            update,
        ) && update.user_id.bytes@ == hex_decode(subject@) && update.name == payload.name
            && update.bio == payload.bio && update.location == payload.location),
{
    match payload.validate() {
        Err(errors) => UpdateMeStep::Done(Err(AuthError::InvalidPayload(errors))),
        Ok(()) => match string_to_oid(subject) {
            Err(e) => UpdateMeStep::Done(Err(e)),
            Ok(user_id) => UpdateMeStep::Update(
                ProfileUpdate {
                    user_id,
                    name: payload.name,
                    bio: payload.bio,
                    location: payload.location,
                },
            ),
        },
    }
}

impl ProfileUpdate {
    pub fn on_updated(self, updated: Result<(), ()>) -> (out: Outcome)
        ensures
            updated is Err ==> out matches Err(AuthError::Internal),
            updated is Ok ==> out matches Ok(AuthReply::ProfileUpdated),
    {
        match updated {
            Err(()) => Err(AuthError::Internal),
            Ok(()) => Ok(AuthReply::ProfileUpdated),
        }
    }
}

/// A profile update is refused exactly for the given fields that break their
/// rules: a name outside 2-50 characters, a bio or a location outside 1-250.
/// Each such field is listed, no other field is, and the list is empty
/// exactly when every given field is within its bounds.
pub proof fn law_update_validation(payload: UserUpdatePayload)
    ensures
        payload.validation_errors().contains(PayloadField::Name) <==> (payload.name matches Some(n)
            && !(2 <= n@.len() && n@.len() <= 50)),
        payload.validation_errors().contains(PayloadField::Bio) <==> (payload.bio matches Some(b)
            && !(1 <= b@.len() && b@.len() <= 250)),
        payload.validation_errors().contains(PayloadField::Location) <==> (payload.location matches Some(l)
            && !(1 <= l@.len() && l@.len() <= 250)),
        forall|f: PayloadField| #[trigger] payload.validation_errors().contains(f) ==> f
            == PayloadField::Name || f == PayloadField::Bio || f == PayloadField::Location,
        payload.validation_errors().len() == 0 <==> (
            (payload.name matches Some(n) ==> 2 <= n@.len() && n@.len() <= 50)
            && (payload.bio matches Some(b) ==> 1 <= b@.len() && b@.len() <= 250)
            && (payload.location matches Some(l) ==> 1 <= l@.len() && l@.len() <= 250)),
{
    let a = flag_opt(PayloadField::Name, payload.name);
    let b = flag_opt(PayloadField::Bio, payload.bio);
    let c = flag_opt(PayloadField::Location, payload.location);
    law_optional_flag(PayloadField::Name, payload.name);
    law_optional_flag(PayloadField::Bio, payload.bio);
    law_optional_flag(PayloadField::Location, payload.location);
    lemma_contains_concat3(a, b, c);
    match payload.name {
        Some(n) => law_field_rules(n@),
        None => {},
    }
    match payload.bio {
        Some(b) => law_field_rules(b@),
        None => {},
    }
    match payload.location {
        Some(l) => law_field_rules(l@),
        None => {},
    }
    if payload.validation_errors().len() != 0 {
        assert(payload.validation_errors().contains(payload.validation_errors()[0]));
    }
}

} // verus!
