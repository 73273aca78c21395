//! The payload of a sign-up request.

use vstd::prelude::*;

use crate::validation::{
    check_field, check_optional_field, email_accepted, flag, flag_opt, law_optional_flag,
    law_required_flag, lemma_contains_concat4, username_shape, PayloadField,
};

verus! {

/// What a client sends to create an account.
#[derive(Clone, Debug)]
pub struct UserCreatePayload {
    pub username: String,
    pub email: String,
    pub name: Option<String>,
    pub password: String,
}

impl UserCreatePayload {
    /// The fields that break their rules, in declaration order: the username
    /// pattern, an accepted email, a name of 2-50 characters when one is given,
    /// a password of 8-72 characters.
    pub open spec fn validation_errors(&self) -> Seq<PayloadField> {
        flag(PayloadField::Username, self.username@) + flag(PayloadField::Email, self.email@)
            + flag_opt(PayloadField::Name, self.name) + flag(
            PayloadField::Password,
            self.password@,
        )
    }

    /// Checks every field; fails with the list of broken fields.
    pub fn validate(&self) -> (res: Result<(), Vec<PayloadField>>)
        ensures
            res is Ok <==> self.validation_errors().len() == 0,
            res matches Err(errors) ==> errors@ == self.validation_errors(),
    {
        let mut errors: Vec<PayloadField> = Vec::new();
        check_field(&mut errors, PayloadField::Username, self.username.as_str());
        check_field(&mut errors, PayloadField::Email, self.email.as_str());
        check_optional_field(&mut errors, PayloadField::Name, &self.name);
        check_field(&mut errors, PayloadField::Password, self.password.as_str());
        assert(errors@ =~= self.validation_errors());
        if errors.len() == 0 {
            Ok(())
        } else {
            Err(errors)
        }
    }
}

/// A sign-up payload is refused exactly for the fields that break their
/// rules: a username not matching the pattern, an email that is not accepted,
/// a given name outside 2-50 characters, a password outside 8-72.
pub proof fn law_create_validation(payload: UserCreatePayload)
    ensures
        payload.validation_errors().contains(PayloadField::Username) <==> !username_shape(
            payload.username@,
        ),
        payload.validation_errors().contains(PayloadField::Email) <==> !email_accepted(
            payload.email@,
        ),
        payload.validation_errors().contains(PayloadField::Name) <==> (payload.name matches Some(n)
            && !(2 <= n@.len() && n@.len() <= 50)),
        payload.validation_errors().contains(PayloadField::Password) <==> !(8
            <= payload.password@.len() && payload.password@.len() <= 72),
        forall|f: PayloadField| #[trigger] payload.validation_errors().contains(f) ==> f
            != PayloadField::Bio && f != PayloadField::Location,
{
    law_required_flag(PayloadField::Username, payload.username@);
    law_required_flag(PayloadField::Email, payload.email@);
    law_optional_flag(PayloadField::Name, payload.name);
    law_required_flag(PayloadField::Password, payload.password@);
    lemma_contains_concat4(
        flag(PayloadField::Username, payload.username@),
        flag(PayloadField::Email, payload.email@),
        flag_opt(PayloadField::Name, payload.name),
        flag(PayloadField::Password, payload.password@),
    );
}

} // verus!
