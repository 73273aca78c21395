//! The record that marks a refresh token as revoked.

use vstd::prelude::*;

use crate::ids::ObjectId;

verus! {

/// A revoked refresh token, stored under the token's id.
#[derive(Clone, Copy, Debug, PartialEq, Eq)]
pub struct RefreshToken {
    pub _id: ObjectId,
}

impl RefreshToken {
    pub fn new(id: ObjectId) -> (token: RefreshToken)
        ensures
            token._id == id,
    {
        RefreshToken { _id: id }
    }
}

} // verus!
