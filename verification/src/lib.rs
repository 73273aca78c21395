//! Authentication service core: object identifiers, request payload validation,
//! user records, outgoing mail composition and the decision logic of every HTTP
//! route, written as steps that take the outcome of each database, hashing,
//! token or mail operation and say what happens next.

pub mod ids;
pub mod validation;
pub mod repo;
pub mod mailing;
pub mod routes;
