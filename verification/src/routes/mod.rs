pub mod auth;
pub mod outcome;
pub mod users;
