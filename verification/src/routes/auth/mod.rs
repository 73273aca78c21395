pub mod login;
pub mod register;
pub mod session;
pub mod tokens;
pub mod verify_email;
