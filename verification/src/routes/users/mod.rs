pub mod me;
