pub mod model;
pub mod payload;
