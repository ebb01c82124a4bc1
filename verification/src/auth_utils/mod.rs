pub mod access;
pub mod validation;
