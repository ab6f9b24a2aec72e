pub mod text;
pub mod validation;
