//! Small verified building blocks shared by the rest of the library.

pub mod datetime;
pub mod json;
pub mod text;
