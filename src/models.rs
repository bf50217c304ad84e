//! The data shapes that the API hands out.

pub mod token;
pub mod user;
