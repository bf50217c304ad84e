//! A client for the 42 intranet API: OAuth2 credentials for an application or a
//! user, token lifetimes, and the typed errors that the API reports.

pub mod client;
pub mod error;
pub mod models;

pub use client::FtClient;
pub use error::{ErrorType, FtError};
