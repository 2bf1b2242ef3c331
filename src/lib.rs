//! Token lifecycle and authenticated-request logic for an OAuth2-aware HTTP client.
//!
//! The modules here hold the decisions and the text handling; file, network
//! and console work is done by the program that drives them.
pub mod dispatch;
pub mod oauth2;
pub mod profile;
pub mod request;
pub mod text;
pub mod timeout;
