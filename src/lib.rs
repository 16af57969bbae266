//! Core of an OAuth2 authorization server: client and resource-owner
//! authentication, PKCE-guarded authorization codes, bearer-token issuance and
//! introspection, with every decision verified.

pub mod text;
pub mod pkce;
pub mod credentials;
pub mod models;
pub mod errors;
pub mod store;
pub mod memory;
pub mod issuance;
pub mod grant;
pub mod introspect;
pub mod handlers;
pub mod laws;
