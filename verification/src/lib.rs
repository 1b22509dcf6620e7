//! Client-side building blocks for a small slice of an OAuth 2.0 identity
//! provider: request URLs for the four supported endpoints, the decoded
//! response documents, and the policy that decides whether an introspected
//! token authorizes the caller.

pub mod client;
pub mod encoding;
pub mod models;
pub mod url;

pub use client::Client;
pub use models::{
    AccessTokenResp, AppTokenResp, CheckTokenResp, Mode, ScopeItem, TokenData, UserFacebookData,
};
