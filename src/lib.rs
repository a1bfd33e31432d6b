//! A driver that authenticates against an identity endpoint and delivers
//! schema-typed events, refreshing its bearer token when the delivery endpoint
//! answers 401.

use vstd::prelude::*;

pub mod auth_service;
pub mod config;
pub mod demo;
pub mod error;
pub mod sender_service;
pub mod strm_privacy_client;
pub mod tokens;

pub use strm_privacy_client::StrmPrivacyClient;
pub use strm_privacy_client::StrmPrivacyResponse;
pub use strm_privacy_client::StrmStatusCode;

verus! {

} // verus!
