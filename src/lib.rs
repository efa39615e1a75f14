//! Authenticated request layer for the Roblox web API: credential and
//! anti-forgery token state, response classification, the token-refresh
//! retry policy and cursor pagination, each stated as a verified contract.
//! Network I/O and JSON decoding are performed by the caller, which feeds
//! the outcomes into the decision functions here.
pub mod error;
pub mod classify;
pub mod jar;
pub mod token;
pub mod executor;
pub mod paging;
pub mod url;
pub mod groups;
