//! Command layer of a client for the deSEC DNS hosting API: typed commands,
//! the requests they map to, failure classification and the retry policy for
//! throttled requests.
pub mod auth;
pub mod cli;
pub mod error;
pub mod request;
pub mod retry;
