//! Host-based HTTP redirects.
//!
//! A request names a host, a key-value store holds one redirect location per
//! host, and the answer is a permanent redirect or a typed failure. The crate
//! holds the decisions of that pipeline as pure functions on plain values:
//! reading the host from the request headers, judging what the store
//! returned, and rendering the outcome as an HTTP response. Talking to the
//! store and to the HTTP runtime is left to the caller.

pub mod error;
pub mod handler;
pub mod json;
pub mod request;
pub mod resolve;
pub mod response;
pub mod store;
