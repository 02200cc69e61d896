//! Group membership administration for clients of a DNS-filtering appliance.
//!
//! The library holds the decisions: the session store, the construction of each
//! API request, the two-shape decoding of API responses, the membership toggle
//! and the local store's insert and delete of membership rows.
pub mod json;
pub mod data;
pub mod error;
pub mod session;
pub mod request;
pub mod api;
pub mod toggle;
pub mod store;
