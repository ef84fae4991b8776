//! Client-side logic for the Lark (Feishu) open API: credential lifecycle
//! management, request/response mapping, and the small formats (message
//! content JSON, wiki URLs) that the clients build and parse.
//!
//! Network transport and JSON (de)serialization of domain payloads are left
//! to the surrounding application; this crate holds the state, the decisions
//! and the formats, each with a proved contract.
use vstd::prelude::*;

pub mod auth;
pub mod bitable;
pub mod bot;
pub mod json;
pub mod strutil;
pub mod wiki;

verus! {

/// Envelope shared by every Lark API response: a status code (0 means
/// success), a human-readable message, and the payload.
pub struct LarkApiResponse<T> {
    pub code: i32,
    pub msg: String,
    pub data: T,
}

impl<T> LarkApiResponse<T> {
    /// A Lark API call succeeded exactly when its status code is 0.
    pub fn is_success(&self) -> (r: bool)
        ensures
            r == (self.code == 0),
    {
        self.code == 0
    }
}

} // verus!
