//! Client-side logic for the Travis CI (v3) REST API.
//!
//! The library performs no I/O of its own. Each operation is split into the
//! request to send and the reading of the response that came back, so that a
//! caller with any HTTP transport can drive it:
//!
//! - [`Client::custom`] starts a client. With a Github token it hands out the
//!   request that exchanges the token, and [`Exchange::finish`] reads the
//!   answer.
//! - [`Client::raw_request`] and the methods built on it make requests;
//!   [`http::Response`] reads what came back.
//! - [`listing::Listing`] walks a paginated collection: it hands out items
//!   and, when a page is used up, the request for the next one. The
//!   [`cursor`] beneath it holds the rules of pagination and their proofs.
//!
//! JSON is read and written by `serde_json`, addresses are checked by
//! `hyper`, and query strings are written by `url`. What is assumed of them
//! is stated where they are called: in [`json`], [`uri`], [`query`],
//! [`escape`] and [`text`].

pub mod builds;
pub mod client;
pub mod codec;
pub mod cursor;
pub mod env;
pub mod error;
pub mod escape;
pub mod http;
pub mod jobs;
pub mod json;
pub mod listing;
pub mod model;
pub mod pagination;
pub mod query;
pub mod repos;
pub mod response;
pub mod state;
pub mod text;
pub mod uri;
pub mod views;

pub use client::{Client, Construction, Credential, Exchange};
pub use error::Error;
pub use model::{Branch, Owner};
pub use state::State;
