//! Requests for the search engine's REST endpoints.
//!
//! Each builder computes the method, the URL and the body of one request from a
//! base URL and the endpoint's path parameters. Sending it is the caller's work.

use vstd::prelude::*;

pub mod cat_recovery;
pub mod cat_shards;
pub mod delete_alias;
pub mod delete_aliases;
pub mod indices_open;
pub mod snapshot_get;
pub mod cluster_get_settings;
pub mod document_get;
pub mod get_script;
pub mod document_index;
pub mod indices_put_settings;
pub mod validate_query;
pub mod put_script;

verus! {

/// The HTTP method of a request.
#[derive(PartialEq, Eq, Structural, Clone, Copy, Debug)]
pub enum HttpMethod {
    Get,
    Post,
    Put,
    Delete,
    Head,
}

/// A request ready to be sent: every endpoint sends `application/json`.
pub struct Request {
    pub method: HttpMethod,
    pub url: String,
    pub body: Option<String>,
}

} // verus!
