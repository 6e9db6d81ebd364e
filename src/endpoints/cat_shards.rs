//! Shard listing (`_cat/shards`).

use vstd::prelude::*;
use vstd::string::*;
use crate::endpoints::{HttpMethod, Request};

verus! {

/// The GET request for `{base}/_cat/shards`.
pub fn get(base: String) -> (r: Request)
    ensures
        r.method == HttpMethod::Get,
        r.url@ == base@ + "/_cat/shards"@,
        r.body is None,
{
    let mut url = base;
    url.append("/_cat/shards");
    Request { method: HttpMethod::Get, url, body: None }
}

/// The GET request for `{base}/_cat/shards/{index}`.
pub fn get_index(base: String, index: String) -> (r: Request)
    ensures
        r.method == HttpMethod::Get,
        r.url@ == base@ + "/_cat/shards/"@ + index@,
        r.body is None,
{
    let mut url = base;
    url.append("/_cat/shards/");
    url.append(index.as_str());
    Request { method: HttpMethod::Get, url, body: None }
}

} // verus!
