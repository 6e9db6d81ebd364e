//! Shard recovery listing (`_cat/recovery`).

use vstd::prelude::*;
use vstd::string::*;
use crate::endpoints::{HttpMethod, Request};

verus! {

/// The GET request for `{base}/_cat/recovery`.
pub fn get(base: String) -> (r: Request)
    ensures
        r.method == HttpMethod::Get,
        r.url@ == base@ + "/_cat/recovery"@,
        r.body is None,
{
    let mut url = base;
    url.append("/_cat/recovery");
    Request { method: HttpMethod::Get, url, body: None }
}

/// The GET request for `{base}/_cat/recovery/{index}`.
pub fn get_index(base: String, index: String) -> (r: Request)
    ensures
        r.method == HttpMethod::Get,
        r.url@ == base@ + "/_cat/recovery/"@ + index@,
        r.body is None,
{
    let mut url = base;
    url.append("/_cat/recovery/");
    url.append(index.as_str());
    Request { method: HttpMethod::Get, url, body: None }
}

} // verus!
