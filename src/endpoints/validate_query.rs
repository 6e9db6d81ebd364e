//! Query validation (`_validate/query`).

use vstd::prelude::*;
use vstd::string::*;
use crate::endpoints::{HttpMethod, Request};

verus! {

/// The GET request for `{base}/_validate/query`.
pub fn get(base: String) -> (r: Request)
    ensures
        r.method == HttpMethod::Get,
        r.url@ == base@ + "/_validate/query"@,
        r.body is None,
{
    let mut url = base;
    url.append("/_validate/query");
    Request { method: HttpMethod::Get, url, body: None }
}

/// The POST request for `{base}/{index}/_validate/query`.
pub fn post_index(base: String, index: String, body: String) -> (r: Request)
    ensures
        r.method == HttpMethod::Post,
        r.url@ == base@ + "/"@ + index@ + "/_validate/query"@,
        r.body matches Some(b) && b@ == body@,
{
    let mut url = base;
    url.append("/");
    url.append(index.as_str());
    url.append("/_validate/query");
    Request { method: HttpMethod::Post, url, body: Some(body) }
}

/// The POST request for `{base}/_validate/query`.
pub fn post(base: String, body: String) -> (r: Request)
    ensures
        r.method == HttpMethod::Post,
        r.url@ == base@ + "/_validate/query"@,
        r.body matches Some(b) && b@ == body@,
{
    let mut url = base;
    url.append("/_validate/query");
    Request { method: HttpMethod::Post, url, body: Some(body) }
}

/// The GET request for `{base}/{index}/_validate/query`.
pub fn get_index(base: String, index: String) -> (r: Request)
    ensures
        r.method == HttpMethod::Get,
        r.url@ == base@ + "/"@ + index@ + "/_validate/query"@,
        r.body is None,
{
    let mut url = base;
    url.append("/");
    url.append(index.as_str());
    url.append("/_validate/query");
    Request { method: HttpMethod::Get, url, body: None }
}

/// The GET request for `{base}/{index}/{type}/_validate/query`.
pub fn get_index_type(base: String, index: String, _type: String) -> (r: Request)
    ensures
        r.method == HttpMethod::Get,
        r.url@ == base@ + "/"@ + index@ + "/"@ + _type@ + "/_validate/query"@,
        r.body is None,
{
    let mut url = base;
    url.append("/");
    url.append(index.as_str());
    url.append("/");
    url.append(_type.as_str());
    url.append("/_validate/query");
    Request { method: HttpMethod::Get, url, body: None }
}

/// The POST request for `{base}/{index}/{type}/_validate/query`.
pub fn post_index_type(base: String, index: String, _type: String, body: String) -> (r: Request)
    ensures
        r.method == HttpMethod::Post,
        r.url@ == base@ + "/"@ + index@ + "/"@ + _type@ + "/_validate/query"@,
        r.body matches Some(b) && b@ == body@,
{
    let mut url = base;
    url.append("/");
    url.append(index.as_str());
    url.append("/");
    url.append(_type.as_str());
    url.append("/_validate/query");
    Request { method: HttpMethod::Post, url, body: Some(body) }
}

} // verus!
