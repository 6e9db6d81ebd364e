//! Indexing a document (`{index}/{type}` and `{index}/{type}/{id}`).

use vstd::prelude::*;
use vstd::string::*;
use crate::endpoints::{HttpMethod, Request};

verus! {

/// The PUT request for `{base}/{index}/{type}`.
pub fn put_index_type(base: String, index: String, _type: String, body: String) -> (r: Request)
    ensures
        r.method == HttpMethod::Put,
        r.url@ == base@ + "/"@ + index@ + "/"@ + _type@,
        r.body matches Some(b) && b@ == body@,
{
    let mut url = base;
    url.append("/");
    url.append(index.as_str());
    url.append("/");
    url.append(_type.as_str());
    Request { method: HttpMethod::Put, url, body: Some(body) }
}

/// The PUT request for `{base}/{index}/{type}/{id}`.
pub fn put_index_type_id(base: String, index: String, _type: String, id: String, body: String) -> (r: Request)
    ensures
        r.method == HttpMethod::Put,
        r.url@ == base@ + "/"@ + index@ + "/"@ + _type@ + "/"@ + id@,
        r.body matches Some(b) && b@ == body@,
{
    let mut url = base;
    url.append("/");
    url.append(index.as_str());
    url.append("/");
    url.append(_type.as_str());
    url.append("/");
    url.append(id.as_str());
    Request { method: HttpMethod::Put, url, body: Some(body) }
}

/// The POST request for `{base}/{index}/{type}`.
pub fn post_index_type(base: String, index: String, _type: String, body: String) -> (r: Request)
    ensures
        r.method == HttpMethod::Post,
        r.url@ == base@ + "/"@ + index@ + "/"@ + _type@,
        r.body matches Some(b) && b@ == body@,
{
    let mut url = base;
    url.append("/");
    url.append(index.as_str());
    url.append("/");
    url.append(_type.as_str());
    Request { method: HttpMethod::Post, url, body: Some(body) }
}

/// The POST request for `{base}/{index}/{type}/{id}`.
pub fn post_index_type_id(base: String, index: String, _type: String, id: String, body: String) -> (r: Request)
    ensures
        r.method == HttpMethod::Post,
        r.url@ == base@ + "/"@ + index@ + "/"@ + _type@ + "/"@ + id@,
        r.body matches Some(b) && b@ == body@,
{
    let mut url = base;
    url.append("/");
    url.append(index.as_str());
    url.append("/");
    url.append(_type.as_str());
    url.append("/");
    url.append(id.as_str());
    Request { method: HttpMethod::Post, url, body: Some(body) }
}

} // verus!
