//! Fetching a document (`{index}/{type}/{id}`).

use vstd::prelude::*;
use vstd::string::*;
use crate::endpoints::{HttpMethod, Request};

verus! {

/// The GET request for `{base}/{index}/{type}/{id}`.
pub fn get_index_type_id(base: String, index: String, _type: String, id: String) -> (r: Request)
    ensures
        r.method == HttpMethod::Get,
        r.url@ == base@ + "/"@ + index@ + "/"@ + _type@ + "/"@ + id@,
        r.body is None,
{
    let mut url = base;
    url.append("/");
    url.append(index.as_str());
    url.append("/");
    url.append(_type.as_str());
    url.append("/");
    url.append(id.as_str());
    Request { method: HttpMethod::Get, url, body: None }
}

} // verus!
