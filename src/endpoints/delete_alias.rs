//! Removal of an index alias (`{index}/_alias/{name}`).

use vstd::prelude::*;
use vstd::string::*;
use crate::endpoints::{HttpMethod, Request};

verus! {

/// The DELETE request for `{base}/{index}/_alias/{name}`.
pub fn delete_index_name(base: String, index: String, name: String) -> (r: Request)
    ensures
        r.method == HttpMethod::Delete,
        r.url@ == base@ + "/"@ + index@ + "/_alias/"@ + name@,
        r.body is None,
{
    let mut url = base;
    url.append("/");
    url.append(index.as_str());
    url.append("/_alias/");
    url.append(name.as_str());
    Request { method: HttpMethod::Delete, url, body: None }
}

} // verus!
