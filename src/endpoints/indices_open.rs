//! Opening a closed index (`{index}/_open`).

use vstd::prelude::*;
use vstd::string::*;
use crate::endpoints::{HttpMethod, Request};

verus! {

/// The POST request for `{base}/{index}/_open`.
pub fn post_index(base: String, index: String, body: String) -> (r: Request)
    ensures
        r.method == HttpMethod::Post,
        r.url@ == base@ + "/"@ + index@ + "/_open"@,
        r.body matches Some(b) && b@ == body@,
{
    let mut url = base;
    url.append("/");
    url.append(index.as_str());
    url.append("/_open");
    Request { method: HttpMethod::Post, url, body: Some(body) }
}

} // verus!
