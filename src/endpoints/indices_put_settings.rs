//! Index settings updates (`_settings`).

use vstd::prelude::*;
use vstd::string::*;
use crate::endpoints::{HttpMethod, Request};

verus! {

/// The PUT request for `{base}/{index}/_settings`.
pub fn put_index(base: &str, index: &str, body: &str) -> (r: Request)
    ensures
        r.method == HttpMethod::Put,
        r.url@ == base@ + "/"@ + index@ + "/_settings"@,
        r.body matches Some(b) && b@ == body@,
{
    let mut url = String::from_str(base);
    url.append("/");
    url.append(index);
    url.append("/_settings");
    Request { method: HttpMethod::Put, url, body: Some(String::from_str(body)) }
}

/// The PUT request for `{base}/_settings`.
pub fn put(base: &str, body: &str) -> (r: Request)
    ensures
        r.method == HttpMethod::Put,
        r.url@ == base@ + "/_settings"@,
        r.body matches Some(b) && b@ == body@,
{
    let mut url = String::from_str(base);
    url.append("/_settings");
    Request { method: HttpMethod::Put, url, body: Some(String::from_str(body)) }
}

} // verus!
