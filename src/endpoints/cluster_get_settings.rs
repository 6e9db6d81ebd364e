//! Cluster settings (`_cluster/settings`).

use vstd::prelude::*;
use vstd::string::*;
use crate::endpoints::{HttpMethod, Request};

verus! {

/// The GET request for `{base}/_cluster/settings`.
pub fn get(base: String) -> (r: Request)
    ensures
        r.method == HttpMethod::Get,
        r.url@ == base@ + "/_cluster/settings"@,
        r.body is None,
{
    let mut url = base;
    url.append("/_cluster/settings");
    Request { method: HttpMethod::Get, url, body: None }
}

} // verus!
