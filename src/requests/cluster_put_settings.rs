//! Cluster settings updates (`_cluster/settings`).

use vstd::prelude::*;
use vstd::string::*;
use crate::endpoints::{HttpMethod, Request};
use crate::requests::{query_text, RequestParams};

verus! {

/// The PUT request for `{base}/_cluster/settings` with the query of `req`.
pub fn put(req: &RequestParams, base: &str, body: &str) -> (r: Request)
    ensures
        r.method == HttpMethod::Put,
        r.url@ == base@ + "/_cluster/settings"@ + query_text(req.url_params@, 0),
        r.body matches Some(b) && b@ == body@,
{
    let mut url = String::from_str(base);
    url.append("/_cluster/settings");
    let qry = req.get_url_qry();
    url.append(qry.as_str());
    Request { method: HttpMethod::Put, url, body: Some(String::from_str(body)) }
}

} // verus!
