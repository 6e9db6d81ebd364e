//! Segment merging (`_forcemerge`).

use vstd::prelude::*;
use vstd::string::*;
use crate::endpoints::{HttpMethod, Request};
use crate::requests::{query_text, RequestParams};

verus! {

/// The POST request for `{base_url}/_forcemerge` with the query of `req`.
pub fn post(req: &RequestParams, body: &str) -> (r: Request)
    ensures
        r.method == HttpMethod::Post,
        r.url@ == req.base_url@ + "/_forcemerge"@ + query_text(req.url_params@, 0),
        r.body matches Some(b) && b@ == body@,
{
    let mut url = String::from_str(req.base_url.as_str());
    url.append("/_forcemerge");
    let qry = req.get_url_qry();
    url.append(qry.as_str());
    Request { method: HttpMethod::Post, url, body: Some(String::from_str(body)) }
}

/// The POST request for `{base_url}/{index}/_forcemerge` with the query of `req`.
pub fn post_index(req: &RequestParams, index: &str, body: &str) -> (r: Request)
    ensures
        r.method == HttpMethod::Post,
        r.url@ == req.base_url@ + "/"@ + index@ + "/_forcemerge"@ + query_text(req.url_params@, 0),
        r.body matches Some(b) && b@ == body@,
{
    let mut url = String::from_str(req.base_url.as_str());
    url.append("/");
    url.append(index);
    url.append("/_forcemerge");
    let qry = req.get_url_qry();
    url.append(qry.as_str());
    Request { method: HttpMethod::Post, url, body: Some(String::from_str(body)) }
}

} // verus!
