//! Shrinking an index (`{index}/_shrink/{target}`).

use vstd::prelude::*;
use vstd::string::*;
use crate::endpoints::{HttpMethod, Request};
use crate::requests::{query_text, RequestParams};

verus! {

/// The PUT request for `{base_url}/{index}/_shrink/{target}` with the query of `req`.
pub fn put_index_target(req: &RequestParams, index: &str, target: &str, body: &str) -> (r: Request)
    ensures
        r.method == HttpMethod::Put,
        r.url@ == req.base_url@ + "/"@ + index@ + "/_shrink/"@ + target@ + query_text(req.url_params@, 0),
        r.body matches Some(b) && b@ == body@,
{
    let mut url = String::from_str(req.base_url.as_str());
    url.append("/");
    url.append(index);
    url.append("/_shrink/");
    url.append(target);
    let qry = req.get_url_qry();
    url.append(qry.as_str());
    Request { method: HttpMethod::Put, url, body: Some(String::from_str(body)) }
}

/// The POST request for `{base_url}/{index}/_shrink/{target}` with the query of `req`.
pub fn post_index_target(req: &RequestParams, index: &str, target: &str, body: &str) -> (r: Request)
    ensures
        r.method == HttpMethod::Post,
        r.url@ == req.base_url@ + "/"@ + index@ + "/_shrink/"@ + target@ + query_text(req.url_params@, 0),
        r.body matches Some(b) && b@ == body@,
{
    let mut url = String::from_str(req.base_url.as_str());
    url.append("/");
    url.append(index);
    url.append("/_shrink/");
    url.append(target);
    let qry = req.get_url_qry();
    url.append(qry.as_str());
    Request { method: HttpMethod::Post, url, body: Some(String::from_str(body)) }
}

} // verus!
