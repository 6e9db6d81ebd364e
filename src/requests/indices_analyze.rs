//! Text analysis (`_analyze`).

use vstd::prelude::*;
use vstd::string::*;
use crate::endpoints::{HttpMethod, Request};
use crate::requests::{query_text, RequestParams};

verus! {

/// The GET request for `{base_url}/_analyze` with the query of `req`.
pub fn get(req: &RequestParams) -> (r: Request)
    ensures
        r.method == HttpMethod::Get,
        r.url@ == req.base_url@ + "/_analyze"@ + query_text(req.url_params@, 0),
        r.body is None,
{
    let mut url = String::from_str(req.base_url.as_str());
    url.append("/_analyze");
    let qry = req.get_url_qry();
    url.append(qry.as_str());
    Request { method: HttpMethod::Get, url, body: None }
}

/// The GET request for `{base_url}/{index}/_analyze` with the query of `req`.
pub fn get_index(req: &RequestParams, index: &str) -> (r: Request)
    ensures
        r.method == HttpMethod::Get,
        r.url@ == req.base_url@ + "/"@ + index@ + "/_analyze"@ + query_text(req.url_params@, 0),
        r.body is None,
{
    let mut url = String::from_str(req.base_url.as_str());
    url.append("/");
    url.append(index);
    url.append("/_analyze");
    let qry = req.get_url_qry();
    url.append(qry.as_str());
    Request { method: HttpMethod::Get, url, body: None }
}

} // verus!
