//! Synced flushes (`_flush/synced`).

use vstd::prelude::*;
use vstd::string::*;
use crate::endpoints::{HttpMethod, Request};
use crate::requests::{query_text, RequestParams};

verus! {

/// The POST request for `{base}/{index}/_flush/synced` with the query of `req`.
pub fn post_index(req: &RequestParams, base: &str, index: &str, body: &str) -> (r: Request)
    ensures
        r.method == HttpMethod::Post,
        r.url@ == base@ + "/"@ + index@ + "/_flush/synced"@ + query_text(req.url_params@, 0),
        r.body matches Some(b) && b@ == body@,
{
    let mut url = String::from_str(base);
    url.append("/");
    url.append(index);
    url.append("/_flush/synced");
    let qry = req.get_url_qry();
    url.append(qry.as_str());
    Request { method: HttpMethod::Post, url, body: Some(String::from_str(body)) }
}

/// The POST request for `{base}/_flush/synced` with the query of `req`.
pub fn post(req: &RequestParams, base: &str, body: &str) -> (r: Request)
    ensures
        r.method == HttpMethod::Post,
        r.url@ == base@ + "/_flush/synced"@ + query_text(req.url_params@, 0),
        r.body matches Some(b) && b@ == body@,
{
    let mut url = String::from_str(base);
    url.append("/_flush/synced");
    let qry = req.get_url_qry();
    url.append(qry.as_str());
    Request { method: HttpMethod::Post, url, body: Some(String::from_str(body)) }
}

/// The GET request for `{base}/{index}/_flush/synced` with the query of `req`.
pub fn get_index(req: &RequestParams, base: &str, index: &str) -> (r: Request)
    ensures
        r.method == HttpMethod::Get,
        r.url@ == base@ + "/"@ + index@ + "/_flush/synced"@ + query_text(req.url_params@, 0),
        r.body is None,
{
    let mut url = String::from_str(base);
    url.append("/");
    url.append(index);
    url.append("/_flush/synced");
    let qry = req.get_url_qry();
    url.append(qry.as_str());
    Request { method: HttpMethod::Get, url, body: None }
}

/// The GET request for `{base}/_flush/synced` with the query of `req`.
pub fn get(req: &RequestParams, base: &str) -> (r: Request)
    ensures
        r.method == HttpMethod::Get,
        r.url@ == base@ + "/_flush/synced"@ + query_text(req.url_params@, 0),
        r.body is None,
{
    let mut url = String::from_str(base);
    url.append("/_flush/synced");
    let qry = req.get_url_qry();
    url.append(qry.as_str());
    Request { method: HttpMethod::Get, url, body: None }
}

} // verus!
