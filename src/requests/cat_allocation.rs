//! Disk allocation listing (`_cat/allocation`).

use vstd::prelude::*;
use vstd::string::*;
use crate::endpoints::{HttpMethod, Request};
use crate::requests::{query_text, RequestParams};

verus! {

/// The GET request for `{base_url}/_cat/allocation` with the query of `req`.
pub fn get(req: &RequestParams) -> (r: Request)
    ensures
        r.method == HttpMethod::Get,
        r.url@ == req.base_url@ + "/_cat/allocation"@ + query_text(req.url_params@, 0),
        r.body is None,
{
    let mut url = String::from_str(req.base_url.as_str());
    url.append("/_cat/allocation");
    let qry = req.get_url_qry();
    url.append(qry.as_str());
    Request { method: HttpMethod::Get, url, body: None }
}

/// The GET request for `{base_url}/_cat/allocation/{node_id}` with the query of `req`.
pub fn get_node_id(req: &RequestParams, node_id: &str) -> (r: Request)
    ensures
        r.method == HttpMethod::Get,
        r.url@ == req.base_url@ + "/_cat/allocation/"@ + node_id@ + query_text(req.url_params@, 0),
        r.body is None,
{
    let mut url = String::from_str(req.base_url.as_str());
    url.append("/_cat/allocation/");
    url.append(node_id);
    let qry = req.get_url_qry();
    url.append(qry.as_str());
    Request { method: HttpMethod::Get, url, body: None }
}

} // verus!
