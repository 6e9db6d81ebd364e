//! Node information (`_nodes`).

use vstd::prelude::*;
use vstd::string::*;
use crate::endpoints::{HttpMethod, Request};
use crate::requests::{query_text, RequestParams};

verus! {

/// The GET request for `{base_url}/_nodes/{node_id}/{metric}` with the query of `req`.
pub fn get_node_id_metric(req: &RequestParams, node_id: &str, metric: &str) -> (r: Request)
    ensures
        r.method == HttpMethod::Get,
        r.url@ == req.base_url@ + "/_nodes/"@ + node_id@ + "/"@ + metric@ + query_text(req.url_params@, 0),
        r.body is None,
{
    let mut url = String::from_str(req.base_url.as_str());
    url.append("/_nodes/");
    url.append(node_id);
    url.append("/");
    url.append(metric);
    let qry = req.get_url_qry();
    url.append(qry.as_str());
    Request { method: HttpMethod::Get, url, body: None }
}

/// The GET request for `{base_url}/_nodes/{metric}` with the query of `req`.
pub fn get_metric(req: &RequestParams, metric: &str) -> (r: Request)
    ensures
        r.method == HttpMethod::Get,
        r.url@ == req.base_url@ + "/_nodes/"@ + metric@ + query_text(req.url_params@, 0),
        r.body is None,
{
    let mut url = String::from_str(req.base_url.as_str());
    url.append("/_nodes/");
    url.append(metric);
    let qry = req.get_url_qry();
    url.append(qry.as_str());
    Request { method: HttpMethod::Get, url, body: None }
}

/// The GET request for `{base_url}/_nodes` with the query of `req`.
pub fn get(req: &RequestParams) -> (r: Request)
    ensures
        r.method == HttpMethod::Get,
        r.url@ == req.base_url@ + "/_nodes"@ + query_text(req.url_params@, 0),
        r.body is None,
{
    let mut url = String::from_str(req.base_url.as_str());
    url.append("/_nodes");
    let qry = req.get_url_qry();
    url.append(qry.as_str());
    Request { method: HttpMethod::Get, url, body: None }
}

/// The GET request for `{base_url}/_nodes/{node_id}` with the query of `req`.
pub fn get_node_id(req: &RequestParams, node_id: &str) -> (r: Request)
    ensures
        r.method == HttpMethod::Get,
        r.url@ == req.base_url@ + "/_nodes/"@ + node_id@ + query_text(req.url_params@, 0),
        r.body is None,
{
    let mut url = String::from_str(req.base_url.as_str());
    url.append("/_nodes/");
    url.append(node_id);
    let qry = req.get_url_qry();
    url.append(qry.as_str());
    Request { method: HttpMethod::Get, url, body: None }
}

} // verus!
