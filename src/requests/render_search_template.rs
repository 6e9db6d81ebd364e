//! Rendering a search template (`_render/template`).

use vstd::prelude::*;
use vstd::string::*;
use crate::endpoints::{HttpMethod, Request};
use crate::requests::{query_text, RequestParams};

verus! {

/// The POST request for `{base_url}/_render/template/{id}` with the query of `req`.
pub fn post_id(req: &RequestParams, id: &str, body: &str) -> (r: Request)
    ensures
        r.method == HttpMethod::Post,
        r.url@ == req.base_url@ + "/_render/template/"@ + id@ + query_text(req.url_params@, 0),
        r.body matches Some(b) && b@ == body@,
{
    let mut url = String::from_str(req.base_url.as_str());
    url.append("/_render/template/");
    url.append(id);
    let qry = req.get_url_qry();
    url.append(qry.as_str());
    Request { method: HttpMethod::Post, url, body: Some(String::from_str(body)) }
}

/// The GET request for `{base_url}/_render/template` with the query of `req`.
pub fn get(req: &RequestParams) -> (r: Request)
    ensures
        r.method == HttpMethod::Get,
        r.url@ == req.base_url@ + "/_render/template"@ + query_text(req.url_params@, 0),
        r.body is None,
{
    let mut url = String::from_str(req.base_url.as_str());
    url.append("/_render/template");
    let qry = req.get_url_qry();
    url.append(qry.as_str());
    Request { method: HttpMethod::Get, url, body: None }
}

/// The GET request for `{base_url}/_render/template/{id}` with the query of `req`.
pub fn get_id(req: &RequestParams, id: &str) -> (r: Request)
    ensures
        r.method == HttpMethod::Get,
        r.url@ == req.base_url@ + "/_render/template/"@ + id@ + query_text(req.url_params@, 0),
        r.body is None,
{
    let mut url = String::from_str(req.base_url.as_str());
    url.append("/_render/template/");
    url.append(id);
    let qry = req.get_url_qry();
    url.append(qry.as_str());
    Request { method: HttpMethod::Get, url, body: None }
}

/// The POST request for `{base_url}/_render/template` with the query of `req`.
pub fn post(req: &RequestParams, body: &str) -> (r: Request)
    ensures
        r.method == HttpMethod::Post,
        r.url@ == req.base_url@ + "/_render/template"@ + query_text(req.url_params@, 0),
        r.body matches Some(b) && b@ == body@,
{
    let mut url = String::from_str(req.base_url.as_str());
    url.append("/_render/template");
    let qry = req.get_url_qry();
    url.append(qry.as_str());
    Request { method: HttpMethod::Post, url, body: Some(String::from_str(body)) }
}

} // verus!
