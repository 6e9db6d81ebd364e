//! Warmer lookup (`_warmer`).

use vstd::prelude::*;
use vstd::string::*;
use crate::endpoints::{HttpMethod, Request};
use crate::requests::{query_text, RequestParams};

verus! {

/// The GET request for `{base_url}/_warmer` with the query of `req`.
pub fn get(req: &RequestParams) -> (r: Request)
    ensures
        r.method == HttpMethod::Get,
        r.url@ == req.base_url@ + "/_warmer"@ + query_text(req.url_params@, 0),
        r.body is None,
{
    let mut url = String::from_str(req.base_url.as_str());
    url.append("/_warmer");
    let qry = req.get_url_qry();
    url.append(qry.as_str());
    Request { method: HttpMethod::Get, url, body: None }
}

/// The GET request for `{base_url}/{index}/_warmer` with the query of `req`.
pub fn get_index(req: &RequestParams, index: &str) -> (r: Request)
    ensures
        r.method == HttpMethod::Get,
        r.url@ == req.base_url@ + "/"@ + index@ + "/_warmer"@ + query_text(req.url_params@, 0),
        r.body is None,
{
    let mut url = String::from_str(req.base_url.as_str());
    url.append("/");
    url.append(index);
    url.append("/_warmer");
    let qry = req.get_url_qry();
    url.append(qry.as_str());
    Request { method: HttpMethod::Get, url, body: None }
}

/// The GET request for `{base_url}/{index}/_warmer/{name}` with the query of `req`.
pub fn get_index_name(req: &RequestParams, index: &str, name: &str) -> (r: Request)
    ensures
        r.method == HttpMethod::Get,
        r.url@ == req.base_url@ + "/"@ + index@ + "/_warmer/"@ + name@ + query_text(req.url_params@, 0),
        r.body is None,
{
    let mut url = String::from_str(req.base_url.as_str());
    url.append("/");
    url.append(index);
    url.append("/_warmer/");
    url.append(name);
    let qry = req.get_url_qry();
    url.append(qry.as_str());
    Request { method: HttpMethod::Get, url, body: None }
}

/// The GET request for `{base_url}/{index}/{type}/_warmer/{name}` with the query of `req`.
pub fn get_index_type_name(req: &RequestParams, index: &str, _type: &str, name: &str) -> (r: Request)
    ensures
        r.method == HttpMethod::Get,
        r.url@ == req.base_url@ + "/"@ + index@ + "/"@ + _type@ + "/_warmer/"@ + name@ + query_text(req.url_params@, 0),
        r.body is None,
{
    let mut url = String::from_str(req.base_url.as_str());
    url.append("/");
    url.append(index);
    url.append("/");
    url.append(_type);
    url.append("/_warmer/");
    url.append(name);
    let qry = req.get_url_qry();
    url.append(qry.as_str());
    Request { method: HttpMethod::Get, url, body: None }
}

/// The GET request for `{base_url}/_warmer/{name}` with the query of `req`.
pub fn get_name(req: &RequestParams, name: &str) -> (r: Request)
    ensures
        r.method == HttpMethod::Get,
        r.url@ == req.base_url@ + "/_warmer/"@ + name@ + query_text(req.url_params@, 0),
        r.body is None,
{
    let mut url = String::from_str(req.base_url.as_str());
    url.append("/_warmer/");
    url.append(name);
    let qry = req.get_url_qry();
    url.append(qry.as_str());
    Request { method: HttpMethod::Get, url, body: None }
}

} // verus!
