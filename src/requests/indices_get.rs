//! Index lookup (`{index}` and `{index}/{feature}`).

use vstd::prelude::*;
use vstd::string::*;
use crate::endpoints::{HttpMethod, Request};
use crate::requests::{query_text, RequestParams};

verus! {

/// The GET request for `{base}/{index}/{feature}` with the query of `req`.
pub fn get_index_feature(req: &RequestParams, base: &str, index: &str, feature: &str) -> (r: Request)
    ensures
        r.method == HttpMethod::Get,
        r.url@ == base@ + "/"@ + index@ + "/"@ + feature@ + query_text(req.url_params@, 0),
        r.body is None,
{
    let mut url = String::from_str(base);
    url.append("/");
    url.append(index);
    url.append("/");
    url.append(feature);
    let qry = req.get_url_qry();
    url.append(qry.as_str());
    Request { method: HttpMethod::Get, url, body: None }
}

/// The GET request for `{base}/{index}` with the query of `req`.
pub fn get_index(req: &RequestParams, base: &str, index: &str) -> (r: Request)
    ensures
        r.method == HttpMethod::Get,
        r.url@ == base@ + "/"@ + index@ + query_text(req.url_params@, 0),
        r.body is None,
{
    let mut url = String::from_str(base);
    url.append("/");
    url.append(index);
    let qry = req.get_url_qry();
    url.append(qry.as_str());
    Request { method: HttpMethod::Get, url, body: None }
}

} // verus!
