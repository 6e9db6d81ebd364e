//! Removal of a stored script (`_scripts/{lang}/{id}`).

use vstd::prelude::*;
use vstd::string::*;
use crate::endpoints::{HttpMethod, Request};
use crate::requests::{query_text, RequestParams};

verus! {

/// The DELETE request for `{base_url}/_scripts/{lang}/{id}` with the query of `req`.
pub fn delete_lang_id(req: &RequestParams, lang: &str, id: &str) -> (r: Request)
    ensures
        r.method == HttpMethod::Delete,
        r.url@ == req.base_url@ + "/_scripts/"@ + lang@ + "/"@ + id@ + query_text(req.url_params@, 0),
        r.body is None,
{
    let mut url = String::from_str(req.base_url.as_str());
    url.append("/_scripts/");
    url.append(lang);
    url.append("/");
    url.append(id);
    let qry = req.get_url_qry();
    url.append(qry.as_str());
    Request { method: HttpMethod::Delete, url, body: None }
}

} // verus!
