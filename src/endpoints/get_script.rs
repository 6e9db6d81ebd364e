//! Fetching a stored script (`_scripts/{lang}/{id}`).

use vstd::prelude::*;
use vstd::string::*;
use crate::endpoints::{HttpMethod, Request};

verus! {

/// The GET request for `{base}/_scripts/{lang}/{id}`.
pub fn get_lang_id(base: String, lang: String, id: String) -> (r: Request)
    ensures
        r.method == HttpMethod::Get,
        r.url@ == base@ + "/_scripts/"@ + lang@ + "/"@ + id@,
        r.body is None,
{
    let mut url = base;
    url.append("/_scripts/");
    url.append(lang.as_str());
    url.append("/");
    url.append(id.as_str());
    Request { method: HttpMethod::Get, url, body: None }
}

} // verus!
