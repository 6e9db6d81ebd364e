//! Storing a script (`_scripts/{lang}/{id}`).

use vstd::prelude::*;
use vstd::string::*;
use crate::endpoints::{HttpMethod, Request};

verus! {

/// The PUT request for `{base}/_scripts/{lang}/{id}`.
pub fn put_lang_id(base: &str, lang: &str, id: &str, body: &str) -> (r: Request)
    ensures
        r.method == HttpMethod::Put,
        r.url@ == base@ + "/_scripts/"@ + lang@ + "/"@ + id@,
        r.body matches Some(b) && b@ == body@,
{
    let mut url = String::from_str(base);
    url.append("/_scripts/");
    url.append(lang);
    url.append("/");
    url.append(id);
    Request { method: HttpMethod::Put, url, body: Some(String::from_str(body)) }
}

/// The POST request for `{base}/_scripts/{lang}/{id}`.
pub fn post_lang_id(base: &str, lang: &str, id: &str, body: &str) -> (r: Request)
    ensures
        r.method == HttpMethod::Post,
        r.url@ == base@ + "/_scripts/"@ + lang@ + "/"@ + id@,
        r.body matches Some(b) && b@ == body@,
{
    let mut url = String::from_str(base);
    url.append("/_scripts/");
    url.append(lang);
    url.append("/");
    url.append(id);
    Request { method: HttpMethod::Post, url, body: Some(String::from_str(body)) }
}

} // verus!
