//! Snapshot lookup (`_snapshot/{repository}/{snapshot}`).

use vstd::prelude::*;
use vstd::string::*;
use crate::endpoints::{HttpMethod, Request};

verus! {

/// The GET request for `{base}/_snapshot/{repository}/{snapshot}`.
pub fn get_repository_snapshot(base: String, repository: String, snapshot: String) -> (r: Request)
    ensures
        r.method == HttpMethod::Get,
        r.url@ == base@ + "/_snapshot/"@ + repository@ + "/"@ + snapshot@,
        r.body is None,
{
    let mut url = base;
    url.append("/_snapshot/");
    url.append(repository.as_str());
    url.append("/");
    url.append(snapshot.as_str());
    Request { method: HttpMethod::Get, url, body: None }
}

} // verus!
