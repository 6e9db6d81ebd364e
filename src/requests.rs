//! Requests that carry request parameters: a base URL and query parameters
//! that every request built from them appends to its URL.

use vstd::prelude::*;
use vstd::string::*;

pub mod cat_allocation;
pub mod cat_shards;
pub mod cluster_put_settings;
pub mod delete_script;
pub mod indices_analyze;
pub mod indices_flush_synced;
pub mod indices_forcemerge;
pub mod indices_get;
pub mod indices_get_warmer;
pub mod indices_open;
pub mod indices_shrink;
pub mod nodes_info;
pub mod nodes_stats;
pub mod render_search_template;

verus! {

/// The base URL and query parameters shared by requests.
pub struct RequestParams {
    pub base_url: String,
    pub url_params: Vec<(String, String)>,
}

/// The query of a URL from parameter `k` on: `?key=value`, then `&key=value`
/// for each further parameter; empty when there are none.
pub open spec fn query_text(ps: Seq<(String, String)>, k: int) -> Seq<char>
    decreases ps.len() - k,
{
    if k < 0 || k >= ps.len() {
        seq![]
    } else {
        (if k == 0 {
            "?"@
        } else {
            "&"@
        }) + ps[k].0@ + "="@ + ps[k].1@ + query_text(ps, k + 1)
    }
}

impl RequestParams {
    pub fn new(base_url: &str) -> (r: Self)
        ensures
            r.base_url@ == base_url@,
            r.url_params@.len() == 0,
    {
        RequestParams { base_url: String::from_str(base_url), url_params: Vec::new() }
    }

    /// Adds a query parameter after the others.
    pub fn url_param(self, key: &str, value: &str) -> (r: Self)
        ensures
            r.base_url == self.base_url,
            r.url_params@.len() == self.url_params@.len() + 1,
            forall|k: int| 0 <= k < self.url_params@.len() ==> #[trigger] r.url_params@[k] == self.url_params@[k],
            r.url_params@.last().0@ == key@,
            r.url_params@.last().1@ == value@,
    {
        let mut ps = self.url_params;
        ps.push((String::from_str(key), String::from_str(value)));
        RequestParams { base_url: self.base_url, url_params: ps }
    }

    /// The query that requests built from these parameters end with.
    pub fn get_url_qry(&self) -> (r: String)
        ensures
            r@ == query_text(self.url_params@, 0),
    {
        let mut s = String::new();
        let mut k: usize = 0;
        while k < self.url_params.len()
            invariant
                k <= self.url_params@.len(),
                s@ + query_text(self.url_params@, k as int) == query_text(self.url_params@, 0),
            decreases self.url_params@.len() - k,
        {
            let ghost before = s@;
            if k == 0 {
                s.append("?");
            } else {
                s.append("&");
            }
            s.append(self.url_params[k].0.as_str());
            s.append("=");
            s.append(self.url_params[k].1.as_str());
            assert(before + query_text(self.url_params@, k as int) =~= s@ + query_text(
                self.url_params@,
                k + 1,
            ));
            k = k + 1;
        }
        assert(s@ + query_text(self.url_params@, k as int) =~= s@);
        s
    }
}

} // verus!
