use elastic_types::endpoints::HttpMethod;
use elastic_types::requests::{
    cat_shards, indices_flush_synced, indices_shrink, nodes_stats, RequestParams,
};

fn params() -> RequestParams {
    RequestParams::new("eshost:9200/path").url_param("pretty", "true").url_param("q", "*")
}

#[test]
fn query_is_appended() {
    assert_eq!(params().get_url_qry(), "?pretty=true&q=*");
    assert_eq!(RequestParams::new("h").get_url_qry(), "");
    let r = cat_shards::get_index(&params(), "idx");
    assert_eq!(r.url, "eshost:9200/path/_cat/shards/idx?pretty=true&q=*");
    assert_eq!(r.method, HttpMethod::Get);
}

#[test]
fn explicit_base_is_used() {
    let r = indices_flush_synced::post_index(&params(), "other:9200", "idx", "{}");
    assert_eq!(r.url, "other:9200/idx/_flush/synced?pretty=true&q=*");
    assert_eq!(r.body.as_deref(), Some("{}"));
}

#[test]
fn nested_path_requests() {
    let r = nodes_stats::get_node_id_metric_index_metric(&RequestParams::new("h"), "n1", "indices", "docs");
    assert_eq!(r.url, "h/_nodes/n1/stats/indices/docs");
    let r = indices_shrink::put_index_target(&RequestParams::new("h"), "a", "b", "{}");
    assert_eq!(r.url, "h/a/_shrink/b");
    assert_eq!(r.method, HttpMethod::Put);
}
