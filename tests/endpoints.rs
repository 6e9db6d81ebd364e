use elastic_types::endpoints::{
    cat_shards, delete_alias, delete_aliases, document_index, indices_put_settings, put_script,
    snapshot_get, validate_query, HttpMethod,
};

#[test]
fn cat_shards_urls() {
    let r = cat_shards::get("http://es:9200".to_string());
    assert_eq!(r.url, "http://es:9200/_cat/shards");
    assert_eq!(r.method, HttpMethod::Get);
    assert!(r.body.is_none());
    let r = cat_shards::get_index("http://es:9200".to_string(), "idx".to_string());
    assert_eq!(r.url, "http://es:9200/_cat/shards/idx");
}

#[test]
fn alias_deletion_urls() {
    let r = delete_alias::delete_index_name("b".to_string(), "i".to_string(), "n".to_string());
    assert_eq!(r.url, "b/i/_alias/n");
    assert_eq!(r.method, HttpMethod::Delete);
    let r = delete_aliases::delete_index_name("b".to_string(), "i".to_string(), "n".to_string());
    assert_eq!(r.url, "b/i/_aliases/n");
}

#[test]
fn document_index_request() {
    let r = document_index::put_index_type_id(
        "b".to_string(),
        "i".to_string(),
        "t".to_string(),
        "1".to_string(),
        "{}".to_string(),
    );
    assert_eq!(r.url, "b/i/t/1");
    assert_eq!(r.method, HttpMethod::Put);
    assert_eq!(r.body.as_deref(), Some("{}"));
}

#[test]
fn borrowed_argument_requests() {
    let r = indices_put_settings::put_index("b", "i", "{}");
    assert_eq!(r.url, "b/i/_settings");
    let r = put_script::post_lang_id("b", "painless", "s1", "{}");
    assert_eq!(r.url, "b/_scripts/painless/s1");
    assert_eq!(r.method, HttpMethod::Post);
}

#[test]
fn other_requests() {
    let r = snapshot_get::get_repository_snapshot("b".to_string(), "r".to_string(), "s".to_string());
    assert_eq!(r.url, "b/_snapshot/r/s");
    let r = validate_query::get_index_type("b".to_string(), "i".to_string(), "t".to_string());
    assert_eq!(r.url, "b/i/t/_validate/query");
}
