use elastic_types::codegen::{endpoint_name, fill_template, module_file, FillError};
use elastic_types::endpoints::{delete_alias, document_get, HttpMethod};

#[test]
fn names_follow_placeholders() {
    assert_eq!(endpoint_name(HttpMethod::Get, "/{index}/{type}/{id}").unwrap(), "get_index_type_id");
    assert_eq!(endpoint_name(HttpMethod::Delete, "/{index}/_alias/{name}").unwrap(), "delete_index_name");
    assert_eq!(endpoint_name(HttpMethod::Get, "/_cat/shards").unwrap(), "get");
    assert_eq!(endpoint_name(HttpMethod::Post, "/{index}/_open").unwrap(), "post_index");
    assert!(endpoint_name(HttpMethod::Get, "/{index").is_err());
}

#[test]
fn filled_template_matches_builder() {
    let args = vec!["idx".to_string(), "al".to_string()];
    let url = fill_template("http://h:9200", "/{index}/_alias/{name}", &args).unwrap();
    let built = delete_alias::delete_index_name("http://h:9200".to_string(), "idx".to_string(), "al".to_string());
    assert_eq!(url, built.url);
    let args = vec!["i".to_string(), "t".to_string(), "1".to_string()];
    let url = fill_template("b", "/{index}/{type}/{id}", &args).unwrap();
    assert_eq!(url, document_get::get_index_type_id("b".to_string(), "i".to_string(), "t".to_string(), "1".to_string()).url);
    let url = fill_template("b", "/{index}/_open", &vec!["i".to_string()]).unwrap();
    assert_eq!(url, "b/i/_open");
}

#[test]
fn fill_errors() {
    assert!(matches!(
        fill_template("b", "/{index}/_open", &vec![]),
        Err(FillError::ArgCount { expected: 1, given: 0 })
    ));
    assert!(matches!(fill_template("b", "/{index/_open", &vec![]), Err(FillError::Template(_))));
}

#[test]
fn module_files_by_path() {
    let plan = module_file("out", &vec!["indices".to_string(), "open".to_string()]);
    assert!(!plan.is_mod);
    assert_eq!(plan.dir_path, "out/indices");
    assert_eq!(plan.file_path, "out/indices/open.rs");
    assert_eq!(plan.mod_line.as_deref(), Some("pub mod open;\n"));
    let plan = module_file("out", &vec!["get".to_string()]);
    assert!(plan.is_mod);
    assert_eq!(plan.file_path, "out/get/mod.rs");
    assert!(plan.mod_line.is_none());
    let plan = module_file("out", &vec![]);
    assert_eq!(plan.dir_path, "out/");
    let plan = module_file("out", &vec!["a".to_string(), "b".to_string(), "c".to_string()]);
    assert_eq!(plan.file_path, "out/a/b/c.rs");
}
