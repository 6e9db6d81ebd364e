use elastic_types::path::{parse_path_params, parse_path_parts};

#[test]
fn alias_template_params() {
    let params = parse_path_params("/{index}/_alias/{name}").unwrap();
    assert_eq!(params, vec!["index".to_string(), "name".to_string()]);
}

#[test]
fn alias_template_parts_without_trailing_literal() {
    let parts = parse_path_parts("/{index}/_alias/{name}").unwrap();
    assert_eq!(parts, vec!["/".to_string(), "/_alias/".to_string()]);
}

#[test]
fn template_parts_keep_trailing_literal() {
    let parts = parse_path_parts("/{index}/_open").unwrap();
    assert_eq!(parts, vec!["/".to_string(), "/_open".to_string()]);
    let params = parse_path_params("/{index}/_open").unwrap();
    assert_eq!(params, vec!["index".to_string()]);
}

#[test]
fn template_without_placeholders() {
    assert_eq!(parse_path_params("/_cat/shards").unwrap(), Vec::<String>::new());
    assert_eq!(parse_path_parts("/_cat/shards").unwrap(), vec!["/_cat/shards".to_string()]);
}

#[test]
fn template_starting_with_placeholder() {
    assert_eq!(parse_path_parts("{index}/_open").unwrap(), vec!["".to_string(), "/_open".to_string()]);
}

#[test]
fn malformed_templates_are_rejected() {
    for t in ["/{index", "/index}", "/{}", "/{a{b}}", "}{"] {
        let e = parse_path_params(t).unwrap_err();
        assert_eq!(e.template, t);
        let e = parse_path_parts(t).unwrap_err();
        assert_eq!(e.template, t);
    }
}
