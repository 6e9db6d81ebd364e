use elastic_types::mapping::{
    data_type, field_mapping_text, object_field_ser, props_len, serialize_props, serialize_type, table_ser,
    Dynamic, FieldMapping, ObjectKind, ObjectMapping, ParamValue, Property, TypeMapper,
};

fn date_mapping() -> FieldMapping {
    FieldMapping::Core {
        data_type: "date".to_string(),
        params: vec![("format".to_string(), ParamValue::Str("basic_date_time".to_string()))],
    }
}

fn integer_mapping() -> FieldMapping {
    FieldMapping::Core { data_type: "integer".to_string(), params: vec![] }
}

fn my_type(kind: ObjectKind, enabled: Option<bool>) -> ObjectMapping {
    ObjectMapping {
        name: "my_type".to_string(),
        kind,
        dynamic: Some(Dynamic::Strict),
        enabled,
        include_in_all: Some(false),
        props: vec![
            Property { name: "my_date".to_string(), mapping: date_mapping() },
            Property { name: "my_num".to_string(), mapping: integer_mapping() },
        ],
    }
}

#[test]
fn default_mapping_text() {
    assert_eq!(field_mapping_text(&FieldMapping::Default, &vec![]), "{\"type\":\"object\"}");
}

#[test]
fn core_mapping_text() {
    assert_eq!(
        field_mapping_text(&date_mapping(), &vec![]),
        "{\"type\":\"date\",\"format\":\"basic_date_time\"}"
    );
    let m = FieldMapping::Core {
        data_type: "ip".to_string(),
        params: vec![
            ("boost".to_string(), ParamValue::Int(2)),
            ("doc_values".to_string(), ParamValue::Bool(true)),
            ("null_value".to_string(), ParamValue::Str("127.0.0.1".to_string())),
        ],
    };
    assert_eq!(
        field_mapping_text(&m, &vec![]),
        "{\"type\":\"ip\",\"boost\":2,\"doc_values\":true,\"null_value\":\"127.0.0.1\"}"
    );
}

#[test]
fn containers_are_transparent() {
    let plain = field_mapping_text(&date_mapping(), &vec![]);
    let seq = FieldMapping::Wrapped(Box::new(date_mapping()));
    let opt_seq_opt = FieldMapping::Wrapped(Box::new(FieldMapping::Wrapped(Box::new(
        FieldMapping::Wrapped(Box::new(date_mapping())),
    ))));
    assert_eq!(field_mapping_text(&seq, &vec![]), plain);
    assert_eq!(field_mapping_text(&opt_seq_opt, &vec![]), plain);
}

#[test]
fn nested_field_text_has_no_enabled() {
    let text = object_field_ser(&my_type(ObjectKind::Nested, Some(false)), &vec![]);
    assert_eq!(
        text,
        "{\"type\":\"nested\",\"dynamic\":\"strict\",\"include_in_all\":false,\"properties\":{\"my_date\":{\"type\":\"date\",\"format\":\"basic_date_time\"},\"my_num\":{\"type\":\"integer\"}}}"
    );
    assert!(!text.contains("enabled"));
}

#[test]
fn object_field_text_has_enabled() {
    let text = object_field_ser(&my_type(ObjectKind::Object, Some(false)), &vec![]);
    assert_eq!(
        text,
        "{\"type\":\"object\",\"dynamic\":\"strict\",\"include_in_all\":false,\"enabled\":false,\"properties\":{\"my_date\":{\"type\":\"date\",\"format\":\"basic_date_time\"},\"my_num\":{\"type\":\"integer\"}}}"
    );
}

#[test]
fn unset_settings_are_left_out() {
    let mut o = my_type(ObjectKind::Object, None);
    o.dynamic = None;
    o.include_in_all = None;
    o.props = vec![];
    assert_eq!(object_field_ser(&o, &vec![]), "{\"type\":\"object\",\"properties\":{}}");
    o.dynamic = Some(Dynamic::True);
    assert_eq!(object_field_ser(&o, &vec![]), "{\"type\":\"object\",\"dynamic\":true,\"properties\":{}}");
}

#[test]
fn document_root_has_only_properties() {
    let text = serialize_type(&my_type(ObjectKind::Object, Some(true)), &vec![]);
    assert_eq!(
        text,
        "{\"properties\":{\"my_date\":{\"type\":\"date\",\"format\":\"basic_date_time\"},\"my_num\":{\"type\":\"integer\"}}}"
    );
    for key in ["\"type\":\"object\"", "dynamic", "enabled", "include_in_all"] {
        assert!(!text.contains(key));
    }
}

#[test]
fn props_count_matches_entries() {
    let o = my_type(ObjectKind::Nested, None);
    let entries = serialize_props(&o, &vec![]);
    assert_eq!(props_len(&o), 2);
    assert_eq!(entries.len(), props_len(&o));
    assert_eq!(entries[0].0, "\"my_date\"");
    assert_eq!(entries[1].1, "{\"type\":\"integer\"}");
}

#[test]
fn table_renders_nested_objects() {
    let inner = ObjectMapping {
        name: "address".to_string(),
        kind: ObjectKind::Object,
        dynamic: None,
        enabled: None,
        include_in_all: None,
        props: vec![Property { name: "city".to_string(), mapping: FieldMapping::Default }],
    };
    let outer = ObjectMapping {
        name: "person".to_string(),
        kind: ObjectKind::Nested,
        dynamic: None,
        enabled: None,
        include_in_all: None,
        props: vec![Property {
            name: "addresses".to_string(),
            mapping: FieldMapping::Wrapped(Box::new(FieldMapping::Object(0))),
        }],
    };
    let table = vec![inner, outer];
    let texts = table_ser(&table);
    assert_eq!(texts[0], "{\"type\":\"object\",\"properties\":{\"city\":{\"type\":\"object\"}}}");
    assert_eq!(
        TypeMapper::to_string(&table, 1),
        "{\"properties\":{\"addresses\":{\"type\":\"object\",\"properties\":{\"city\":{\"type\":\"object\"}}}}}"
    );
}

#[test]
fn names_are_json_escaped() {
    let o = ObjectMapping {
        name: "t".to_string(),
        kind: ObjectKind::Nested,
        dynamic: None,
        enabled: None,
        include_in_all: None,
        props: vec![Property { name: "a\"b".to_string(), mapping: FieldMapping::Default }],
    };
    assert_eq!(serialize_type(&o, &vec![]), "{\"properties\":{\"a\\\"b\":{\"type\":\"object\"}}}");
}

#[test]
fn serialise_mapping_default() {
    let mapping = FieldMapping::Core { data_type: "ip".to_string(), params: vec![] };
    let ser = field_mapping_text(&mapping, &vec![]);
    assert_eq!("{\"type\":\"ip\"}", ser);
}

#[test]
fn serialise_mapping_custom() {
    let mapping = FieldMapping::Core {
        data_type: "ip".to_string(),
        params: vec![
            ("boost".to_string(), ParamValue::Number("1.01".to_string())),
            ("doc_values".to_string(), ParamValue::Bool(true)),
            ("index".to_string(), ParamValue::Bool(false)),
            ("store".to_string(), ParamValue::Bool(true)),
            ("null_value".to_string(), ParamValue::Str("127.0.0.1".to_string())),
        ],
    };
    let ser = field_mapping_text(&mapping, &vec![]);
    let expected = "{\"type\":\"ip\",\"boost\":1.01,\"doc_values\":true,\"index\":false,\"store\":true,\"null_value\":\"127.0.0.1\"}";
    assert_eq!(expected, ser);
}

#[test]
fn control_characters_are_escaped() {
    let o = ObjectMapping {
        name: "t".to_string(),
        kind: ObjectKind::Nested,
        dynamic: None,
        enabled: None,
        include_in_all: None,
        props: vec![
            Property { name: "a\nb\\".to_string(), mapping: FieldMapping::Default },
            Property { name: "\u{1}é".to_string(), mapping: FieldMapping::Default },
        ],
    };
    assert_eq!(
        serialize_type(&o, &vec![]),
        "{\"properties\":{\"a\\nb\\\\\":{\"type\":\"object\"},\"\\u0001é\":{\"type\":\"object\"}}}"
    );
}

#[test]
fn data_type_passes_through_containers() {
    let table = vec![my_type(ObjectKind::Nested, None)];
    let deep = FieldMapping::Wrapped(Box::new(FieldMapping::Wrapped(Box::new(date_mapping()))));
    assert_eq!(data_type(&deep, &table), "date");
    let obj = FieldMapping::Wrapped(Box::new(FieldMapping::Object(0)));
    assert_eq!(data_type(&obj, &table), "nested");
    assert_eq!(data_type(&FieldMapping::Default, &table), "object");
}
