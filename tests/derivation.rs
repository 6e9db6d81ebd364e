use elastic_types::derive::{
    derive_type, serialize_instance, Annotation, AnnotationValue, DerivationError,
    FieldDescriptor, IdSource, IndexName, MappingSettings, TypeDescriptor, TypeShape,
};
use elastic_types::mapping::{
    serialize_props, serialize_type, Dynamic, FieldMapping, ObjectKind, ParamValue,
};

fn field(name: &str) -> FieldDescriptor {
    FieldDescriptor {
        name: name.to_string(),
        rename: None,
        skip_serializing: false,
        is_id: false,
        mapping_override: None,
        default_mapping: FieldMapping::Core { data_type: "integer".to_string(), params: vec![] },
    }
}

fn fields() -> Vec<FieldDescriptor> {
    let mut renamed = field("my_string");
    renamed.rename = Some("myString".to_string());
    let mut skipped = field("secret");
    skipped.skip_serializing = true;
    let mut overridden = field("my_num");
    overridden.mapping_override =
        Some(FieldMapping::Core { data_type: "long".to_string(), params: vec![] });
    overridden.is_id = true;
    vec![field("my_date"), renamed, skipped, overridden]
}

fn descriptor(annotations: Vec<Annotation>) -> TypeDescriptor {
    TypeDescriptor {
        name: "MyType".to_string(),
        shape: TypeShape::Record,
        generic: false,
        annotations,
        mapping_override: None,
        fields: fields(),
    }
}

fn ann(key: &str, value: AnnotationValue) -> Annotation {
    Annotation { key: key.to_string(), value }
}

#[test]
fn derives_defaults_from_type_name() {
    let t = derive_type(descriptor(vec![])).unwrap();
    assert!(matches!(t.index, IndexName::Fixed(ref n) if n == "mytype"));
    assert_eq!(t.doc_type, "mytype");
    assert!(matches!(t.id, IdSource::Field(ref n) if n == "my_num"));
    assert_eq!(t.mapping.name, "mytype");
    assert_eq!(t.mapping.kind, ObjectKind::Nested);
    let names: Vec<&str> = t.mapping.props.iter().map(|p| p.name.as_str()).collect();
    assert_eq!(names, vec!["my_date", "myString", "my_num"]);
    assert_eq!(
        serialize_type(&t.mapping, &vec![]),
        "{\"properties\":{\"my_date\":{\"type\":\"integer\"},\"myString\":{\"type\":\"integer\"},\"my_num\":{\"type\":\"long\"}}}"
    );
}

#[test]
fn annotations_override_names() {
    let t = derive_type(descriptor(vec![
        ann("index", AnnotationValue::Str("my-index".to_string())),
        ann("ty", AnnotationValue::Str("my-type".to_string())),
        ann("id", AnnotationValue::Expr("self.key()".to_string())),
        ann("unknown", AnnotationValue::Flag),
    ]))
    .unwrap();
    assert!(matches!(t.index, IndexName::Fixed(ref n) if n == "my-index"));
    assert_eq!(t.doc_type, "my-type");
    assert_eq!(t.mapping.name, "my-type");
    assert!(matches!(t.id, IdSource::Computed(ref e) if e == "self.key()"));
}

#[test]
fn computed_index_wins() {
    let t = derive_type(descriptor(vec![ann("index", AnnotationValue::Expr("self.index()".to_string()))]))
        .unwrap();
    assert!(matches!(t.index, IndexName::Computed(ref e) if e == "self.index()"));
}

#[test]
fn own_settings_keep_the_field_list() {
    let mut d = descriptor(vec![]);
    d.mapping_override = Some(MappingSettings {
        name: "custom".to_string(),
        kind: ObjectKind::Object,
        dynamic: Some(Dynamic::Strict),
        enabled: Some(false),
        include_in_all: None,
    });
    let t = derive_type(d).unwrap();
    assert_eq!(t.mapping.name, "custom");
    assert_eq!(t.mapping.kind, ObjectKind::Object);
    assert_eq!(t.mapping.dynamic, Some(Dynamic::Strict));
    assert_eq!(t.mapping.enabled, Some(false));
    let names: Vec<&str> = t.mapping.props.iter().map(|p| p.name.as_str()).collect();
    assert_eq!(names, vec!["my_date", "myString", "my_num"]);
    let values = vec!["1".to_string(), "2".to_string(), "3".to_string(), "4".to_string()];
    assert_eq!(
        serialize_instance(&descriptor(vec![]), &values),
        "{\"my_date\":1,\"myString\":2,\"my_num\":4}"
    );
}

#[test]
fn unsupported_shapes_fail() {
    for shape in [TypeShape::Enum, TypeShape::Tuple, TypeShape::Unit] {
        let mut d = descriptor(vec![]);
        d.shape = shape;
        assert!(matches!(derive_type(d), Err(DerivationError::UnsupportedShape(ref n)) if n == "MyType"));
    }
    let mut d = descriptor(vec![]);
    d.generic = true;
    assert!(matches!(derive_type(d), Err(DerivationError::UnsupportedShape(_))));
}

#[test]
fn malformed_annotation_fails() {
    let d = descriptor(vec![ann("ty", AnnotationValue::Other("42".to_string()))]);
    assert!(matches!(derive_type(d), Err(DerivationError::MalformedAnnotation(ref n)) if n == "MyType"));
    let d = descriptor(vec![ann("index", AnnotationValue::Flag)]);
    assert!(matches!(derive_type(d), Err(DerivationError::MalformedAnnotation(_))));
}

#[test]
fn conflicting_overrides_fail() {
    let d = descriptor(vec![
        ann("index", AnnotationValue::Str("a".to_string())),
        ann("index", AnnotationValue::Str("b".to_string())),
    ]);
    assert!(matches!(derive_type(d), Err(DerivationError::ConflictingOverride(_))));
    let mut d = descriptor(vec![]);
    d.fields[0].is_id = true;
    assert!(matches!(derive_type(d), Err(DerivationError::ConflictingOverride(_))));
}

#[test]
fn instance_and_mapping_list_the_same_fields() {
    let d = descriptor(vec![]);
    let values = vec![
        "\"20150703T145502.478Z\"".to_string(),
        "\"abc\"".to_string(),
        "\"hidden\"".to_string(),
        "7".to_string(),
    ];
    let text = serialize_instance(&d, &values);
    assert_eq!(text, "{\"my_date\":\"20150703T145502.478Z\",\"myString\":\"abc\",\"my_num\":7}");
    let t = derive_type(d).unwrap();
    let names: Vec<String> = serialize_props(&t.mapping, &vec![]).into_iter().map(|e| e.0).collect();
    assert_eq!(names, vec!["\"my_date\"", "\"myString\"", "\"my_num\""]);
}

#[test]
fn core_params_in_derived_fields() {
    let mut d = descriptor(vec![]);
    d.fields[0].mapping_override = Some(FieldMapping::Core {
        data_type: "date".to_string(),
        params: vec![("format".to_string(), ParamValue::Str("epoch_millis".to_string()))],
    });
    let t = derive_type(d).unwrap();
    let entries = serialize_props(&t.mapping, &vec![]);
    assert_eq!(entries[0].1, "{\"type\":\"date\",\"format\":\"epoch_millis\"}");
}
