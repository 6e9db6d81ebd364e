use elastic_types::date::{BasicDateTime, Date, EpochMillis};
use elastic_types::derive::{DerivationError, TypeShape};
use elastic_types::field::{
    derive_core_mapping, derive_target, CoreType, DefaultMapping, DeriveTarget, FieldType,
    IndexAnalysis,
};
use elastic_types::geo::DistanceUnit;
use elastic_types::mapping::{field_mapping_text, FieldMapping};

#[test]
fn core_type_names() {
    assert_eq!(CoreType::Date.data_type(), "date");
    assert_eq!(CoreType::GeoPoint.data_type(), "geo_point");
    assert_eq!(CoreType::Ip.data_type(), "ip");
    assert_eq!(CoreType::Integer.data_type(), "integer");
}

#[test]
fn derive_table_lookups() {
    assert_eq!(derive_target("ElasticType"), Some(DeriveTarget::TypeMapping));
    assert_eq!(derive_target("ElasticDateMapping"), Some(DeriveTarget::Core(CoreType::Date)));
    assert_eq!(derive_target("ElasticGeoShapeMapping"), Some(DeriveTarget::Core(CoreType::GeoShape)));
    assert_eq!(derive_target("Serialize"), None);
}

#[test]
fn core_derive_shapes() {
    assert_eq!(derive_core_mapping(CoreType::Date, "MyDate".to_string(), TypeShape::Record, 1).unwrap(), "date");
    assert!(matches!(
        derive_core_mapping(CoreType::Date, "MyDate".to_string(), TypeShape::Unit, 0),
        Err(DerivationError::UnsupportedShape(ref n)) if n == "MyDate"
    ));
    assert_eq!(derive_core_mapping(CoreType::String, "S".to_string(), TypeShape::Unit, 0).unwrap(), "string");
    assert!(derive_core_mapping(CoreType::String, "S".to_string(), TypeShape::Enum, 0).is_err());
}

#[test]
fn index_analysis_values() {
    assert_eq!(IndexAnalysis::Analyzed.as_str(), "analyzed");
    assert_eq!(IndexAnalysis::NotAnalyzed.as_str(), "not_analyzed");
    assert_eq!(IndexAnalysis::No.as_str(), "no");
}

#[test]
fn default_mapping_is_object() {
    assert_eq!(DefaultMapping::data_type(), "object");
    assert!(matches!(DefaultMapping::mapping(), FieldMapping::Default));
}

#[test]
fn date_field_mapping() {
    let m = <Date<EpochMillis> as FieldType>::mapping();
    assert_eq!(field_mapping_text(&m, &vec![]), "{\"type\":\"date\",\"format\":\"epoch_millis\"}");
}

#[test]
fn containers_map_as_their_items() {
    let plain = field_mapping_text(&<Date<BasicDateTime> as FieldType>::mapping(), &vec![]);
    let seq = field_mapping_text(&<Vec<Date<BasicDateTime>> as FieldType>::mapping(), &vec![]);
    let deep = field_mapping_text(
        &<Option<Vec<Option<Date<BasicDateTime>>>> as FieldType>::mapping(),
        &vec![],
    );
    assert_eq!(seq, plain);
    assert_eq!(deep, plain);
    assert_eq!(
        field_mapping_text(&<Option<i32> as FieldType>::mapping(), &vec![]),
        "{\"type\":\"integer\"}"
    );
}

#[test]
fn distance_unit_suffixes() {
    assert_eq!(DistanceUnit::Kilometers.suffix(), "km");
    assert_eq!(DistanceUnit::Inches.suffix(), "in");
    assert_eq!(DistanceUnit::Millimeters.suffix(), "mm");
}
