//! Field types: the core datatypes, the table of derivable mappings, and the
//! binding of Rust types to their field mappings.

use vstd::prelude::*;
use vstd::string::*;
use std::marker::PhantomData;
use crate::date::{Date, DateFormat};
use crate::derive::{DerivationError, TypeShape};
use crate::mapping::{FieldMapping, ParamValue, field_text, json_quoted, refs_below, resolve};

verus! {

/// The core datatypes that a field mapping can name.
#[derive(Clone, Copy, Debug, PartialEq, Eq, Structural)]
pub enum CoreType {
    String,
    Boolean,
    Integer,
    Long,
    Short,
    Byte,
    Double,
    Float,
    Ip,
    Date,
    GeoPoint,
    GeoShape,
}

pub open spec fn core_type_name(t: CoreType) -> Seq<char> {
    match t {
        CoreType::String => "string"@,
        CoreType::Boolean => "boolean"@,
        CoreType::Integer => "integer"@,
        CoreType::Long => "long"@,
        CoreType::Short => "short"@,
        CoreType::Byte => "byte"@,
        CoreType::Double => "double"@,
        CoreType::Float => "float"@,
        CoreType::Ip => "ip"@,
        CoreType::Date => "date"@,
        CoreType::GeoPoint => "geo_point"@,
        CoreType::GeoShape => "geo_shape"@,
    }
}

impl CoreType {
    /// The datatype name: a constant of the variant.
    pub fn data_type(&self) -> (r: &'static str)
        ensures
            r@ == core_type_name(*self),
    {
        match self {
            CoreType::String => "string",
            CoreType::Boolean => "boolean",
            CoreType::Integer => "integer",
            CoreType::Long => "long",
            CoreType::Short => "short",
            CoreType::Byte => "byte",
            CoreType::Double => "double",
            CoreType::Float => "float",
            CoreType::Ip => "ip",
            CoreType::Date => "date",
            CoreType::GeoPoint => "geo_point",
            CoreType::GeoShape => "geo_shape",
        }
    }

    /// Date and geo-point mappings are generic over their format.
    pub open spec fn spec_takes_format(&self) -> bool {
        *self == CoreType::Date || *self == CoreType::GeoPoint
    }

    pub fn takes_format(&self) -> (r: bool)
        ensures
            r == self.spec_takes_format(),
    {
        *self == CoreType::Date || *self == CoreType::GeoPoint
    }
}

/// What a derive name produces: a document type mapping, or a mapping of one
/// core datatype.
#[derive(Clone, Copy, Debug, PartialEq, Eq, Structural)]
pub enum DeriveTarget {
    TypeMapping,
    Core(CoreType),
}

/// The derive names that can be asked for, each with what it produces.
pub open spec fn derive_table(name: Seq<char>) -> Option<DeriveTarget> {
    if name == "ElasticType"@ {
        Some(DeriveTarget::TypeMapping)
    } else if name == "ElasticStringMapping"@ {
        Some(DeriveTarget::Core(CoreType::String))
    } else if name == "ElasticBooleanMapping"@ {
        Some(DeriveTarget::Core(CoreType::Boolean))
    } else if name == "ElasticIntegerMapping"@ {
        Some(DeriveTarget::Core(CoreType::Integer))
    } else if name == "ElasticLongMapping"@ {
        Some(DeriveTarget::Core(CoreType::Long))
    } else if name == "ElasticShortMapping"@ {
        Some(DeriveTarget::Core(CoreType::Short))
    } else if name == "ElasticByteMapping"@ {
        Some(DeriveTarget::Core(CoreType::Byte))
    } else if name == "ElasticDoubleMapping"@ {
        Some(DeriveTarget::Core(CoreType::Double))
    } else if name == "ElasticFloatMapping"@ {
        Some(DeriveTarget::Core(CoreType::Float))
    } else if name == "ElasticDateMapping"@ {
        Some(DeriveTarget::Core(CoreType::Date))
    } else if name == "ElasticIpMapping"@ {
        Some(DeriveTarget::Core(CoreType::Ip))
    } else if name == "ElasticGeoPointMapping"@ {
        Some(DeriveTarget::Core(CoreType::GeoPoint))
    } else if name == "ElasticGeoShapeMapping"@ {
        Some(DeriveTarget::Core(CoreType::GeoShape))
    } else {
        None
    }
}

fn name_is(name: &str, word: &str) -> (r: bool)
    ensures
        r == (name@ == word@),
{
    String::from_str(name) == String::from_str(word)
}

/// Looks a derive name up in the table of derivable mappings.
pub fn derive_target(name: &str) -> (r: Option<DeriveTarget>)
    ensures
        r == derive_table(name@),
{
    if name_is(name, "ElasticType") {
        Some(DeriveTarget::TypeMapping)
    } else if name_is(name, "ElasticStringMapping") {
        Some(DeriveTarget::Core(CoreType::String))
    } else if name_is(name, "ElasticBooleanMapping") {
        Some(DeriveTarget::Core(CoreType::Boolean))
    } else if name_is(name, "ElasticIntegerMapping") {
        Some(DeriveTarget::Core(CoreType::Integer))
    } else if name_is(name, "ElasticLongMapping") {
        Some(DeriveTarget::Core(CoreType::Long))
    } else if name_is(name, "ElasticShortMapping") {
        Some(DeriveTarget::Core(CoreType::Short))
    } else if name_is(name, "ElasticByteMapping") {
        Some(DeriveTarget::Core(CoreType::Byte))
    } else if name_is(name, "ElasticDoubleMapping") {
        Some(DeriveTarget::Core(CoreType::Double))
    } else if name_is(name, "ElasticFloatMapping") {
        Some(DeriveTarget::Core(CoreType::Float))
    } else if name_is(name, "ElasticDateMapping") {
        Some(DeriveTarget::Core(CoreType::Date))
    } else if name_is(name, "ElasticIpMapping") {
        Some(DeriveTarget::Core(CoreType::Ip))
    } else if name_is(name, "ElasticGeoPointMapping") {
        Some(DeriveTarget::Core(CoreType::GeoPoint))
    } else if name_is(name, "ElasticGeoShapeMapping") {
        Some(DeriveTarget::Core(CoreType::GeoShape))
    } else {
        None
    }
}

/// Whether a core mapping can be derived on a type of this shape: a struct
/// with named fields, or a unit struct, with exactly one type parameter for
/// the datatypes that take a format and none for the others.
pub open spec fn core_derive_ok(t: CoreType, shape: TypeShape, type_params: nat) -> bool {
    if t.spec_takes_format() {
        shape == TypeShape::Record && type_params == 1
    } else {
        (shape == TypeShape::Record || shape == TypeShape::Unit) && type_params == 0
    }
}

/// Checks that a core mapping can be derived on the named type, and gives the
/// datatype name that the derived mapping reports.
pub fn derive_core_mapping(t: CoreType, name: String, shape: TypeShape, type_params: usize) -> (r:
    Result<&'static str, DerivationError>)
    ensures
        core_derive_ok(t, shape, type_params as nat) ==> (r matches Ok(s) && s@ == core_type_name(
            t,
        )),
        !core_derive_ok(t, shape, type_params as nat) ==> (r matches Err(
            DerivationError::UnsupportedShape(n),
        ) && n == name),
{
    let ok = if t.takes_format() {
        shape == TypeShape::Record && type_params == 1
    } else {
        (shape == TypeShape::Record || shape == TypeShape::Unit) && type_params == 0
    };
    if ok {
        Ok(t.data_type())
    } else {
        Err(DerivationError::UnsupportedShape(name))
    }
}

/// Whether a field's value is analysed into terms before indexing.
#[derive(Clone, Copy, Debug, PartialEq, Eq, Structural)]
pub enum IndexAnalysis {
    /// Analysed into terms, for full-text search.
    Analyzed,
    /// Indexed unchanged, as a single term.
    NotAnalyzed,
    /// Not indexed: the field cannot be queried.
    No,
}

pub open spec fn index_analysis_text(a: IndexAnalysis) -> Seq<char> {
    match a {
        IndexAnalysis::Analyzed => "analyzed"@,
        IndexAnalysis::NotAnalyzed => "not_analyzed"@,
        IndexAnalysis::No => "no"@,
    }
}

impl IndexAnalysis {
    /// The setting's value in a mapping.
    pub fn as_str(&self) -> (r: &'static str)
        ensures
            r@ == index_analysis_text(*self),
    {
        match self {
            IndexAnalysis::Analyzed => "analyzed",
            IndexAnalysis::NotAnalyzed => "not_analyzed",
            IndexAnalysis::No => "no",
        }
    }
}

/// The mapping of a value whose type the engine infers at index time.
#[derive(Clone, Copy, Debug, PartialEq, Eq, Default)]
pub struct DefaultMapping;

impl DefaultMapping {
    pub fn data_type() -> (r: &'static str)
        ensures
            r@ == "object"@,
    {
        "object"
    }

    pub fn mapping() -> (r: FieldMapping)
        ensures
            r is Default,
    {
        FieldMapping::Default
    }
}

/// Marks object mappings among field formats.
#[derive(Clone, Copy, Debug, PartialEq, Eq, Default)]
pub struct ObjectFormat;

/// A Rust type that can be mapped as a field of a document.
pub trait FieldType {
    /// The text of the type's field mapping.
    spec fn mapping_text() -> Seq<char>;

    /// The type's field mapping; it refers to no object mapping of a table.
    fn mapping() -> (r: FieldMapping)
        ensures
            refs_below(r, 0),
            field_text(r, seq![]) == Self::mapping_text(),
    ;
}

/// A sequence is mapped as its items are.
impl<T: FieldType> FieldType for Vec<T> {
    open spec fn mapping_text() -> Seq<char> {
        T::mapping_text()
    }

    fn mapping() -> (r: FieldMapping) {
        let inner = T::mapping();
        FieldMapping::Wrapped(Box::new(inner))
    }
}

/// An optional value is mapped as the value is.
impl<T: FieldType> FieldType for Option<T> {
    open spec fn mapping_text() -> Seq<char> {
        T::mapping_text()
    }

    fn mapping() -> (r: FieldMapping) {
        let inner = T::mapping();
        FieldMapping::Wrapped(Box::new(inner))
    }
}

fn core_mapping(t: CoreType) -> (r: FieldMapping)
    ensures
        refs_below(r, 0),
        field_text(r, seq![]) == "{\"type\":"@ + json_quoted(core_type_name(t)) + "}"@,
{
    let params: Vec<(String, ParamValue)> = Vec::new();
    let r = FieldMapping::Core { data_type: String::from_str(t.data_type()), params };
    assert(crate::mapping::params_text(params@, 0) =~= seq![]);
    r
}

impl FieldType for bool {
    open spec fn mapping_text() -> Seq<char> {
        "{\"type\":"@ + json_quoted("boolean"@) + "}"@
    }

    fn mapping() -> (r: FieldMapping) {
        core_mapping(CoreType::Boolean)
    }
}

impl FieldType for i64 {
    open spec fn mapping_text() -> Seq<char> {
        "{\"type\":"@ + json_quoted("long"@) + "}"@
    }

    fn mapping() -> (r: FieldMapping) {
        core_mapping(CoreType::Long)
    }
}

impl FieldType for i32 {
    open spec fn mapping_text() -> Seq<char> {
        "{\"type\":"@ + json_quoted("integer"@) + "}"@
    }

    fn mapping() -> (r: FieldMapping) {
        core_mapping(CoreType::Integer)
    }
}

impl FieldType for i16 {
    open spec fn mapping_text() -> Seq<char> {
        "{\"type\":"@ + json_quoted("short"@) + "}"@
    }

    fn mapping() -> (r: FieldMapping) {
        core_mapping(CoreType::Short)
    }
}

impl FieldType for i8 {
    open spec fn mapping_text() -> Seq<char> {
        "{\"type\":"@ + json_quoted("byte"@) + "}"@
    }

    fn mapping() -> (r: FieldMapping) {
        core_mapping(CoreType::Byte)
    }
}

impl FieldType for String {
    open spec fn mapping_text() -> Seq<char> {
        "{\"type\":"@ + json_quoted("string"@) + "}"@
    }

    fn mapping() -> (r: FieldMapping) {
        core_mapping(CoreType::String)
    }
}

/// A date is mapped with its format's name.
impl<F: DateFormat> FieldType for Date<F> {
    open spec fn mapping_text() -> Seq<char> {
        "{\"type\":"@ + json_quoted("date"@) + ","@ + json_quoted("format"@) + ":"@ + json_quoted(
            F::spec_name(),
        ) + "}"@
    }

    fn mapping() -> (r: FieldMapping) {
        let mut params: Vec<(String, ParamValue)> = Vec::new();
        params.push((String::from_str("format"), ParamValue::Str(String::from_str(F::name()))));
        let r = FieldMapping::Core { data_type: String::from_str("date"), params };
        assert(crate::mapping::params_text(params@, 1) =~= seq![]);
        r
    }
}

} // verus!
