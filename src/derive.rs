//! Derivation of a document type's mapping from a description of the type.
//!
//! A [`TypeDescriptor`] lists a record type's fields with their serialization
//! settings (rename, skip) and the type's annotations. [`derive_type`] checks
//! it and resolves the index name, the indexed type name, the id source and the
//! object mapping. The fields that the mapping lists and those that
//! [`serialize_instance`] writes come from one place, [`included`], so the two
//! never drift apart.

use vstd::prelude::*;
use vstd::string::*;
use crate::mapping::{
    Dynamic, FieldMapping, ObjectKind, ObjectMapping, Property, entries_view, join_entries, json_quoted,
    prop_entries, push_entries, quote,
};
use crate::text::strings_view;

verus! {

/// The shape of the type that a derivation is asked for.
#[derive(Clone, Copy, Debug, PartialEq, Eq, Structural)]
pub enum TypeShape {
    /// A struct with named fields: the one shape that can be mapped.
    Record,
    Tuple,
    Unit,
    Enum,
}

/// The value of an annotation: `key = "text"`, `key(expr = "text")`, a bare
/// `key`, or anything else (kept as written).
pub enum AnnotationValue {
    Str(String),
    Expr(String),
    Flag,
    Other(String),
}

/// One `key ...` item of a type's annotations.
pub struct Annotation {
    pub key: String,
    pub value: AnnotationValue,
}

/// A field of the record, as the derivation sees it.
pub struct FieldDescriptor {
    /// The declared name.
    pub name: String,
    /// The name that serialization renames the field to, if any.
    pub rename: Option<String>,
    /// Serialization leaves the field out.
    pub skip_serializing: bool,
    /// The field is marked as the document's id.
    pub is_id: bool,
    /// A mapping chosen for this field explicitly.
    pub mapping_override: Option<FieldMapping>,
    /// The mapping of the field's type.
    pub default_mapping: FieldMapping,
}

/// The settings of an object mapping, apart from its properties: the indexed
/// type name, the kind, and the meta settings.
pub struct MappingSettings {
    pub name: String,
    pub kind: ObjectKind,
    pub dynamic: Option<Dynamic>,
    pub enabled: Option<bool>,
    pub include_in_all: Option<bool>,
}

/// A record type, as the derivation sees it.
pub struct TypeDescriptor {
    pub name: String,
    pub shape: TypeShape,
    /// The type has generic parameters.
    pub generic: bool,
    /// Type-level annotations: `index`, `ty` and `id` are read, others ignored.
    pub annotations: Vec<Annotation>,
    /// Mapping settings of the type's own, used in place of the defaults. The
    /// properties are always those of the type's fields.
    pub mapping_override: Option<MappingSettings>,
    pub fields: Vec<FieldDescriptor>,
}

/// Why a type could not be derived; each carries the type's name.
#[derive(Debug)]
pub enum DerivationError {
    /// Not a record with named fields, or a generic one.
    UnsupportedShape(String),
    /// Two explicit settings for the same thing.
    ConflictingOverride(String),
    /// An annotation value of the wrong shape.
    MalformedAnnotation(String),
}

/// Where documents of the type are indexed.
pub enum IndexName {
    /// Computed per document by the named expression.
    Computed(String),
    /// The same for every document.
    Fixed(String),
}

/// Where a document's id comes from.
pub enum IdSource {
    /// Computed per document by the named expression.
    Computed(String),
    /// The value of the field with this (serialized) name.
    Field(String),
    /// Documents have no id of their own.
    Absent,
}

/// The result of deriving a document type.
pub struct DerivedType {
    pub index: IndexName,
    pub doc_type: String,
    pub id: IdSource,
    pub mapping: ObjectMapping,
}

/// The lower-case form of a text, as std computes it.
pub uninterp spec fn lowercase_of(s: Seq<char>) -> Seq<char>;

/// Relies on `str::to_lowercase`: the result depends on the characters alone.
#[verifier::external_body]
fn lowercase(s: &str) -> (r: String)
    ensures
        r@ == lowercase_of(s@),
{
    s.to_lowercase()
}

/// The name a field has in serialized documents.
pub open spec fn wire_name(f: FieldDescriptor) -> Seq<char> {
    match f.rename {
        Some(r) => r@,
        None => f.name@,
    }
}

/// The mapping a field gets: its own explicit one, else its type's.
pub open spec fn field_choice(f: FieldDescriptor) -> FieldMapping {
    match f.mapping_override {
        Some(m) => m,
        None => f.default_mapping,
    }
}

/// The fields from `k` on that serialization keeps, in declaration order.
pub open spec fn included(fs: Seq<FieldDescriptor>, k: int) -> Seq<FieldDescriptor>
    decreases fs.len() - k,
{
    if k < 0 || k >= fs.len() {
        seq![]
    } else if fs[k].skip_serializing {
        included(fs, k + 1)
    } else {
        seq![fs[k]] + included(fs, k + 1)
    }
}

/// `props` lists the kept fields of `fs`, in order, under their serialized
/// names and with their chosen mappings.
pub open spec fn props_derived_from(props: Seq<Property>, fs: Seq<FieldDescriptor>) -> bool {
    let inc = included(fs, 0);
    &&& props.len() == inc.len()
    &&& forall|k: int|
        0 <= k < props.len() ==> #[trigger] props[k].name@ == wire_name(inc[k])
            && props[k].mapping == field_choice(inc[k])
}

/// An annotation that the derivation reads, with a value of a shape it does not
/// take: `index` takes text or an expression, `ty` text, `id` an expression.
pub open spec fn is_malformed(a: Annotation) -> bool {
    if a.key@ == "index"@ {
        !(a.value is Str || a.value is Expr)
    } else if a.key@ == "ty"@ {
        !(a.value is Str)
    } else if a.key@ == "id"@ {
        !(a.value is Expr)
    } else {
        false
    }
}

/// How many annotations from `k` on have the key.
pub open spec fn count_key(anns: Seq<Annotation>, key: Seq<char>, k: int) -> nat
    decreases anns.len() - k,
{
    if k < 0 || k >= anns.len() {
        0
    } else {
        (if anns[k].key@ == key {
            1nat
        } else {
            0nat
        }) + count_key(anns, key, k + 1)
    }
}

/// The value of the first annotation from `k` on with the key.
pub open spec fn find_key(anns: Seq<Annotation>, key: Seq<char>, k: int) -> Option<AnnotationValue>
    decreases anns.len() - k,
{
    if k < 0 || k >= anns.len() {
        None
    } else if anns[k].key@ == key {
        Some(anns[k].value)
    } else {
        find_key(anns, key, k + 1)
    }
}

/// How many fields from `k` on are marked as the id.
pub open spec fn count_ids(fs: Seq<FieldDescriptor>, k: int) -> nat
    decreases fs.len() - k,
{
    if k < 0 || k >= fs.len() {
        0
    } else {
        (if fs[k].is_id {
            1nat
        } else {
            0nat
        }) + count_ids(fs, k + 1)
    }
}

/// The serialized name of the first field from `k` on marked as the id.
pub open spec fn find_id(fs: Seq<FieldDescriptor>, k: int) -> Option<Seq<char>>
    decreases fs.len() - k,
{
    if k < 0 || k >= fs.len() {
        None
    } else if fs[k].is_id {
        Some(wire_name(fs[k]))
    } else {
        find_id(fs, k + 1)
    }
}

/// Which error a descriptor gives, checked in this order: its shape, then the
/// shape of its annotations, then conflicting settings.
pub open spec fn derivation_error(d: TypeDescriptor) -> Option<DerivationError> {
    let anns = d.annotations@;
    if d.shape != TypeShape::Record || d.generic {
        Some(DerivationError::UnsupportedShape(d.name))
    } else if exists|k: int| 0 <= k < anns.len() && is_malformed(#[trigger] anns[k]) {
        Some(DerivationError::MalformedAnnotation(d.name))
    } else if count_key(anns, "index"@, 0) > 1 || count_key(anns, "ty"@, 0) > 1 || count_key(
        anns,
        "id"@,
        0,
    ) > 1 || count_ids(d.fields@, 0) > 1 {
        Some(DerivationError::ConflictingOverride(d.name))
    } else {
        None
    }
}

/// The index name that a descriptor resolves to: a computed expression first,
/// then a literal, then the type's name in lower case.
pub open spec fn index_resolved(i: IndexName, d: TypeDescriptor) -> bool {
    match find_key(d.annotations@, "index"@, 0) {
        Some(AnnotationValue::Expr(e)) => i matches IndexName::Computed(x) && x@ == e@,
        Some(AnnotationValue::Str(t)) => i matches IndexName::Fixed(x) && x@ == t@,
        _ => i matches IndexName::Fixed(x) && x@ == lowercase_of(d.name@),
    }
}

/// The indexed type name that a descriptor resolves to: a literal, else the
/// type's name in lower case.
pub open spec fn doc_type_resolved(d: TypeDescriptor) -> Seq<char> {
    match find_key(d.annotations@, "ty"@, 0) {
        Some(AnnotationValue::Str(t)) => t@,
        _ => lowercase_of(d.name@),
    }
}

/// The id source that a descriptor resolves to: a computed expression first,
/// then the field marked as the id.
pub open spec fn id_resolved(i: IdSource, d: TypeDescriptor) -> bool {
    match find_key(d.annotations@, "id"@, 0) {
        Some(AnnotationValue::Expr(e)) => i matches IdSource::Computed(x) && x@ == e@,
        _ => match find_id(d.fields@, 0) {
            Some(n) => i matches IdSource::Field(x) && x@ == n,
            None => i is Absent,
        },
    }
}

/// The object mapping that a descriptor resolves to: one property per kept
/// field, always; its name, kind and meta settings from the type's own
/// settings when it has them, else a nested mapping named after the indexed
/// type with no meta settings.
pub open spec fn mapping_resolved(m: ObjectMapping, d: TypeDescriptor) -> bool {
    &&& props_derived_from(m.props@, d.fields@)
    &&& match d.mapping_override {
        Some(o) => {
            &&& m.name == o.name
            &&& m.kind == o.kind
            &&& m.dynamic == o.dynamic
            &&& m.enabled == o.enabled
            &&& m.include_in_all == o.include_in_all
        },
        None => {
            &&& m.name@ == doc_type_resolved(d)
            &&& m.kind == ObjectKind::Nested
            &&& m.dynamic is None
            &&& m.enabled is None
            &&& m.include_in_all is None
        },
    }
}

fn key_is(key: &String, word: &str) -> (r: bool)
    ensures
        r == (key@ == word@),
{
    *key == String::from_str(word)
}

fn malformed(a: &Annotation) -> (r: bool)
    ensures
        r == is_malformed(*a),
{
    let is_str = match a.value {
        AnnotationValue::Str(_) => true,
        _ => false,
    };
    let is_expr = match a.value {
        AnnotationValue::Expr(_) => true,
        _ => false,
    };
    if key_is(&a.key, "index") {
        !(is_str || is_expr)
    } else if key_is(&a.key, "ty") {
        !is_str
    } else if key_is(&a.key, "id") {
        !is_expr
    } else {
        false
    }
}

fn count_with_key(anns: &Vec<Annotation>, word: &str) -> (r: usize)
    ensures
        r == count_key(anns@, word@, 0),
{
    let mut c: usize = 0;
    let mut k: usize = anns.len();
    while k > 0
        invariant
            k <= anns@.len(),
            anns@.len() <= usize::MAX,
            c == count_key(anns@, word@, k as int),
            c <= anns@.len() - k,
        decreases k,
    {
        k = k - 1;
        if key_is(&anns[k].key, word) {
            c = c + 1;
        }
    }
    c
}

fn count_id_fields(fs: &Vec<FieldDescriptor>) -> (r: usize)
    ensures
        r == count_ids(fs@, 0),
{
    let mut c: usize = 0;
    let mut k: usize = fs.len();
    while k > 0
        invariant
            k <= fs@.len(),
            fs@.len() <= usize::MAX,
            c == count_ids(fs@, k as int),
            c <= fs@.len() - k,
        decreases k,
    {
        k = k - 1;
        if fs[k].is_id {
            c = c + 1;
        }
    }
    c
}

/// The index of the first annotation with the key, if any.
fn position_of_key(anns: &Vec<Annotation>, word: &str) -> (r: Option<usize>)
    ensures
        match r {
            Some(k) => k < anns@.len() && find_key(anns@, word@, 0) == Some(anns@[k as int].value),
            None => find_key(anns@, word@, 0) is None,
        },
{
    let mut k: usize = 0;
    while k < anns.len()
        invariant
            k <= anns@.len(),
            find_key(anns@, word@, 0) == find_key(anns@, word@, k as int),
        decreases anns@.len() - k,
    {
        if key_is(&anns[k].key, word) {
            return Some(k);
        }
        k = k + 1;
    }
    None
}

fn wire_name_of(f: &FieldDescriptor) -> (r: String)
    ensures
        r@ == wire_name(*f),
{
    match &f.rename {
        Some(n) => n.clone(),
        None => f.name.clone(),
    }
}

fn id_field(fs: &Vec<FieldDescriptor>) -> (r: Option<String>)
    ensures
        match find_id(fs@, 0) {
            Some(n) => r matches Some(x) && x@ == n,
            None => r is None,
        },
{
    let mut k: usize = 0;
    while k < fs.len()
        invariant
            k <= fs@.len(),
            find_id(fs@, 0) == find_id(fs@, k as int),
        decreases fs@.len() - k,
    {
        if fs[k].is_id {
            return Some(wire_name_of(&fs[k]));
        }
        k = k + 1;
    }
    None
}

proof fn lemma_included_step(fs: Seq<FieldDescriptor>, k: int, done: Seq<FieldDescriptor>)
    requires
        0 <= k < fs.len(),
        included(fs, 0) == done + included(fs, k),
    ensures
        !fs[k].skip_serializing ==> included(fs, 0) == done.push(fs[k]) + included(fs, k + 1),
        fs[k].skip_serializing ==> included(fs, 0) == done + included(fs, k + 1),
{
    if !fs[k].skip_serializing {
        assert(done + included(fs, k) =~= done.push(fs[k]) + included(fs, k + 1));
    }
}

/// The properties of the kept fields, in order, each under its serialized name
/// with its chosen mapping.
fn derive_props(fields: Vec<FieldDescriptor>) -> (r: Vec<Property>)
    ensures
        props_derived_from(r@, fields@),
{
    let ghost orig = fields@;
    let n = fields.len();
    let mut rest = fields;
    let mut props: Vec<Property> = Vec::new();
    let ghost mut done: Seq<FieldDescriptor> = seq![];
    let mut k: usize = 0;
    assert(included(orig, 0) =~= done + included(orig, 0));
    while k < n
        invariant
            n == orig.len(),
            k <= n,
            rest@ == orig.subrange(k as int, n as int),
            included(orig, 0) == done + included(orig, k as int),
            props@.len() == done.len(),
            forall|j: int|
                #![trigger props@[j]]
                0 <= j < props@.len() ==> props@[j].name@ == wire_name(done[j])
                    && props@[j].mapping == field_choice(done[j]),
        decreases n - k,
    {
        let f = rest.remove(0);
        assert(f == orig[k as int]);
        proof {
            lemma_included_step(orig, k as int, done);
        }
        if !f.skip_serializing {
            let wire = match f.rename {
                Some(r) => r,
                None => f.name,
            };
            let m = match f.mapping_override {
                Some(m) => m,
                None => f.default_mapping,
            };
            assert(wire@ == wire_name(orig[k as int]));
            assert(m == field_choice(orig[k as int]));
            let ghost old_props = props@;
            props.push(Property { name: wire, mapping: m });
            proof {
                done = done.push(orig[k as int]);
                assert forall|j: int| #![trigger props@[j]] 0 <= j < props@.len() implies props@[j].name@
                    == wire_name(done[j]) && props@[j].mapping == field_choice(done[j]) by {
                    if j < old_props.len() {
                        assert(props@[j] == old_props[j]);
                    }
                }
            }
        }
        assert(rest@ =~= orig.subrange(k + 1, n as int));
        k = k + 1;
    }
    assert(included(orig, k as int) =~= seq![]);
    assert(done + included(orig, k as int) =~= done);
    assert(included(orig, 0) == done);
    props
}

/// Checks a type's description and derives its document settings and mapping.
pub fn derive_type(desc: TypeDescriptor) -> (r: Result<DerivedType, DerivationError>)
    ensures
        match derivation_error(desc) {
            Some(e) => r matches Err(x) && x == e,
            None => r matches Ok(t) && index_resolved(t.index, desc) && t.doc_type@
                == doc_type_resolved(desc) && id_resolved(t.id, desc) && mapping_resolved(
                t.mapping,
                desc,
            ),
        },
{
    let ghost d = desc;
    let TypeDescriptor { name, shape, generic, annotations, mapping_override, fields } = desc;
    assert(name == d.name && shape == d.shape && generic == d.generic);
    if shape != TypeShape::Record || generic {
        return Err(DerivationError::UnsupportedShape(name));
    }
    let mut k: usize = 0;
    while k < annotations.len()
        invariant
            d == desc,
            name == d.name,
            d.shape == TypeShape::Record,
            !d.generic,
            annotations@ == d.annotations@,
            k <= annotations@.len(),
            forall|j: int| 0 <= j < k ==> !is_malformed(#[trigger] annotations@[j]),
        decreases annotations@.len() - k,
    {
        if malformed(&annotations[k]) {
            assert(is_malformed(d.annotations@[k as int]));
            return Err(DerivationError::MalformedAnnotation(name));
        }
        k = k + 1;
    }
    if count_with_key(&annotations, "index") > 1 || count_with_key(&annotations, "ty") > 1
        || count_with_key(&annotations, "id") > 1 || count_id_fields(&fields) > 1 {
        return Err(DerivationError::ConflictingOverride(name));
    }
    let lower = lowercase(name.as_str());
    let index = match position_of_key(&annotations, "index") {
        Some(j) => match &annotations[j].value {
            AnnotationValue::Expr(e) => IndexName::Computed(e.clone()),
            AnnotationValue::Str(t) => IndexName::Fixed(t.clone()),
            _ => IndexName::Fixed(lower.clone()),
        },
        None => IndexName::Fixed(lower.clone()),
    };
    let doc_type = match position_of_key(&annotations, "ty") {
        Some(j) => match &annotations[j].value {
            AnnotationValue::Str(t) => t.clone(),
            _ => lower.clone(),
        },
        None => lower.clone(),
    };
    let id = match position_of_key(&annotations, "id") {
        Some(j) => match &annotations[j].value {
            AnnotationValue::Expr(e) => IdSource::Computed(e.clone()),
            _ => match id_field(&fields) {
                Some(n) => IdSource::Field(n),
                None => IdSource::Absent,
            },
        },
        None => match id_field(&fields) {
            Some(n) => IdSource::Field(n),
            None => IdSource::Absent,
        },
    };
    let props = derive_props(fields);
    let mapping = match mapping_override {
        Some(o) => ObjectMapping {
            name: o.name,
            kind: o.kind,
            dynamic: o.dynamic,
            enabled: o.enabled,
            include_in_all: o.include_in_all,
            props,
        },
        None => ObjectMapping {
            name: doc_type.clone(),
            kind: ObjectKind::Nested,
            dynamic: None,
            enabled: None,
            include_in_all: None,
            props,
        },
    };
    Ok(DerivedType { index, doc_type, id, mapping })
}

// Instances.

/// The entries that an instance's text holds: for each kept field from `k` on,
/// the JSON literal of its serialized name and the text of its value.
pub open spec fn instance_entries(
    fs: Seq<FieldDescriptor>,
    vals: Seq<Seq<char>>,
    k: int,
) -> Seq<(Seq<char>, Seq<char>)>
    decreases fs.len() - k,
{
    if k < 0 || k >= fs.len() {
        seq![]
    } else if fs[k].skip_serializing {
        instance_entries(fs, vals, k + 1)
    } else {
        seq![(json_quoted(wire_name(fs[k])), vals[k])] + instance_entries(fs, vals, k + 1)
    }
}

/// The JSON text of an instance whose fields' values have the texts `vals`.
pub open spec fn instance_text(fs: Seq<FieldDescriptor>, vals: Seq<Seq<char>>) -> Seq<char> {
    "{"@ + join_entries(instance_entries(fs, vals, 0), 0) + "}"@
}

/// Writes an instance of the described type as a JSON object, given the JSON
/// text of each field's value in declaration order. Fields that serialization
/// skips are left out; the others appear under their serialized names.
pub fn serialize_instance(desc: &TypeDescriptor, values: &Vec<String>) -> (r: String)
    requires
        values@.len() == desc.fields@.len(),
    ensures
        r@ == instance_text(desc.fields@, strings_view(values@)),
{
    let ghost fs = desc.fields@;
    let ghost vals = strings_view(values@);
    let mut es: Vec<(String, String)> = Vec::new();
    let mut k: usize = 0;
    assert(entries_view(es@) + instance_entries(fs, vals, 0) =~= instance_entries(fs, vals, 0));
    while k < desc.fields.len()
        invariant
            fs == desc.fields@,
            vals == strings_view(values@),
            values@.len() == fs.len(),
            k <= fs.len(),
            entries_view(es@) + instance_entries(fs, vals, k as int) == instance_entries(
                fs,
                vals,
                0,
            ),
        decreases fs.len() - k,
    {
        let f = &desc.fields[k];
        if !f.skip_serializing {
            let wire = wire_name_of(f);
            let name = quote(wire.as_str());
            let value = values[k].clone();
            let ghost before = entries_view(es@);
            es.push((name, value));
            assert(entries_view(es@) =~= before.push((name@, value@)));
            assert(before + instance_entries(fs, vals, k as int) =~= entries_view(es@)
                + instance_entries(fs, vals, k + 1));
        }
        k = k + 1;
    }
    assert(entries_view(es@) + instance_entries(fs, vals, k as int) =~= entries_view(es@));
    let mut s = String::from_str("{");
    push_entries(&mut s, &es);
    s.append("}");
    s
}

/// The names of the kept fields, as JSON literals, from `k` on.
pub open spec fn kept_names(fs: Seq<FieldDescriptor>, k: int) -> Seq<Seq<char>>
    decreases fs.len() - k,
{
    if k < 0 || k >= fs.len() {
        seq![]
    } else if fs[k].skip_serializing {
        kept_names(fs, k + 1)
    } else {
        seq![json_quoted(wire_name(fs[k]))] + kept_names(fs, k + 1)
    }
}

proof fn lemma_instance_names(fs: Seq<FieldDescriptor>, vals: Seq<Seq<char>>, k: int)
    requires
        0 <= k <= fs.len(),
    ensures
        instance_entries(fs, vals, k).map_values(|e: (Seq<char>, Seq<char>)| e.0) == kept_names(
            fs,
            k,
        ),
        included(fs, k).map_values(|f: FieldDescriptor| json_quoted(wire_name(f))) == kept_names(
            fs,
            k,
        ),
    decreases fs.len() - k,
{
    if k < fs.len() {
        lemma_instance_names(fs, vals, k + 1);
        let ie = instance_entries(fs, vals, k + 1);
        let inc = included(fs, k + 1);
        if !fs[k].skip_serializing {
            let e = (json_quoted(wire_name(fs[k])), vals[k]);
            assert((seq![e] + ie).map_values(|e: (Seq<char>, Seq<char>)| e.0) =~= seq![e.0]
                + ie.map_values(|e: (Seq<char>, Seq<char>)| e.0));
            assert((seq![fs[k]] + inc).map_values(|f: FieldDescriptor| json_quoted(wire_name(f)))
                =~= seq![json_quoted(wire_name(fs[k]))] + inc.map_values(
                |f: FieldDescriptor| json_quoted(wire_name(f)),
            ));
        }
    } else {
        assert(instance_entries(fs, vals, k).map_values(|e: (Seq<char>, Seq<char>)| e.0) =~= seq![]);
        assert(included(fs, k).map_values(|f: FieldDescriptor| json_quoted(wire_name(f))) =~= seq![]);
    }
}

/// The mapping derived for a type and the type's own serializer list the same
/// field names in the same order: both come from the kept fields.
pub proof fn lemma_shared_field_list(
    fs: Seq<FieldDescriptor>,
    props: Seq<Property>,
    vals: Seq<Seq<char>>,
    prev: Seq<Seq<char>>,
)
    requires
        props_derived_from(props, fs),
    ensures
        prop_entries(props, prev).map_values(|e: (Seq<char>, Seq<char>)| e.0) == instance_entries(
            fs,
            vals,
            0,
        ).map_values(|e: (Seq<char>, Seq<char>)| e.0),
{
    lemma_instance_names(fs, vals, 0);
    let inc = included(fs, 0);
    let a = prop_entries(props, prev).map_values(|e: (Seq<char>, Seq<char>)| e.0);
    let b = inc.map_values(|f: FieldDescriptor| json_quoted(wire_name(f)));
    assert forall|j: int| 0 <= j < a.len() implies a[j] == b[j] by {
        assert(props[j].name@ == wire_name(inc[j]));
    }
    assert(a =~= b);
}

/// Whatever settings a type brings, the mapping derived for it lists the same
/// field names, in the same order, as the type's serializer writes.
pub proof fn lemma_derived_mapping_shares_fields(
    d: TypeDescriptor,
    m: ObjectMapping,
    vals: Seq<Seq<char>>,
    prev: Seq<Seq<char>>,
)
    requires
        mapping_resolved(m, d),
    ensures
        prop_entries(m.props@, prev).map_values(|e: (Seq<char>, Seq<char>)| e.0)
            == instance_entries(d.fields@, vals, 0).map_values(
            |e: (Seq<char>, Seq<char>)| e.0,
        ),
{
    lemma_shared_field_list(d.fields@, m.props@, vals, prev);
}

/// A derived mapping declares one property per kept field, and its properties
/// emit exactly that many entries.
pub proof fn lemma_derived_cardinality(
    fs: Seq<FieldDescriptor>,
    props: Seq<Property>,
    prev: Seq<Seq<char>>,
)
    requires
        props_derived_from(props, fs),
    ensures
        prop_entries(props, prev).len() == props.len(),
        props.len() == included(fs, 0).len(),
{
}

} // verus!
