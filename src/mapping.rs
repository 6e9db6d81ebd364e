//! Mappings: the schema that the search engine keeps for each field and
//! document type, and its JSON text.
//!
//! Object mappings are kept in a table. A property of the object at index `i`
//! may refer to an object mapping only by a smaller index, so that the table
//! describes a finite tree; the texts of the objects are rendered in order, each
//! from the texts before it.

use vstd::prelude::*;
use vstd::string::*;
use crate::text::strings_view;

verus! {

/// How an object treats fields that its mapping does not name.
#[derive(Clone, Copy, Debug, PartialEq, Eq, Structural)]
pub enum Dynamic {
    /// Newly seen fields are added to the mapping.
    True,
    /// Newly seen fields are ignored.
    False,
    /// A document with a newly seen field is rejected.
    Strict,
}

/// The two flavours of composite field: a single embedded document, or an
/// array of subdocuments indexed on their own.
#[derive(Clone, Copy, Debug, PartialEq, Eq, Structural)]
pub enum ObjectKind {
    Object,
    Nested,
}

/// The value of one attribute of a core field mapping.
pub enum ParamValue {
    Str(String),
    Bool(bool),
    Int(i64),
    /// A number given by its JSON text, such as `1.01`, written as it stands.
    Number(String),
}

/// The mapping of one field.
pub enum FieldMapping {
    /// No mapping of its own: the engine infers one (`{"type":"object"}`).
    Default,
    /// A core datatype with its attributes, in order.
    Core { data_type: String, params: Vec<(String, ParamValue)> },
    /// The object mapping at this index of the table.
    Object(usize),
    /// A container (a sequence or an optional value) of the inner mapping.
    Wrapped(Box<FieldMapping>),
}

/// A named property of an object.
pub struct Property {
    pub name: String,
    pub mapping: FieldMapping,
}

/// The mapping of a composite type: its properties in order and its meta
/// settings. Settings that are `None` are left out of the text.
pub struct ObjectMapping {
    /// The indexed type name.
    pub name: String,
    pub kind: ObjectKind,
    pub dynamic: Option<Dynamic>,
    pub enabled: Option<bool>,
    pub include_in_all: Option<bool>,
    pub props: Vec<Property>,
}

/// A lower-case hexadecimal digit.
pub open spec fn hex_digit(n: int) -> char {
    if n <= 9 {
        crate::text::digit_char(n)
    } else if n == 10 {
        'a'
    } else if n == 11 {
        'b'
    } else if n == 12 {
        'c'
    } else if n == 13 {
        'd'
    } else if n == 14 {
        'e'
    } else {
        'f'
    }
}

/// How serde_json writes one character inside a string literal: the quote,
/// the backslash and the control characters below U+0020 are escaped, with the
/// short forms where JSON has them and `\u00XX` otherwise; every other
/// character stands as it is.
pub open spec fn json_escape(c: char) -> Seq<char> {
    let n = c as u32 as int;
    if c == '"' {
        seq!['\\', '"']
    } else if c == '\\' {
        seq!['\\', '\\']
    } else if n == 8 {
        seq!['\\', 'b']
    } else if n == 9 {
        seq!['\\', 't']
    } else if n == 10 {
        seq!['\\', 'n']
    } else if n == 12 {
        seq!['\\', 'f']
    } else if n == 13 {
        seq!['\\', 'r']
    } else if n < 32 {
        seq!['\\', 'u', '0', '0', hex_digit(n / 16), hex_digit(n % 16)]
    } else {
        seq![c]
    }
}

/// The escaped characters of a text.
pub open spec fn json_escaped(s: Seq<char>) -> Seq<char>
    decreases s.len(),
{
    if s.len() == 0 {
        seq![]
    } else {
        json_escaped(s.drop_last()) + json_escape(s.last())
    }
}

/// The JSON string literal of a text, as serde_json writes it.
pub open spec fn json_quoted(s: Seq<char>) -> Seq<char> {
    seq!['"'] + json_escaped(s) + seq!['"']
}

/// Relies on `serde_json::to_string` applied to a `str`: the text between
/// quotes, escaped by serde_json's table (`ESCAPE` and
/// `Formatter::write_char_escape`). Writing a `str` into memory does not fail,
/// so the error arm is never taken.
#[verifier::external_body]
pub(crate) fn quote(s: &str) -> (r: String)
    ensures
        r@ == json_quoted(s@),
{
    match serde_json::to_string(s) {
        Ok(q) => q,
        Err(_) => String::new(),
    }
}

/// The mapping that a chain of containers stands for: containers are invisible.
pub open spec fn resolve(m: FieldMapping) -> FieldMapping
    decreases m,
{
    match m {
        FieldMapping::Wrapped(inner) => resolve(*inner),
        _ => m,
    }
}

/// The mapping nested in `depth` containers.
pub open spec fn wrap_n(m: FieldMapping, depth: nat) -> FieldMapping
    decreases depth,
{
    if depth == 0 {
        m
    } else {
        FieldMapping::Wrapped(Box::new(wrap_n(m, (depth - 1) as nat)))
    }
}

pub open spec fn bool_text(b: bool) -> Seq<char> {
    if b {
        "true"@
    } else {
        "false"@
    }
}

pub open spec fn dynamic_text(d: Dynamic) -> Seq<char> {
    match d {
        Dynamic::True => "true"@,
        Dynamic::False => "false"@,
        Dynamic::Strict => "\"strict\""@,
    }
}

pub open spec fn kind_text(k: ObjectKind) -> Seq<char> {
    match k {
        ObjectKind::Object => "\"object\""@,
        ObjectKind::Nested => "\"nested\""@,
    }
}

pub open spec fn param_text(v: ParamValue) -> Seq<char> {
    match v {
        ParamValue::Str(s) => json_quoted(s@),
        ParamValue::Bool(b) => bool_text(b),
        ParamValue::Int(i) => crate::text::signed_text(i as int),
        ParamValue::Number(t) => t@,
    }
}

/// `,"key":value` for each attribute from `k` on.
pub open spec fn params_text(ps: Seq<(String, ParamValue)>, k: int) -> Seq<char>
    decreases ps.len() - k,
{
    if k < 0 || k >= ps.len() {
        seq![]
    } else {
        ","@ + json_quoted(ps[k].0@) + ":"@ + param_text(ps[k].1) + params_text(ps, k + 1)
    }
}

/// Every object mapping that `m` refers to has an index below `n`.
pub open spec fn refs_below(m: FieldMapping, n: int) -> bool {
    match resolve(m) {
        FieldMapping::Object(j) => j < n,
        _ => true,
    }
}

/// The text of a field's mapping, where `prev` holds the texts of the object
/// mappings it may refer to.
pub open spec fn field_text(m: FieldMapping, prev: Seq<Seq<char>>) -> Seq<char> {
    match resolve(m) {
        FieldMapping::Core { data_type, params } => "{\"type\":"@ + json_quoted(data_type@)
            + params_text(params@, 0) + "}"@,
        FieldMapping::Object(j) => prev[j as int],
        _ => "{\"type\":\"object\"}"@,
    }
}

/// The entries that the properties of an object emit, in order: each name's
/// JSON literal and the text of its mapping.
pub open spec fn prop_entries(props: Seq<Property>, prev: Seq<Seq<char>>) -> Seq<
    (Seq<char>, Seq<char>),
> {
    Seq::new(
        props.len(),
        |k: int| (json_quoted(props[k].name@), field_text(props[k].mapping, prev)),
    )
}

/// `name:value` for each entry from `k` on, separated by commas.
pub open spec fn join_entries(es: Seq<(Seq<char>, Seq<char>)>, k: int) -> Seq<char>
    decreases es.len() - k,
{
    if k < 0 || k >= es.len() {
        seq![]
    } else {
        (if k > 0 {
            ","@
        } else {
            seq![]
        }) + es[k].0 + ":"@ + es[k].1 + join_entries(es, k + 1)
    }
}

/// The `properties` object of an object mapping.
pub open spec fn properties_text(o: ObjectMapping, prev: Seq<Seq<char>>) -> Seq<char> {
    "{"@ + join_entries(prop_entries(o.props@, prev), 0) + "}"@
}

pub open spec fn opt_dynamic_text(d: Option<Dynamic>) -> Seq<char> {
    match d {
        Some(v) => ",\"dynamic\":"@ + dynamic_text(v),
        None => seq![],
    }
}

pub open spec fn opt_bool_text(key: Seq<char>, b: Option<bool>) -> Seq<char> {
    match b {
        Some(v) => key + bool_text(v),
        None => seq![],
    }
}

/// `enabled` only applies to plain objects: a nested mapping never shows it.
pub open spec fn enabled_text(o: ObjectMapping) -> Seq<char> {
    if o.kind == ObjectKind::Object {
        opt_bool_text(",\"enabled\":"@, o.enabled)
    } else {
        seq![]
    }
}

/// The text of an object mapping used as a field of another type: `type`,
/// then `dynamic`, `include_in_all` and `enabled` when set, then `properties`.
pub open spec fn object_field_text(o: ObjectMapping, prev: Seq<Seq<char>>) -> Seq<char> {
    "{\"type\":"@ + kind_text(o.kind) + opt_dynamic_text(o.dynamic) + opt_bool_text(
        ",\"include_in_all\":"@,
        o.include_in_all,
    ) + enabled_text(o) + ",\"properties\":"@ + properties_text(o, prev) + "}"@
}

/// The text of an object mapping for an indexed document type: its
/// `properties` alone.
pub open spec fn document_text(o: ObjectMapping, prev: Seq<Seq<char>>) -> Seq<char> {
    "{\"properties\":"@ + properties_text(o, prev) + "}"@
}

/// Every reference inside the table points below the referring entry.
pub open spec fn table_wf(t: Seq<ObjectMapping>) -> bool {
    forall|i: int, k: int|
        0 <= i < t.len() && 0 <= k < t[i].props@.len() ==> refs_below(
            #[trigger] t[i].props@[k].mapping,
            i,
        )
}

/// The field texts of the first `n` objects of the table.
pub open spec fn table_texts(t: Seq<ObjectMapping>, n: nat) -> Seq<Seq<char>>
    decreases n,
{
    if n == 0 {
        seq![]
    } else {
        let prev = table_texts(t, (n - 1) as nat);
        prev.push(object_field_text(t[n - 1], prev))
    }
}

/// Every property of `o` refers to object mappings below `n` only.
pub open spec fn props_refs_below(o: ObjectMapping, n: int) -> bool {
    forall|k: int| 0 <= k < o.props@.len() ==> refs_below(#[trigger] o.props@[k].mapping, n)
}

pub open spec fn entries_view(v: Seq<(String, String)>) -> Seq<(Seq<char>, Seq<char>)> {
    v.map_values(|e: (String, String)| (e.0@, e.1@))
}

fn push_bool(s: &mut String, b: bool)
    ensures
        final(s)@ == old(s)@ + bool_text(b),
{
    if b {
        s.append("true");
    } else {
        s.append("false");
    }
}

fn push_param(s: &mut String, v: &ParamValue)
    ensures
        final(s)@ == old(s)@ + param_text(*v),
{
    match v {
        ParamValue::Str(t) => {
            let q = quote(t.as_str());
            s.append(q.as_str());
        },
        ParamValue::Bool(b) => push_bool(s, *b),
        ParamValue::Int(i) => {
            let t = crate::text::signed_string(*i as i128);
            s.append(t.as_str());
        },
        ParamValue::Number(t) => s.append(t.as_str()),
    }
}

fn push_params(s: &mut String, ps: &Vec<(String, ParamValue)>)
    ensures
        final(s)@ == old(s)@ + params_text(ps@, 0),
{
    let ghost s0 = s@;
    let mut k: usize = 0;
    while k < ps.len()
        invariant
            k <= ps@.len(),
            s@ + params_text(ps@, k as int) == s0 + params_text(ps@, 0),
        decreases ps@.len() - k,
    {
        let ghost s1 = s@;
        s.append(",");
        let q = quote(ps[k].0.as_str());
        s.append(q.as_str());
        s.append(":");
        push_param(s, &ps[k].1);
        assert(s1 + params_text(ps@, k as int) =~= s@ + params_text(ps@, k + 1));
        k = k + 1;
    }
    assert(s@ + params_text(ps@, k as int) =~= s@);
}

/// The text of a field's mapping; `prev` holds the texts of the object
/// mappings that it may refer to. Containers pass their inner mapping through.
pub fn field_mapping_text(m: &FieldMapping, prev: &Vec<String>) -> (r: String)
    requires
        refs_below(*m, prev@.len() as int),
    ensures
        r@ == field_text(*m, strings_view(prev@)),
    decreases m,
{
    match m {
        FieldMapping::Wrapped(inner) => field_mapping_text(inner, prev),
        FieldMapping::Default => String::from_str("{\"type\":\"object\"}"),
        FieldMapping::Core { data_type, params } => {
            let mut s = String::from_str("{\"type\":");
            let q = quote(data_type.as_str());
            s.append(q.as_str());
            push_params(&mut s, params);
            s.append("}");
            s
        },
        FieldMapping::Object(j) => prev[*j].clone(),
    }
}

/// The entries that the properties of `o` emit: each name's JSON literal with
/// the text of its mapping, one per property, in order.
pub fn serialize_props(o: &ObjectMapping, prev: &Vec<String>) -> (r: Vec<(String, String)>)
    requires
        props_refs_below(*o, prev@.len() as int),
    ensures
        entries_view(r@) == prop_entries(o.props@, strings_view(prev@)),
{
    let mut r: Vec<(String, String)> = Vec::new();
    let mut k: usize = 0;
    while k < o.props.len()
        invariant
            props_refs_below(*o, prev@.len() as int),
            k <= o.props@.len(),
            entries_view(r@) =~= prop_entries(o.props@, strings_view(prev@)).subrange(0, k as int),
        decreases o.props@.len() - k,
    {
        let p = &o.props[k];
        let name = quote(p.name.as_str());
        let text = field_mapping_text(&p.mapping, prev);
        let ghost before = r@;
        r.push((name, text));
        assert(entries_view(r@) =~= entries_view(before).push((name@, text@)));
        k = k + 1;
    }
    r
}

/// The number of properties that `o` maps.
pub fn props_len(o: &ObjectMapping) -> (r: usize)
    ensures
        r == o.props@.len(),
{
    o.props.len()
}

pub(crate) fn push_entries(s: &mut String, es: &Vec<(String, String)>)
    ensures
        final(s)@ == old(s)@ + join_entries(entries_view(es@), 0),
{
    let ghost s0 = s@;
    let ghost v = entries_view(es@);
    let mut k: usize = 0;
    while k < es.len()
        invariant
            v == entries_view(es@),
            k <= es@.len(),
            s@ + join_entries(v, k as int) == s0 + join_entries(v, 0),
        decreases es@.len() - k,
    {
        let ghost s1 = s@;
        if k > 0 {
            s.append(",");
        }
        s.append(es[k].0.as_str());
        s.append(":");
        s.append(es[k].1.as_str());
        assert(s1 + join_entries(v, k as int) =~= s@ + join_entries(v, k + 1));
        k = k + 1;
    }
    assert(s@ + join_entries(v, k as int) =~= s@);
}

fn push_properties(s: &mut String, o: &ObjectMapping, prev: &Vec<String>)
    requires
        props_refs_below(*o, prev@.len() as int),
    ensures
        final(s)@ == old(s)@ + properties_text(*o, strings_view(prev@)),
{
    let ghost s0 = s@;
    let es = serialize_props(o, prev);
    s.append("{");
    push_entries(s, &es);
    s.append("}");
    assert(s@ =~= s0 + properties_text(*o, strings_view(prev@)));
}

fn push_kind(s: &mut String, k: ObjectKind)
    ensures
        final(s)@ == old(s)@ + kind_text(k),
{
    match k {
        ObjectKind::Object => s.append("\"object\""),
        ObjectKind::Nested => s.append("\"nested\""),
    }
}

fn push_opt_dynamic(s: &mut String, d: Option<Dynamic>)
    ensures
        final(s)@ == old(s)@ + opt_dynamic_text(d),
{
    match d {
        Some(v) => {
            let ghost s0 = s@;
            s.append(",\"dynamic\":");
            match v {
                Dynamic::True => s.append("true"),
                Dynamic::False => s.append("false"),
                Dynamic::Strict => s.append("\"strict\""),
            }
            assert(s@ =~= s0 + opt_dynamic_text(d));
        },
        None => {
            assert(s@ =~= s@ + opt_dynamic_text(d));
        },
    }
}

fn push_opt_bool(s: &mut String, key: &str, b: Option<bool>)
    ensures
        final(s)@ == old(s)@ + opt_bool_text(key@, b),
{
    match b {
        Some(v) => {
            let ghost s0 = s@;
            s.append(key);
            push_bool(s, v);
            assert(s@ =~= s0 + opt_bool_text(key@, b));
        },
        None => {
            assert(s@ =~= s@ + opt_bool_text(key@, b));
        },
    }
}

fn push_enabled(s: &mut String, o: &ObjectMapping)
    ensures
        final(s)@ == old(s)@ + enabled_text(*o),
{
    if o.kind == ObjectKind::Object {
        push_opt_bool(s, ",\"enabled\":", o.enabled);
    } else {
        assert(s@ =~= s@ + enabled_text(*o));
    }
}

/// The text of an object mapping used as a field of another type.
pub fn object_field_ser(o: &ObjectMapping, prev: &Vec<String>) -> (r: String)
    requires
        props_refs_below(*o, prev@.len() as int),
    ensures
        r@ == object_field_text(*o, strings_view(prev@)),
{
    let mut s = String::from_str("{\"type\":");
    push_kind(&mut s, o.kind);
    push_opt_dynamic(&mut s, o.dynamic);
    push_opt_bool(&mut s, ",\"include_in_all\":", o.include_in_all);
    push_enabled(&mut s, o);
    s.append(",\"properties\":");
    push_properties(&mut s, o, prev);
    s.append("}");
    s
}

/// The text of an object mapping for an indexed document type: only its
/// `properties`, with no meta settings.
pub fn serialize_type(o: &ObjectMapping, prev: &Vec<String>) -> (r: String)
    requires
        props_refs_below(*o, prev@.len() as int),
    ensures
        r@ == document_text(*o, strings_view(prev@)),
{
    let mut s = String::from_str("{\"properties\":");
    push_properties(&mut s, o, prev);
    s.append("}");
    s
}

proof fn lemma_table_texts_len(t: Seq<ObjectMapping>, n: nat)
    ensures
        table_texts(t, n).len() == n,
    decreases n,
{
    if n > 0 {
        lemma_table_texts_len(t, (n - 1) as nat);
    }
}

/// The field texts of every object mapping of a table, in table order.
pub fn table_ser(t: &Vec<ObjectMapping>) -> (r: Vec<String>)
    requires
        table_wf(t@),
    ensures
        strings_view(r@) == table_texts(t@, t@.len()),
{
    let mut r: Vec<String> = Vec::new();
    let mut i: usize = 0;
    assert(strings_view(r@) =~= table_texts(t@, 0));
    while i < t.len()
        invariant
            table_wf(t@),
            i <= t@.len(),
            r@.len() == i,
            strings_view(r@) == table_texts(t@, i as nat),
        decreases t@.len() - i,
    {
        assert(props_refs_below(t@[i as int], i as int));
        let text = object_field_ser(&t[i], &r);
        let ghost before = r@;
        r.push(text);
        assert(strings_view(r@) =~= strings_view(before).push(text@));
        i = i + 1;
    }
    r
}

/// The datatype name of a field's mapping; object mappings are looked up in
/// the table `t`.
pub open spec fn mapping_data_type(m: FieldMapping, t: Seq<ObjectMapping>) -> Seq<char> {
    match resolve(m) {
        FieldMapping::Core { data_type, params } => data_type@,
        FieldMapping::Object(j) => match t[j as int].kind {
            ObjectKind::Object => "object"@,
            ObjectKind::Nested => "nested"@,
        },
        _ => "object"@,
    }
}

/// The datatype name of a field's mapping: containers report their items'.
pub fn data_type(m: &FieldMapping, t: &Vec<ObjectMapping>) -> (r: String)
    requires
        refs_below(*m, t@.len() as int),
    ensures
        r@ == mapping_data_type(*m, t@),
    decreases m,
{
    match m {
        FieldMapping::Wrapped(inner) => data_type(inner, t),
        FieldMapping::Core { data_type, params: _ } => data_type.clone(),
        FieldMapping::Object(j) => match t[*j].kind {
            ObjectKind::Object => String::from_str("object"),
            ObjectKind::Nested => String::from_str("nested"),
        },
        FieldMapping::Default => String::from_str("object"),
    }
}

/// Wrapping a mapping in containers (sequences, optional values), to any depth,
/// leaves its text and its datatype name unchanged.
pub proof fn lemma_container_transparency(
    m: FieldMapping,
    depth: nat,
    prev: Seq<Seq<char>>,
    t: Seq<ObjectMapping>,
)
    ensures
        field_text(wrap_n(m, depth), prev) == field_text(m, prev),
        mapping_data_type(wrap_n(m, depth), t) == mapping_data_type(m, t),
        resolve(wrap_n(m, depth)) == resolve(m),
    decreases depth,
{
    if depth > 0 {
        lemma_container_transparency(m, (depth - 1) as nat, prev, t);
    }
}

/// The text of a document type is its `properties` alone: two object mappings
/// with the same properties give the same document text, whatever their kind,
/// `dynamic`, `enabled` and `include_in_all` settings.
pub proof fn lemma_document_root_only_properties(
    a: ObjectMapping,
    b: ObjectMapping,
    prev: Seq<Seq<char>>,
)
    requires
        a.props@ == b.props@,
    ensures
        document_text(a, prev) == document_text(b, prev),
        document_text(a, prev) == "{\"properties\":"@ + properties_text(a, prev) + "}"@,
{
}

/// A nested object mapping never shows `enabled`: its field text is the same
/// whatever its `enabled` setting.
pub proof fn lemma_nested_omits_enabled(a: ObjectMapping, b: ObjectMapping, prev: Seq<Seq<char>>)
    requires
        a.kind == ObjectKind::Nested,
        b.kind == a.kind,
        b.dynamic == a.dynamic,
        b.include_in_all == a.include_in_all,
        b.props@ == a.props@,
    ensures
        object_field_text(a, prev) == object_field_text(b, prev),
        enabled_text(a) == Seq::<char>::empty(),
{
}

/// The properties of an object emit exactly as many entries as the object
/// declares properties.
pub proof fn lemma_props_cardinality(o: ObjectMapping, prev: Seq<Seq<char>>)
    ensures
        prop_entries(o.props@, prev).len() == o.props@.len(),
{
}

fn object_ref(m: &FieldMapping) -> (r: Option<usize>)
    ensures
        match resolve(*m) {
            FieldMapping::Object(j) => r == Some(j),
            _ => r is None,
        },
    decreases m,
{
    match m {
        FieldMapping::Wrapped(inner) => object_ref(inner),
        FieldMapping::Object(j) => Some(*j),
        _ => None,
    }
}

/// Whether the object mappings that `m` refers to all have an index below `n`.
pub fn refs_fit(m: &FieldMapping, n: usize) -> (r: bool)
    ensures
        r == refs_below(*m, n as int),
{
    match object_ref(m) {
        Some(j) => j < n,
        None => true,
    }
}

/// Whether every property of `o` refers to object mappings below `n` only.
pub fn props_fit(o: &ObjectMapping, n: usize) -> (r: bool)
    ensures
        r == props_refs_below(*o, n as int),
{
    let mut k: usize = 0;
    while k < o.props.len()
        invariant
            k <= o.props@.len(),
            forall|b: int| 0 <= b < k ==> refs_below(#[trigger] o.props@[b].mapping, n as int),
        decreases o.props@.len() - k,
    {
        if !refs_fit(&o.props[k].mapping, n) {
            return false;
        }
        k = k + 1;
    }
    true
}

/// Whether every reference of the table points below the referring entry.
pub fn table_is_wf(t: &Vec<ObjectMapping>) -> (r: bool)
    ensures
        r == table_wf(t@),
{
    let mut i: usize = 0;
    while i < t.len()
        invariant
            i <= t@.len(),
            forall|a: int, k: int|
                0 <= a < i && 0 <= k < t@[a].props@.len() ==> refs_below(
                    #[trigger] t@[a].props@[k].mapping,
                    a,
                ),
        decreases t@.len() - i,
    {
        let props = &t[i].props;
        let mut k: usize = 0;
        while k < props.len()
            invariant
                i < t@.len(),
                props == t@[i as int].props,
                k <= props@.len(),
                forall|a: int, b: int|
                    0 <= a < i && 0 <= b < t@[a].props@.len() ==> refs_below(
                        #[trigger] t@[a].props@[b].mapping,
                        a,
                    ),
                forall|b: int| 0 <= b < k ==> refs_below(#[trigger] props@[b].mapping, i as int),
            decreases props@.len() - k,
        {
            match object_ref(&props[k].mapping) {
                Some(j) => {
                    if j >= i {
                        assert(!refs_below(t@[i as int].props@[k as int].mapping, i as int));
                        return false;
                    }
                },
                None => {},
            }
            k = k + 1;
        }
        i = i + 1;
    }
    true
}

/// Writes the mapping documents of a table's object mappings.
pub struct TypeMapper;

impl TypeMapper {
    /// The mapping document of the object mapping at `i`: its properties, with
    /// the objects that they refer to rendered as fields.
    pub fn to_string(t: &Vec<ObjectMapping>, i: usize) -> (r: String)
        requires
            table_wf(t@),
            i < t@.len(),
        ensures
            r@ == document_text(t@[i as int], table_texts(t@, t@.len())),
    {
        let texts = table_ser(t);
        assert(props_refs_below(t@[i as int], i as int));
        assert(table_texts(t@, t@.len()).len() == t@.len()) by {
            lemma_table_texts_len(t@, t@.len());
        }
        assert forall|k: int| 0 <= k < t@[i as int].props@.len() implies refs_below(
            #[trigger] t@[i as int].props@[k].mapping,
            texts@.len() as int,
        ) by {
            assert(refs_below(t@[i as int].props@[k].mapping, i as int));
        }
        serialize_type(&t[i], &texts)
    }
}

} // verus!
