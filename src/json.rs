//! The dialect layer: reads the library's dialect-independent document
//! out of a decoded document, given as plain JSON whose objects keep the order
//! of their keys.

use vstd::prelude::*;

use crate::document::{ApiDocument, DefaultValue, Operation, PathItem, Primitive, Schema, SchemaShape};
use crate::normalize::names_of;
use crate::source::OASVersion;
use crate::text::{split_path, split_segments};

verus! {

/// A JSON value; an object keeps its entries in the order of the text.
#[derive(Debug, PartialEq, Eq)]
pub enum JsonValue {
    Null,
    Bool(bool),
    /// A number, as its decimal text.
    Number(String),
    Text(String),
    Array(Vec<JsonValue>),
    Object(Vec<(String, JsonValue)>),
}

/// The index of the first entry from `i` on whose key is `key`; -1 if none.
pub open spec fn key_from(es: Seq<(String, JsonValue)>, key: Seq<char>, i: int) -> int
    decreases es.len() - i,
{
    if i < 0 || i >= es.len() {
        -1
    } else if es[i].0@ == key {
        i
    } else {
        key_from(es, key, i + 1)
    }
}

pub open spec fn key_index(es: Seq<(String, JsonValue)>, key: Seq<char>) -> int {
    key_from(es, key, 0)
}

proof fn lemma_key_from_range(es: Seq<(String, JsonValue)>, key: Seq<char>, i: int)
    requires
        0 <= i,
    ensures
        key_from(es, key, i) == -1 || (i <= key_from(es, key, i) < es.len()),
    decreases es.len() - i,
{
    if i < es.len() && es[i].0@ != key {
        lemma_key_from_range(es, key, i + 1);
    }
}

/// The value of the first entry of an object with the given key.
pub open spec fn member(v: JsonValue, key: Seq<char>) -> Option<JsonValue> {
    match v {
        JsonValue::Object(es) => {
            let k = key_index(es@, key);
            if 0 <= k < es@.len() {
                Some(es@[k].1)
            } else {
                None
            }
        },
        _ => None,
    }
}

pub open spec fn member_of(o: Option<JsonValue>, key: Seq<char>) -> Option<JsonValue> {
    match o {
        Some(v) => member(v, key),
        None => None,
    }
}

pub open spec fn is_true(o: Option<JsonValue>) -> bool {
    o matches Some(JsonValue::Bool(b)) && b
}

pub open spec fn text_of(o: Option<JsonValue>) -> Option<Seq<char>> {
    match o {
        Some(JsonValue::Text(t)) => Some(t@),
        _ => None,
    }
}

pub open spec fn text_is(o: Option<String>, t: Option<Seq<char>>) -> bool {
    match (o, t) {
        (Some(x), Some(y)) => x@ == y,
        (None, None) => true,
        _ => false,
    }
}

/// The first type name of a list that is not `null`.
pub open spec fn first_type(ts: Seq<JsonValue>) -> Option<Seq<char>>
    decreases ts.len(),
{
    if ts.len() == 0 {
        None
    } else if ts[0] matches JsonValue::Text(t) && t@ != "null"@ {
        Some(ts[0]->Text_0@)
    } else {
        first_type(ts.drop_first())
    }
}

pub open spec fn has_null(ts: Seq<JsonValue>) -> bool {
    exists|i: int| 0 <= i < ts.len() && (#[trigger] ts[i] matches JsonValue::Text(t) && t@ == "null"@)
}

/// The type name of a schema, and whether its type list admits `null`.
pub open spec fn type_info(o: Option<JsonValue>) -> (Option<Seq<char>>, bool) {
    match o {
        Some(JsonValue::Text(t)) => (Some(t@), false),
        Some(JsonValue::Array(ts)) => (first_type(ts@), has_null(ts@)),
        _ => (None, false),
    }
}

/// The texts of a list, other values skipped.
pub open spec fn texts(xs: Seq<JsonValue>) -> Seq<Seq<char>>
    decreases xs.len(),
{
    if xs.len() == 0 {
        Seq::empty()
    } else {
        let r = texts(xs.drop_last());
        match xs.last() {
            JsonValue::Text(t) => r.push(t@),
            _ => r,
        }
    }
}

/// The values of an enumeration: texts and numbers, others skipped.
pub open spec fn enum_texts(xs: Seq<JsonValue>) -> Seq<Seq<char>>
    decreases xs.len(),
{
    if xs.len() == 0 {
        Seq::empty()
    } else {
        let r = enum_texts(xs.drop_last());
        match xs.last() {
            JsonValue::Text(t) => r.push(t@),
            JsonValue::Number(t) => r.push(t@),
            _ => r,
        }
    }
}

/// The default that a `default` entry gives: booleans, numbers and texts.
pub open spec fn default_ok(o: Option<JsonValue>, d: Option<DefaultValue>) -> bool {
    match o {
        Some(JsonValue::Bool(b)) => d == Some(DefaultValue::Bool(b)),
        Some(JsonValue::Number(n)) => d matches Some(DefaultValue::Number(x)) && x@ == n@,
        Some(JsonValue::Text(t)) => d matches Some(DefaultValue::Text(x)) && x@ == t@,
        _ => d is None,
    }
}

/// The schema of something that is no object: a plain string.
pub open spec fn fallback(s: Schema) -> bool {
    &&& s.shape matches SchemaShape::Primitive(p, f) && p == Primitive::String && f is None
    &&& !s.nullable
    &&& !s.read_only
    &&& s.description@.len() == 0
    &&& s.default is None
}

/// The name that a reference gives: the segment after its last `/`.
pub open spec fn ref_name(r: Seq<char>) -> Seq<char> {
    split_path(r).last()
}

/// Whether `ms` are the schemas of the list under `key`.
pub open spec fn list_ok(es: Seq<(String, JsonValue)>, key: Seq<char>, ms: Seq<Schema>) -> bool
    decreases es, 0nat,
{
    let k = key_index(es, key);
    if 0 <= k < es.len() {
        match es[k].1 {
            JsonValue::Array(xs) => xs@.len() == ms.len() && forall|j: int| 0 <= j < xs@.len() ==> schema_of(#[trigger] xs@[j], ms[j]),
            _ => ms.len() == 0,
        }
    } else {
        ms.len() == 0
    }
}

/// `s` is the schema that the JSON value `v` describes.
pub open spec fn schema_of(v: JsonValue, s: Schema) -> bool
    decreases v, 1nat,
{
    match v {
        JsonValue::Object(es) => {
            let e = es@;
            let ti = type_info(member(v, "type"@));
            let fmt = text_of(member(v, "format"@));
            &&& s.nullable == (is_true(member(v, "nullable"@)) || is_true(member(v, "x-nullable"@)) || ti.1)
            &&& s.read_only == is_true(member(v, "readOnly"@))
            &&& s.description@ == (match text_of(member(v, "description"@)) {
                Some(t) => t,
                None => Seq::empty(),
            })
            &&& default_ok(member(v, "default"@), s.default)
            &&& if text_of(member(v, "$ref"@)) is Some {
                s.shape matches SchemaShape::Ref(n) && n@ == ref_name(text_of(member(v, "$ref"@))->Some_0)
            } else if member(v, "allOf"@) is Some {
                s.shape matches SchemaShape::AllOf(ms) && list_ok(e, "allOf"@, ms@)
            } else if member(v, "oneOf"@) is Some {
                s.shape matches SchemaShape::OneOf(ms) && list_ok(e, "oneOf"@, ms@)
            } else if member(v, "anyOf"@) is Some {
                s.shape matches SchemaShape::OneOf(ms) && list_ok(e, "anyOf"@, ms@)
            } else if member(v, "enum"@) is Some && member(v, "enum"@)->Some_0 is Array {
                s.shape matches SchemaShape::Enum(vs) && names_of(vs@) == enum_texts(member(v, "enum"@)->Some_0->Array_0@)
            } else if ti.0 == Some("array"@) {
                s.shape matches SchemaShape::Array(x) && {
                    let k = key_index(e, "items"@);
                    if 0 <= k < e.len() {
                        schema_of(e[k].1, *x)
                    } else {
                        fallback(*x)
                    }
                }
            } else if ti.0 == Some("integer"@) {
                s.shape matches SchemaShape::Primitive(p, f) && p == Primitive::Integer && text_is(f, fmt)
            } else if ti.0 == Some("number"@) {
                s.shape matches SchemaShape::Primitive(p, f) && p == Primitive::Number && text_is(f, fmt)
            } else if ti.0 == Some("boolean"@) {
                s.shape matches SchemaShape::Primitive(p, f) && p == Primitive::Boolean && text_is(f, fmt)
            } else if ti.0 == Some("object"@) || (ti.0 is None && member(v, "properties"@) is Some) {
                s.shape matches SchemaShape::Object(props, req) && {
                    let k = key_index(e, "properties"@);
                    &&& if 0 <= k < e.len() && e[k].1 is Object {
                        let ps = e[k].1->Object_0@;
                        props@.len() == ps.len() && forall|i: int| 0 <= i < ps.len() ==> (#[trigger] props@[i]).0@ == ps[i].0@
                            && schema_of(ps[i].1, props@[i].1)
                    } else {
                        props@.len() == 0
                    }
                    &&& names_of(req@) == (match member(v, "required"@) {
                        Some(JsonValue::Array(xs)) => texts(xs@),
                        _ => Seq::empty(),
                    })
                }
            } else {
                s.shape matches SchemaShape::Primitive(p, f) && p == Primitive::String && text_is(f, fmt)
            }
        },
        _ => fallback(s),
    }
}


/// Whether two texts are equal.
pub fn text_eq(a: &str, b: &str) -> (r: bool)
    ensures
        r == (a@ == b@),
{
    let n = a.unicode_len();
    if n != b.unicode_len() {
        return false;
    }
    let mut i: usize = 0;
    while i < n
        invariant
            n == a@.len(),
            n == b@.len(),
            i <= n,
            forall|j: int| 0 <= j < i ==> a@[j] == b@[j],
        decreases n - i,
    {
        if a.get_char(i) != b.get_char(i) {
            return false;
        }
        i = i + 1;
    }
    assert(a@ =~= b@);
    true
}

fn key_pos(es: &Vec<(String, JsonValue)>, key: &str) -> (r: Option<usize>)
    ensures
        match r {
            Some(k) => k == key_index(es@, key@) && k < es@.len(),
            None => !(0 <= key_index(es@, key@) < es@.len()),
        },
{
    proof { lemma_key_from_range(es@, key@, 0); }
    let mut i: usize = 0;
    while i < es.len()
        invariant
            i <= es@.len(),
            key_index(es@, key@) == key_from(es@, key@, i as int),
        decreases es@.len() - i,
    {
        if text_eq(es[i].0.as_str(), key) {
            return Some(i);
        }
        i = i + 1;
    }
    None
}

/// The value of the first entry of `v` with the given key, if `v` is an object.
pub fn member_ref<'a>(v: &'a JsonValue, key: &str) -> (r: Option<&'a JsonValue>)
    ensures
        r matches Some(x) ==> member(*v, key@) == Some(*x),
        r is None ==> member(*v, key@) is None,
{
    match v {
        JsonValue::Object(es) => match key_pos(es, key) {
            Some(k) => Some(&es[k].1),
            None => None,
        },
        _ => None,
    }
}

fn true_at(v: &JsonValue, key: &str) -> (r: bool)
    ensures
        r == is_true(member(*v, key@)),
{
    match member_ref(v, key) {
        Some(JsonValue::Bool(b)) => *b,
        _ => false,
    }
}

fn text_at(v: &JsonValue, key: &str) -> (r: Option<String>)
    ensures
        text_is(r, text_of(member(*v, key@))),
{
    match member_ref(v, key) {
        Some(JsonValue::Text(t)) => Some(t.clone()),
        _ => None,
    }
}

fn first_type_of(ts: &Vec<JsonValue>) -> (r: Option<String>)
    ensures
        text_is(r, first_type(ts@)),
{
    let mut i: usize = 0;
    assert(ts@.subrange(0, ts@.len() as int) =~= ts@);
    while i < ts.len()
        invariant
            i <= ts@.len(),
            first_type(ts@) == first_type(ts@.subrange(i as int, ts@.len() as int)),
        decreases ts@.len() - i,
    {
        assert(ts@.subrange(i as int, ts@.len() as int).drop_first() =~= ts@.subrange(i + 1, ts@.len() as int));
        assert(ts@.subrange(i as int, ts@.len() as int)[0] == ts@[i as int]);
        if let JsonValue::Text(t) = &ts[i] {
            if !text_eq(t.as_str(), "null") {
                return Some(t.clone());
            }
        }
        i = i + 1;
    }
    assert(ts@.subrange(i as int, ts@.len() as int).len() == 0);
    None
}

fn has_null_of(ts: &Vec<JsonValue>) -> (r: bool)
    ensures
        r == has_null(ts@),
{
    let mut i: usize = 0;
    while i < ts.len()
        invariant
            i <= ts@.len(),
            forall|j: int| 0 <= j < i ==> !(#[trigger] ts@[j] matches JsonValue::Text(t) && t@ == "null"@),
        decreases ts@.len() - i,
    {
        if let JsonValue::Text(t) = &ts[i] {
            if text_eq(t.as_str(), "null") {
                return true;
            }
        }
        i = i + 1;
    }
    false
}

fn type_info_of(v: &JsonValue) -> (r: (Option<String>, bool))
    ensures
        text_is(r.0, type_info(member(*v, "type"@)).0),
        r.1 == type_info(member(*v, "type"@)).1,
{
    match member_ref(v, "type") {
        Some(JsonValue::Text(t)) => (Some(t.clone()), false),
        Some(JsonValue::Array(ts)) => (first_type_of(ts), has_null_of(ts)),
        _ => (None, false),
    }
}

fn is_named(t: &Option<String>, name: &str) -> (r: bool)
    ensures
        r == (*t matches Some(x) && x@ == name@),
{
    match t {
        Some(x) => text_eq(x.as_str(), name),
        None => false,
    }
}

fn texts_of(xs: &Vec<JsonValue>, numbers: bool) -> (r: Vec<String>)
    ensures
        names_of(r@) == if numbers { enum_texts(xs@) } else { texts(xs@) },
{
    let mut r: Vec<String> = Vec::new();
    let mut i: usize = 0;
    while i < xs.len()
        invariant
            i <= xs@.len(),
            names_of(r@) == if numbers { enum_texts(xs@.subrange(0, i as int)) } else { texts(xs@.subrange(0, i as int)) },
        decreases xs@.len() - i,
    {
        assert(xs@.subrange(0, i + 1).drop_last() =~= xs@.subrange(0, i as int));
        assert(xs@.subrange(0, i + 1).last() == xs@[i as int]);
        match &xs[i] {
            JsonValue::Text(t) => {
                r.push(t.clone());
            },
            JsonValue::Number(t) => {
                if numbers {
                    r.push(t.clone());
                }
            },
            _ => {},
        }
        assert(names_of(r@) =~= if numbers { enum_texts(xs@.subrange(0, i + 1)) } else { texts(xs@.subrange(0, i + 1)) });
        i = i + 1;
    }
    assert(xs@.subrange(0, xs@.len() as int) =~= xs@);
    r
}

fn default_of(v: &JsonValue) -> (r: Option<DefaultValue>)
    ensures
        default_ok(member(*v, "default"@), r),
{
    match member_ref(v, "default") {
        Some(JsonValue::Bool(b)) => Some(DefaultValue::Bool(*b)),
        Some(JsonValue::Number(n)) => Some(DefaultValue::Number(n.clone())),
        Some(JsonValue::Text(t)) => Some(DefaultValue::Text(t.clone())),
        _ => None,
    }
}

fn fallback_schema() -> (s: Schema)
    ensures
        fallback(s),
{
    Schema {
        shape: SchemaShape::Primitive(Primitive::String, None),
        nullable: false,
        read_only: false,
        description: String::new(),
        default: None,
    }
}

fn schema_list(es: &Vec<(String, JsonValue)>, key: &str) -> (ms: Vec<Schema>)
    ensures
        list_ok(es@, key@, ms@),
    decreases es, 0nat,
{
    let mut ms: Vec<Schema> = Vec::new();
    match key_pos(es, key) {
        None => ms,
        Some(k) => match &es[k].1 {
            JsonValue::Array(xs) => {
                let mut j: usize = 0;
                while j < xs.len()
                    invariant
                        j <= xs@.len(),
                        k < es@.len(),
                        es@[k as int].1 == JsonValue::Array(*xs),
                        ms@.len() == j,
                        forall|i: int| 0 <= i < j ==> schema_of(#[trigger] xs@[i], ms@[i]),
                    decreases xs@.len() - j,
                {
                    proof {
                        assert(decreases_to!(*es => es@));
                        assert(decreases_to!(es@ => es@[k as int]));
                        assert(decreases_to!(es@[k as int] => es@[k as int].1));
                        assert(decreases_to!(es@[k as int].1 => es@[k as int].1->Array_0));
                        assert(decreases_to!(*xs => xs@));
                        assert(decreases_to!(xs@ => xs@[j as int]));
                    }
                    let m = schema(&xs[j]);
                    ms.push(m);
                    j = j + 1;
                }
                ms
            },
            _ => ms,
        },
    }
}

/// The schema that a JSON value describes.
pub fn schema(v: &JsonValue) -> (s: Schema)
    ensures
        schema_of(*v, s),
    decreases v, 1nat,
{
    let es = match v {
        JsonValue::Object(es) => es,
        _ => {
            return fallback_schema();
        },
    };
    let (declared_type, null_listed) = type_info_of(v);
    let nullable = true_at(v, "nullable") || true_at(v, "x-nullable") || null_listed;
    let read_only = true_at(v, "readOnly");
    let description = match text_at(v, "description") {
        Some(t) => t,
        None => String::new(),
    };
    let default = default_of(v);
    let format = text_at(v, "format");
    let shape = if let Some(JsonValue::Text(r)) = member_ref(v, "$ref") {
        let segs = split_segments(r.as_str());
        proof { crate::text::lemma_split_nonempty(r@); }
        assert(segs@.len() == names_of(segs@).len());
        let last = segs[segs.len() - 1].clone();
        SchemaShape::Ref(last)
    } else if member_ref(v, "allOf").is_some() {
        SchemaShape::AllOf(schema_list(es, "allOf"))
    } else if member_ref(v, "oneOf").is_some() {
        SchemaShape::OneOf(schema_list(es, "oneOf"))
    } else if member_ref(v, "anyOf").is_some() {
        SchemaShape::OneOf(schema_list(es, "anyOf"))
    } else if let Some(JsonValue::Array(xs)) = member_ref(v, "enum") {
        SchemaShape::Enum(texts_of(xs, true))
    } else if is_named(&declared_type, "array") {
        let item = match key_pos(es, "items") {
            Some(k) => {
                proof {
                    assert(*es == v->Object_0);
                            assert(decreases_to!(*v => v->Object_0));
                    assert(decreases_to!(*es => es@));
                    assert(decreases_to!(es@ => es@[k as int]));
                    assert(decreases_to!(es@[k as int] => es@[k as int].1));
                }
                schema(&es[k].1)
            },
            None => fallback_schema(),
        };
        SchemaShape::Array(Box::new(item))
    } else if is_named(&declared_type, "integer") {
        SchemaShape::Primitive(Primitive::Integer, format)
    } else if is_named(&declared_type, "number") {
        SchemaShape::Primitive(Primitive::Number, format)
    } else if is_named(&declared_type, "boolean") {
        SchemaShape::Primitive(Primitive::Boolean, format)
    } else if is_named(&declared_type, "object") || (declared_type.is_none() && member_ref(v, "properties").is_some()) {
        let mut props: Vec<(String, Schema)> = Vec::new();
        match key_pos(es, "properties") {
            Some(k) => {
                if let JsonValue::Object(ps) = &es[k].1 {
                    let mut i: usize = 0;
                    while i < ps.len()
                        invariant
                            i <= ps@.len(),
                            k < es@.len(),
                            *v == JsonValue::Object(*es),
                            es@[k as int].1 == JsonValue::Object(*ps),
                            props@.len() == i,
                            forall|j: int| 0 <= j < i ==> (#[trigger] props@[j]).0@ == ps@[j].0@ && schema_of(ps@[j].1, props@[j].1),
                        decreases ps@.len() - i,
                    {
                        proof {
                            assert(*es == v->Object_0);
                            assert(decreases_to!(*v => v->Object_0));
                            assert(decreases_to!(*es => es@));
                            assert(decreases_to!(es@ => es@[k as int]));
                            assert(decreases_to!(es@[k as int] => es@[k as int].1));
                            assert(decreases_to!(es@[k as int].1 => es@[k as int].1->Object_0));
                            assert(decreases_to!(*ps => ps@));
                            assert(decreases_to!(ps@ => ps@[i as int]));
                            assert(decreases_to!(ps@[i as int] => ps@[i as int].1));
                        }
                        let p = schema(&ps[i].1);
                        props.push((ps[i].0.clone(), p));
                        i = i + 1;
                    }
                }
            },
            None => {},
        }
        let required = match member_ref(v, "required") {
            Some(JsonValue::Array(xs)) => texts_of(xs, false),
            _ => {
                let none: Vec<String> = Vec::new();
                assert(names_of(none@) =~= Seq::<Seq<char>>::empty());
                none
            },
        };
        SchemaShape::Object(props, required)
    } else {
        SchemaShape::Primitive(Primitive::String, format)
    };
    Schema { shape, nullable, read_only, description, default }
}


pub open spec fn deref(r: Option<&JsonValue>) -> Option<JsonValue> {
    match r {
        Some(x) => Some(*x),
        None => None,
    }
}

pub open spec fn same_value(r: Option<&JsonValue>, o: Option<JsonValue>) -> bool {
    deref(r) == o
}

/// The operations that a path item may hold, lower case as the document writes
/// them and upper case as the library names them.
pub open spec fn method_name(i: int) -> (Seq<char>, Seq<char>) {
    if i == 0 {
        ("get"@, "GET"@)
    } else if i == 1 {
        ("put"@, "PUT"@)
    } else if i == 2 {
        ("post"@, "POST"@)
    } else if i == 3 {
        ("delete"@, "DELETE"@)
    } else if i == 4 {
        ("patch"@, "PATCH"@)
    } else if i == 5 {
        ("head"@, "HEAD"@)
    } else {
        ("options"@, "OPTIONS"@)
    }
}

/// The operations, from index `i` of the table on, that the item holds.
pub open spec fn methods_in(item: JsonValue, i: int) -> Seq<int>
    decreases 7 - i,
{
    if i < 0 || i >= 7 {
        Seq::empty()
    } else {
        let rest = methods_in(item, i + 1);
        if member(item, method_name(i).0) is Some {
            seq![i] + rest
        } else {
            rest
        }
    }
}

/// The value that a JSON pointer's segments lead to, through objects.
pub open spec fn pointer(v: JsonValue, segs: Seq<Seq<char>>) -> Option<JsonValue>
    decreases segs.len(),
{
    if segs.len() == 0 {
        Some(v)
    } else {
        match member(v, segs[0]) {
            Some(c) => pointer(c, segs.drop_first()),
            None => None,
        }
    }
}

/// A body or response, or the one that its local `$ref` (`#/...`) points to.
pub open spec fn follow(root: JsonValue, b: Option<JsonValue>) -> Option<JsonValue> {
    match b {
        Some(x) => match text_of(member(x, "$ref"@)) {
            Some(r) => if r.len() >= 2 && r[0] == '#' && r[1] == '/' {
                match pointer(root, split_path(r.subrange(2, r.len() as int))) {
                    Some(y) => Some(y),
                    None => Some(x),
                }
            } else {
                Some(x)
            },
            None => Some(x),
        },
        None => None,
    }
}

/// The schema of a body's content: that of `application/json`, else of the
/// first media type.
pub open spec fn media_schema(b: Option<JsonValue>) -> Option<JsonValue> {
    match member_of(b, "content"@) {
        Some(JsonValue::Object(es)) => {
            let k = key_index(es@, "application/json"@);
            if 0 <= k < es@.len() {
                member(es@[k].1, "schema"@)
            } else if es@.len() > 0 {
                member(es@[0].1, "schema"@)
            } else {
                None
            }
        },
        _ => None,
    }
}

/// The first response whose status starts with `2`.
pub open spec fn first_success(es: Seq<(String, JsonValue)>) -> Option<JsonValue>
    decreases es.len(),
{
    if es.len() == 0 {
        None
    } else if es[0].0@.len() > 0 && es[0].0@[0] == '2' {
        Some(es[0].1)
    } else {
        first_success(es.drop_first())
    }
}

/// The response that read uses: the first success, else `default`.
pub open spec fn success_response(op: JsonValue) -> Option<JsonValue> {
    match member(op, "responses"@) {
        Some(JsonValue::Object(es)) => match first_success(es@) {
            Some(r) => Some(r),
            None => member(JsonValue::Object(es), "default"@),
        },
        _ => None,
    }
}

/// The first parameter that is passed in the body.
pub open spec fn first_body_parameter(ps: Seq<JsonValue>) -> Option<JsonValue>
    decreases ps.len(),
{
    if ps.len() == 0 {
        None
    } else if text_of(member(ps[0], "in"@)) == Some("body"@) {
        Some(ps[0])
    } else {
        first_body_parameter(ps.drop_first())
    }
}

/// The schema of what an operation sends: in a 2.0 document the body
/// parameter's, in a 3.x document the request body's content.
pub open spec fn request_source(root: JsonValue, version: OASVersion, op: JsonValue) -> Option<JsonValue> {
    if version == OASVersion::V2_0 {
        match member(op, "parameters"@) {
            Some(JsonValue::Array(ps)) => member_of(first_body_parameter(ps@), "schema"@),
            _ => None,
        }
    } else {
        media_schema(follow(root, member(op, "requestBody"@)))
    }
}

/// The schema of what an operation returns on success.
pub open spec fn response_source(root: JsonValue, version: OASVersion, op: JsonValue) -> Option<JsonValue> {
    if version == OASVersion::V2_0 {
        member_of(success_response(op), "schema"@)
    } else {
        media_schema(follow(root, success_response(op)))
    }
}

pub open spec fn body_of(src: Option<JsonValue>, b: Option<Schema>) -> bool {
    match src {
        Some(x) => b matches Some(s) && schema_of(x, s),
        None => b is None,
    }
}

pub open spec fn operation_of(root: JsonValue, version: OASVersion, item: JsonValue, i: int, o: Operation) -> bool {
    let op = member(item, method_name(i).0)->Some_0;
    &&& o.method@ == method_name(i).1
    &&& body_of(request_source(root, version, op), o.request_body)
    &&& body_of(response_source(root, version, op), o.response_body)
}

pub open spec fn item_of(root: JsonValue, version: OASVersion, item: JsonValue, ops: Seq<Operation>) -> bool {
    let ms = methods_in(item, 0);
    ops.len() == ms.len() && forall|j: int| 0 <= j < ms.len() ==> operation_of(root, version, item, ms[j], #[trigger] ops[j])
}

/// Where a dialect keeps its named schemas.
pub open spec fn schemas_source(root: JsonValue, version: OASVersion) -> Option<JsonValue> {
    if version == OASVersion::V2_0 {
        member(root, "definitions"@)
    } else {
        member_of(member(root, "components"@), "schemas"@)
    }
}

/// `doc` is what the decoded document `root` of dialect `version` describes:
/// its named schemas in order, and each path in order with its operations in
/// the order get, put, post, delete, patch, head, options.
pub open spec fn document_of(root: JsonValue, version: OASVersion, doc: ApiDocument) -> bool {
    &&& match schemas_source(root, version) {
        Some(JsonValue::Object(es)) => doc.components@.len() == es@.len() && forall|i: int| 0 <= i < es@.len() ==> (#[trigger] doc.components@[i]).0@ == es@[i].0@
            && schema_of(es@[i].1, doc.components@[i].1),
        _ => doc.components@.len() == 0,
    }
    &&& match member(root, "paths"@) {
        Some(JsonValue::Object(ps)) => doc.paths@.len() == ps@.len() && forall|i: int| 0 <= i < ps@.len() ==> (#[trigger] doc.paths@[i]).path@ == ps@[i].0@
            && item_of(root, version, ps@[i].1, doc.paths@[i].operations@),
        _ => doc.paths@.len() == 0,
    }
}

fn member_in<'a>(o: Option<&'a JsonValue>, key: &str) -> (r: Option<&'a JsonValue>)
    ensures
        same_value(r, member_of(deref(o), key@)),
{
    match o {
        Some(v) => member_ref(v, key),
        None => None,
    }
}

fn pointer_ref<'a>(root: &'a JsonValue, segs: &Vec<String>) -> (r: Option<&'a JsonValue>)
    ensures
        same_value(r, pointer(*root, names_of(segs@))),
{
    let mut cur: &JsonValue = root;
    let mut i: usize = 0;
    assert(names_of(segs@).subrange(0, segs@.len() as int) =~= names_of(segs@));
    while i < segs.len()
        invariant
            i <= segs@.len(),
            pointer(*root, names_of(segs@)) == pointer(*cur, names_of(segs@).subrange(i as int, segs@.len() as int)),
        decreases segs@.len() - i,
    {
        let ghost rest = names_of(segs@).subrange(i as int, segs@.len() as int);
        assert(rest.drop_first() =~= names_of(segs@).subrange(i + 1, segs@.len() as int));
        assert(rest[0] == segs@[i as int]@);
        match member_ref(cur, segs[i].as_str()) {
            Some(c) => {
                cur = c;
            },
            None => {
                return None;
            },
        }
        i = i + 1;
    }
    assert(names_of(segs@).subrange(segs@.len() as int, segs@.len() as int).len() == 0);
    Some(cur)
}

fn follow_ref<'a>(root: &'a JsonValue, b: Option<&'a JsonValue>) -> (r: Option<&'a JsonValue>)
    ensures
        same_value(r, follow(*root, deref(b))),
{
    let x = match b {
        Some(x) => x,
        None => {
            return None;
        },
    };
    if let Some(JsonValue::Text(r)) = member_ref(x, "$ref") {
        let n = r.unicode_len();
        if n >= 2 && r.get_char(0) == '#' && r.get_char(1) == '/' {
            let rest = r.as_str().substring_char(2, n);
            let segs = split_segments(rest);
            if let Some(y) = pointer_ref(root, &segs) {
                return Some(y);
            }
        }
    }
    Some(x)
}

fn media_schema_ref<'a>(b: Option<&'a JsonValue>) -> (r: Option<&'a JsonValue>)
    ensures
        same_value(r, media_schema(deref(b))),
{
    match member_in(b, "content") {
        Some(JsonValue::Object(es)) => match key_pos(es, "application/json") {
            Some(k) => member_ref(&es[k].1, "schema"),
            None => if es.len() > 0 {
                member_ref(&es[0].1, "schema")
            } else {
                None
            },
        },
        _ => None,
    }
}

fn success_ref<'a>(op: &'a JsonValue) -> (r: Option<&'a JsonValue>)
    ensures
        same_value(r, success_response(*op)),
{
    let responses = member_ref(op, "responses");
    match responses {
        Some(JsonValue::Object(es)) => {
            let mut i: usize = 0;
            assert(es@.subrange(0, es@.len() as int) =~= es@);
            while i < es.len()
                invariant
                    i <= es@.len(),
                    member(*op, "responses"@) == Some(JsonValue::Object(*es)),
                    first_success(es@) == first_success(es@.subrange(i as int, es@.len() as int)),
                decreases es@.len() - i,
            {
                let ghost rest = es@.subrange(i as int, es@.len() as int);
                assert(rest.drop_first() =~= es@.subrange(i + 1, es@.len() as int));
                assert(rest[0] == es@[i as int]);
                let key = es[i].0.as_str();
                if key.unicode_len() > 0 && key.get_char(0) == '2' {
                    return Some(&es[i].1);
                }
                i = i + 1;
            }
            assert(es@.subrange(i as int, es@.len() as int).len() == 0);
            member_ref(responses.unwrap(), "default")
        },
        _ => None,
    }
}

fn body_parameter<'a>(ps: &'a Vec<JsonValue>) -> (r: Option<&'a JsonValue>)
    ensures
        same_value(r, first_body_parameter(ps@)),
{
    let mut i: usize = 0;
    assert(ps@.subrange(0, ps@.len() as int) =~= ps@);
    while i < ps.len()
        invariant
            i <= ps@.len(),
            first_body_parameter(ps@) == first_body_parameter(ps@.subrange(i as int, ps@.len() as int)),
        decreases ps@.len() - i,
    {
        let ghost rest = ps@.subrange(i as int, ps@.len() as int);
        assert(rest.drop_first() =~= ps@.subrange(i + 1, ps@.len() as int));
        assert(rest[0] == ps@[i as int]);
        if let Some(JsonValue::Text(t)) = member_ref(&ps[i], "in") {
            if text_eq(t.as_str(), "body") {
                return Some(&ps[i]);
            }
        }
        i = i + 1;
    }
    assert(ps@.subrange(i as int, ps@.len() as int).len() == 0);
    None
}

fn body_schema(src: Option<&JsonValue>) -> (r: Option<Schema>)
    ensures
        body_of(deref(src), r),
{
    match src {
        Some(x) => Some(schema(x)),
        None => None,
    }
}

fn method_at(i: usize) -> (r: (&'static str, &'static str))
    requires
        i < 7,
    ensures
        r.0@ == method_name(i as int).0,
        r.1@ == method_name(i as int).1,
{
    if i == 0 {
        ("get", "GET")
    } else if i == 1 {
        ("put", "PUT")
    } else if i == 2 {
        ("post", "POST")
    } else if i == 3 {
        ("delete", "DELETE")
    } else if i == 4 {
        ("patch", "PATCH")
    } else if i == 5 {
        ("head", "HEAD")
    } else {
        ("options", "OPTIONS")
    }
}

fn operations_of(root: &JsonValue, version: OASVersion, item: &JsonValue) -> (ops: Vec<Operation>)
    ensures
        item_of(*root, version, *item, ops@),
{
    let mut ops: Vec<Operation> = Vec::new();
    let ghost done: Seq<int> = Seq::empty();
    let mut i: usize = 0;
    while i < 7
        invariant
            i <= 7,
            methods_in(*item, 0) == done + methods_in(*item, i as int),
            ops@.len() == done.len(),
            forall|j: int| 0 <= j < done.len() ==> operation_of(*root, version, *item, done[j], #[trigger] ops@[j]),
        decreases 7 - i,
    {
        let (lower, upper) = method_at(i);
        if let Some(op) = member_ref(item, lower) {
            let request = if version == OASVersion::V2_0 {
                match member_ref(op, "parameters") {
                    Some(JsonValue::Array(ps)) => body_schema(member_in(body_parameter(ps), "schema")),
                    _ => None,
                }
            } else {
                body_schema(media_schema_ref(follow_ref(root, member_ref(op, "requestBody"))))
            };
            let response = if version == OASVersion::V2_0 {
                body_schema(member_in(success_ref(op), "schema"))
            } else {
                body_schema(media_schema_ref(follow_ref(root, success_ref(op))))
            };
            ops.push(Operation { method: String::from_str(upper), request_body: request, response_body: response });
            proof {
                assert(methods_in(*item, i as int) == seq![i as int] + methods_in(*item, i + 1));
                done = done.push(i as int);
                assert(methods_in(*item, 0) =~= done + methods_in(*item, i + 1));
            }
        } else {
            assert(methods_in(*item, i as int) == methods_in(*item, i + 1));
        }
        i = i + 1;
    }
    assert(methods_in(*item, 7) == Seq::<int>::empty());
    assert(done =~= methods_in(*item, 0));
    ops
}

/// The dialect-independent document that the decoded document `root`, of
/// dialect `version`, describes.
pub fn api_document(root: &JsonValue, version: OASVersion) -> (doc: ApiDocument)
    ensures
        document_of(*root, version, doc),
{
    let source = if version == OASVersion::V2_0 {
        member_ref(root, "definitions")
    } else {
        member_in(member_ref(root, "components"), "schemas")
    };
    let mut components: Vec<(String, Schema)> = Vec::new();
    if let Some(JsonValue::Object(es)) = source {
        let mut i: usize = 0;
        while i < es.len()
            invariant
                i <= es@.len(),
                components@.len() == i,
                forall|j: int| 0 <= j < i ==> (#[trigger] components@[j]).0@ == es@[j].0@ && schema_of(es@[j].1, components@[j].1),
            decreases es@.len() - i,
        {
            components.push((es[i].0.clone(), schema(&es[i].1)));
            i = i + 1;
        }
    }
    let mut paths: Vec<PathItem> = Vec::new();
    if let Some(JsonValue::Object(ps)) = member_ref(root, "paths") {
        let mut i: usize = 0;
        while i < ps.len()
            invariant
                i <= ps@.len(),
                paths@.len() == i,
                forall|j: int| 0 <= j < i ==> (#[trigger] paths@[j]).path@ == ps@[j].0@
                    && item_of(*root, version, ps@[j].1, paths@[j].operations@),
            decreases ps@.len() - i,
        {
            let operations = operations_of(root, version, &ps[i].1);
            paths.push(PathItem { path: ps[i].0.clone(), operations });
            i = i + 1;
        }
    }
    ApiDocument { paths, components }
}

} // verus!
