//! The attribute type mapper, and the Go literals of default values.

use vstd::prelude::*;

use crate::document::{DefaultValue, Primitive};
use crate::normalize::{arena_wf, NodeId, NodeKind, SchemaNode};

verus! {

/// The innermost type of an attribute. An enumeration or an object names the
/// node that holds its values or its fields.
#[derive(Clone, Copy, Debug, PartialEq, Eq, Structural)]
pub enum BaseType {
    String,
    Int64,
    Float64,
    Bool,
    /// A string restricted to the values of the enumeration node.
    Enum(NodeId),
    /// An object whose fields, all scalar, are those of the object node (or of
    /// the merged `allOf` node).
    Object(NodeId),
    /// A value kept as encoded JSON: a choice, a nested structure, or a cycle
    /// deeper than the mapping follows.
    Dynamic,
}

/// An attribute type: `list_depth` lists around a base type.
#[derive(Clone, Copy, Debug, PartialEq, Eq, Structural)]
pub struct AttributeType {
    pub list_depth: usize,
    pub base: BaseType,
}

/// A nullable node stands for the node it wraps.
pub open spec fn strip_nullable(nodes: Seq<SchemaNode>, id: NodeId) -> NodeId {
    match nodes[id as int].kind {
        NodeKind::Nullable(x) => x,
        _ => id,
    }
}

/// The node that `id` stands for once references and nullable wrappers are
/// followed, at most `fuel` of them.
pub open spec fn resolve(nodes: Seq<SchemaNode>, id: NodeId, fuel: nat) -> Option<NodeId>
    decreases fuel,
{
    if id >= nodes.len() {
        None
    } else {
        match nodes[id as int].kind {
            NodeKind::Reference(x) => if fuel == 0 { None } else { resolve(nodes, x, (fuel - 1) as nat) },
            NodeKind::Nullable(x) => if fuel == 0 { None } else { resolve(nodes, x, (fuel - 1) as nat) },
            _ => Some(id),
        }
    }
}

/// The type of a scalar node, if it is one.
pub open spec fn scalar_base(nodes: Seq<SchemaNode>, id: NodeId) -> Option<BaseType> {
    match nodes[id as int].kind {
        NodeKind::Primitive(Primitive::String, _) => Some(BaseType::String),
        NodeKind::Primitive(Primitive::Integer, _) => Some(BaseType::Int64),
        NodeKind::Primitive(Primitive::Number, _) => Some(BaseType::Float64),
        NodeKind::Primitive(Primitive::Boolean, _) => Some(BaseType::Bool),
        NodeKind::EnumOf(_) => Some(BaseType::Enum(id)),
        _ => None,
    }
}

/// Whether the node that `id` stands for is a scalar.
pub open spec fn is_scalar(nodes: Seq<SchemaNode>, id: NodeId, fuel: nat) -> bool {
    id < nodes.len() && (resolve(nodes, strip_nullable(nodes, id), fuel) matches Some(q)
        && scalar_base(nodes, q) is Some)
}

pub open spec fn plain(base: BaseType) -> AttributeType {
    AttributeType { list_depth: 0, base }
}

/// The attribute type of node `id`, following at most `fuel` references and
/// array levels. A nullable node has the type of the node it wraps.
pub open spec fn type_of(nodes: Seq<SchemaNode>, id: NodeId, fuel: nat) -> AttributeType
    decreases fuel,
{
    if id >= nodes.len() {
        plain(BaseType::Dynamic)
    } else {
        match resolve(nodes, strip_nullable(nodes, id), fuel) {
            None => plain(BaseType::Dynamic),
            Some(r) => match scalar_base(nodes, r) {
                Some(b) => plain(b),
                None => match nodes[r as int].kind {
                    NodeKind::ArrayOf(x) => if fuel == 0 {
                        plain(BaseType::Dynamic)
                    } else {
                        let t = type_of(nodes, x, (fuel - 1) as nat);
                        AttributeType { list_depth: (t.list_depth + 1) as usize, base: t.base }
                    },
                    NodeKind::ObjectOf(ps) => if forall|i: int|
                        0 <= i < ps@.len() ==> is_scalar(nodes, #[trigger] ps@[i].node, fuel) {
                        plain(BaseType::Object(r))
                    } else {
                        plain(BaseType::Dynamic)
                    },
                    NodeKind::AllOf(_, ps) => if forall|i: int|
                        0 <= i < ps@.len() ==> is_scalar(nodes, #[trigger] ps@[i].node, fuel) {
                        plain(BaseType::Object(r))
                    } else {
                        plain(BaseType::Dynamic)
                    },
                    _ => plain(BaseType::Dynamic),
                },
            },
        }
    }
}

pub proof fn lemma_resolve_in_range(nodes: Seq<SchemaNode>, id: NodeId, fuel: nat)
    ensures
        resolve(nodes, id, fuel) matches Some(q) ==> q < nodes.len() && !(nodes[q as int].kind is Reference)
            && !(nodes[q as int].kind is Nullable),
    decreases fuel,
{
    if id < nodes.len() && fuel > 0 {
        match nodes[id as int].kind {
            NodeKind::Reference(x) => lemma_resolve_in_range(nodes, x, (fuel - 1) as nat),
            NodeKind::Nullable(x) => lemma_resolve_in_range(nodes, x, (fuel - 1) as nat),
            _ => {},
        }
    }
}

proof fn lemma_type_depth(nodes: Seq<SchemaNode>, id: NodeId, fuel: nat)
    ensures
        type_of(nodes, id, fuel).list_depth <= fuel,
    decreases fuel,
{
    if fuel > 0 {
        lemma_type_depth(nodes, id, (fuel - 1) as nat);
        if id < nodes.len() {
            if let Some(r) = resolve(nodes, strip_nullable(nodes, id), fuel) {
                if let NodeKind::ArrayOf(x) = nodes[r as int].kind {
                    lemma_type_depth(nodes, x, (fuel - 1) as nat);
                }
            }
        }
    }
}

/// Follows references and nullable wrappers from `id`, at most `fuel` of them.
pub fn resolve_node(nodes: &Vec<SchemaNode>, id: NodeId, fuel: usize) -> (r: Option<NodeId>)
    requires
        arena_wf(nodes@),
    ensures
        r == resolve(nodes@, id, fuel as nat),
    decreases fuel,
{
    if id >= nodes.len() {
        return None;
    }
    match &nodes[id].kind {
        NodeKind::Reference(x) => if fuel == 0 { None } else { resolve_node(nodes, *x, fuel - 1) },
        NodeKind::Nullable(x) => if fuel == 0 { None } else { resolve_node(nodes, *x, fuel - 1) },
        _ => Some(id),
    }
}

fn strip_node(nodes: &Vec<SchemaNode>, id: NodeId) -> (r: NodeId)
    requires
        id < nodes@.len(),
    ensures
        r == strip_nullable(nodes@, id),
{
    match &nodes[id].kind {
        NodeKind::Nullable(x) => *x,
        _ => id,
    }
}

fn scalar_of(nodes: &Vec<SchemaNode>, id: NodeId) -> (r: Option<BaseType>)
    requires
        id < nodes@.len(),
    ensures
        r == scalar_base(nodes@, id),
{
    match &nodes[id].kind {
        NodeKind::Primitive(Primitive::String, _) => Some(BaseType::String),
        NodeKind::Primitive(Primitive::Integer, _) => Some(BaseType::Int64),
        NodeKind::Primitive(Primitive::Number, _) => Some(BaseType::Float64),
        NodeKind::Primitive(Primitive::Boolean, _) => Some(BaseType::Bool),
        NodeKind::EnumOf(_) => Some(BaseType::Enum(id)),
        _ => None,
    }
}

/// Whether the node that `id` stands for is a scalar.
pub fn node_is_scalar(nodes: &Vec<SchemaNode>, id: NodeId, fuel: usize) -> (r: bool)
    requires
        arena_wf(nodes@),
    ensures
        r == is_scalar(nodes@, id, fuel as nat),
{
    if id >= nodes.len() {
        return false;
    }
    let s = strip_node(nodes, id);
    proof { lemma_resolve_in_range(nodes@, s, fuel as nat); }
    match resolve_node(nodes, s, fuel) {
        Some(q) => scalar_of(nodes, q).is_some(),
        None => false,
    }
}

fn all_scalar(nodes: &Vec<SchemaNode>, ps: &Vec<crate::normalize::Property>, fuel: usize) -> (r: bool)
    requires
        arena_wf(nodes@),
    ensures
        r == forall|i: int| 0 <= i < ps@.len() ==> is_scalar(nodes@, #[trigger] ps@[i].node, fuel as nat),
{
    let mut i: usize = 0;
    while i < ps.len()
        invariant
            arena_wf(nodes@),
            i <= ps@.len(),
            forall|j: int| 0 <= j < i ==> is_scalar(nodes@, #[trigger] ps@[j].node, fuel as nat),
        decreases ps@.len() - i,
    {
        if !node_is_scalar(nodes, ps[i].node, fuel) {
            assert(!is_scalar(nodes@, ps@[i as int].node, fuel as nat));
            return false;
        }
        i = i + 1;
    }
    true
}

/// The attribute type of node `id`, following at most `fuel` references and
/// array levels.
pub fn attribute_type(nodes: &Vec<SchemaNode>, id: NodeId, fuel: usize) -> (r: AttributeType)
    requires
        arena_wf(nodes@),
    ensures
        r == type_of(nodes@, id, fuel as nat),
    decreases fuel,
{
    if id >= nodes.len() {
        return AttributeType { list_depth: 0, base: BaseType::Dynamic };
    }
    let s = strip_node(nodes, id);
    proof { lemma_resolve_in_range(nodes@, s, fuel as nat); }
    let r = match resolve_node(nodes, s, fuel) {
        None => {
            return AttributeType { list_depth: 0, base: BaseType::Dynamic };
        },
        Some(r) => r,
    };
    if let Some(b) = scalar_of(nodes, r) {
        return AttributeType { list_depth: 0, base: b };
    }
    match &nodes[r].kind {
        NodeKind::ArrayOf(x) => {
            if fuel == 0 {
                AttributeType { list_depth: 0, base: BaseType::Dynamic }
            } else {
                let t = attribute_type(nodes, *x, fuel - 1);
                proof { lemma_type_depth(nodes@, *x, (fuel - 1) as nat); }
                AttributeType { list_depth: t.list_depth + 1, base: t.base }
            }
        },
        NodeKind::ObjectOf(ps) => if all_scalar(nodes, ps, fuel) {
            AttributeType { list_depth: 0, base: BaseType::Object(r) }
        } else {
            AttributeType { list_depth: 0, base: BaseType::Dynamic }
        },
        NodeKind::AllOf(_, ps) => if all_scalar(nodes, ps, fuel) {
            AttributeType { list_depth: 0, base: BaseType::Object(r) }
        } else {
            AttributeType { list_depth: 0, base: BaseType::Dynamic }
        },
        _ => AttributeType { list_depth: 0, base: BaseType::Dynamic },
    }
}


/// The kind of schema attribute that renders a type: a list for any list, else
/// the kind of its base; enumerations and dynamic values are strings.
pub open spec fn attribute_kind(t: AttributeType) -> Seq<char> {
    if t.list_depth > 0 {
        "ListAttribute"@
    } else {
        match t.base {
            BaseType::Int64 => "Int64Attribute"@,
            BaseType::Float64 => "Float64Attribute"@,
            BaseType::Bool => "BoolAttribute"@,
            BaseType::Object(_) => "ObjectAttribute"@,
            _ => "StringAttribute"@,
        }
    }
}

/// The kind of schema attribute that renders a type.
pub fn attribute_kind_of(t: AttributeType) -> (r: String)
    ensures
        r@ == attribute_kind(t),
{
    if t.list_depth > 0 {
        String::from_str("ListAttribute")
    } else {
        match t.base {
            BaseType::Int64 => String::from_str("Int64Attribute"),
            BaseType::Float64 => String::from_str("Float64Attribute"),
            BaseType::Bool => String::from_str("BoolAttribute"),
            BaseType::Object(_) => String::from_str("ObjectAttribute"),
            _ => String::from_str("StringAttribute"),
        }
    }
}

/// Relies on `String::push`: the character is appended at the end.
pub assume_specification[ std::string::String::push ](s: &mut std::string::String, ch: char)
    ensures
        final(s)@ == old(s)@.push(ch),
;

/// A character as it stands inside a Go string literal.
pub open spec fn escape_char(c: char) -> Seq<char> {
    if c == '"' {
        seq!['\\', '"']
    } else if c == '\\' {
        seq!['\\', '\\']
    } else if c == '\n' {
        seq!['\\', 'n']
    } else if c == '\r' {
        seq!['\\', 'r']
    } else if c == '\t' {
        seq!['\\', 't']
    } else {
        seq![c]
    }
}

pub open spec fn escape(s: Seq<char>) -> Seq<char>
    decreases s.len(),
{
    if s.len() == 0 {
        Seq::empty()
    } else {
        escape(s.drop_last()) + escape_char(s.last())
    }
}

/// The Go string literal that denotes `s`.
pub open spec fn quoted(s: Seq<char>) -> Seq<char> {
    seq!['"'] + escape(s) + seq!['"']
}

/// The Go literal of a default value for an attribute of type `t`, where one
/// exists: a boolean for a boolean, a number for a number, a string literal for a
/// string or an enumeration. Other defaults cannot be represented.
pub open spec fn default_literal(d: DefaultValue, t: AttributeType) -> Option<Seq<char>> {
    if t.list_depth != 0 {
        None
    } else {
        match (d, t.base) {
            (DefaultValue::Bool(b), BaseType::Bool) => Some(if b { "true"@ } else { "false"@ }),
            (DefaultValue::Number(x), BaseType::Int64) => Some(x@),
            (DefaultValue::Number(x), BaseType::Float64) => Some(x@),
            (DefaultValue::Text(x), BaseType::String) => Some(quoted(x@)),
            (DefaultValue::Text(x), BaseType::Enum(_)) => Some(quoted(x@)),
            _ => None,
        }
    }
}

/// The Go string literal that denotes `s`.
pub fn go_string_literal(s: &str) -> (r: String)
    ensures
        r@ == quoted(s@),
{
    let mut r = String::new();
    r.push('"');
    let n = s.unicode_len();
    let mut i: usize = 0;
    while i < n
        invariant
            n == s@.len(),
            i <= n,
            r@ == seq!['"'] + escape(s@.subrange(0, i as int)),
        decreases n - i,
    {
        let c = s.get_char(i);
        proof {
            assert(s@.subrange(0, i + 1).drop_last() =~= s@.subrange(0, i as int));
        }
        if c == '"' {
            r.push('\\');
            r.push('"');
        } else if c == '\\' {
            r.push('\\');
            r.push('\\');
        } else if c == '\n' {
            r.push('\\');
            r.push('n');
        } else if c == '\r' {
            r.push('\\');
            r.push('r');
        } else if c == '\t' {
            r.push('\\');
            r.push('t');
        } else {
            r.push(c);
        }
        i = i + 1;
        assert(r@ =~= seq!['"'] + escape(s@.subrange(0, i as int)));
    }
    assert(s@.subrange(0, n as int) =~= s@);
    r.push('"');
    r
}

/// The Go literal of a default value for an attribute of type `t`; `None` where
/// the default cannot be represented, in which case it is dropped.
pub fn default_literal_of(d: &DefaultValue, t: AttributeType) -> (r: Option<String>)
    ensures
        r matches Some(x) ==> default_literal(*d, t) == Some(x@),
        r is None <==> default_literal(*d, t) is None,
{
    if t.list_depth != 0 {
        return None;
    }
    match (d, t.base) {
        (DefaultValue::Bool(b), BaseType::Bool) => Some(if *b { String::from_str("true") } else { String::from_str("false") }),
        (DefaultValue::Number(x), BaseType::Int64) => Some(x.clone()),
        (DefaultValue::Number(x), BaseType::Float64) => Some(x.clone()),
        (DefaultValue::Text(x), BaseType::String) => Some(go_string_literal(x.as_str())),
        (DefaultValue::Text(x), BaseType::Enum(_)) => Some(go_string_literal(x.as_str())),
        _ => None,
    }
}

} // verus!
