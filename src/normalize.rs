//! The schema normalizer: turns the schemas of a document into an arena of
//! nodes related by index, so that cyclic schemas take finitely many nodes.

use vstd::prelude::*;

use crate::document::{ApiDocument, DefaultValue, Primitive, Schema, SchemaShape};
use crate::types::{lemma_resolve_in_range, resolve, resolve_node};

verus! {

/// Index of a node in an arena.
pub type NodeId = usize;

/// A property of an object node.
#[derive(Clone, Debug, PartialEq, Eq)]
pub struct Property {
    pub name: String,
    pub node: NodeId,
    pub required: bool,
    pub read_only: bool,
}

/// The shape of a normalized schema node; relations to other nodes are indices.
#[derive(Clone, Debug, PartialEq, Eq)]
pub enum NodeKind {
    Primitive(Primitive, Option<String>),
    ArrayOf(NodeId),
    ObjectOf(Vec<Property>),
    Reference(NodeId),
    Nullable(NodeId),
    EnumOf(Vec<String>),
    /// The members, and the union of the properties of the objects they stand for.
    AllOf(Vec<NodeId>, Vec<Property>),
    OneOf(Vec<NodeId>),
}

/// A normalized schema unit.
#[derive(Clone, Debug, PartialEq, Eq)]
pub struct SchemaNode {
    pub kind: NodeKind,
    pub description: String,
    pub default: Option<DefaultValue>,
}

/// An operation whose bodies are nodes of the arena.
#[derive(Clone, Debug, PartialEq, Eq)]
pub struct NormalizedOperation {
    pub method: String,
    pub request: Option<NodeId>,
    pub response: Option<NodeId>,
}

/// A path whose operations refer to the arena.
#[derive(Clone, Debug, PartialEq, Eq)]
pub struct NormalizedPath {
    pub path: String,
    pub operations: Vec<NormalizedOperation>,
}

/// The schema arena of a document. Node `i` is the definition of component `i`.
#[derive(Clone, Debug, PartialEq, Eq)]
pub struct NormalizedSpec {
    pub nodes: Vec<SchemaNode>,
    pub component_names: Vec<String>,
    pub paths: Vec<NormalizedPath>,
}

/// Errors of normalization.
#[derive(Clone, Debug, PartialEq, Eq)]
pub enum NormalizeError {
    /// A reference names no component.
    DanglingReference(String),
}

pub open spec fn ids_below(ids: Seq<NodeId>, n: nat) -> bool {
    forall|i: int| 0 <= i < ids.len() ==> (#[trigger] ids[i]) < n
}

pub open spec fn props_below(ps: Seq<Property>, n: nat) -> bool {
    forall|i: int| 0 <= i < ps.len() ==> (#[trigger] ps[i]).node < n
}

/// Every index that a node holds is a node of an arena of `n` nodes.
pub open spec fn kind_below(k: NodeKind, n: nat) -> bool {
    match k {
        NodeKind::ArrayOf(x) => x < n,
        NodeKind::Reference(x) => x < n,
        NodeKind::Nullable(x) => x < n,
        NodeKind::ObjectOf(ps) => props_below(ps@, n),
        NodeKind::AllOf(ms, ps) => ids_below(ms@, n) && props_below(ps@, n),
        NodeKind::OneOf(ms) => ids_below(ms@, n),
        _ => true,
    }
}

/// A nullable node wraps a node that is not itself nullable.
pub open spec fn nullable_wraps_plain(nodes: Seq<SchemaNode>, k: NodeKind) -> bool {
    k matches NodeKind::Nullable(x) ==> !(nodes[x as int].kind is Nullable)
}

/// The arena is closed: every index it holds is one of its nodes, and no
/// nullable wrapper wraps another.
pub open spec fn arena_wf(nodes: Seq<SchemaNode>) -> bool {
    forall|i: int|
        0 <= i < nodes.len() ==> kind_below(#[trigger] nodes[i].kind, nodes.len())
            && nullable_wraps_plain(nodes, nodes[i].kind)
}

pub open spec fn names_of(v: Seq<String>) -> Seq<Seq<char>> {
    v.map_values(|s: String| s@)
}

/// Every reference in a schema names one of `names`.
pub open spec fn refs_resolve(s: Schema, names: Seq<Seq<char>>) -> bool
    decreases s,
{
    match s.shape {
        SchemaShape::Ref(n) => names.contains(n@),
        SchemaShape::Array(x) => refs_resolve(*x, names),
        SchemaShape::Object(ps, _) => forall|i: int|
            0 <= i < ps.len() ==> refs_resolve(#[trigger] ps@[i].1, names),
        SchemaShape::AllOf(ms) => forall|i: int|
            0 <= i < ms.len() ==> refs_resolve(#[trigger] ms@[i], names),
        SchemaShape::OneOf(ms) => forall|i: int|
            0 <= i < ms.len() ==> refs_resolve(#[trigger] ms@[i], names),
        _ => true,
    }
}


/// Every reference of the arena is to one of the `n` component nodes: a
/// reference is interned, never expanded, so a cycle of references takes no
/// more nodes than its components.
pub open spec fn refs_to_components(nodes: Seq<SchemaNode>, n: nat) -> bool {
    forall|i: int| #![trigger nodes[i].kind] 0 <= i < nodes.len() ==> (nodes[i].kind matches NodeKind::Reference(x) ==> x < n)
}

/// Nullable wrappers of the arena wrap nodes at or above `n`, none of them nullable.
pub open spec fn nullable_above(nodes: Seq<SchemaNode>, n: nat) -> bool {
    forall|i: int|
        #![trigger nodes[i].kind]
        0 <= i < nodes.len() ==> (nodes[i].kind matches NodeKind::Nullable(x) ==> x >= n
            && !(nodes[x as int].kind is Nullable))
}

/// The arena while it is being built: closed, with nullable wrappers above the
/// `n` component slots.
pub open spec fn building(nodes: Seq<SchemaNode>, n: nat) -> bool {
    &&& forall|i: int| 0 <= i < nodes.len() ==> kind_below(#[trigger] nodes[i].kind, nodes.len())
    &&& refs_to_components(nodes, n)
    &&& nullable_above(nodes, n)
    &&& n <= nodes.len()
}

pub open spec fn grows(before: Seq<SchemaNode>, after: Seq<SchemaNode>) -> bool {
    &&& before.len() <= after.len()
    &&& forall|i: int| 0 <= i < before.len() ==> after[i] == #[trigger] before[i]
}

proof fn lemma_kind_below_mono(k: NodeKind, n: nat, m: nat)
    requires
        kind_below(k, n),
        n <= m,
    ensures
        kind_below(k, m),
{
}

proof fn lemma_building_push(nodes: Seq<SchemaNode>, n: nat, node: SchemaNode)
    requires
        building(nodes, n),
        kind_below(node.kind, nodes.len()),
        node.kind matches NodeKind::Nullable(x) ==> x >= n && !(nodes[x as int].kind is Nullable),
        node.kind matches NodeKind::Reference(x) ==> x < n,
    ensures
        building(nodes.push(node), n),
{
    let m = nodes.push(node);
    assert forall|i: int| 0 <= i < m.len() implies kind_below(#[trigger] m[i].kind, m.len()) by {
        if i < nodes.len() {
            lemma_kind_below_mono(nodes[i].kind, nodes.len(), m.len());
        } else {
            lemma_kind_below_mono(node.kind, nodes.len(), m.len());
        }
    }
}

/// `c` is the first index of `name` in `names`.
pub open spec fn first_index_of(names: Seq<Seq<char>>, name: Seq<char>, c: nat) -> bool {
    c < names.len() && names[c as int] == name && forall|j: int| 0 <= j < c ==> names[j] != name
}

pub open spec fn same_text(a: Option<String>, b: Option<String>) -> bool {
    match (a, b) {
        (Some(x), Some(y)) => x@ == y@,
        (None, None) => true,
        _ => false,
    }
}

/// Node `id`, one of the nodes from `n` on, stands for schema `s`: a nullable
/// schema is a wrapper around a node of its shape.
pub open spec fn represents(nodes: Seq<SchemaNode>, names: Seq<Seq<char>>, n: nat, id: NodeId, s: Schema) -> bool
    decreases s, 1nat,
{
    &&& n <= id < nodes.len()
    &&& if s.nullable {
        &&& nodes[id as int].kind matches NodeKind::Nullable(k) && n <= k < nodes.len()
            && node_shape(nodes, names, n, nodes[k as int], s)
        &&& nodes[id as int].description@ == s.description@
        &&& nodes[id as int].default == s.default
    } else {
        node_shape(nodes, names, n, nodes[id as int], s)
    }
}

/// `node` has the shape of `s`, and its parts stand for the parts of `s`: a
/// reference names the first component of its name, an object keeps its
/// properties in order with their required and read-only flags, an `allOf`
/// keeps its members.
pub open spec fn node_shape(nodes: Seq<SchemaNode>, names: Seq<Seq<char>>, n: nat, node: SchemaNode, s: Schema) -> bool
    decreases s, 0nat,
{
    &&& node.description@ == s.description@
    &&& node.default == s.default
    &&& match s.shape {
        SchemaShape::Ref(name) => node.kind matches NodeKind::Reference(c) && first_index_of(names, name@, c as nat),
        SchemaShape::Primitive(p, f) => node.kind matches NodeKind::Primitive(q, g) && q == p && same_text(g, f),
        SchemaShape::Array(x) => node.kind matches NodeKind::ArrayOf(j) && represents(nodes, names, n, j, *x),
        SchemaShape::Object(props, req) => node.kind matches NodeKind::ObjectOf(ps) && ps@.len() == props@.len()
            && forall|i: int| 0 <= i < ps@.len() ==> {
                &&& (#[trigger] ps@[i]).name@ == props@[i].0@
                &&& ps@[i].required == names_of(req@).contains(props@[i].0@)
                &&& ps@[i].read_only == props@[i].1.read_only
                &&& represents(nodes, names, n, ps@[i].node, props@[i].1)
            },
        SchemaShape::Enum(vs) => node.kind matches NodeKind::EnumOf(ws) && names_of(ws@) == names_of(vs@),
        SchemaShape::AllOf(ms) => node.kind matches NodeKind::AllOf(ids, _) && ids@.len() == ms@.len()
            && forall|i: int| 0 <= i < ids@.len() ==> represents(nodes, names, n, #[trigger] ids@[i], ms@[i]),
        SchemaShape::OneOf(ms) => node.kind matches NodeKind::OneOf(ids) && ids@.len() == ms@.len()
            && forall|i: int| 0 <= i < ids@.len() ==> represents(nodes, names, n, #[trigger] ids@[i], ms@[i]),
    }
}

/// A node stays, or an `allOf` gets the properties that merge its members.
pub open spec fn node_evolves(a: SchemaNode, b: SchemaNode) -> bool {
    b == a || (a.kind is AllOf && b.kind is AllOf && b.kind->AllOf_0@ == a.kind->AllOf_0@
        && b.description@ == a.description@ && b.default == a.default)
}

pub open spec fn agrees(n1: Seq<SchemaNode>, n2: Seq<SchemaNode>, n: nat) -> bool {
    &&& n1.len() <= n2.len()
    &&& forall|j: int| n <= j < n1.len() ==> node_evolves(#[trigger] n1[j], n2[j])
}

proof fn lemma_represents_stable(n1: Seq<SchemaNode>, n2: Seq<SchemaNode>, names: Seq<Seq<char>>, n: nat, id: NodeId, s: Schema)
    requires
        agrees(n1, n2, n),
        represents(n1, names, n, id, s),
    ensures
        represents(n2, names, n, id, s),
    decreases s, 1nat,
{
    if s.nullable {
        let k = n1[id as int].kind->Nullable_0;
        assert(node_evolves(n1[id as int], n2[id as int]));
        assert(node_evolves(n1[k as int], n2[k as int]));
        lemma_shape_stable(n1, n2, names, n, n1[k as int], n2[k as int], s);
    } else {
        assert(node_evolves(n1[id as int], n2[id as int]));
        lemma_shape_stable(n1, n2, names, n, n1[id as int], n2[id as int], s);
    }
}

proof fn lemma_shape_stable(n1: Seq<SchemaNode>, n2: Seq<SchemaNode>, names: Seq<Seq<char>>, n: nat, a: SchemaNode, b: SchemaNode, s: Schema)
    requires
        agrees(n1, n2, n),
        node_shape(n1, names, n, a, s),
        node_evolves(a, b),
    ensures
        node_shape(n2, names, n, b, s),
    decreases s, 0nat,
{
    match s.shape {
        SchemaShape::Array(x) => {
            assert(decreases_to!(s => s.shape));
            assert(decreases_to!(s.shape => x));
            let j = a.kind->ArrayOf_0;
            lemma_represents_stable(n1, n2, names, n, j, *x);
        },
        SchemaShape::Object(props, req) => {
            let ps = a.kind->ObjectOf_0;
            assert forall|i: int| 0 <= i < ps@.len() implies represents(n2, names, n, (#[trigger] ps@[i]).node, props@[i].1) by {
                assert(decreases_to!(s => s.shape));
                assert(decreases_to!(s.shape => s.shape->Object_0));
                assert(decreases_to!(props => props@));
                assert(decreases_to!(props@ => props@[i]));
                assert(decreases_to!(props@[i] => props@[i].1));
                lemma_represents_stable(n1, n2, names, n, ps@[i].node, props@[i].1);
            }
        },
        SchemaShape::AllOf(ms) => {
            {
                let ids = a.kind->AllOf_0;
                assert forall|i: int| 0 <= i < ids@.len() implies represents(n2, names, n, #[trigger] ids@[i], ms@[i]) by {
                    assert(decreases_to!(s => s.shape));
                    assert(decreases_to!(s.shape => s.shape->AllOf_0));
                    assert(decreases_to!(ms => ms@));
                    assert(decreases_to!(ms@ => ms@[i]));
                    lemma_represents_stable(n1, n2, names, n, ids@[i], ms@[i]);
                }
            }
        },
        SchemaShape::OneOf(ms) => {
            let ids = a.kind->OneOf_0;
            assert forall|i: int| 0 <= i < ids@.len() implies represents(n2, names, n, #[trigger] ids@[i], ms@[i]) by {
                assert(decreases_to!(s => s.shape));
                assert(decreases_to!(s.shape => s.shape->OneOf_0));
                assert(decreases_to!(ms => ms@));
                assert(decreases_to!(ms@ => ms@[i]));
                lemma_represents_stable(n1, n2, names, n, ids@[i], ms@[i]);
            }
        },
        _ => {},
    }
}

fn clone_text(o: &Option<String>) -> (r: Option<String>)
    ensures
        same_text(r, *o),
{
    match o {
        Some(t) => Some(t.clone()),
        None => None,
    }
}

/// Slot `i` holds component schema `s`.
pub open spec fn component_ok(nodes: Seq<SchemaNode>, names: Seq<Seq<char>>, n: nat, i: int, s: Schema) -> bool {
    &&& 0 <= i < nodes.len()
    &&& if s.nullable {
        &&& nodes[i].kind matches NodeKind::Nullable(k) && n <= k < nodes.len() && node_shape(nodes, names, n, nodes[k as int], s)
        &&& nodes[i].description@ == s.description@
        &&& nodes[i].default == s.default
    } else {
        node_shape(nodes, names, n, nodes[i], s)
    }
}

pub open spec fn body_represents(nodes: Seq<SchemaNode>, names: Seq<Seq<char>>, n: nat, o: Option<NodeId>, d: Option<Schema>) -> bool {
    match (o, d) {
        (Some(id), Some(s)) => represents(nodes, names, n, id, s),
        _ => true,
    }
}

pub open spec fn operation_represents(nodes: Seq<SchemaNode>, names: Seq<Seq<char>>, n: nat, o: NormalizedOperation, d: crate::document::Operation) -> bool {
    body_represents(nodes, names, n, o.request, d.request_body) && body_represents(nodes, names, n, o.response, d.response_body)
}

pub open spec fn path_represents(nodes: Seq<SchemaNode>, names: Seq<Seq<char>>, n: nat, p: NormalizedPath, d: crate::document::PathItem) -> bool {
    forall|k: int| 0 <= k < p.operations@.len() ==> operation_represents(nodes, names, n, #[trigger] p.operations@[k], d.operations@[k])
}

proof fn lemma_operation_stable(n1: Seq<SchemaNode>, n2: Seq<SchemaNode>, names: Seq<Seq<char>>, n: nat, o: NormalizedOperation, d: crate::document::Operation)
    requires
        agrees(n1, n2, n),
        operation_represents(n1, names, n, o, d),
    ensures
        operation_represents(n2, names, n, o, d),
{
    if let (Some(id), Some(x)) = (o.request, d.request_body) {
        lemma_represents_stable(n1, n2, names, n, id, x);
    }
    if let (Some(id), Some(x)) = (o.response, d.response_body) {
        lemma_represents_stable(n1, n2, names, n, id, x);
    }
}

proof fn lemma_path_stable(n1: Seq<SchemaNode>, n2: Seq<SchemaNode>, names: Seq<Seq<char>>, n: nat, p: NormalizedPath, d: crate::document::PathItem)
    requires
        agrees(n1, n2, n),
        path_represents(n1, names, n, p, d),
    ensures
        path_represents(n2, names, n, p, d),
{
    assert forall|k: int| 0 <= k < p.operations@.len() implies operation_represents(n2, names, n, #[trigger] p.operations@[k], d.operations@[k]) by {
        lemma_operation_stable(n1, n2, names, n, p.operations@[k], d.operations@[k]);
    }
}

proof fn lemma_component_stable(n1: Seq<SchemaNode>, n2: Seq<SchemaNode>, names: Seq<Seq<char>>, n: nat, i: int, s: Schema)
    requires
        agrees(n1, n2, n),
        0 <= i < n1.len(),
        node_evolves(n1[i], n2[i]),
        component_ok(n1, names, n, i, s),
    ensures
        component_ok(n2, names, n, i, s),
{
    if s.nullable {
        let k = n1[i].kind->Nullable_0;
        assert(node_evolves(n1[k as int], n2[k as int]));
        lemma_shape_stable(n1, n2, names, n, n1[k as int], n2[k as int], s);
    } else {
        lemma_shape_stable(n1, n2, names, n, n1[i], n2[i], s);
    }
}

/// Whether `names` holds `name`.
pub fn has_name(names: &Vec<String>, name: &String) -> (r: bool)
    ensures
        r == names_of(names@).contains(name@),
{
    let mut i: usize = 0;
    while i < names.len()
        invariant
            i <= names.len(),
            forall|j: int| 0 <= j < i ==> names@[j]@ != name@,
        decreases names.len() - i,
    {
        if names[i] == *name {
            assert(names_of(names@)[i as int] == name@);
            return true;
        }
        i = i + 1;
    }
    proof {
        if names_of(names@).contains(name@) {
            let j = choose|j: int| 0 <= j < names_of(names@).len() && names_of(names@)[j] == name@;
            assert(names@[j]@ == name@);
        }
    }
    false
}

/// The index of the first of `names` that equals `name`.
pub fn find_name(names: &Vec<String>, name: &String) -> (r: Option<usize>)
    ensures
        r matches Some(i) ==> i < names@.len() && names@[i as int]@ == name@
            && forall|j: int| 0 <= j < i ==> names@[j]@ != name@,
        r is None <==> !names_of(names@).contains(name@),
{
    let mut i: usize = 0;
    while i < names.len()
        invariant
            i <= names.len(),
            forall|j: int| 0 <= j < i ==> names@[j]@ != name@,
        decreases names.len() - i,
    {
        if names[i] == *name {
            assert(names_of(names@)[i as int] == name@);
            return Some(i);
        }
        i = i + 1;
    }
    proof {
        if names_of(names@).contains(name@) {
            let j = choose|j: int| 0 <= j < names_of(names@).len() && names_of(names@)[j] == name@;
            assert(names@[j]@ == name@);
        }
    }
    None
}

fn clone_strings(v: &Vec<String>) -> (r: Vec<String>)
    ensures
        names_of(r@) == names_of(v@),
{
    let mut r: Vec<String> = Vec::new();
    let mut i: usize = 0;
    while i < v.len()
        invariant
            i <= v.len(),
            r@.len() == i,
            forall|j: int| 0 <= j < i ==> r@[j]@ == v@[j]@,
        decreases v.len() - i,
    {
        r.push(v[i].clone());
        i = i + 1;
    }
    assert(names_of(r@) =~= names_of(v@));
    r
}

fn clone_default(d: &Option<DefaultValue>) -> (r: Option<DefaultValue>)
    ensures
        r == *d,
{
    match d {
        None => None,
        Some(DefaultValue::Bool(b)) => Some(DefaultValue::Bool(*b)),
        Some(DefaultValue::Number(t)) => Some(DefaultValue::Number(t.clone())),
        Some(DefaultValue::Text(t)) => Some(DefaultValue::Text(t.clone())),
    }
}

/// Lowers the shape of `s`, without its nullability, into a node; the nodes of
/// its parts are pushed onto the arena.
fn lower_plain(names: &Vec<String>, s: &Schema, nodes: &mut Vec<SchemaNode>, Ghost(n): Ghost<nat>) -> (r: Result<SchemaNode, NormalizeError>)
    requires
        building(old(nodes)@, n),
        n == names@.len(),
    ensures
        building(final(nodes)@, n),
        grows(old(nodes)@, final(nodes)@),
        r is Ok <==> refs_resolve(*s, names_of(names@)),
        r matches Err(NormalizeError::DanglingReference(m)) ==> !names_of(names@).contains(m@),
        r matches Ok(node) ==> kind_below(node.kind, final(nodes)@.len()) && !(node.kind is Nullable)
            && (node.kind matches NodeKind::Reference(x) ==> x < n)
            && node.description@ == s.description@ && node.default == s.default
            && node_shape(final(nodes)@, names_of(names@), n, node, *s),
    decreases s, 1nat,
{
    let kind = match &s.shape {
        SchemaShape::Ref(name) => {
            match find_name(names, name) {
                Some(i) => NodeKind::Reference(i),
                None => {
                    return Err(NormalizeError::DanglingReference(name.clone()));
                },
            }
        },
        SchemaShape::Primitive(p, f) => NodeKind::Primitive(*p, clone_text(f)),
        SchemaShape::Array(x) => {
            let id = lower(names, x, nodes, Ghost(n))?;
            NodeKind::ArrayOf(id)
        },
        SchemaShape::Object(props, required) => {
            let mut ps: Vec<Property> = Vec::new();
            let mut i: usize = 0;
            while i < props.len()
                invariant
                    i <= props.len(),
                    building(nodes@, n),
                    grows(old(nodes)@, nodes@),
                    n == names@.len(),
                    s.shape == SchemaShape::Object(*props, *required),
                    props_below(ps@, nodes@.len()),
                    ps@.len() == i,
                    forall|j: int| 0 <= j < i ==> refs_resolve(#[trigger] props@[j].1, names_of(names@)),
                    forall|j: int| 0 <= j < i ==> {
                        &&& (#[trigger] ps@[j]).name@ == props@[j].0@
                        &&& ps@[j].required == names_of(required@).contains(props@[j].0@)
                        &&& ps@[j].read_only == props@[j].1.read_only
                        &&& represents(nodes@, names_of(names@), n, ps@[j].node, props@[j].1)
                    },
                decreases props.len() - i,
            {
                proof {
                    assert(decreases_to!(*s => s.shape));
                    assert(decreases_to!(s.shape => s.shape->Object_0));
                    assert(decreases_to!(*props => props@));
                    assert(decreases_to!(props@ => props@[i as int]));
                    assert(decreases_to!(props@[i as int] => props@[i as int].1));
                    assert(decreases_to!(*s => props@[i as int].1));
                }
                let ghost before = nodes@;
                let id = match lower(names, &props[i].1, nodes, Ghost(n)) {
                    Ok(id) => id,
                    Err(e) => {
                        assert(!refs_resolve(props@[i as int].1, names_of(names@)));
                        assert(!refs_resolve(*s, names_of(names@))) by {
                            if refs_resolve(*s, names_of(names@)) {
                                assert(refs_resolve(s.shape->Object_0@[i as int].1, names_of(names@)));
                            }
                        }
                        return Err(e);
                    },
                };
                assert(agrees(before, nodes@, n));
                assert forall|j: int| 0 <= j < i implies represents(nodes@, names_of(names@), n, (#[trigger] ps@[j]).node, props@[j].1) by {
                    lemma_represents_stable(before, nodes@, names_of(names@), n, ps@[j].node, props@[j].1);
                }
                let required_here = has_name(required, &props[i].0);
                ps.push(Property { name: props[i].0.clone(), node: id, required: required_here, read_only: props[i].1.read_only });
                i = i + 1;
            }
            NodeKind::ObjectOf(ps)
        },
        SchemaShape::Enum(values) => NodeKind::EnumOf(clone_strings(values)),
        SchemaShape::AllOf(members) => NodeKind::AllOf(lower_all(names, members, nodes, Ghost(n))?, Vec::new()),
        SchemaShape::OneOf(members) => NodeKind::OneOf(lower_all(names, members, nodes, Ghost(n))?),
    };
    Ok(SchemaNode { kind, description: s.description.clone(), default: clone_default(&s.default) })
}

fn lower_all(names: &Vec<String>, members: &Vec<Schema>, nodes: &mut Vec<SchemaNode>, Ghost(n): Ghost<nat>) -> (r: Result<Vec<NodeId>, NormalizeError>)
    requires
        building(old(nodes)@, n),
        n == names@.len(),
    ensures
        building(final(nodes)@, n),
        grows(old(nodes)@, final(nodes)@),
        r is Ok <==> forall|j: int| 0 <= j < members.len() ==> refs_resolve(#[trigger] members@[j], names_of(names@)),
        r matches Err(NormalizeError::DanglingReference(m)) ==> !names_of(names@).contains(m@),
        r matches Ok(ids) ==> ids_below(ids@, final(nodes)@.len()) && ids@.len() == members@.len()
            && forall|j: int| 0 <= j < ids@.len() ==> represents(final(nodes)@, names_of(names@), n, #[trigger] ids@[j], members@[j]),
    decreases members, 0nat,
{
    let mut ids: Vec<NodeId> = Vec::new();
    let mut i: usize = 0;
    while i < members.len()
        invariant
            i <= members.len(),
            building(nodes@, n),
            grows(old(nodes)@, nodes@),
            n == names@.len(),
            ids_below(ids@, nodes@.len()),
            ids@.len() == i,
            forall|j: int| 0 <= j < i ==> refs_resolve(#[trigger] members@[j], names_of(names@)),
            forall|j: int| 0 <= j < i ==> represents(nodes@, names_of(names@), n, #[trigger] ids@[j], members@[j]),
        decreases members.len() - i,
    {
        proof {
            assert(decreases_to!(*members => members@[i as int]));
        }
        let ghost before = nodes@;
        let id = lower(names, &members[i], nodes, Ghost(n))?;
        assert(agrees(before, nodes@, n));
        assert forall|j: int| 0 <= j < i implies represents(nodes@, names_of(names@), n, #[trigger] ids@[j], members@[j]) by {
            lemma_represents_stable(before, nodes@, names_of(names@), n, ids@[j], members@[j]);
        }
        ids.push(id);
        i = i + 1;
    }
    Ok(ids)
}

/// Lowers `s` into the arena and returns its node: a nullable schema becomes a
/// nullable wrapper around the node of its shape.
fn lower(names: &Vec<String>, s: &Schema, nodes: &mut Vec<SchemaNode>, Ghost(n): Ghost<nat>) -> (r: Result<NodeId, NormalizeError>)
    requires
        building(old(nodes)@, n),
        n == names@.len(),
    ensures
        building(final(nodes)@, n),
        grows(old(nodes)@, final(nodes)@),
        r is Ok <==> refs_resolve(*s, names_of(names@)),
        r matches Err(NormalizeError::DanglingReference(m)) ==> !names_of(names@).contains(m@),
        r matches Ok(id) ==> id >= n && id < final(nodes)@.len() && represents(final(nodes)@, names_of(names@), n, id, *s),
    decreases s, 2nat,
{
    let node = lower_plain(names, s, nodes, Ghost(n))?;
    proof { lemma_building_push(nodes@, n, node); }
    let ghost before = nodes@;
    nodes.push(node);
    proof {
        assert(agrees(before, nodes@, n));
        lemma_shape_stable(before, nodes@, names_of(names@), n, node, node, *s);
    }
    let inner = nodes.len() - 1;
    if s.nullable {
        let wrapper = SchemaNode { kind: NodeKind::Nullable(inner), description: s.description.clone(), default: clone_default(&s.default) };
        proof { lemma_building_push(nodes@, n, wrapper); }
        let ghost mid = nodes@;
        nodes.push(wrapper);
        proof {
            assert(agrees(mid, nodes@, n));
            lemma_shape_stable(mid, nodes@, names_of(names@), n, node, node, *s);
            assert(nodes@[inner as int] == node);
        }
        Ok(nodes.len() - 1)
    } else {
        Ok(inner)
    }
}


proof fn lemma_building_set(nodes: Seq<SchemaNode>, n: nat, i: int, node: SchemaNode)
    requires
        building(nodes, n),
        0 <= i < n,
        kind_below(node.kind, nodes.len()),
        node.kind matches NodeKind::Nullable(x) ==> x >= n && !(nodes[x as int].kind is Nullable),
        node.kind matches NodeKind::Reference(x) ==> x < n,
    ensures
        building(nodes.update(i, node), n),
{
    let m = nodes.update(i, node);
    assert forall|j: int| #![trigger m[j].kind] 0 <= j < m.len() implies (m[j].kind matches NodeKind::Nullable(x) ==> x >= n
        && !(m[x as int].kind is Nullable)) by {
        if j != i {
            assert(m[j] == nodes[j]);
        }
    }
}

pub open spec fn body_resolves(b: Option<Schema>, names: Seq<Seq<char>>) -> bool {
    b matches Some(s) ==> refs_resolve(s, names)
}

pub open spec fn operation_resolves(o: crate::document::Operation, names: Seq<Seq<char>>) -> bool {
    body_resolves(o.request_body, names) && body_resolves(o.response_body, names)
}

pub open spec fn path_resolves(p: crate::document::PathItem, names: Seq<Seq<char>>) -> bool {
    forall|k: int| 0 <= k < p.operations@.len() ==> operation_resolves(#[trigger] p.operations@[k], names)
}

/// The names of the components of a document, in order.
pub open spec fn component_names(doc: ApiDocument) -> Seq<Seq<char>> {
    doc.components@.map_values(|c: (String, Schema)| c.0@)
}

/// Every reference of the document names one of its components.
pub open spec fn document_resolves(doc: ApiDocument) -> bool {
    &&& forall|i: int| 0 <= i < doc.components@.len() ==> refs_resolve(#[trigger] doc.components@[i].1, component_names(doc))
    &&& forall|p: int| 0 <= p < doc.paths@.len() ==> path_resolves(#[trigger] doc.paths@[p], component_names(doc))
}

pub open spec fn body_matches(b: Option<NodeId>, s: Option<Schema>) -> bool {
    b is Some <==> s is Some
}

pub open spec fn body_below(b: Option<NodeId>, len: nat) -> bool {
    b matches Some(id) ==> id < len
}

/// A normalized operation keeps the method of the document's operation, and has a
/// body node exactly where the document has a body.
pub open spec fn operation_matches(o: NormalizedOperation, d: crate::document::Operation) -> bool {
    &&& o.method@ == d.method@
    &&& body_matches(o.request, d.request_body)
    &&& body_matches(o.response, d.response_body)
}

pub open spec fn operation_below(o: NormalizedOperation, len: nat) -> bool {
    body_below(o.request, len) && body_below(o.response, len)
}

pub open spec fn path_matches(p: NormalizedPath, d: crate::document::PathItem) -> bool {
    &&& p.path@ == d.path@
    &&& p.operations@.len() == d.operations@.len()
    &&& forall|k: int| 0 <= k < p.operations@.len() ==> operation_matches(#[trigger] p.operations@[k], d.operations@[k])
}

pub open spec fn path_below(p: NormalizedPath, len: nat) -> bool {
    forall|k: int| 0 <= k < p.operations@.len() ==> operation_below(#[trigger] p.operations@[k], len)
}

/// A well-formed normalized spec: a closed arena whose first nodes are the
/// components, and paths whose bodies are nodes of it.
pub open spec fn spec_wf(ns: NormalizedSpec) -> bool {
    &&& arena_wf(ns.nodes@)
    &&& ns.component_names@.len() <= ns.nodes@.len()
    &&& forall|p: int| 0 <= p < ns.paths@.len() ==> path_below(#[trigger] ns.paths@[p], ns.nodes@.len())
}

fn lower_body(names: &Vec<String>, b: &Option<Schema>, nodes: &mut Vec<SchemaNode>, Ghost(n): Ghost<nat>) -> (r: Result<Option<NodeId>, NormalizeError>)
    requires
        building(old(nodes)@, n),
        n == names@.len(),
    ensures
        building(final(nodes)@, n),
        grows(old(nodes)@, final(nodes)@),
        r is Ok <==> body_resolves(*b, names_of(names@)),
        r matches Err(NormalizeError::DanglingReference(m)) ==> !names_of(names@).contains(m@),
        r matches Ok(o) ==> body_matches(o, *b) && body_below(o, final(nodes)@.len())
            && body_represents(final(nodes)@, names_of(names@), n, o, *b),
{
    match b {
        None => Ok(None),
        Some(s) => {
            let id = lower(names, s, nodes, Ghost(n))?;
            Ok(Some(id))
        },
    }
}

fn lower_operation(names: &Vec<String>, op: &crate::document::Operation, nodes: &mut Vec<SchemaNode>, Ghost(n): Ghost<nat>) -> (r: Result<NormalizedOperation, NormalizeError>)
    requires
        building(old(nodes)@, n),
        n == names@.len(),
    ensures
        building(final(nodes)@, n),
        grows(old(nodes)@, final(nodes)@),
        r is Ok <==> operation_resolves(*op, names_of(names@)),
        r matches Err(NormalizeError::DanglingReference(m)) ==> !names_of(names@).contains(m@),
        r matches Ok(o) ==> operation_matches(o, *op) && operation_below(o, final(nodes)@.len())
            && operation_represents(final(nodes)@, names_of(names@), n, o, *op),
{
    let request = lower_body(names, &op.request_body, nodes, Ghost(n))?;
    let ghost before = nodes@;
    let response = lower_body(names, &op.response_body, nodes, Ghost(n))?;
    proof {
        assert(agrees(before, nodes@, n));
        if request is Some && op.request_body is Some {
            lemma_represents_stable(before, nodes@, names_of(names@), n, request->Some_0, op.request_body->Some_0);
        }
    }
    Ok(NormalizedOperation { method: op.method.clone(), request, response })
}

fn lower_path(names: &Vec<String>, item: &crate::document::PathItem, nodes: &mut Vec<SchemaNode>, Ghost(n): Ghost<nat>) -> (r: Result<NormalizedPath, NormalizeError>)
    requires
        building(old(nodes)@, n),
        n == names@.len(),
    ensures
        building(final(nodes)@, n),
        grows(old(nodes)@, final(nodes)@),
        r is Ok <==> path_resolves(*item, names_of(names@)),
        r matches Err(NormalizeError::DanglingReference(m)) ==> !names_of(names@).contains(m@),
        r matches Ok(p) ==> path_matches(p, *item) && path_below(p, final(nodes)@.len())
            && path_represents(final(nodes)@, names_of(names@), n, p, *item),
{
    let mut ops: Vec<NormalizedOperation> = Vec::new();
    let mut k: usize = 0;
    while k < item.operations.len()
        invariant
            k <= item.operations@.len(),
            n == names@.len(),
            building(nodes@, n),
            grows(old(nodes)@, nodes@),
            ops@.len() == k,
            forall|j: int| 0 <= j < k ==> operation_resolves(#[trigger] item.operations@[j], names_of(names@)),
            forall|j: int| 0 <= j < k ==> operation_matches(#[trigger] ops@[j], item.operations@[j]),
            forall|j: int| 0 <= j < k ==> operation_below(#[trigger] ops@[j], nodes@.len()),
            forall|j: int| 0 <= j < k ==> operation_represents(nodes@, names_of(names@), n, #[trigger] ops@[j], item.operations@[j]),
        decreases item.operations@.len() - k,
    {
        let ghost before = nodes@;
        let o = match lower_operation(names, &item.operations[k], nodes, Ghost(n)) {
            Ok(o) => o,
            Err(e) => {
                return Err(e);
            },
        };
        assert(agrees(before, nodes@, n));
        assert forall|j: int| 0 <= j < k implies operation_represents(nodes@, names_of(names@), n, #[trigger] ops@[j], item.operations@[j]) by {
            lemma_operation_stable(before, nodes@, names_of(names@), n, ops@[j], item.operations@[j]);
        }
        ops.push(o);
        k = k + 1;
    }
    Ok(NormalizedPath { path: item.path.clone(), operations: ops })
}

/// A property as the merge sees it: name, node, required, read-only.
pub open spec fn view_of(p: Property) -> (Seq<char>, NodeId, bool, bool) {
    (p.name@, p.node, p.required, p.read_only)
}

pub open spec fn views(ps: Seq<Property>) -> Seq<(Seq<char>, NodeId, bool, bool)> {
    ps.map_values(|p: Property| view_of(p))
}

/// The first index from `i` on of a property named `name`; -1 if none.
pub open spec fn find_view(acc: Seq<(Seq<char>, NodeId, bool, bool)>, name: Seq<char>, i: int) -> int
    decreases acc.len() - i,
{
    if i < 0 || i >= acc.len() {
        -1
    } else if acc[i].0 == name {
        i
    } else {
        find_view(acc, name, i + 1)
    }
}

proof fn lemma_find_view_range(acc: Seq<(Seq<char>, NodeId, bool, bool)>, name: Seq<char>, i: int)
    requires
        0 <= i,
    ensures
        find_view(acc, name, i) == -1 || i <= find_view(acc, name, i) < acc.len(),
    decreases acc.len() - i,
{
    if i < acc.len() && acc[i].0 != name {
        lemma_find_view_range(acc, name, i + 1);
    }
}

/// Merges one property in: one of its name already there takes its node and
/// read-only flag and is required if either is; a new one is appended.
pub open spec fn merge_one(acc: Seq<(Seq<char>, NodeId, bool, bool)>, p: Property) -> Seq<(Seq<char>, NodeId, bool, bool)> {
    let k = find_view(acc, p.name@, 0);
    if 0 <= k < acc.len() {
        acc.update(k, (p.name@, p.node, acc[k].2 || p.required, p.read_only))
    } else {
        acc.push(view_of(p))
    }
}

pub open spec fn merge_props(acc: Seq<(Seq<char>, NodeId, bool, bool)>, ps: Seq<Property>) -> Seq<(Seq<char>, NodeId, bool, bool)>
    decreases ps.len(),
{
    if ps.len() == 0 {
        acc
    } else {
        merge_one(merge_props(acc, ps.drop_last()), ps.last())
    }
}

/// The properties of the object that a member stands for; none when it stands
/// for anything else, another `allOf` included.
pub open spec fn member_properties(nodes: Seq<SchemaNode>, m: NodeId) -> Seq<Property> {
    match resolve(nodes, m, nodes.len()) {
        Some(q) => match nodes[q as int].kind {
            NodeKind::ObjectOf(ps) => ps@,
            _ => Seq::empty(),
        },
        None => Seq::empty(),
    }
}

/// The union of the members' properties, in the order in which they are first
/// declared: each name once, with the last member's node and read-only flag,
/// required if any member requires it.
pub open spec fn merge_all(nodes: Seq<SchemaNode>, ms: Seq<NodeId>) -> Seq<(Seq<char>, NodeId, bool, bool)>
    decreases ms.len(),
{
    if ms.len() == 0 {
        Seq::empty()
    } else {
        merge_props(merge_all(nodes, ms.drop_last()), member_properties(nodes, ms.last()))
    }
}

/// Every `allOf` node holds the union of its members' properties.
pub open spec fn all_of_merged(nodes: Seq<SchemaNode>) -> bool {
    forall|i: int| #![trigger nodes[i].kind] 0 <= i < nodes.len() ==> (nodes[i].kind matches NodeKind::AllOf(ms, ps) ==> views(ps@) == merge_all(nodes, ms@))
}

/// Two arenas that differ at most in the properties held by `allOf` nodes.
pub open spec fn same_but_merges(n1: Seq<SchemaNode>, n2: Seq<SchemaNode>) -> bool {
    &&& n1.len() == n2.len()
    &&& forall|j: int| 0 <= j < n1.len() ==> node_evolves(#[trigger] n1[j], n2[j])
}

proof fn lemma_resolve_same(n1: Seq<SchemaNode>, n2: Seq<SchemaNode>, id: NodeId, fuel: nat)
    requires
        same_but_merges(n1, n2),
    ensures
        resolve(n1, id, fuel) == resolve(n2, id, fuel),
    decreases fuel,
{
    if id < n1.len() {
        assert(node_evolves(n1[id as int], n2[id as int]));
        if fuel > 0 {
            match n1[id as int].kind {
                NodeKind::Reference(x) => lemma_resolve_same(n1, n2, x, (fuel - 1) as nat),
                NodeKind::Nullable(x) => lemma_resolve_same(n1, n2, x, (fuel - 1) as nat),
                _ => {},
            }
        }
    }
}

proof fn lemma_merge_all_same(n1: Seq<SchemaNode>, n2: Seq<SchemaNode>, ms: Seq<NodeId>)
    requires
        same_but_merges(n1, n2),
    ensures
        merge_all(n1, ms) == merge_all(n2, ms),
    decreases ms.len(),
{
    if ms.len() > 0 {
        lemma_merge_all_same(n1, n2, ms.drop_last());
        lemma_resolve_same(n1, n2, ms.last(), n1.len());
        lemma_resolve_in_range(n1, ms.last(), n1.len());
        if let Some(q) = resolve(n1, ms.last(), n1.len()) {
            assert(node_evolves(n1[q as int], n2[q as int]));
        }
        assert(member_properties(n1, ms.last()) == member_properties(n2, ms.last()));
    }
}

fn find_property(merged: &Vec<Property>, name: &String) -> (r: Option<usize>)
    ensures
        match r {
            Some(j) => j == find_view(views(merged@), name@, 0) && j < merged@.len(),
            None => find_view(views(merged@), name@, 0) == -1,
        },
{
    proof { lemma_find_view_range(views(merged@), name@, 0); }
    let mut j: usize = 0;
    while j < merged.len()
        invariant
            j <= merged@.len(),
            find_view(views(merged@), name@, 0) == find_view(views(merged@), name@, j as int),
        decreases merged@.len() - j,
    {
        if merged[j].name == *name {
            return Some(j);
        }
        j = j + 1;
    }
    None
}

/// Merges the properties of one member into `merged`.
fn merge_member(merged: &mut Vec<Property>, ps: &Vec<Property>, Ghost(len): Ghost<nat>)
    requires
        props_below(old(merged)@, len),
        props_below(ps@, len),
    ensures
        props_below(final(merged)@, len),
        views(final(merged)@) == merge_props(views(old(merged)@), ps@),
{
    let ghost start = views(merged@);
    let mut k: usize = 0;
    assert(ps@.subrange(0, 0) =~= Seq::<Property>::empty());
    while k < ps.len()
        invariant
            k <= ps@.len(),
            props_below(merged@, len),
            props_below(ps@, len),
            views(merged@) == merge_props(start, ps@.subrange(0, k as int)),
        decreases ps@.len() - k,
    {
        let p = &ps[k];
        let ghost before = views(merged@);
        assert(ps@.subrange(0, k + 1).drop_last() =~= ps@.subrange(0, k as int));
        assert(ps@.subrange(0, k + 1).last() == *p);
        match find_property(merged, &p.name) {
            Some(j) => {
                let required = merged[j].required || p.required;
                merged.set(j, Property { name: p.name.clone(), node: p.node, required, read_only: p.read_only });
                assert(views(merged@) =~= before.update(j as int, (p.name@, p.node, before[j as int].2 || p.required, p.read_only)));
            },
            None => {
                merged.push(Property { name: p.name.clone(), node: p.node, required: p.required, read_only: p.read_only });
                assert(views(merged@) =~= before.push(view_of(*p)));
            },
        }
        k = k + 1;
    }
    assert(ps@.subrange(0, ps@.len() as int) =~= ps@);
}

/// The union of the properties of the objects that the members stand for.
fn merge_members(nodes: &Vec<SchemaNode>, members: &Vec<NodeId>) -> (r: Vec<Property>)
    requires
        arena_wf(nodes@),
    ensures
        props_below(r@, nodes@.len()),
        views(r@) == merge_all(nodes@, members@),
{
    let mut merged: Vec<Property> = Vec::new();
    let mut m: usize = 0;
    assert(views(merged@) =~= merge_all(nodes@, members@.subrange(0, 0)));
    while m < members.len()
        invariant
            arena_wf(nodes@),
            m <= members@.len(),
            props_below(merged@, nodes@.len()),
            views(merged@) == merge_all(nodes@, members@.subrange(0, m as int)),
        decreases members@.len() - m,
    {
        assert(members@.subrange(0, m + 1).drop_last() =~= members@.subrange(0, m as int));
        assert(members@.subrange(0, m + 1).last() == members@[m as int]);
        proof { lemma_resolve_in_range(nodes@, members@[m as int], nodes@.len()); }
        match resolve_node(nodes, members[m], nodes.len()) {
            Some(q) => {
                if let NodeKind::ObjectOf(ps) = &nodes[q].kind {
                    merge_member(&mut merged, ps, Ghost(nodes@.len()));
                } else {
                    assert(merge_props(views(merged@), Seq::<Property>::empty()) == views(merged@));
                }
            },
            None => {
                assert(merge_props(views(merged@), Seq::<Property>::empty()) == views(merged@));
            },
        }
        m = m + 1;
    }
    assert(members@.subrange(0, members@.len() as int) =~= members@);
    merged
}

/// Gives each `allOf` node the union of its members' properties.
fn flatten_all_of(nodes: &mut Vec<SchemaNode>, Ghost(n): Ghost<nat>)
    requires
        arena_wf(old(nodes)@),
        refs_to_components(old(nodes)@, n),
    ensures
        arena_wf(final(nodes)@),
        refs_to_components(final(nodes)@, n),
        all_of_merged(final(nodes)@),
        final(nodes)@.len() == old(nodes)@.len(),
        agrees(old(nodes)@, final(nodes)@, 0),
{
    let mut i: usize = 0;
    while i < nodes.len()
        invariant
            arena_wf(nodes@),
            refs_to_components(nodes@, n),
            i <= nodes@.len(),
            same_but_merges(old(nodes)@, nodes@),
            forall|j: int| #![trigger nodes@[j].kind] 0 <= j < i ==> (nodes@[j].kind matches NodeKind::AllOf(ms, ps) ==> views(ps@) == merge_all(nodes@, ms@)),
        decreases nodes@.len() - i,
    {
        let merged = match &nodes[i].kind {
            NodeKind::AllOf(members, _) => Some(merge_members(nodes, members)),
            _ => None,
        };
        if let Some(props) = merged {
            let members = match &nodes[i].kind {
                NodeKind::AllOf(members, _) => clone_ids(members),
                _ => Vec::new(),
            };
            let node = SchemaNode {
                kind: NodeKind::AllOf(members, props),
                description: nodes[i].description.clone(),
                default: clone_default(&nodes[i].default),
            };
            let ghost before = nodes@;
            nodes.set(i, node);
            assert(same_but_merges(before, nodes@)) by {
                assert forall|j: int| 0 <= j < before.len() implies node_evolves(#[trigger] before[j], nodes@[j]) by {
                    if j != i {
                        assert(nodes@[j] == before[j]);
                    }
                }
            }
            assert(same_but_merges(old(nodes)@, nodes@)) by {
                assert forall|j: int| 0 <= j < old(nodes)@.len() implies node_evolves(#[trigger] old(nodes)@[j], nodes@[j]) by {
                    assert(node_evolves(old(nodes)@[j], before[j]));
                    assert(node_evolves(before[j], nodes@[j]));
                }
            }
            assert forall|j: int| 0 <= j < nodes@.len() implies kind_below(#[trigger] nodes@[j].kind, nodes@.len())
                && nullable_wraps_plain(nodes@, nodes@[j].kind) by {
                if j != i {
                    assert(nodes@[j] == before[j]);
                    assert(kind_below(before[j].kind, before.len()));
                    assert(nullable_wraps_plain(before, before[j].kind));
                }
            }
            assert forall|j: int| #![trigger nodes@[j].kind] 0 <= j < nodes@.len() implies (nodes@[j].kind matches NodeKind::Reference(x) ==> x < n) by {
                if j != i {
                    assert(nodes@[j] == before[j]);
                }
            }
            assert forall|j: int| #![trigger nodes@[j].kind] 0 <= j < i + 1 implies (nodes@[j].kind matches NodeKind::AllOf(ms, ps) ==> views(ps@) == merge_all(nodes@, ms@)) by {
                if nodes@[j].kind is AllOf {
                    lemma_merge_all_same(before, nodes@, nodes@[j].kind->AllOf_0@);
                    if j != i {
                        assert(nodes@[j] == before[j]);
                    }
                }
            }
        }
        i = i + 1;
    }
}

fn clone_ids(v: &Vec<NodeId>) -> (r: Vec<NodeId>)
    ensures
        r@ == v@,
{
    let mut r: Vec<NodeId> = Vec::new();
    let mut i: usize = 0;
    while i < v.len()
        invariant
            i <= v@.len(),
            r@ == v@.subrange(0, i as int),
        decreases v@.len() - i,
    {
        r.push(v[i]);
        i = i + 1;
        assert(r@ =~= v@.subrange(0, i as int));
    }
    assert(v@.subrange(0, v@.len() as int) =~= v@);
    r
}

/// Builds the schema arena of a document. Node `i` holds component `i`; a
/// reference becomes a `Reference` to its component's node and is never
/// followed, so self-referential schemas take a bounded number of nodes. Each
/// `allOf` node holds the union of its members' properties.
pub fn normalize(doc: &ApiDocument) -> (r: Result<NormalizedSpec, NormalizeError>)
    ensures
        r is Ok <==> document_resolves(*doc),
        r matches Err(NormalizeError::DanglingReference(m)) ==> !component_names(*doc).contains(m@),
        r matches Ok(ns) ==> {
            &&& spec_wf(ns)
            &&& refs_to_components(ns.nodes@, ns.component_names@.len())
            &&& all_of_merged(ns.nodes@)
            &&& forall|i: int| 0 <= i < doc.components@.len() ==> component_ok(ns.nodes@, component_names(*doc), ns.component_names@.len(), i, #[trigger] doc.components@[i].1)
            &&& forall|p: int| 0 <= p < ns.paths@.len() ==> path_represents(ns.nodes@, component_names(*doc), ns.component_names@.len(), #[trigger] ns.paths@[p], doc.paths@[p])
            &&& names_of(ns.component_names@) == component_names(*doc)
            &&& ns.paths@.len() == doc.paths@.len()
            &&& forall|p: int| 0 <= p < ns.paths@.len() ==> path_matches(#[trigger] ns.paths@[p], doc.paths@[p])
        },
{
    let mut names: Vec<String> = Vec::new();
    let mut nodes: Vec<SchemaNode> = Vec::new();
    let mut i: usize = 0;
    while i < doc.components.len()
        invariant
            i <= doc.components@.len(),
            names@.len() == i,
            nodes@.len() == i,
            forall|j: int| 0 <= j < i ==> names@[j]@ == (#[trigger] doc.components@[j]).0@,
            forall|j: int| 0 <= j < i ==> (#[trigger] nodes@[j]).kind == NodeKind::Primitive(Primitive::String, None),
        decreases doc.components@.len() - i,
    {
        names.push(doc.components[i].0.clone());
        nodes.push(SchemaNode { kind: NodeKind::Primitive(Primitive::String, None), description: String::new(), default: None });
        i = i + 1;
    }
    let ghost n = names@.len();
    assert(names_of(names@) =~= component_names(*doc));
    assert(building(nodes@, n)) by {
        assert forall|j: int| 0 <= j < nodes@.len() implies kind_below(#[trigger] nodes@[j].kind, nodes@.len()) by {
            assert(nodes@[j].kind == NodeKind::Primitive(Primitive::String, None));
        }
    }
    let mut i: usize = 0;
    while i < doc.components.len()
        invariant
            i <= doc.components@.len(),
            n == names@.len(),
            n == doc.components@.len(),
            names_of(names@) == component_names(*doc),
            building(nodes@, n),
            forall|j: int| 0 <= j < i ==> refs_resolve(#[trigger] doc.components@[j].1, component_names(*doc)),
            forall|j: int| 0 <= j < i ==> component_ok(nodes@, component_names(*doc), n, j, #[trigger] doc.components@[j].1),
        decreases doc.components@.len() - i,
    {
        let ghost before = nodes@;
        let s = &doc.components[i].1;
        let node = match lower_plain(&names, s, &mut nodes, Ghost(n)) {
            Ok(node) => node,
            Err(e) => {
                return Err(e);
            },
        };
        let ghost lowered = nodes@;
        if s.nullable {
            proof { lemma_building_push(nodes@, n, node); }
            nodes.push(node);
            let inner = nodes.len() - 1;
            let wrapper = SchemaNode { kind: NodeKind::Nullable(inner), description: s.description.clone(), default: clone_default(&s.default) };
            proof { lemma_building_set(nodes@, n, i as int, wrapper); }
            nodes.set(i, wrapper);
            proof {
                assert(agrees(lowered, nodes@, n));
                lemma_shape_stable(lowered, nodes@, names_of(names@), n, node, node, *s);
                assert(nodes@[inner as int] == node);
            }
        } else {
            proof { lemma_building_set(nodes@, n, i as int, node); }
            nodes.set(i, node);
            proof {
                assert(agrees(lowered, nodes@, n));
                lemma_shape_stable(lowered, nodes@, names_of(names@), n, node, node, *s);
            }
        }
        proof {
            assert(agrees(before, nodes@, n));
            assert forall|j: int| 0 <= j < i + 1 implies component_ok(nodes@, component_names(*doc), n, j, #[trigger] doc.components@[j].1) by {
                if j < i {
                    assert(nodes@[j] == before[j]);
                    lemma_component_stable(before, nodes@, component_names(*doc), n, j, doc.components@[j].1);
                }
            }
        }
        i = i + 1;
    }
    let mut paths: Vec<NormalizedPath> = Vec::new();
    let mut p: usize = 0;
    while p < doc.paths.len()
        invariant
            p <= doc.paths@.len(),
            n == names@.len(),
            n == doc.components@.len(),
            names_of(names@) == component_names(*doc),
            building(nodes@, n),
            forall|j: int| 0 <= j < doc.components@.len() ==> refs_resolve(#[trigger] doc.components@[j].1, component_names(*doc)),
            forall|j: int| 0 <= j < p ==> path_resolves(#[trigger] doc.paths@[j], component_names(*doc)),
            paths@.len() == p,
            forall|j: int| 0 <= j < p ==> path_matches(#[trigger] paths@[j], doc.paths@[j]),
            forall|j: int| 0 <= j < p ==> path_below(#[trigger] paths@[j], nodes@.len()),
            forall|j: int| 0 <= j < p ==> path_represents(nodes@, component_names(*doc), n, #[trigger] paths@[j], doc.paths@[j]),
            forall|j: int| 0 <= j < doc.components@.len() ==> component_ok(nodes@, component_names(*doc), n, j, #[trigger] doc.components@[j].1),
        decreases doc.paths@.len() - p,
    {
        let ghost before = nodes@;
        let np = match lower_path(&names, &doc.paths[p], &mut nodes, Ghost(n)) {
            Ok(np) => np,
            Err(e) => {
                return Err(e);
            },
        };
        proof {
            assert(agrees(before, nodes@, n));
            assert forall|j: int| 0 <= j < p implies path_represents(nodes@, component_names(*doc), n, #[trigger] paths@[j], doc.paths@[j]) by {
                lemma_path_stable(before, nodes@, component_names(*doc), n, paths@[j], doc.paths@[j]);
            }
            assert forall|j: int| 0 <= j < doc.components@.len() implies component_ok(nodes@, component_names(*doc), n, j, #[trigger] doc.components@[j].1) by {
                lemma_component_stable(before, nodes@, component_names(*doc), n, j, doc.components@[j].1);
            }
        }
        paths.push(np);
        p = p + 1;
    }
    let ghost built = nodes@;
    flatten_all_of(&mut nodes, Ghost(n));
    proof {
        assert(agrees(built, nodes@, n));
        assert forall|j: int| 0 <= j < paths@.len() implies path_represents(nodes@, component_names(*doc), n, #[trigger] paths@[j], doc.paths@[j]) by {
            lemma_path_stable(built, nodes@, component_names(*doc), n, paths@[j], doc.paths@[j]);
        }
        assert forall|j: int| 0 <= j < doc.components@.len() implies component_ok(nodes@, component_names(*doc), n, j, #[trigger] doc.components@[j].1) by {
            lemma_component_stable(built, nodes@, component_names(*doc), n, j, doc.components@[j].1);
        }
    }
    Ok(NormalizedSpec { nodes, component_names: names, paths })
}

} // verus!
