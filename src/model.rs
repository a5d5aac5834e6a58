//! The resource model builder: the operations, identifier path and attributes
//! of each configured resource.

use vstd::prelude::*;

use crate::config::RestApiProviderConfiguration as Config;
use crate::config::RestApiProviderConfigurationGlobal as Global;
use crate::config::RestApiProviderConfigurationResourcesExtraValue as Override;
use crate::config::RestApiProviderConfigurationResourcesExtraValueReadSearch as Search;
use crate::normalize::{has_name, names_of, spec_wf, NodeId, NodeKind, NormalizedOperation, NormalizedPath, NormalizedSpec, Property, SchemaNode};
use crate::text::{occurs, occurs_in, pascal_case, snake_case, split_path, split_segments, template_matches, templates_match, to_pascal_case, to_snake_case};
use crate::types::{strip_nullable, attribute_type, default_literal, default_literal_of, lemma_resolve_in_range, resolve, resolve_node, type_of, AttributeType};
use crate::normalize::{arena_wf, props_below};

verus! {

/// The four operations of a resource.
#[derive(Clone, Copy, Debug, PartialEq, Eq, Structural)]
pub enum Crud {
    Create,
    Read,
    Update,
    Destroy,
}

/// How one operation of a resource is performed. The path is a template: its
/// `{id}` is replaced by the identifier when the request is made.
#[derive(Clone, Debug, PartialEq, Eq)]
pub struct CrudOperation {
    pub method: String,
    pub path: String,
}

/// One attribute of a resource.
#[derive(Clone, Debug, PartialEq, Eq)]
pub struct AttributeModel {
    pub name: String,
    pub attr_type: AttributeType,
    pub description: String,
    pub required: bool,
    pub computed: bool,
    pub sensitive: bool,
    pub force_new: bool,
    pub ignore_changes: bool,
    /// The Go literal of the default value, where it has one that can be written.
    pub default: Option<String>,
    /// Whether the schema gave a default that could not be written, and was dropped.
    pub default_dropped: bool,
}

impl AttributeModel {
    /// Whether the caller may leave the attribute out: it is neither required
    /// nor computed.
    pub fn optional(&self) -> (r: bool)
        ensures
            r == (!self.required && !self.computed),
    {
        !self.required && !self.computed
    }
}

/// The model of one configured resource.
#[derive(Clone, Debug, PartialEq, Eq)]
pub struct ResourceModel {
    pub name: String,
    /// The snake-case form of the name, used to name output files.
    pub name_snake: String,
    /// The upper-camel form of the name, used to name output types.
    pub name_pascal: String,
    pub create: CrudOperation,
    pub read: CrudOperation,
    pub update: CrudOperation,
    pub destroy: CrudOperation,
    /// Where present, read lists objects and picks the one that matches.
    pub search: Option<Search>,
    /// The segments of the identifier's path within a response object.
    pub id_attribute: Vec<String>,
    pub attributes: Vec<AttributeModel>,
    /// Names in `force_new` and `ignore_changes_to` that match no attribute.
    pub unmatched_fields: Vec<String>,
}

/// The method of an operation that neither the resource nor the global policy names.
pub open spec fn dialect_default_method(op: Crud) -> Seq<char> {
    match op {
        Crud::Create => "POST"@,
        Crud::Read => "GET"@,
        Crud::Update => "PUT"@,
        Crud::Destroy => "DELETE"@,
    }
}

pub open spec fn global_method(g: Global, op: Crud) -> Seq<char> {
    match op {
        Crud::Create => g.create_method@,
        Crud::Read => g.read_method@,
        Crud::Update => g.update_method@,
        Crud::Destroy => g.destroy_method@,
    }
}

/// The method and path that the resource's override gives an operation.
pub open spec fn override_of(ov: Override, op: Crud) -> (Option<String>, Option<String>) {
    match op {
        Crud::Create => match ov.create {
            Some(c) => (c.method, c.path),
            None => (None, None),
        },
        Crud::Read => match ov.read {
            Some(c) => (c.method, c.path),
            None => (None, None),
        },
        Crud::Update => match ov.update {
            Some(c) => (c.method, c.path),
            None => (None, None),
        },
        Crud::Destroy => match ov.destroy {
            Some(c) => (c.method, c.path),
            None => (None, None),
        },
    }
}

/// The method of an operation: the resource's, else the global policy's, else
/// the default.
pub open spec fn resolved_method(global: Option<Global>, ov: Override, op: Crud) -> Seq<char> {
    match override_of(ov, op).0 {
        Some(m) => m@,
        None => match global {
            Some(g) => global_method(g, op),
            None => dialect_default_method(op),
        },
    }
}

/// The path template of an operation: the resource's override, else the
/// resource's path for create and that path followed by `/{id}` for the others.
pub open spec fn resolved_path(ov: Override, op: Crud) -> Seq<char> {
    match override_of(ov, op).1 {
        Some(p) => p@,
        None => if op == Crud::Create {
            ov.path@
        } else {
            ov.path@ + "/{id}"@
        },
    }
}

/// The identifier path: the resource's, else the global policy's, else `id`.
pub open spec fn id_source(global: Option<Global>, ov: Override) -> Seq<char> {
    match ov.id_attribute {
        Some(s) => s@,
        None => match global {
            Some(g) => match g.id_attribute {
                Some(s) => s@,
                None => "id"@,
            },
            None => "id"@,
        },
    }
}

/// The first operation from index `k` on with the given method.
pub open spec fn operation_in(ops: Seq<NormalizedOperation>, method: Seq<char>, k: int) -> Option<NormalizedOperation>
    decreases ops.len() - k,
{
    if k < 0 || k >= ops.len() {
        None
    } else if ops[k].method@ == method {
        Some(ops[k])
    } else {
        operation_in(ops, method, k + 1)
    }
}

/// The first operation, from path index `p` on, of a path that matches the
/// template `path` and has the given method.
pub open spec fn find_operation(paths: Seq<NormalizedPath>, path: Seq<char>, method: Seq<char>, p: int) -> Option<NormalizedOperation>
    decreases paths.len() - p,
{
    if p < 0 || p >= paths.len() {
        None
    } else if template_matches(paths[p].path@, path) && operation_in(paths[p].operations@, method, 0) is Some {
        operation_in(paths[p].operations@, method, 0)
    } else {
        find_operation(paths, path, method, p + 1)
    }
}

/// Whether some path of the API description matches the template `path`.
pub open spec fn path_known(paths: Seq<NormalizedPath>, path: Seq<char>) -> bool {
    exists|p: int| 0 <= p < paths.len() && template_matches(#[trigger] paths[p].path@, path)
}

pub open spec fn operation_for(ns: NormalizedSpec, global: Option<Global>, ov: Override, op: Crud) -> Option<NormalizedOperation> {
    find_operation(ns.paths@, resolved_path(ov, op), resolved_method(global, ov, op), 0)
}

/// The body that create sends.
pub open spec fn request_node(ns: NormalizedSpec, global: Option<Global>, ov: Override) -> Option<NodeId> {
    match operation_for(ns, global, ov, Crud::Create) {
        Some(o) => o.request,
        None => None,
    }
}

/// The body that read returns.
pub open spec fn response_node(ns: NormalizedSpec, global: Option<Global>, ov: Override) -> Option<NodeId> {
    match operation_for(ns, global, ov, Crud::Read) {
        Some(o) => o.response,
        None => None,
    }
}

/// The properties of the object that a body stands for, or of its merged
/// `allOf`; none if it is neither.
pub open spec fn object_properties(nodes: Seq<SchemaNode>, body: Option<NodeId>) -> Seq<Property> {
    match body {
        Some(id) => match resolve(nodes, id, nodes.len()) {
            Some(r) => match nodes[r as int].kind {
                NodeKind::ObjectOf(ps) => ps@,
                NodeKind::AllOf(_, ps) => ps@,
                _ => Seq::empty(),
            },
            None => Seq::empty(),
        },
        None => Seq::empty(),
    }
}

/// Each property with whether it comes from the request.
pub open spec fn tagged(ps: Seq<Property>, from_request: bool) -> Seq<(Property, bool)> {
    ps.map_values(|p: Property| (p, from_request))
}

pub open spec fn entry_names(es: Seq<(Property, bool)>) -> Seq<Seq<char>> {
    es.map_values(|e: (Property, bool)| e.0.name@)
}

/// The entries in order, each name kept at its first occurrence.
pub open spec fn first_seen(es: Seq<(Property, bool)>) -> Seq<(Property, bool)>
    decreases es.len(),
{
    if es.len() == 0 {
        Seq::empty()
    } else {
        let acc = first_seen(es.drop_last());
        if entry_names(acc).contains(es.last().0.name@) {
            acc
        } else {
            acc.push(es.last())
        }
    }
}

/// The properties of a resource: those of the create request, then those of
/// the read response, each name once, at its first occurrence.
pub open spec fn merged_entries(ns: NormalizedSpec, global: Option<Global>, ov: Override) -> Seq<(Property, bool)> {
    first_seen(
        tagged(object_properties(ns.nodes@, request_node(ns, global, ov)), true)
            + tagged(object_properties(ns.nodes@, response_node(ns, global, ov)), false),
    )
}

/// Names that suggest a secret.
pub open spec fn secret_like(name: Seq<char>) -> bool {
    occurs_in("password"@, name) || occurs_in("secret"@, name) || occurs_in("token"@, name)
}

/// The attribute that a property gives, as the rule table states it: a
/// property that only the response has, or that is read-only, is computed; a
/// property of the request is required when the request requires it, it has no
/// default and it is not nullable.
pub open spec fn attribute_ok(nodes: Seq<SchemaNode>, ov: Override, e: (Property, bool), a: AttributeModel) -> bool {
    let p = e.0;
    let node = nodes[p.node as int];
    let t = type_of(nodes, p.node, nodes.len());
    &&& a.name@ == p.name@
    &&& a.attr_type == t
    &&& a.description@ == node.description@
    &&& a.computed == (!e.1 || p.read_only)
    &&& a.required == (e.1 && !p.read_only && p.required && node.default is None && !(node.kind is Nullable))
    &&& a.sensitive == secret_like(p.name@)
    &&& a.force_new == names_of(ov.force_new@).contains(p.name@)
    &&& a.ignore_changes == (ov.ignore_all_server_changes || names_of(ov.ignore_changes_to@).contains(p.name@))
    &&& match node.default {
        Some(d) => match default_literal(d, t) {
            Some(l) => (a.default matches Some(x) && x@ == l) && !a.default_dropped,
            None => a.default is None && a.default_dropped,
        },
        None => a.default is None && !a.default_dropped,
    }
}

/// The names of `names` that are not in `attrs`, in order.
pub open spec fn unmatched(names: Seq<Seq<char>>, attrs: Seq<Seq<char>>) -> Seq<Seq<char>>
    decreases names.len(),
{
    if names.len() == 0 {
        Seq::empty()
    } else {
        let r = unmatched(names.drop_last(), attrs);
        if attrs.contains(names.last()) {
            r
        } else {
            r.push(names.last())
        }
    }
}

pub open spec fn operation_ok(o: CrudOperation, global: Option<Global>, ov: Override, op: Crud) -> bool {
    o.method@ == resolved_method(global, ov, op) && o.path@ == resolved_path(ov, op)
}

pub open spec fn opt_same(a: Option<String>, b: Option<String>) -> bool {
    match (a, b) {
        (Some(x), Some(y)) => x@ == y@,
        (None, None) => true,
        _ => false,
    }
}

pub open spec fn search_same(a: Option<Search>, b: Option<Search>) -> bool {
    match (a, b) {
        (Some(x), Some(y)) => {
            &&& opt_same(x.query_string, y.query_string)
            &&& opt_same(x.results_key, y.results_key)
            &&& x.search_key@ == y.search_key@
            &&& opt_same(x.search_path, y.search_path)
            &&& x.search_value@ == y.search_value@
        },
        (None, None) => true,
        _ => false,
    }
}

pub open spec fn read_search(ov: Override) -> Option<Search> {
    match ov.read {
        Some(r) => r.search,
        None => None,
    }
}

/// `m` is the model of the resource `name` with override `ov`.
pub open spec fn model_ok(ns: NormalizedSpec, global: Option<Global>, name: Seq<char>, ov: Override, m: ResourceModel) -> bool {
    let es = merged_entries(ns, global, ov);
    &&& m.name@ == name
    &&& m.name_snake@ == snake_case(name)
    &&& m.name_pascal@ == pascal_case(name)
    &&& operation_ok(m.create, global, ov, Crud::Create)
    &&& operation_ok(m.read, global, ov, Crud::Read)
    &&& operation_ok(m.update, global, ov, Crud::Update)
    &&& operation_ok(m.destroy, global, ov, Crud::Destroy)
    &&& search_same(m.search, read_search(ov))
    &&& names_of(m.id_attribute@) == split_path(id_source(global, ov))
    &&& m.attributes@.len() == es.len()
    &&& forall|i: int| 0 <= i < es.len() ==> attribute_ok(ns.nodes@, ov, es[i], #[trigger] m.attributes@[i])
    &&& names_of(m.unmatched_fields@) == unmatched(names_of(ov.force_new@) + names_of(ov.ignore_changes_to@), entry_names(es))
}


fn clone_opt(o: &Option<String>) -> (r: Option<String>)
    ensures
        opt_same(r, *o),
{
    match o {
        Some(s) => Some(s.clone()),
        None => None,
    }
}

fn clone_search(o: &Option<Search>) -> (r: Option<Search>)
    ensures
        search_same(r, *o),
{
    match o {
        Some(s) => Some(Search {
            query_string: clone_opt(&s.query_string),
            results_key: clone_opt(&s.results_key),
            search_key: s.search_key.clone(),
            search_path: clone_opt(&s.search_path),
            search_value: s.search_value.clone(),
        }),
        None => None,
    }
}

fn override_parts(ov: &Override, op: Crud) -> (r: (Option<String>, Option<String>))
    ensures
        opt_same(r.0, override_of(*ov, op).0),
        opt_same(r.1, override_of(*ov, op).1),
{
    match op {
        Crud::Create => match &ov.create {
            Some(c) => (clone_opt(&c.method), clone_opt(&c.path)),
            None => (None, None),
        },
        Crud::Read => match &ov.read {
            Some(c) => (clone_opt(&c.method), clone_opt(&c.path)),
            None => (None, None),
        },
        Crud::Update => match &ov.update {
            Some(c) => (clone_opt(&c.method), clone_opt(&c.path)),
            None => (None, None),
        },
        Crud::Destroy => match &ov.destroy {
            Some(c) => (clone_opt(&c.method), clone_opt(&c.path)),
            None => (None, None),
        },
    }
}

/// The HTTP method of an operation of a resource.
pub fn resolve_method(global: &Option<Global>, ov: &Override, op: Crud) -> (r: String)
    ensures
        r@ == resolved_method(*global, *ov, op),
{
    match override_parts(ov, op).0 {
        Some(m) => m,
        None => match global {
            Some(g) => match op {
                Crud::Create => g.create_method.clone(),
                Crud::Read => g.read_method.clone(),
                Crud::Update => g.update_method.clone(),
                Crud::Destroy => g.destroy_method.clone(),
            },
            None => match op {
                Crud::Create => String::from_str("POST"),
                Crud::Read => String::from_str("GET"),
                Crud::Update => String::from_str("PUT"),
                Crud::Destroy => String::from_str("DELETE"),
            },
        },
    }
}

/// The path template of an operation of a resource.
pub fn resolve_path(ov: &Override, op: Crud) -> (r: String)
    ensures
        r@ == resolved_path(*ov, op),
{
    match override_parts(ov, op).1 {
        Some(p) => p,
        None => if op == Crud::Create {
            ov.path.clone()
        } else {
            ov.path.clone().concat("/{id}")
        },
    }
}

/// The segments of the identifier's path: the resource's `id_attribute`, else
/// the global one, else `id`, split at each `/`.
pub fn identifier_path(global: &Option<Global>, ov: &Override) -> (r: Vec<String>)
    ensures
        names_of(r@) == split_path(id_source(*global, *ov)),
{
    let source: &str = match &ov.id_attribute {
        Some(s) => s.as_str(),
        None => match global {
            Some(g) => match &g.id_attribute {
                Some(s) => s.as_str(),
                None => "id",
            },
            None => "id",
        },
    };
    split_segments(source)
}

fn find_in(ops: &Vec<NormalizedOperation>, method: &String) -> (r: Option<(Option<NodeId>, Option<NodeId>)>)
    ensures
        match operation_in(ops@, method@, 0) {
            Some(o) => r == Some((o.request, o.response)),
            None => r is None,
        },
{
    let mut k: usize = 0;
    while k < ops.len()
        invariant
            k <= ops@.len(),
            operation_in(ops@, method@, 0) == operation_in(ops@, method@, k as int),
        decreases ops@.len() - k,
    {
        if ops[k].method == *method {
            return Some((ops[k].request, ops[k].response));
        }
        k = k + 1;
    }
    None
}

fn find_op(paths: &Vec<NormalizedPath>, path: &String, method: &String) -> (r: Option<(Option<NodeId>, Option<NodeId>)>)
    ensures
        match find_operation(paths@, path@, method@, 0) {
            Some(o) => r == Some((o.request, o.response)),
            None => r is None,
        },
{
    let mut p: usize = 0;
    while p < paths.len()
        invariant
            p <= paths@.len(),
            find_operation(paths@, path@, method@, 0) == find_operation(paths@, path@, method@, p as int),
        decreases paths@.len() - p,
    {
        if templates_match(paths[p].path.as_str(), path.as_str()) {
            let found = find_in(&paths[p].operations, method);
            if found.is_some() {
                return found;
            }
        }
        p = p + 1;
    }
    None
}

/// Whether some path of the API description matches the template `path`.
pub fn is_path_known(paths: &Vec<NormalizedPath>, path: &String) -> (r: bool)
    ensures
        r == path_known(paths@, path@),
{
    let mut p: usize = 0;
    while p < paths.len()
        invariant
            p <= paths@.len(),
            forall|j: int| 0 <= j < p ==> !template_matches(#[trigger] paths@[j].path@, path@),
        decreases paths@.len() - p,
    {
        if templates_match(paths[p].path.as_str(), path.as_str()) {
            return true;
        }
        p = p + 1;
    }
    false
}

fn object_props<'a>(nodes: &'a Vec<SchemaNode>, body: Option<NodeId>, empty: &'a Vec<Property>) -> (r: &'a Vec<Property>)
    requires
        arena_wf(nodes@),
        empty@.len() == 0,
    ensures
        r@ == object_properties(nodes@, body),
        props_below(r@, nodes@.len()),
{
    match body {
        None => empty,
        Some(id) => {
            proof { lemma_resolve_in_range(nodes@, id, nodes@.len()); }
            match resolve_node(nodes, id, nodes.len()) {
                None => empty,
                Some(q) => match &nodes[q].kind {
                    NodeKind::ObjectOf(ps) => ps,
                    NodeKind::AllOf(_, ps) => ps,
                    _ => empty,
                },
            }
        },
    }
}

/// The attribute that property `p` gives; `from_request` says whether it comes
/// from the create request.
pub fn make_attribute(nodes: &Vec<SchemaNode>, ov: &Override, p: &Property, from_request: bool) -> (a: AttributeModel)
    requires
        arena_wf(nodes@),
        p.node < nodes@.len(),
    ensures
        attribute_ok(nodes@, *ov, (*p, from_request), a),
{
    let node = &nodes[p.node];
    let t = attribute_type(nodes, p.node, nodes.len());
    let (default, default_dropped) = match &node.default {
        Some(d) => match default_literal_of(d, t) {
            Some(l) => (Some(l), false),
            None => (None, true),
        },
        None => (None, false),
    };
    let nullable = match &node.kind {
        NodeKind::Nullable(_) => true,
        _ => false,
    };
    let name = p.name.as_str();
    AttributeModel {
        name: p.name.clone(),
        attr_type: t,
        description: node.description.clone(),
        required: from_request && !p.read_only && p.required && node.default.is_none() && !nullable,
        computed: !from_request || p.read_only,
        sensitive: occurs("password", name) || occurs("secret", name) || occurs("token", name),
        force_new: has_name(&ov.force_new, &p.name),
        ignore_changes: ov.ignore_all_server_changes || has_name(&ov.ignore_changes_to, &p.name),
        default,
        default_dropped,
    }
}

fn attr_named(attrs: &Vec<AttributeModel>, name: &String) -> (r: bool)
    ensures
        r == exists|i: int| 0 <= i < attrs@.len() && (#[trigger] attrs@[i]).name@ == name@,
{
    let mut i: usize = 0;
    while i < attrs.len()
        invariant
            i <= attrs@.len(),
            forall|j: int| 0 <= j < i ==> (#[trigger] attrs@[j]).name@ != name@,
        decreases attrs@.len() - i,
    {
        if attrs[i].name == *name {
            return true;
        }
        i = i + 1;
    }
    false
}

pub open spec fn merged_ok(nodes: Seq<SchemaNode>, ov: Override, es: Seq<(Property, bool)>, attrs: Seq<AttributeModel>) -> bool {
    &&& attrs.len() == first_seen(es).len()
    &&& forall|i: int| 0 <= i < attrs.len() ==> attribute_ok(nodes, ov, first_seen(es)[i], #[trigger] attrs[i])
}

/// Adds the attribute of `p` unless one of its name is there already.
fn merge_step(nodes: &Vec<SchemaNode>, ov: &Override, attrs: &mut Vec<AttributeModel>, p: &Property, from_request: bool, Ghost(es): Ghost<Seq<(Property, bool)>>)
    requires
        arena_wf(nodes@),
        p.node < nodes@.len(),
        merged_ok(nodes@, *ov, es, old(attrs)@),
    ensures
        merged_ok(nodes@, *ov, es.push((*p, from_request)), final(attrs)@),
{
    let ghost acc = first_seen(es);
    let ghost next = es.push((*p, from_request));
    assert(next.drop_last() =~= es);
    let seen = attr_named(attrs, &p.name);
    assert(seen == entry_names(acc).contains(p.name@)) by {
        if seen {
            let i = choose|i: int| 0 <= i < attrs@.len() && (#[trigger] attrs@[i]).name@ == p.name@;
            assert(attribute_ok(nodes@, *ov, acc[i], attrs@[i]));
            assert(entry_names(acc)[i] == p.name@);
        }
        if entry_names(acc).contains(p.name@) {
            let i = choose|i: int| 0 <= i < entry_names(acc).len() && entry_names(acc)[i] == p.name@;
            assert(attribute_ok(nodes@, *ov, acc[i], attrs@[i]));
        }
    }
    if !seen {
        let a = make_attribute(nodes, ov, p, from_request);
        attrs.push(a);
    }
}

/// The attributes of the request's properties followed by the response's, each
/// name once, at its first occurrence.
fn merge_attributes(nodes: &Vec<SchemaNode>, ov: &Override, req: &Vec<Property>, resp: &Vec<Property>) -> (r: Vec<AttributeModel>)
    requires
        arena_wf(nodes@),
        props_below(req@, nodes@.len()),
        props_below(resp@, nodes@.len()),
    ensures
        merged_ok(nodes@, *ov, tagged(req@, true) + tagged(resp@, false), r@),
{
    let mut attrs: Vec<AttributeModel> = Vec::new();
    let mut i: usize = 0;
    while i < req.len()
        invariant
            arena_wf(nodes@),
            props_below(req@, nodes@.len()),
            i <= req@.len(),
            merged_ok(nodes@, *ov, tagged(req@, true).subrange(0, i as int), attrs@),
        decreases req@.len() - i,
    {
        assert(tagged(req@, true).subrange(0, i + 1) =~= tagged(req@, true).subrange(0, i as int).push((req@[i as int], true)));
        merge_step(nodes, ov, &mut attrs, &req[i], true, Ghost(tagged(req@, true).subrange(0, i as int)));
        i = i + 1;
    }
    assert(tagged(req@, true).subrange(0, req@.len() as int) =~= tagged(req@, true));
    let mut k: usize = 0;
    while k < resp.len()
        invariant
            arena_wf(nodes@),
            props_below(resp@, nodes@.len()),
            k <= resp@.len(),
            merged_ok(nodes@, *ov, tagged(req@, true) + tagged(resp@, false).subrange(0, k as int), attrs@),
        decreases resp@.len() - k,
    {
        assert(tagged(req@, true) + tagged(resp@, false).subrange(0, k + 1) =~= (tagged(req@, true) + tagged(resp@, false).subrange(0, k as int)).push((resp@[k as int], false)));
        merge_step(nodes, ov, &mut attrs, &resp[k], false, Ghost(tagged(req@, true) + tagged(resp@, false).subrange(0, k as int)));
        k = k + 1;
    }
    assert(tagged(resp@, false).subrange(0, resp@.len() as int) =~= tagged(resp@, false));
    attrs
}

fn collect_unmatched(list: &Vec<String>, attrs: &Vec<AttributeModel>, out: &mut Vec<String>, Ghost(prefix): Ghost<Seq<Seq<char>>>, Ghost(names): Ghost<Seq<Seq<char>>>)
    requires
        names_of(old(out)@) == unmatched(prefix, names),
        names.len() == attrs@.len(),
        forall|i: int| 0 <= i < names.len() ==> names[i] == (#[trigger] attrs@[i]).name@,
    ensures
        names_of(final(out)@) == unmatched(prefix + names_of(list@), names),
{
    let mut k: usize = 0;
    while k < list.len()
        invariant
            k <= list@.len(),
            names.len() == attrs@.len(),
            forall|i: int| 0 <= i < names.len() ==> names[i] == (#[trigger] attrs@[i]).name@,
            names_of(out@) == unmatched(prefix + names_of(list@).subrange(0, k as int), names),
        decreases list@.len() - k,
    {
        let ghost next = prefix + names_of(list@).subrange(0, k + 1);
        assert(next.drop_last() =~= prefix + names_of(list@).subrange(0, k as int));
        assert(next.last() == list@[k as int]@);
        let found = attr_named(attrs, &list[k]);
        assert(found == names.contains(list@[k as int]@)) by {
            if found {
                let i = choose|i: int| 0 <= i < attrs@.len() && (#[trigger] attrs@[i]).name@ == list@[k as int]@;
                assert(names[i] == list@[k as int]@);
            }
            if names.contains(list@[k as int]@) {
                let i = choose|i: int| 0 <= i < names.len() && names[i] == list@[k as int]@;
                assert(attrs@[i].name@ == list@[k as int]@);
            }
        }
        if !found {
            out.push(list[k].clone());
            assert(names_of(out@) =~= unmatched(next, names));
        }
        k = k + 1;
    }
    assert(names_of(list@).subrange(0, list@.len() as int) =~= names_of(list@));
}


/// Builds the model of the resource `name` with override `ov`; `None` when the
/// resource's path matches no path of the API description.
pub fn build_resource(ns: &NormalizedSpec, global: &Option<Global>, name: &String, ov: &Override) -> (r: Option<ResourceModel>)
    requires
        spec_wf(*ns),
    ensures
        r is None <==> !path_known(ns.paths@, ov.path@),
        r matches Some(m) ==> model_ok(*ns, *global, name@, *ov, m),
{
    if !is_path_known(&ns.paths, &ov.path) {
        return None;
    }
    let create = CrudOperation { method: resolve_method(global, ov, Crud::Create), path: resolve_path(ov, Crud::Create) };
    let read = CrudOperation { method: resolve_method(global, ov, Crud::Read), path: resolve_path(ov, Crud::Read) };
    let update = CrudOperation { method: resolve_method(global, ov, Crud::Update), path: resolve_path(ov, Crud::Update) };
    let destroy = CrudOperation { method: resolve_method(global, ov, Crud::Destroy), path: resolve_path(ov, Crud::Destroy) };
    let request = match find_op(&ns.paths, &create.path, &create.method) {
        Some((rq, _)) => rq,
        None => None,
    };
    let response = match find_op(&ns.paths, &read.path, &read.method) {
        Some((_, rs)) => rs,
        None => None,
    };
    assert(request == request_node(*ns, *global, *ov));
    assert(response == response_node(*ns, *global, *ov));
    let empty: Vec<Property> = Vec::new();
    let req = object_props(&ns.nodes, request, &empty);
    let resp = object_props(&ns.nodes, response, &empty);
    let attributes = merge_attributes(&ns.nodes, ov, req, resp);
    let ghost es = merged_entries(*ns, *global, *ov);
    let ghost names = entry_names(es);
    assert forall|i: int| 0 <= i < names.len() implies names[i] == (#[trigger] attributes@[i]).name@ by {
        assert(attribute_ok(ns.nodes@, *ov, es[i], attributes@[i]));
    }
    let mut unmatched_fields: Vec<String> = Vec::new();
    assert(names_of(unmatched_fields@) =~= unmatched(Seq::empty(), names));
    collect_unmatched(&ov.force_new, &attributes, &mut unmatched_fields, Ghost(Seq::empty()), Ghost(names));
    assert(Seq::<Seq<char>>::empty() + names_of(ov.force_new@) =~= names_of(ov.force_new@));
    collect_unmatched(&ov.ignore_changes_to, &attributes, &mut unmatched_fields, Ghost(names_of(ov.force_new@)), Ghost(names));
    let search = match &ov.read {
        Some(rd) => clone_search(&rd.search),
        None => None,
    };
    Some(ResourceModel {
        name: name.clone(),
        name_snake: to_snake_case(name.as_str()),
        name_pascal: to_pascal_case(name.as_str()),
        create,
        read,
        update,
        destroy,
        search,
        id_attribute: identifier_path(global, ov),
        attributes,
        unmatched_fields,
    })
}

/// The models of the resources whose path the API description knows, and the names of the
/// others, each reported once and skipped.
#[derive(Debug, PartialEq, Eq)]
pub struct BuildReport {
    pub models: Vec<ResourceModel>,
    pub unresolved: Vec<String>,
}

/// The configured resources with their overrides, in declaration order.
pub open spec fn configured(config: Config) -> Seq<(String, Override)> {
    match config.resources {
        Some(r) => r.extra@,
        None => Seq::empty(),
    }
}

/// The names of the entries, in order.
pub open spec fn entry_keys(es: Seq<(String, Override)>) -> Seq<Seq<char>> {
    es.map_values(|e: (String, Override)| e.0@)
}

/// The last entry is built: its path is known and no earlier entry has its name.
pub open spec fn last_accepted(paths: Seq<NormalizedPath>, es: Seq<(String, Override)>) -> bool {
    path_known(paths, es.last().1.path@) && !entry_keys(es.drop_last()).contains(es.last().0@)
}

/// The positions of the resources that are built: those whose path the API
/// description knows, each name at its first occurrence.
pub open spec fn known_positions(paths: Seq<NormalizedPath>, es: Seq<(String, Override)>) -> Seq<int>
    decreases es.len(),
{
    if es.len() == 0 {
        Seq::empty()
    } else {
        let r = known_positions(paths, es.drop_last());
        if last_accepted(paths, es) {
            r.push(es.len() - 1)
        } else {
            r
        }
    }
}

/// The names of the resources that are not built: their path is unknown, or an
/// earlier resource has their name.
pub open spec fn unknown_names(paths: Seq<NormalizedPath>, es: Seq<(String, Override)>) -> Seq<Seq<char>>
    decreases es.len(),
{
    if es.len() == 0 {
        Seq::empty()
    } else {
        let r = unknown_names(paths, es.drop_last());
        if last_accepted(paths, es) {
            r
        } else {
            r.push(es.last().0@)
        }
    }
}

/// `r` holds, in order, the model of each resource whose path is known, and the
/// names of the others.
pub open spec fn report_ok(ns: NormalizedSpec, config: Config, r: BuildReport) -> bool {
    let es = configured(config);
    let pos = known_positions(ns.paths@, es);
    &&& r.models@.len() == pos.len()
    &&& forall|k: int| 0 <= k < pos.len() ==> model_ok(ns, config.global, es[pos[k]].0@, es[pos[k]].1, #[trigger] r.models@[k])
    &&& names_of(r.unresolved@) == unknown_names(ns.paths@, es)
}

/// Builds the model of every configured resource. A resource whose path the
/// API description does not know is reported and skipped; the others are built all the same.
pub fn build_models(ns: &NormalizedSpec, config: &Config) -> (r: BuildReport)
    requires
        spec_wf(*ns),
    ensures
        report_ok(*ns, *config, r),
{
    let none: Vec<(String, Override)> = Vec::new();
    let entries: &Vec<(String, Override)> = match &config.resources {
        Some(res) => &res.extra,
        None => &none,
    };
    let ghost es = configured(*config);
    assert(entries@ == es);
    let mut models: Vec<ResourceModel> = Vec::new();
    let mut unresolved: Vec<String> = Vec::new();
    let mut i: usize = 0;
    while i < entries.len()
        invariant
            spec_wf(*ns),
            entries@ == es,
            i <= es.len(),
            models@.len() == known_positions(ns.paths@, es.subrange(0, i as int)).len(),
            forall|k: int| 0 <= k < models@.len() ==> {
                let p = #[trigger] known_positions(ns.paths@, es.subrange(0, i as int))[k];
                model_ok(*ns, config.global, es[p].0@, es[p].1, models@[k])
            },
            names_of(unresolved@) == unknown_names(ns.paths@, es.subrange(0, i as int)),
        decreases es.len() - i,
    {
        let ghost sub = es.subrange(0, i + 1);
        assert(sub.drop_last() =~= es.subrange(0, i as int));
        assert(sub.last() == es[i as int]);
        let (name, ov) = (&entries[i].0, &entries[i].1);
        let mut seen = false;
        let mut j: usize = 0;
        while j < i
            invariant
                j <= i,
                i < entries@.len(),
                entries@ == es,
                name@ == es[i as int].0@,
                seen == exists|k: int| 0 <= k < j && (#[trigger] es[k]).0@ == es[i as int].0@,
            decreases i - j,
        {
            if entries[j].0 == *name {
                seen = true;
            }
            j = j + 1;
        }
        proof {
            let keys = entry_keys(es.subrange(0, i as int));
            if seen {
                let k = choose|k: int| 0 <= k < i && (#[trigger] es[k]).0@ == es[i as int].0@;
                assert(keys[k] == es[i as int].0@);
            }
            if keys.contains(es[i as int].0@) {
                let k = choose|k: int| 0 <= k < keys.len() && keys[k] == es[i as int].0@;
                assert(es[k].0@ == es[i as int].0@);
            }
            assert(seen == keys.contains(es[i as int].0@));
        }
        let built = if seen {
            None
        } else {
            build_resource(ns, &config.global, name, ov)
        };
        match built {
            Some(m) => {
                models.push(m);
            },
            None => {
                unresolved.push(name.clone());
                assert(names_of(unresolved@) =~= unknown_names(ns.paths@, sub));
            },
        }
        i = i + 1;
    }
    assert(es.subrange(0, es.len() as int) =~= es);
    BuildReport { models, unresolved }
}


/// A resource whose path the API description does not know does not keep another from
/// being built: of two resources, the first unknown and the second known, the
/// run holds one model, the second's, and reports the first by name.
pub proof fn isolated_resource_failure(paths: Seq<NormalizedPath>, first: (String, Override), second: (String, Override))
    requires
        !path_known(paths, first.1.path@),
        path_known(paths, second.1.path@),
        first.0@ != second.0@,
    ensures
        known_positions(paths, seq![first, second]) == seq![1int],
        unknown_names(paths, seq![first, second]) == seq![first.0@],
{
    let es = seq![first, second];
    assert(es.drop_last() =~= seq![first]);
    assert(seq![first].drop_last() =~= Seq::<(String, Override)>::empty());
    assert(seq![first].last() == first);
    assert(es.last() == second);
    assert(entry_keys(seq![first]) =~= seq![first.0@]);
    assert(!entry_keys(seq![first]).contains(second.0@)) by {
        if entry_keys(seq![first]).contains(second.0@) {
            let k = choose|k: int| 0 <= k < 1 && entry_keys(seq![first])[k] == second.0@;
        }
    }
    assert(known_positions(paths, Seq::<(String, Override)>::empty()) == Seq::<int>::empty());
    assert(unknown_names(paths, Seq::<(String, Override)>::empty()) == Seq::<Seq<char>>::empty());
    assert(known_positions(paths, seq![first]) =~= Seq::<int>::empty());
    assert(known_positions(paths, es) =~= seq![1int]);
    assert(unknown_names(paths, seq![first]) =~= seq![first.0@]);
    assert(unknown_names(paths, es) =~= seq![first.0@]);
}

/// A definition referenced nullably in one context and directly in another
/// gives two attributes of the same type that differ only in `required`: the
/// nullable one is never required.
pub proof fn nullable_independence(nodes: Seq<SchemaNode>, ov: Override, first: Property, second: Property, from_request: bool, c: NodeId, first_attr: AttributeModel, second_attr: AttributeModel)
    requires
        arena_wf(nodes),
        first.node < nodes.len(),
        second.node < nodes.len(),
        nodes[first.node as int].kind matches NodeKind::Nullable(x) && nodes[x as int].kind == NodeKind::Reference(c),
        nodes[second.node as int].kind == NodeKind::Reference(c),
        nodes[first.node as int].description@ == nodes[second.node as int].description@,
        nodes[first.node as int].default == nodes[second.node as int].default,
        first.name@ == second.name@,
        first.required == second.required,
        first.read_only == second.read_only,
        attribute_ok(nodes, ov, (first, from_request), first_attr),
        attribute_ok(nodes, ov, (second, from_request), second_attr),
    ensures
        first_attr.attr_type == second_attr.attr_type,
        !first_attr.required,
        second_attr.required == (from_request && !second.read_only && second.required && nodes[second.node as int].default is None),
        first_attr.name@ == second_attr.name@,
        first_attr.description@ == second_attr.description@,
        first_attr.computed == second_attr.computed,
        first_attr.sensitive == second_attr.sensitive,
        first_attr.force_new == second_attr.force_new,
        first_attr.ignore_changes == second_attr.ignore_changes,
        opt_same(first_attr.default, second_attr.default),
        first_attr.default_dropped == second_attr.default_dropped,
{
    let x = strip_nullable(nodes, first.node);
    assert(strip_nullable(nodes, second.node) == second.node);
    let fuel = nodes.len();
    assert(resolve(nodes, x, fuel) == resolve(nodes, c, (fuel - 1) as nat));
    assert(resolve(nodes, second.node, fuel) == resolve(nodes, c, (fuel - 1) as nat));
    assert(type_of(nodes, first.node, fuel) == type_of(nodes, second.node, fuel));
}

pub open spec fn prop_names(ps: Seq<Property>) -> Seq<Seq<char>> {
    ps.map_values(|p: Property| p.name@)
}

pub open spec fn distinct_names(ps: Seq<Property>) -> bool {
    forall|i: int, j: int| 0 <= i < j < ps.len() ==> (#[trigger] ps[i]).name@ != (#[trigger] ps[j]).name@
}

proof fn lemma_unmatched_within(names: Seq<Seq<char>>, attrs: Seq<Seq<char>>, n: Seq<char>)
    requires
        unmatched(names, attrs).contains(n),
    ensures
        names.contains(n),
    decreases names.len(),
{
    if names.len() > 0 {
        let r = unmatched(names.drop_last(), attrs);
        if r.contains(n) {
            lemma_unmatched_within(names.drop_last(), attrs, n);
            let i = choose|i: int| 0 <= i < names.drop_last().len() && names.drop_last()[i] == n;
            assert(names[i] == n);
        } else {
            assert(n == names.last());
        }
    }
}

proof fn lemma_request_order(req: Seq<Property>, k: int)
    requires
        distinct_names(req),
        0 <= k <= req.len(),
    ensures
        entry_names(first_seen(tagged(req.subrange(0, k), true))) == prop_names(req.subrange(0, k)),
    decreases k,
{
    if k > 0 {
        lemma_request_order(req, k - 1);
        let t = tagged(req.subrange(0, k), true);
        assert(t.drop_last() =~= tagged(req.subrange(0, k - 1), true));
        let acc = first_seen(t.drop_last());
        if entry_names(acc).contains(req[k - 1].name@) {
            let i = choose|i: int| 0 <= i < entry_names(acc).len() && entry_names(acc)[i] == req[k - 1].name@;
            assert(prop_names(req.subrange(0, k - 1))[i] == req[i].name@);
            assert(false);
        }
        assert(t.last() == (req[k - 1], true));
        assert(first_seen(t) == acc.push(t.last()));
        assert(entry_names(first_seen(t)) =~= entry_names(acc).push(req[k - 1].name@));
        assert(prop_names(req.subrange(0, k)) =~= prop_names(req.subrange(0, k - 1)).push(req[k - 1].name@));
    }
}

/// Attributes follow the order in which their names are first seen: the
/// request's properties in their order, then those of the response that the
/// request does not have, in theirs, whatever the order of the underlying maps.
pub proof fn attribute_order(req: Seq<Property>, resp: Seq<Property>)
    requires
        distinct_names(req),
        distinct_names(resp),
    ensures
        entry_names(first_seen(tagged(req, true) + tagged(resp, false)))
            == prop_names(req) + unmatched(prop_names(resp), prop_names(req)),
{
    lemma_request_order(req, req.len() as int);
    assert(req.subrange(0, req.len() as int) =~= req);
    lemma_response_order(req, resp, resp.len() as int);
    assert(resp.subrange(0, resp.len() as int) =~= resp);
}

proof fn lemma_response_order(req: Seq<Property>, resp: Seq<Property>, k: int)
    requires
        distinct_names(req),
        distinct_names(resp),
        0 <= k <= resp.len(),
        entry_names(first_seen(tagged(req, true))) == prop_names(req),
    ensures
        entry_names(first_seen(tagged(req, true) + tagged(resp.subrange(0, k), false)))
            == prop_names(req) + unmatched(prop_names(resp.subrange(0, k)), prop_names(req)),
    decreases k,
{
    if k == 0 {
        assert(tagged(req, true) + tagged(resp.subrange(0, 0), false) =~= tagged(req, true));
        assert(prop_names(resp.subrange(0, 0)) =~= Seq::<Seq<char>>::empty());
        assert(prop_names(req) + unmatched(Seq::<Seq<char>>::empty(), prop_names(req)) =~= prop_names(req));
    } else {
        lemma_response_order(req, resp, k - 1);
        let e = tagged(req, true) + tagged(resp.subrange(0, k), false);
        assert(e.drop_last() =~= tagged(req, true) + tagged(resp.subrange(0, k - 1), false));
        let pn = prop_names(resp.subrange(0, k));
        assert(pn.drop_last() =~= prop_names(resp.subrange(0, k - 1)));
        let n = resp[k - 1].name@;
        let acc = first_seen(e.drop_last());
        let u = unmatched(prop_names(resp.subrange(0, k - 1)), prop_names(req));
        assert(entry_names(acc) == prop_names(req) + u);
        if u.contains(n) {
            lemma_unmatched_within(prop_names(resp.subrange(0, k - 1)), prop_names(req), n);
            let i = choose|i: int| 0 <= i < k - 1 && #[trigger] prop_names(resp.subrange(0, k - 1))[i] == n;
            assert(resp[i].name@ == n);
            assert(false);
        }
        assert(entry_names(acc).contains(n) == prop_names(req).contains(n)) by {
            if entry_names(acc).contains(n) {
                let i = choose|i: int| 0 <= i < entry_names(acc).len() && entry_names(acc)[i] == n;
                if i >= prop_names(req).len() {
                    assert(u[i - prop_names(req).len()] == n);
                }
            }
            if prop_names(req).contains(n) {
                let i = choose|i: int| 0 <= i < prop_names(req).len() && prop_names(req)[i] == n;
                assert(entry_names(acc)[i] == n);
            }
        }
        assert(e.last() == (resp[k - 1], false));
        assert(pn.last() == n);
        if prop_names(req).contains(n) {
            assert(first_seen(e) == acc);
            assert(unmatched(pn, prop_names(req)) == u);
        } else {
            assert(first_seen(e) == acc.push(e.last()));
            assert(unmatched(pn, prop_names(req)) == u.push(n));
            assert(entry_names(first_seen(e)) =~= entry_names(acc).push(n));
        }
        assert(entry_names(first_seen(e)) =~= prop_names(req) + unmatched(pn, prop_names(req)));
    }
}

} // verus!
