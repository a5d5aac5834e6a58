//! The emission plan: the output files of a run, and the run itself.

use vstd::prelude::*;

use crate::config::RestApiProviderConfiguration as Config;
use crate::document::ApiDocument;
use crate::model::{attribute_ok, build_models, merged_entries, model_ok, opt_same, report_ok, search_same, AttributeModel, BuildReport, CrudOperation, ResourceModel};
use crate::normalize::names_of;
use crate::normalize::{all_of_merged, component_names, component_ok, document_resolves, normalize, path_matches, path_represents, refs_to_components, spec_wf, NormalizeError, NormalizedSpec};

verus! {

/// What an output file holds.
#[derive(Clone, Copy, Debug, PartialEq, Eq, Structural)]
pub enum ArtifactKind {
    /// The build file.
    BuildFile,
    /// The module manifest.
    ModuleManifest,
    /// The program's entry point.
    EntryPoint,
    /// The registry of the provider's resources.
    Registry,
    /// The file of the resource model at this index.
    Resource(usize),
}

/// An output file: its path relative to the output directory, and what it holds.
#[derive(Clone, Debug, PartialEq, Eq)]
pub struct Artifact {
    pub path: String,
    pub kind: ArtifactKind,
}

/// The path of the file of a resource whose snake-case name is `snake`.
pub open spec fn resource_file(snake: Seq<char>) -> Seq<char> {
    "internal/provider/"@ + snake + ".go"@
}

/// The artifacts of a run: the four scaffold files, then one file per resource
/// model, in the models' order.
pub open spec fn plan_ok(models: Seq<ResourceModel>, plan: Seq<Artifact>) -> bool {
    &&& plan.len() == models.len() + 4
    &&& plan[0].path@ == "Makefile"@ && plan[0].kind == ArtifactKind::BuildFile
    &&& plan[1].path@ == "go.mod"@ && plan[1].kind == ArtifactKind::ModuleManifest
    &&& plan[2].path@ == "main.go"@ && plan[2].kind == ArtifactKind::EntryPoint
    &&& plan[3].path@ == "internal/provider/provider.go"@ && plan[3].kind == ArtifactKind::Registry
    &&& forall|k: int| 0 <= k < models.len() ==> {
        &&& (#[trigger] plan[k + 4]).path@ == resource_file(models[k].name_snake@)
        &&& plan[k + 4].kind == ArtifactKind::Resource(k as usize)
    }
}

/// The output files of a run, named from the resource models.
pub fn plan_artifacts(models: &Vec<ResourceModel>) -> (r: Vec<Artifact>)
    ensures
        plan_ok(models@, r@),
{
    let mut plan: Vec<Artifact> = Vec::new();
    plan.push(Artifact { path: String::from_str("Makefile"), kind: ArtifactKind::BuildFile });
    plan.push(Artifact { path: String::from_str("go.mod"), kind: ArtifactKind::ModuleManifest });
    plan.push(Artifact { path: String::from_str("main.go"), kind: ArtifactKind::EntryPoint });
    plan.push(Artifact { path: String::from_str("internal/provider/provider.go"), kind: ArtifactKind::Registry });
    let mut k: usize = 0;
    while k < models.len()
        invariant
            k <= models@.len(),
            plan@.len() == k + 4,
            plan@[0].path@ == "Makefile"@ && plan@[0].kind == ArtifactKind::BuildFile,
            plan@[1].path@ == "go.mod"@ && plan@[1].kind == ArtifactKind::ModuleManifest,
            plan@[2].path@ == "main.go"@ && plan@[2].kind == ArtifactKind::EntryPoint,
            plan@[3].path@ == "internal/provider/provider.go"@ && plan@[3].kind == ArtifactKind::Registry,
            forall|j: int| 0 <= j < k ==> {
                &&& (#[trigger] plan@[j + 4]).path@ == resource_file(models@[j].name_snake@)
                &&& plan@[j + 4].kind == ArtifactKind::Resource(j as usize)
            },
        decreases models@.len() - k,
    {
        let path = String::from_str("internal/provider/").concat(models[k].name_snake.as_str()).concat(".go");
        plan.push(Artifact { path, kind: ArtifactKind::Resource(k) });
        assert(plan@[k + 4].path@ == resource_file(models@[k as int].name_snake@));
        k = k + 1;
    }
    plan
}

/// Everything a run derives from its two inputs.
#[derive(Debug, PartialEq, Eq)]
pub struct Generation {
    pub spec: NormalizedSpec,
    pub report: BuildReport,
    pub artifacts: Vec<Artifact>,
}

/// Runs the pipeline: normalizes the document, builds the model of each
/// configured resource and names the output files. Fails only when a reference
/// of the document names no component.
pub fn generate(doc: &ApiDocument, config: &Config) -> (r: Result<Generation, NormalizeError>)
    ensures
        r is Ok <==> document_resolves(*doc),
        r matches Err(NormalizeError::DanglingReference(m)) ==> !component_names(*doc).contains(m@),
        r matches Ok(g) ==> {
            &&& spec_wf(g.spec)
            &&& g.spec.paths@.len() == doc.paths@.len()
            &&& refs_to_components(g.spec.nodes@, g.spec.component_names@.len())
            &&& all_of_merged(g.spec.nodes@)
            &&& names_of(g.spec.component_names@) == component_names(*doc)
            &&& forall|p: int| 0 <= p < g.spec.paths@.len() ==> path_matches(#[trigger] g.spec.paths@[p], doc.paths@[p])
            &&& forall|i: int| 0 <= i < doc.components@.len() ==> component_ok(g.spec.nodes@, component_names(*doc), g.spec.component_names@.len(), i, #[trigger] doc.components@[i].1)
            &&& forall|p: int| 0 <= p < g.spec.paths@.len() ==> path_represents(g.spec.nodes@, component_names(*doc), g.spec.component_names@.len(), #[trigger] g.spec.paths@[p], doc.paths@[p])
            &&& report_ok(g.spec, *config, g.report)
            &&& plan_ok(g.report.models@, g.artifacts@)
        },
{
    let spec = normalize(doc)?;
    let report = build_models(&spec, config);
    let artifacts = plan_artifacts(&report.models);
    Ok(Generation { spec, report, artifacts })
}


pub open spec fn operation_same(a: CrudOperation, b: CrudOperation) -> bool {
    a.method@ == b.method@ && a.path@ == b.path@
}

/// Two attributes that read the same.
pub open spec fn attribute_same(a: AttributeModel, b: AttributeModel) -> bool {
    &&& a.name@ == b.name@
    &&& a.attr_type == b.attr_type
    &&& a.description@ == b.description@
    &&& a.required == b.required
    &&& a.computed == b.computed
    &&& a.sensitive == b.sensitive
    &&& a.force_new == b.force_new
    &&& a.ignore_changes == b.ignore_changes
    &&& opt_same(a.default, b.default)
    &&& a.default_dropped == b.default_dropped
}

/// Two resource models that read the same.
pub open spec fn model_same(a: ResourceModel, b: ResourceModel) -> bool {
    &&& a.name@ == b.name@
    &&& a.name_snake@ == b.name_snake@
    &&& a.name_pascal@ == b.name_pascal@
    &&& operation_same(a.create, b.create)
    &&& operation_same(a.read, b.read)
    &&& operation_same(a.update, b.update)
    &&& operation_same(a.destroy, b.destroy)
    &&& search_same(a.search, b.search)
    &&& names_of(a.id_attribute@) == names_of(b.id_attribute@)
    &&& a.attributes@.len() == b.attributes@.len()
    &&& forall|i: int| 0 <= i < a.attributes@.len() ==> attribute_same(#[trigger] a.attributes@[i], b.attributes@[i])
    &&& names_of(a.unmatched_fields@) == names_of(b.unmatched_fields@)
}

/// Two reports that read the same.
pub open spec fn report_same(a: BuildReport, b: BuildReport) -> bool {
    &&& a.models@.len() == b.models@.len()
    &&& forall|k: int| 0 <= k < a.models@.len() ==> model_same(#[trigger] a.models@[k], b.models@[k])
    &&& names_of(a.unresolved@) == names_of(b.unresolved@)
}

/// Two artifact lists with the same paths and contents.
pub open spec fn plan_same(a: Seq<Artifact>, b: Seq<Artifact>) -> bool {
    &&& a.len() == b.len()
    &&& forall|k: int| 0 <= k < a.len() ==> (#[trigger] a[k]).path@ == b[k].path@ && a[k].kind == b[k].kind
}

proof fn lemma_model_determined(ns: NormalizedSpec, global: Option<crate::config::RestApiProviderConfigurationGlobal>, name: Seq<char>, ov: crate::config::RestApiProviderConfigurationResourcesExtraValue, a: ResourceModel, b: ResourceModel)
    requires
        model_ok(ns, global, name, ov, a),
        model_ok(ns, global, name, ov, b),
    ensures
        model_same(a, b),
{
    let es = merged_entries(ns, global, ov);
    assert forall|i: int| 0 <= i < a.attributes@.len() implies attribute_same(#[trigger] a.attributes@[i], b.attributes@[i]) by {
        assert(attribute_ok(ns.nodes@, ov, es[i], a.attributes@[i]));
        assert(attribute_ok(ns.nodes@, ov, es[i], b.attributes@[i]));
    }
}

/// A run is a function of its inputs: from the same normalized spec and
/// configuration, the report and the artifact list read the same every time,
/// so the rendered output tree is the same.
pub proof fn run_is_deterministic(ns: NormalizedSpec, config: Config, report_a: BuildReport, report_b: BuildReport, plan_a: Seq<Artifact>, plan_b: Seq<Artifact>)
    requires
        report_ok(ns, config, report_a),
        report_ok(ns, config, report_b),
        plan_ok(report_a.models@, plan_a),
        plan_ok(report_b.models@, plan_b),
    ensures
        report_same(report_a, report_b),
        plan_same(plan_a, plan_b),
{
    let es = crate::model::configured(config);
    let pos = crate::model::known_positions(ns.paths@, es);
    assert forall|k: int| 0 <= k < report_a.models@.len() implies model_same(#[trigger] report_a.models@[k], report_b.models@[k]) by {
        lemma_model_determined(ns, config.global, es[pos[k]].0@, es[pos[k]].1, report_a.models@[k], report_b.models@[k]);
    }
    assert forall|k: int| 0 <= k < plan_a.len() implies (#[trigger] plan_a[k]).path@ == plan_b[k].path@ && plan_a[k].kind == plan_b[k].kind by {
        if k >= 4 {
            let j = k - 4;
            assert(plan_a[j + 4].path@ == resource_file(report_a.models@[j].name_snake@));
            assert(plan_b[j + 4].path@ == resource_file(report_b.models@[j].name_snake@));
            assert(model_same(report_a.models@[j], report_b.models@[j]));
        }
    }
}

} // verus!
