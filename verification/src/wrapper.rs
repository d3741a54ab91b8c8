//! Dependency wrapper generator: for one named dependency, plans the wrapper
//! unit that re-exports it as a dynamic library.
//!
//! A wrapper unit consists of a minimal manifest declaring a dynamic-library
//! build with the original dependency as its only dependency, and a one-line
//! source file re-exporting that dependency's public namespace. The generator
//! here computes every byte of both files and the reference other manifests
//! use to point at the unit; creating the directory and writing the two files
//! is the shell's job, gated by the at-most-once policy below.

use crate::manifest::{DepDetail, DepDetailModel, DepSpec, DepSpecModel};
use crate::render::{push_dep_line, rendered_dep_line};
use crate::text::{push_quoted, push_str, quoted};
use vstd::prelude::*;
use vstd::string::StringExecFns;

verus! {

/// The deterministic wrapper identifier of a dependency: its name with a
/// `-dynamic` suffix.
pub open spec fn dynamic_name_of(name: Seq<char>) -> Seq<char> {
    name + "-dynamic"@
}

/// Computes the wrapper identifier `{name}-dynamic`.
pub fn dynamic_name(name: &str) -> (r: String)
    ensures
        r@ == dynamic_name_of(name@),
{
    let mut r = name.to_owned();
    r.append("-dynamic");
    r
}

/// The dependency specification by which other manifests reference a wrapper
/// unit: a detailed record whose path and registry package name are both the
/// wrapper identifier, with no version, features or optional marker.
pub open spec fn wrapper_reference_of(dyn_name: Seq<char>) -> DepSpecModel {
    DepSpecModel::Detailed(
        DepDetailModel {
            version: None,
            path: Some(dyn_name),
            package: Some(dyn_name),
            features: Seq::empty(),
            optional: false,
        },
    )
}

/// Builds the reference to the wrapper unit named by `dyn_name`.
pub fn wrapper_reference(dyn_name: &str) -> (r: DepSpec)
    ensures
        r@ == wrapper_reference_of(dyn_name@),
{
    let r = DepSpec::Detailed(
        DepDetail {
            version: None,
            path: Some(dyn_name.to_owned()),
            package: Some(dyn_name.to_owned()),
            features: Vec::new(),
            optional: false,
        },
    );
    proof {
        assert(r@ =~~= wrapper_reference_of(dyn_name@));
    }
    r
}

/// The full text of a wrapper unit's manifest: a package named after the
/// wrapper identifier, exactly one dependency — the original name and
/// specification — and a dynamic-library output type.
pub open spec fn wrapper_manifest_of(name: Seq<char>, spec: DepSpecModel) -> Seq<char> {
    "[package]\nname = "@ + quoted(dynamic_name_of(name))
        + "\nversion = \"0.1.0\"\nedition = \"2021\"\n\n[dependencies]\n"@ + rendered_dep_line(
        name,
        spec,
    ) + "\n[lib]\ncrate-type = [\"dylib\"]\n"@
}

/// Renders the wrapper unit's manifest.
pub fn wrapper_manifest_text(name: &str, spec: &DepSpec) -> (r: String)
    ensures
        r@ == wrapper_manifest_of(name@, spec@),
{
    let mut out = String::new();
    push_str(&mut out, "[package]\nname = ");
    let dn = dynamic_name(name);
    push_quoted(&mut out, dn.as_str());
    push_str(&mut out, "\nversion = \"0.1.0\"\nedition = \"2021\"\n\n[dependencies]\n");
    push_dep_line(&mut out, name, spec);
    push_str(&mut out, "\n[lib]\ncrate-type = [\"dylib\"]\n");
    proof {
        assert(out@ =~= wrapper_manifest_of(name@, spec@));
    }
    out
}

/// The full text of a wrapper unit's source file: a single public re-export
/// of the dependency's whole public namespace.
pub open spec fn wrapper_source_of(name: Seq<char>) -> Seq<char> {
    "pub use "@ + name + "::*;"@
}

/// Renders the wrapper unit's source file.
pub fn wrapper_source_text(name: &str) -> (r: String)
    ensures
        r@ == wrapper_source_of(name@),
{
    let mut out = String::new();
    push_str(&mut out, "pub use ");
    push_str(&mut out, name);
    push_str(&mut out, "::*;");
    proof {
        assert(out@ =~= wrapper_source_of(name@));
    }
    out
}

/// Spec-level model of a planned wrapper unit.
#[verifier::ext_equal]
pub ghost struct WrapperPlanModel {
    pub dep_name: Seq<char>,
    pub dynamic_name: Seq<char>,
    pub manifest_text: Seq<char>,
    pub source_text: Seq<char>,
    pub reference: DepSpecModel,
}

/// Everything the shell needs to materialize one wrapper unit and to refer to
/// it from the derived manifest: the wrapper identifier, the two file
/// contents, and the reference entry.
pub struct WrapperPlan {
    pub dep_name: String,
    pub dynamic_name: String,
    pub manifest_text: String,
    pub source_text: String,
    pub reference: DepSpec,
}

impl View for WrapperPlan {
    type V = WrapperPlanModel;

    open spec fn view(&self) -> WrapperPlanModel {
        WrapperPlanModel {
            dep_name: self.dep_name@,
            dynamic_name: self.dynamic_name@,
            manifest_text: self.manifest_text@,
            source_text: self.source_text@,
            reference: self.reference@,
        }
    }
}

impl DeepView for WrapperPlan {
    type V = WrapperPlanModel;

    open spec fn deep_view(&self) -> WrapperPlanModel {
        self.view()
    }
}

/// The wrapper unit planned for a dependency: a pure function of the
/// dependency's name and specification.
pub open spec fn plan_of(name: Seq<char>, spec: DepSpecModel) -> WrapperPlanModel {
    WrapperPlanModel {
        dep_name: name,
        dynamic_name: dynamic_name_of(name),
        manifest_text: wrapper_manifest_of(name, spec),
        source_text: wrapper_source_of(name),
        reference: wrapper_reference_of(dynamic_name_of(name)),
    }
}

/// Plans the wrapper unit for one dependency.
pub fn plan_wrapper(name: &str, spec: &DepSpec) -> (p: WrapperPlan)
    ensures
        p@ == plan_of(name@, spec@),
{
    let dn = dynamic_name(name);
    let reference = wrapper_reference(dn.as_str());
    WrapperPlan {
        dep_name: name.to_owned(),
        dynamic_name: dn,
        manifest_text: wrapper_manifest_text(name, spec),
        source_text: wrapper_source_text(name),
        reference,
    }
}

/// The at-most-once materialization policy: a wrapper unit is written to disk
/// only when its directory does not already exist. Existence alone is the
/// cache key — an existing directory is trusted as already built, whatever it
/// holds.
pub fn should_materialize(wrapper_dir_exists: bool) -> (r: bool)
    ensures
        r == !wrapper_dir_exists,
{
    !wrapper_dir_exists
}

/// Law: wrapper generation is idempotent. Planning the same dependency name
/// and specification twice yields identical plans — so a second invocation
/// returns the same value as the first — and against a wrapper root where the
/// unit's directory already exists the materialization policy orders no
/// filesystem write.
pub proof fn lemma_wrapper_generation_idempotent(
    name: Seq<char>,
    spec: DepSpecModel,
    first: WrapperPlanModel,
    second: WrapperPlanModel,
)
    requires
        first == plan_of(name, spec),
        second == plan_of(name, spec),
    ensures
        first == second,
{
}

} // verus!
