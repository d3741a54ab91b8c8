//! Manifest synthesizer: derives, from the real project manifest, the
//! manifest the external toolchain is pointed at, together with the wrapper
//! unit plans for every declared dependency.
//!
//! The derived manifest keeps the package identity, replaces the dependency
//! mapping in full by wrapper references, and redirects the first binary
//! target's source path back into the real source tree. The whole result is a
//! pure function of the real manifest, pinned down by `derived_manifest_of`
//! and `planned_wrappers_of`.

use crate::manifest::{BinTarget, BinTargetModel, DepSpec, ManifestModel, ProjectManifest};
use crate::wrapper::{dynamic_name_of, plan_of, plan_wrapper, wrapper_reference, wrapper_reference_of,
    WrapperPlan, WrapperPlanModel};
use vstd::prelude::*;
use vstd::string::StringExecFns;

verus! {

/// Why synthesis can fail.
#[derive(Clone, Copy, Debug, PartialEq, Eq, Structural)]
pub enum SynthError {
    /// The real manifest declares no binary target, so there is nothing to
    /// redirect at the real source tree.
    MissingBinaryTarget,
}

/// The source path of a binary target: its declared path, or the
/// conventional default when none is declared.
pub open spec fn bin_source_of(b: BinTargetModel) -> Seq<char> {
    match b.path {
        Some(p) => p,
        None => "src/main.rs"@,
    }
}

/// The redirected source path of the first binary target: the real target's
/// source path re-expressed relative to the derived manifest's directory,
/// which sits two levels below the real manifest's directory.
pub open spec fn redirected_path_of(b: BinTargetModel) -> Seq<char> {
    "../../"@ + bin_source_of(b)
}

/// Computes the redirected source path for the first binary target.
pub fn redirected_path(b: &BinTarget) -> (r: String)
    ensures
        r@ == redirected_path_of(b@),
{
    let mut r = String::new();
    crate::text::push_str(&mut r, "../../");
    match &b.path {
        Some(p) => crate::text::push_str(&mut r, p.as_str()),
        None => crate::text::push_str(&mut r, "src/main.rs"),
    }
    r
}

/// The derived manifest as a function of the real one: same package
/// identity; every dependency entry replaced by the wrapper reference named
/// after it; the first binary target's source path redirected, the other
/// binary targets kept as they are.
pub open spec fn derived_manifest_of(rm: ManifestModel) -> ManifestModel {
    ManifestModel {
        package_name: rm.package_name,
        package_version: rm.package_version,
        edition: rm.edition,
        dependencies: Seq::new(
            rm.dependencies.len(),
            |i: int| (rm.dependencies[i].0, wrapper_reference_of(dynamic_name_of(rm.dependencies[i].0))),
        ),
        bins: Seq::new(
            rm.bins.len(),
            |i: int|
                if i == 0 {
                    BinTargetModel {
                        name: rm.bins[0].name,
                        path: Some(redirected_path_of(rm.bins[0])),
                    }
                } else {
                    rm.bins[i]
                },
        ),
    }
}

/// The wrapper units planned for a real manifest: one per dependency entry,
/// in declaration order.
pub open spec fn planned_wrappers_of(rm: ManifestModel) -> Seq<WrapperPlanModel> {
    Seq::new(rm.dependencies.len(), |i: int| plan_of(rm.dependencies[i].0, rm.dependencies[i].1))
}

/// Law: synthesis wraps every dependency. The derived dependency mapping has
/// exactly as many entries as the real one, each keeping its dependency name
/// and referring to the wrapper unit named after it with the `-dynamic`
/// suffix.
pub proof fn lemma_synthesis_wraps_every_dependency(rm: ManifestModel)
    ensures
        derived_manifest_of(rm).dependencies.len() == rm.dependencies.len(),
        forall|i: int|
            0 <= i < rm.dependencies.len() ==> #[trigger] derived_manifest_of(rm).dependencies[i]
                == (rm.dependencies[i].0, wrapper_reference_of(dynamic_name_of(rm.dependencies[i].0))),
{
}

/// Law: the derived dependency mapping and the planned wrapper units line up
/// one to one. The entry and the plan at each position carry the same
/// dependency name, and the entry refers — by path and registry package name
/// — to exactly the wrapper unit the plan materializes.
pub proof fn lemma_derived_entries_match_plans(rm: ManifestModel)
    ensures
        planned_wrappers_of(rm).len() == derived_manifest_of(rm).dependencies.len(),
        forall|i: int|
            0 <= i < rm.dependencies.len() ==> #[trigger] derived_manifest_of(rm).dependencies[i].0
                == planned_wrappers_of(rm)[i].dep_name && derived_manifest_of(rm).dependencies[i].1
                == wrapper_reference_of(planned_wrappers_of(rm)[i].dynamic_name),
{
}

/// Law: redirect correctness. The first binary target of the derived
/// manifest, whose source path is `../../` followed by the real target's
/// source path, resolves relative to the wrapper root — the derived
/// manifest's directory, two levels below the real manifest's directory — to
/// the same file as the real target's source path resolves to relative to
/// the real manifest's directory.
pub proof fn lemma_derived_bin_resolves(rm: ManifestModel, real_manifest_dir: Seq<char>)
    requires
        rm.bins.len() > 0,
    ensures
        crate::paths::resolve(
            crate::paths::path_segments(real_manifest_dir + "/target/cargo-dylib"@),
            crate::paths::path_segments(derived_manifest_of(rm).bins[0].path.unwrap()),
        ) == crate::paths::resolve(
            crate::paths::path_segments(real_manifest_dir),
            crate::paths::path_segments(bin_source_of(rm.bins[0])),
        ),
{
    crate::paths::lemma_redirect_resolves(real_manifest_dir, bin_source_of(rm.bins[0]));
}

/// What synthesis produces: the derived manifest and the wrapper unit plans
/// its dependency entries refer to, one per real dependency.
pub struct SynthesisOutput {
    pub manifest: ProjectManifest,
    pub wrappers: Vec<WrapperPlan>,
}

fn clone_opt_string(o: &Option<String>) -> (r: Option<String>)
    ensures
        r.deep_view() == o.deep_view(),
{
    match o {
        Some(s) => Some(s.clone()),
        None => None,
    }
}

fn clone_bin(b: &BinTarget) -> (r: BinTarget)
    ensures
        r@ == b@,
{
    BinTarget { name: b.name.clone(), path: clone_opt_string(&b.path) }
}

/// Synthesizes the derived manifest and the wrapper plans from the real
/// manifest. Fails exactly when the real manifest declares no binary target;
/// otherwise the result is the pure function of the input stated by
/// `derived_manifest_of` and `planned_wrappers_of`.
pub fn synthesize(real_manifest: &ProjectManifest) -> (r: Result<SynthesisOutput, SynthError>)
    ensures
        r is Ok <==> real_manifest@.bins.len() > 0,
        r is Err ==> r->Err_0 == SynthError::MissingBinaryTarget,
        r matches Ok(out) ==> out.manifest@ == derived_manifest_of(real_manifest@)
            && out.wrappers.deep_view() == planned_wrappers_of(real_manifest@),
{
    let ghost rm = real_manifest@;
    if real_manifest.bins.len() == 0 {
        return Err(SynthError::MissingBinaryTarget);
    }

    let n = real_manifest.dependencies.len();
    let mut new_deps: Vec<(String, DepSpec)> = Vec::new();
    let mut wrappers: Vec<WrapperPlan> = Vec::new();
    let mut i: usize = 0;
    while i < n
        invariant
            n == real_manifest.dependencies.len(),
            rm == real_manifest@,
            i <= n,
            new_deps.len() == i,
            wrappers.len() == i,
            forall|k: int|
                0 <= k < i ==> (#[trigger] new_deps@[k]).deep_view() == (
                    rm.dependencies[k].0,
                    wrapper_reference_of(dynamic_name_of(rm.dependencies[k].0)),
                ),
            forall|k: int|
                0 <= k < i ==> (#[trigger] wrappers@[k]).deep_view() == plan_of(
                    rm.dependencies[k].0,
                    rm.dependencies[k].1,
                ),
        decreases n - i,
    {
        let pair = &real_manifest.dependencies[i];
        let plan = plan_wrapper(pair.0.as_str(), &pair.1);
        let reference = wrapper_reference(plan.dynamic_name.as_str());
        let ghost prev_deps = new_deps@;
        let ghost prev_wrappers = wrappers@;
        new_deps.push((pair.0.clone(), reference));
        wrappers.push(plan);
        proof {
            assert(rm.dependencies[i as int] == real_manifest.dependencies@[i as int].deep_view());
            assert(pair.0@ == rm.dependencies[i as int].0);
            assert(pair.1@ == rm.dependencies[i as int].1);
            assert(new_deps@[i as int].deep_view() == (
                rm.dependencies[i as int].0,
                wrapper_reference_of(dynamic_name_of(rm.dependencies[i as int].0)),
            ));
            assert(wrappers@[i as int].deep_view() == plan_of(
                rm.dependencies[i as int].0,
                rm.dependencies[i as int].1,
            ));
            assert forall|k: int| 0 <= k < i + 1 implies (#[trigger] new_deps@[k]).deep_view() == (
                rm.dependencies[k].0,
                wrapper_reference_of(dynamic_name_of(rm.dependencies[k].0)),
            ) by {
                if k < i {
                    assert(new_deps@[k] == prev_deps[k]);
                }
            }
            assert forall|k: int| 0 <= k < i + 1 implies (#[trigger] wrappers@[k]).deep_view()
                == plan_of(rm.dependencies[k].0, rm.dependencies[k].1) by {
                if k < i {
                    assert(wrappers@[k] == prev_wrappers[k]);
                }
            }
        }
        i = i + 1;
    }

    let nb = real_manifest.bins.len();
    let mut new_bins: Vec<BinTarget> = Vec::new();
    let first = &real_manifest.bins[0];
    new_bins.push(BinTarget { name: first.name.clone(), path: Some(redirected_path(first)) });
    let mut j: usize = 1;
    while j < nb
        invariant
            nb == real_manifest.bins.len(),
            rm == real_manifest@,
            nb > 0,
            1 <= j <= nb,
            new_bins.len() == j,
            new_bins@[0].deep_view() == (BinTargetModel {
                name: rm.bins[0].name,
                path: Some(redirected_path_of(rm.bins[0])),
            }),
            forall|k: int| 1 <= k < j ==> (#[trigger] new_bins@[k]).deep_view() == rm.bins[k],
        decreases nb - j,
    {
        let ghost prev_bins = new_bins@;
        new_bins.push(clone_bin(&real_manifest.bins[j]));
        proof {
            assert(rm.bins[j as int] == real_manifest.bins@[j as int].deep_view());
            assert(new_bins@[j as int].deep_view() == rm.bins[j as int]);
            assert(new_bins@[0] == prev_bins[0]);
            assert forall|k: int| 1 <= k < j + 1 implies (#[trigger] new_bins@[k]).deep_view()
                == rm.bins[k] by {
                if k < j {
                    assert(new_bins@[k] == prev_bins[k]);
                }
            }
        }
        j = j + 1;
    }

    let manifest = ProjectManifest {
        package_name: real_manifest.package_name.clone(),
        package_version: real_manifest.package_version.clone(),
        edition: real_manifest.edition.clone(),
        dependencies: new_deps,
        bins: new_bins,
    };
    proof {
        assert forall|k: int| 0 <= k < n implies #[trigger] manifest@.dependencies[k]
            == derived_manifest_of(rm).dependencies[k] by {
            assert(manifest@.dependencies[k] == new_deps@[k].deep_view());
        }
        assert forall|k: int| 0 <= k < nb implies #[trigger] manifest@.bins[k]
            == derived_manifest_of(rm).bins[k] by {
            assert(manifest@.bins[k] == new_bins@[k].deep_view());
        }
        assert forall|k: int| 0 <= k < n implies #[trigger] wrappers.deep_view()[k]
            == planned_wrappers_of(rm)[k] by {
            assert(wrappers.deep_view()[k] == wrappers@[k].deep_view());
        }
        assert(manifest@.dependencies =~= derived_manifest_of(rm).dependencies);
        assert(manifest@.bins =~= derived_manifest_of(rm).bins);
        assert(manifest@ =~= derived_manifest_of(rm));
        assert(wrappers.deep_view() =~= planned_wrappers_of(rm));
    }
    Ok(SynthesisOutput { manifest, wrappers })
}

} // verus!
