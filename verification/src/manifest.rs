//! Data model of a project manifest: package identity, the declared
//! dependency mapping and the binary targets. The shell converts the host
//! project's on-disk manifest into these plain values; everything the engine
//! does afterwards is verified against the spec-level models below.

use vstd::prelude::*;

verus! {

/// Spec-level model of a detailed dependency record.
#[verifier::ext_equal]
pub ghost struct DepDetailModel {
    pub version: Option<Seq<char>>,
    pub path: Option<Seq<char>>,
    pub package: Option<Seq<char>>,
    pub features: Seq<Seq<char>>,
    pub optional: bool,
}

/// Spec-level model of a dependency specification.
#[verifier::ext_equal]
pub ghost enum DepSpecModel {
    /// A bare version requirement.
    Simple(Seq<char>),
    /// A detailed record.
    Detailed(DepDetailModel),
}

/// Spec-level model of a binary target.
#[verifier::ext_equal]
pub ghost struct BinTargetModel {
    pub name: Seq<char>,
    pub path: Option<Seq<char>>,
}

/// Spec-level model of a whole project manifest.
#[verifier::ext_equal]
pub ghost struct ManifestModel {
    pub package_name: Seq<char>,
    pub package_version: Seq<char>,
    pub edition: Seq<char>,
    /// Dependency mapping, ordered by declaration; entries pair a dependency
    /// name with its specification.
    pub dependencies: Seq<(Seq<char>, DepSpecModel)>,
    pub bins: Seq<BinTargetModel>,
}

/// A detailed dependency record: some subset of a path, a registry package
/// name, a version requirement, feature flags and an optional marker.
pub struct DepDetail {
    pub version: Option<String>,
    pub path: Option<String>,
    pub package: Option<String>,
    pub features: Vec<String>,
    pub optional: bool,
}

/// A dependency specification as declared in a manifest: either a bare
/// version requirement or a detailed record.
pub enum DepSpec {
    Simple(String),
    Detailed(DepDetail),
}

/// A binary target: its name and, when declared, its source-file path
/// relative to the manifest's directory.
pub struct BinTarget {
    pub name: String,
    pub path: Option<String>,
}

/// A project manifest: package identity, the dependency mapping ordered by
/// declaration, and the binary targets.
pub struct ProjectManifest {
    pub package_name: String,
    pub package_version: String,
    pub edition: String,
    pub dependencies: Vec<(String, DepSpec)>,
    pub bins: Vec<BinTarget>,
}

impl View for DepDetail {
    type V = DepDetailModel;

    open spec fn view(&self) -> DepDetailModel {
        DepDetailModel {
            version: self.version.deep_view(),
            path: self.path.deep_view(),
            package: self.package.deep_view(),
            features: self.features.deep_view(),
            optional: self.optional,
        }
    }
}

impl DeepView for DepDetail {
    type V = DepDetailModel;

    open spec fn deep_view(&self) -> DepDetailModel {
        self.view()
    }
}

impl View for DepSpec {
    type V = DepSpecModel;

    open spec fn view(&self) -> DepSpecModel {
        match self {
            DepSpec::Simple(version) => DepSpecModel::Simple(version@),
            DepSpec::Detailed(detail) => DepSpecModel::Detailed(detail@),
        }
    }
}

impl DeepView for DepSpec {
    type V = DepSpecModel;

    open spec fn deep_view(&self) -> DepSpecModel {
        self.view()
    }
}

impl View for BinTarget {
    type V = BinTargetModel;

    open spec fn view(&self) -> BinTargetModel {
        BinTargetModel { name: self.name@, path: self.path.deep_view() }
    }
}

impl DeepView for BinTarget {
    type V = BinTargetModel;

    open spec fn deep_view(&self) -> BinTargetModel {
        self.view()
    }
}

impl View for ProjectManifest {
    type V = ManifestModel;

    open spec fn view(&self) -> ManifestModel {
        ManifestModel {
            package_name: self.package_name@,
            package_version: self.package_version@,
            edition: self.edition@,
            dependencies: self.dependencies.deep_view(),
            bins: self.bins.deep_view(),
        }
    }
}

impl DeepView for ProjectManifest {
    type V = ManifestModel;

    open spec fn deep_view(&self) -> ManifestModel {
        self.view()
    }
}

} // verus!
