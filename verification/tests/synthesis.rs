use cargo_dylib::manifest::{BinTarget, DepDetail, DepSpec, ProjectManifest};
use cargo_dylib::synth::{synthesize, SynthError};

fn simple(version: &str) -> DepSpec {
    DepSpec::Simple(version.to_string())
}

fn path_dep(path: &str) -> DepSpec {
    DepSpec::Detailed(DepDetail {
        version: None,
        path: Some(path.to_string()),
        package: None,
        features: Vec::new(),
        optional: false,
    })
}

fn manifest(deps: Vec<(String, DepSpec)>, bins: Vec<BinTarget>) -> ProjectManifest {
    ProjectManifest {
        package_name: "app".to_string(),
        package_version: "0.1.0".to_string(),
        edition: "2021".to_string(),
        dependencies: deps,
        bins,
    }
}

fn main_bin() -> BinTarget {
    BinTarget { name: "app".to_string(), path: Some("src/main.rs".to_string()) }
}

#[test]
fn scenario_two_dependencies() {
    let real = manifest(
        vec![
            ("alpha".to_string(), simple("1.0")),
            ("beta".to_string(), path_dep("../beta")),
        ],
        vec![main_bin()],
    );
    let out = synthesize(&real).unwrap();

    assert_eq!(out.manifest.dependencies.len(), 2);
    assert_eq!(out.manifest.dependencies[0].0, "alpha");
    assert_eq!(out.manifest.dependencies[1].0, "beta");
    for (name, spec) in &out.manifest.dependencies {
        let wrapper_name = format!("{}-dynamic", name);
        match spec {
            DepSpec::Detailed(d) => {
                assert_eq!(d.path.as_deref(), Some(wrapper_name.as_str()));
                assert_eq!(d.package.as_deref(), Some(wrapper_name.as_str()));
                assert!(d.version.is_none());
                assert!(d.features.is_empty());
                assert!(!d.optional);
            }
            DepSpec::Simple(_) => panic!("expected a wrapper reference"),
        }
    }

    assert_eq!(out.wrappers.len(), 2);
    assert_eq!(out.wrappers[0].dep_name, "alpha");
    assert_eq!(out.wrappers[0].dynamic_name, "alpha-dynamic");
    assert_eq!(out.wrappers[0].source_text, "pub use alpha::*;");
    assert_eq!(
        out.wrappers[0].manifest_text,
        "[package]\nname = \"alpha-dynamic\"\nversion = \"0.1.0\"\nedition = \"2021\"\n\n[dependencies]\n\"alpha\" = \"1.0\"\n\n[lib]\ncrate-type = [\"dylib\"]\n",
    );
    assert_eq!(out.wrappers[1].dep_name, "beta");
    assert_eq!(out.wrappers[1].dynamic_name, "beta-dynamic");
    assert_eq!(out.wrappers[1].source_text, "pub use beta::*;");
    assert_eq!(
        out.wrappers[1].manifest_text,
        "[package]\nname = \"beta-dynamic\"\nversion = \"0.1.0\"\nedition = \"2021\"\n\n[dependencies]\n\"beta\" = { path = \"../beta\" }\n\n[lib]\ncrate-type = [\"dylib\"]\n",
    );

    assert_eq!(out.manifest.package_name, "app");
    assert_eq!(out.manifest.bins.len(), 1);
    assert_eq!(out.manifest.bins[0].name, "app");
    assert_eq!(out.manifest.bins[0].path.as_deref(), Some("../../src/main.rs"));
}

#[test]
fn scenario_no_dependencies() {
    let real = manifest(Vec::new(), vec![main_bin()]);
    let out = synthesize(&real).unwrap();
    assert!(out.manifest.dependencies.is_empty());
    assert!(out.wrappers.is_empty());
    assert_eq!(out.manifest.bins[0].path.as_deref(), Some("../../src/main.rs"));
}

#[test]
fn every_dependency_is_wrapped() {
    let real = manifest(
        vec![
            ("a".to_string(), simple("0.1")),
            ("b".to_string(), simple("0.2")),
            ("c".to_string(), path_dep("../c")),
        ],
        vec![main_bin()],
    );
    let out = synthesize(&real).unwrap();
    assert_eq!(out.manifest.dependencies.len(), 3);
    assert_eq!(out.wrappers.len(), 3);
    let expected = ["a-dynamic", "b-dynamic", "c-dynamic"];
    for (i, (_, spec)) in out.manifest.dependencies.iter().enumerate() {
        match spec {
            DepSpec::Detailed(d) => assert_eq!(d.package.as_deref(), Some(expected[i])),
            DepSpec::Simple(_) => panic!("expected a wrapper reference"),
        }
    }
}

#[test]
fn missing_binary_target_is_reported() {
    let real = manifest(vec![("alpha".to_string(), simple("1.0"))], Vec::new());
    match synthesize(&real) {
        Err(e) => assert_eq!(e, SynthError::MissingBinaryTarget),
        Ok(_) => panic!("synthesis must fail without a binary target"),
    }
}

#[test]
fn default_binary_source_is_redirected() {
    let real = manifest(
        Vec::new(),
        vec![BinTarget { name: "app".to_string(), path: None }],
    );
    let out = synthesize(&real).unwrap();
    assert_eq!(out.manifest.bins[0].path.as_deref(), Some("../../src/main.rs"));
}

#[test]
fn custom_binary_source_is_redirected() {
    let real = manifest(
        Vec::new(),
        vec![
            BinTarget { name: "app".to_string(), path: Some("src/bin/app.rs".to_string()) },
            BinTarget { name: "other".to_string(), path: Some("src/bin/other.rs".to_string()) },
        ],
    );
    let out = synthesize(&real).unwrap();
    assert_eq!(out.manifest.bins[0].path.as_deref(), Some("../../src/bin/app.rs"));
    assert_eq!(out.manifest.bins[1].name, "other");
    assert_eq!(out.manifest.bins[1].path.as_deref(), Some("src/bin/other.rs"));
}
