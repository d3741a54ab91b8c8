use cargo_dylib::manifest::{DepDetail, DepSpec};
use cargo_dylib::render::render_manifest;
use cargo_dylib::manifest::{BinTarget, ProjectManifest};
use cargo_dylib::wrapper::{dynamic_name, plan_wrapper, should_materialize, wrapper_reference};

#[test]
fn dynamic_name_appends_suffix() {
    assert_eq!(dynamic_name("serde"), "serde-dynamic");
    assert_eq!(dynamic_name(""), "-dynamic");
}

#[test]
fn wrapper_reference_points_at_wrapper() {
    match wrapper_reference("alpha-dynamic") {
        DepSpec::Detailed(d) => {
            assert_eq!(d.path.as_deref(), Some("alpha-dynamic"));
            assert_eq!(d.package.as_deref(), Some("alpha-dynamic"));
            assert!(d.version.is_none());
            assert!(d.features.is_empty());
            assert!(!d.optional);
        }
        DepSpec::Simple(_) => panic!("expected a detailed reference"),
    }
}

#[test]
fn planning_twice_returns_identical_plans() {
    let spec = DepSpec::Simple("1.0".to_string());
    let first = plan_wrapper("alpha", &spec);
    let second = plan_wrapper("alpha", &spec);
    assert_eq!(first.dep_name, second.dep_name);
    assert_eq!(first.dynamic_name, second.dynamic_name);
    assert_eq!(first.manifest_text, second.manifest_text);
    assert_eq!(first.source_text, second.source_text);
    // a wrapper directory left by the first run is not written again
    assert!(should_materialize(false));
    assert!(!should_materialize(true));
}

#[test]
fn detailed_record_renders_every_field() {
    let spec = DepSpec::Detailed(DepDetail {
        version: Some("2.1".to_string()),
        path: Some("../gamma".to_string()),
        package: Some("gamma-core".to_string()),
        features: vec!["std".to_string(), "rc".to_string()],
        optional: true,
    });
    let plan = plan_wrapper("gamma", &spec);
    assert_eq!(
        plan.manifest_text,
        "[package]\nname = \"gamma-dynamic\"\nversion = \"0.1.0\"\nedition = \"2021\"\n\n[dependencies]\n\"gamma\" = { version = \"2.1\", path = \"../gamma\", package = \"gamma-core\", features = [\"std\", \"rc\"], optional = true }\n\n[lib]\ncrate-type = [\"dylib\"]\n",
    );
}

#[test]
fn quotes_and_backslashes_are_escaped() {
    let spec = DepSpec::Simple("a\"b\\c".to_string());
    let plan = plan_wrapper("odd", &spec);
    assert!(plan.manifest_text.contains("\"odd\" = \"a\\\"b\\\\c\"\n"));
}

#[test]
fn rendered_manifest_lists_package_dependencies_and_bins() {
    let m = ProjectManifest {
        package_name: "app".to_string(),
        package_version: "0.3.0".to_string(),
        edition: "2021".to_string(),
        dependencies: vec![("alpha".to_string(), DepSpec::Simple("1.0".to_string()))],
        bins: vec![BinTarget { name: "app".to_string(), path: Some("../../src/main.rs".to_string()) }],
    };
    assert_eq!(
        render_manifest(&m),
        "[package]\nname = \"app\"\nversion = \"0.3.0\"\nedition = \"2021\"\n\n[dependencies]\n\"alpha\" = \"1.0\"\n\n[[bin]]\nname = \"app\"\npath = \"../../src/main.rs\"\n",
    );
}

#[test]
fn rendered_manifest_omits_missing_bin_path() {
    let m = ProjectManifest {
        package_name: "app".to_string(),
        package_version: "0.1.0".to_string(),
        edition: "2021".to_string(),
        dependencies: Vec::new(),
        bins: vec![BinTarget { name: "app".to_string(), path: None }],
    };
    assert_eq!(
        render_manifest(&m),
        "[package]\nname = \"app\"\nversion = \"0.1.0\"\nedition = \"2021\"\n\n[dependencies]\n\n[[bin]]\nname = \"app\"\n",
    );
}

#[test]
fn empty_detailed_record_renders_as_empty_table() {
    let spec = DepSpec::Detailed(DepDetail {
        version: None,
        path: None,
        package: None,
        features: Vec::new(),
        optional: false,
    });
    let plan = plan_wrapper("bare", &spec);
    assert!(plan.manifest_text.contains("\"bare\" = {}\n"));
}
