use cargo_dylib::paths::{derived_paths, parent_dir, wrapper_dir};
use cargo_dylib::staleness::{should_skip_regeneration, Timestamp};

fn at(secs: u64, nanos: u32) -> Timestamp {
    Timestamp { secs, nanos }
}

#[test]
fn stale_derived_manifest_triggers_regeneration() {
    // derived strictly older than real
    assert!(!should_skip_regeneration(at(200, 0), Some(at(100, 0))));
    // equal timestamps also regenerate
    assert!(!should_skip_regeneration(at(200, 5), Some(at(200, 5))));
}

#[test]
fn newer_derived_manifest_is_reused() {
    assert!(should_skip_regeneration(at(100, 0), Some(at(200, 0))));
    // the nanosecond part breaks second-level ties
    assert!(should_skip_regeneration(at(100, 1), Some(at(100, 2))));
}

#[test]
fn absent_derived_manifest_triggers_regeneration() {
    assert!(!should_skip_regeneration(at(100, 0), None));
}

#[test]
fn repeated_run_without_manifest_change_short_circuits() {
    // first run: nothing derived yet, so the tool regenerates
    let real = at(500, 0);
    assert!(!should_skip_regeneration(real, None));
    // the derived manifest written by that run is newer than the real one,
    // so a second run skips regeneration entirely
    let derived = at(500, 1);
    assert!(should_skip_regeneration(real, Some(derived)));
}

#[test]
fn parent_dir_strips_the_file_name() {
    assert_eq!(parent_dir("/work/proj/Cargo.toml"), "/work/proj");
    assert_eq!(parent_dir("Cargo.toml"), "");
    assert_eq!(parent_dir("a/b"), "a");
}

#[test]
fn derived_paths_sit_under_the_target_directory() {
    let (root, manifest_path) = derived_paths("/work/proj/Cargo.toml");
    assert_eq!(root, "/work/proj/target/cargo-dylib");
    assert_eq!(manifest_path, "/work/proj/target/cargo-dylib/Cargo.toml");
}

#[test]
fn wrapper_dir_joins_root_and_name() {
    assert_eq!(
        wrapper_dir("/work/proj/target/cargo-dylib", "alpha-dynamic"),
        "/work/proj/target/cargo-dylib/alpha-dynamic",
    );
}

#[test]
fn redirected_path_resolves_to_the_real_source() {
    // the derived manifest lives two levels below the real one; stepping out
    // of `target/cargo-dylib` lands back at the real project root
    let (root, _) = derived_paths("/work/proj/Cargo.toml");
    let redirected = "../../src/main.rs";
    let mut segments: Vec<&str> = root.split('/').collect();
    for seg in redirected.split('/') {
        if seg == ".." {
            segments.pop();
        } else {
            segments.push(seg);
        }
    }
    assert_eq!(segments.join("/"), "/work/proj/src/main.rs");
}
