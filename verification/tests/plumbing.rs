use cargo_dylib::cli::{Cargo, DylibCli};
use cargo_dylib::forward::{forwarded_args, status_to_exitcode};
use cargo_dylib::utils::inject;

#[test]
fn forwarded_args_point_at_the_derived_manifest() {
    let cli = DylibCli {
        subcommand: "build".to_string(),
        arguments: vec!["--release".to_string(), "-v".to_string()],
    };
    let args = forwarded_args(&cli, "/p/target/cargo-dylib/Cargo.toml");
    assert_eq!(
        args,
        vec![
            "build".to_string(),
            "--manifest-path".to_string(),
            "/p/target/cargo-dylib/Cargo.toml".to_string(),
            "--release".to_string(),
            "-v".to_string(),
        ],
    );
}

#[test]
fn forwarded_args_without_extras() {
    let cli = DylibCli { subcommand: "run".to_string(), arguments: Vec::new() };
    let args = forwarded_args(&cli, "m/Cargo.toml");
    assert_eq!(args, vec!["run", "--manifest-path", "m/Cargo.toml"]);
}

#[test]
fn exit_codes_in_range_are_preserved() {
    assert_eq!(status_to_exitcode(Some(0)), 0);
    assert_eq!(status_to_exitcode(Some(42)), 42);
    assert_eq!(status_to_exitcode(Some(255)), 255);
}

#[test]
fn out_of_range_or_signal_statuses_map_to_one() {
    assert_eq!(status_to_exitcode(Some(-1)), 1);
    assert_eq!(status_to_exitcode(Some(256)), 1);
    assert_eq!(status_to_exitcode(None), 1);
}

fn diff(a: i32, b: i32) -> i32 {
    a - b
}

#[test]
fn inject_fixes_the_second_argument() {
    let minus_two = inject(diff, 2);
    assert_eq!(minus_two(10), 8);
    assert_eq!(minus_two(2), 0);
}

#[test]
fn cargo_cli_wraps_the_dylib_invocation() {
    let Cargo::Dylib(cli) = Cargo::Dylib(DylibCli {
        subcommand: "build".to_string(),
        arguments: Vec::new(),
    });
    assert_eq!(cli.subcommand, "build");
    assert!(cli.arguments.is_empty());
}
