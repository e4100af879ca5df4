use cargo_expand::error::Error;
use cargo_expand::invocation::expansion_args;
use cargo_expand::invocation::plan_invocation;
use cargo_expand::invocation::resolve_driver;
use cargo_expand::invocation::scratch_env_var;
use cargo_expand::invocation::selector;
use cargo_expand::invocation::Overrides;
use cargo_expand::invocation::ScratchDir;
use cargo_expand::output::classify_output;

fn no_overrides() -> Overrides {
    Overrides { driver: None, scratch_dir: None }
}

#[test]
fn selector_joins_name_and_version() {
    assert_eq!(selector("demo", "0.1.0"), "demo:0.1.0");
    assert_eq!(selector("", ""), ":");
}

#[test]
fn resolve_driver_defaults_to_cargo() {
    assert_eq!(resolve_driver(&None), "cargo");
}

#[test]
fn resolve_driver_honors_override() {
    let driver = Some(String::from("/opt/toolchain/bin/driver"));
    assert_eq!(resolve_driver(&driver), "/opt/toolchain/bin/driver");
}

#[test]
fn expansion_args_are_exact() {
    let args = expansion_args("/work/demo/Cargo.toml", "demo", "0.1.0");
    let expected = vec![
        "rustc",
        "--manifest-path",
        "/work/demo/Cargo.toml",
        "--all-features",
        "-p",
        "demo:0.1.0",
        "--",
        "-Z",
        "unstable-options",
        "--pretty=expanded",
    ];
    assert_eq!(args, expected);
}

#[test]
fn scratch_env_var_is_target_dir() {
    assert_eq!(scratch_env_var(), "CARGO_TARGET_DIR");
}

#[test]
fn plan_honors_scratch_override() {
    let overrides = Overrides {
        driver: None,
        scratch_dir: Some(String::from("/var/cache/expand")),
    };
    let plan = plan_invocation("Cargo.toml", "demo", "0.1.0", &overrides);
    match plan.scratch {
        ScratchDir::Provided(dir) => assert_eq!(dir, "/var/cache/expand"),
        ScratchDir::Fresh => panic!("override was ignored"),
    }
}

#[test]
fn plan_requests_fresh_scratch_dir_without_override() {
    let plan = plan_invocation("Cargo.toml", "demo", "0.1.0", &no_overrides());
    assert!(matches!(plan.scratch, ScratchDir::Fresh));
}

#[test]
fn plan_combines_driver_and_args() {
    let overrides = Overrides {
        driver: Some(String::from("cargo-nightly")),
        scratch_dir: None,
    };
    let plan = plan_invocation("/src/Cargo.toml", "pkg", "2.3.4", &overrides);
    assert_eq!(plan.driver, "cargo-nightly");
    assert_eq!(plan.args[5], "pkg:2.3.4");
    assert_eq!(plan.args.len(), 10);
}

#[test]
fn classify_returns_expanded_source_verbatim() {
    let stdout = Vec::from("pub struct Demo {\n    pub field: i32,\n}\n".as_bytes());
    let stderr = Vec::from("warning: unused field\n".as_bytes());
    let text = classify_output(&stdout, &stderr).unwrap();
    assert_eq!(text, "pub struct Demo {\n    pub field: i32,\n}\n");
    assert!(text.contains("pub struct Demo"));
}

#[test]
fn classify_empty_stdout_is_compile_failure() {
    let stdout = Vec::new();
    let stderr = Vec::from("error: expected one of `!` or `::`\n".as_bytes());
    match classify_output(&stdout, &stderr) {
        Err(Error::Compile(diag)) => {
            assert_eq!(diag, "error: expected one of `!` or `::`\n");
            assert!(!diag.is_empty());
        }
        other => panic!("expected a compile failure, got {:?}", other),
    }
}

#[test]
fn classify_empty_streams_is_compile_failure_with_empty_diagnostic() {
    let stdout = Vec::new();
    let stderr = Vec::new();
    match classify_output(&stdout, &stderr) {
        Err(Error::Compile(diag)) => assert_eq!(diag, ""),
        other => panic!("expected a compile failure, got {:?}", other),
    }
}

#[test]
fn classify_invalid_stdout_is_encoding_failure() {
    let stdout = vec![0xffu8, 0xfe, 0x68];
    let stderr = Vec::new();
    assert!(matches!(classify_output(&stdout, &stderr), Err(Error::Utf8(_))));
}

#[test]
fn classify_invalid_stderr_is_encoding_failure() {
    let stdout = Vec::from("pub fn ok() {}\n".as_bytes());
    let stderr = vec![0xc0u8, 0x20];
    assert!(matches!(classify_output(&stdout, &stderr), Err(Error::Utf8(_))));
}

#[test]
fn io_error_wraps_into_io_variant() {
    let underlying = std::io::Error::new(std::io::ErrorKind::NotFound, "no such manifest");
    assert!(matches!(Error::from(underlying), Error::Io(_)));
}

#[test]
fn utf8_error_wraps_into_utf8_variant() {
    let underlying = std::str::from_utf8(&[0xffu8]).unwrap_err();
    assert!(matches!(Error::from(underlying), Error::Utf8(_)));
}
