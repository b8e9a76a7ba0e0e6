use depot::build::prebuilt::PrebuiltBinaryManager;
use depot::build::sandbox::BuildSandbox;
use depot::build::targets::{Target, SUPPORTED_TARGETS};
use depot::lua_version::LuaVersion;
use depot::store::Store;


#[test]
fn test_target_validation() {
    assert!(Target::new("x86_64-unknown-linux-gnu").is_ok());
    assert!(Target::new("invalid-target").is_err());
}

#[test]
fn test_module_extension() {
    let linux = Target::new("x86_64-unknown-linux-gnu").unwrap();
    assert_eq!(linux.module_extension(), ".so");

    let windows = Target::new("x86_64-pc-windows-gnu").unwrap();
    assert_eq!(windows.module_extension(), ".dll");

    let macos = Target::new("x86_64-apple-darwin").unwrap();
    assert_eq!(macos.module_extension(), ".dylib");
}

#[test]
fn test_all_supported_targets() {
    for target in SUPPORTED_TARGETS {
        let result = Target::new(target);
        assert!(result.is_ok(), "Should support target: {}", target);
    }
}

#[test]
fn test_target_clone_and_eq() {
    let target1 = Target::new("x86_64-unknown-linux-gnu").unwrap();
    let target2 = target1.clone();
    assert_eq!(target1, target2);
}

#[test]
fn test_target_triple_stored_correctly() {
    let target = Target::new("aarch64-unknown-linux-gnu").unwrap();
    assert_eq!(target.triple, "aarch64-unknown-linux-gnu");
}

#[test]
fn test_default_target() {
    let target = Target::default_target("linux", "x86_64");
    assert!(!target.triple.is_empty());
    // Verify it's one of the supported targets
    assert!(SUPPORTED_TARGETS.contains(&target.triple.as_str()));
}

#[test]
fn test_linux_musl_target() {
    let target = Target::new("x86_64-unknown-linux-musl").unwrap();
    assert_eq!(target.module_extension(), ".so");
}

#[test]
fn test_aarch64_darwin_target() {
    let target = Target::new("aarch64-apple-darwin").unwrap();
    assert_eq!(target.module_extension(), ".dylib");
}

#[test]
fn test_invalid_target_error_message() {
    let result = Target::new("invalid-triple");
    assert!(result.is_err());
    let err = result.unwrap_err().to_string();
    assert!(err.contains("Unsupported target"));
    assert!(err.contains("invalid-triple"));
}

#[test]
fn test_supported_targets_list_not_empty() {
    assert!(!SUPPORTED_TARGETS.is_empty());
    assert!(SUPPORTED_TARGETS.len() >= 6);
}

#[test]
fn test_target_debug_impl() {
    let target = Target::new("x86_64-unknown-linux-gnu").unwrap();
    let debug_str = format!("{:?}", target);
    assert!(debug_str.contains("x86_64-unknown-linux-gnu"));
}

#[test]
fn test_find_binary_url() {
    let mut binary_urls = Store::new();
    binary_urls.insert(
        "5.4-x86_64-unknown-linux-gnu".to_string(),
        "https://example.com/linux.so".to_string(),
    );
    binary_urls.insert(
        "5.4-x86_64-apple-darwin".to_string(),
        "https://example.com/darwin.dylib".to_string(),
    );

    let target = Target::new("x86_64-unknown-linux-gnu").unwrap();
    let lua_version = LuaVersion::new(5, 4, 0);

    let url = PrebuiltBinaryManager::find_binary_url(&binary_urls, &target, &lua_version);
    assert_eq!(url, Some("https://example.com/linux.so".to_string()));
}

#[test]
fn test_find_binary_url_not_found() {
    let binary_urls = Store::new();

    let target = Target::new("x86_64-unknown-linux-gnu").unwrap();
    let lua_version = LuaVersion::new(5, 4, 0);

    let url = PrebuiltBinaryManager::find_binary_url(&binary_urls, &target, &lua_version);
    assert!(url.is_none());
}

#[test]
fn test_find_binary_url_different_lua_version() {
    let mut binary_urls = Store::new();
    binary_urls.insert(
        "5.4-x86_64-unknown-linux-gnu".to_string(),
        "https://example.com/lua54.so".to_string(),
    );
    binary_urls.insert(
        "5.3-x86_64-unknown-linux-gnu".to_string(),
        "https://example.com/lua53.so".to_string(),
    );

    let target = Target::new("x86_64-unknown-linux-gnu").unwrap();
    let lua53 = LuaVersion::new(5, 3, 0);
    let lua54 = LuaVersion::new(5, 4, 0);

    let url53 = PrebuiltBinaryManager::find_binary_url(&binary_urls, &target, &lua53);
    assert_eq!(url53, Some("https://example.com/lua53.so".to_string()));

    let url54 = PrebuiltBinaryManager::find_binary_url(&binary_urls, &target, &lua54);
    assert_eq!(url54, Some("https://example.com/lua54.so".to_string()));
}

#[test]
fn test_prebuilt_manager_new() {
    // This test may fail if cache_dir() fails, which is expected in test environment
    let result = PrebuiltBinaryManager::new();
    // Just test that it doesn't panic
    let _ = result;
}

#[test]
fn test_find_binary_url_with_multiple_targets() {
    let mut binary_urls = Store::new();
    binary_urls.insert(
        "5.4-x86_64-unknown-linux-gnu".to_string(),
        "https://example.com/linux.so".to_string(),
    );
    binary_urls.insert(
        "5.4-x86_64-apple-darwin".to_string(),
        "https://example.com/darwin.dylib".to_string(),
    );
    binary_urls.insert(
        "5.4-aarch64-apple-darwin".to_string(),
        "https://example.com/darwin-arm.dylib".to_string(),
    );

    let target_darwin = Target::new("x86_64-apple-darwin").unwrap();
    let lua_version = LuaVersion::new(5, 4, 0);

    let url =
        PrebuiltBinaryManager::find_binary_url(&binary_urls, &target_darwin, &lua_version);
    assert_eq!(url, Some("https://example.com/darwin.dylib".to_string()));
}

#[test]
fn sandbox_plan_confines_cargo_home() {
    let args = vec!["build".to_string(), "--release".to_string()];
    let env = vec![("CARGO_TERM_COLOR".to_string(), "never".to_string())];
    let plan = BuildSandbox::cargo_plan("/work/proj", &args, &env);
    assert_eq!(plan.program, "cargo");
    assert_eq!(plan.args, args);
    assert_eq!(plan.cwd, "/work/proj");
    assert_eq!(
        plan.env,
        vec![
            ("CARGO_TERM_COLOR".to_string(), "never".to_string()),
            ("CARGO_HOME".to_string(), "/work/proj/.cargo".to_string()),
            ("CARGO_NET_OFFLINE".to_string(), "false".to_string()),
        ]
    );
}

#[test]
fn sandbox_outcome_names_exit_code() {
    assert!(BuildSandbox::cargo_outcome(true, Some(0)).is_ok());
    let err = BuildSandbox::cargo_outcome(false, Some(101)).unwrap_err().to_string();
    assert!(err.contains("Cargo build failed"));
    assert_eq!(err, "Package error: Cargo build failed with exit code: 101");
    let err = BuildSandbox::cargo_outcome(false, None).unwrap_err().to_string();
    assert_eq!(err, "Package error: Cargo build failed with exit code: 1");
    let err = BuildSandbox::cargo_outcome(false, Some(-2)).unwrap_err().to_string();
    assert_eq!(err, "Package error: Cargo build failed with exit code: -2");
}
