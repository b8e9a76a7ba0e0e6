use depot::error::DepotError;
use depot::plugins::{has_execute_permission, plugin_of_file, PluginConfig, SettingValue};
use depot::project::{
    compat_outcome, count_packages, directory_exists_error, login_key_text, login_value,
    rockspec_file_name, scan_enters, DirEntry, LoginField,
};
use depot::registry::{find_entry_named, RegistryEntry};
use depot::templates::renders_entry;
use depot::verify::{
    audit_outcome, no_lockfile_error, verification_outcome, verification_report_lines,
    VerificationResult, LOCKFILE_NAME,
};

#[test]
fn test_verification_result_is_success() {
    let result = VerificationResult {
        successful: vec!["pkg1".to_string(), "pkg2".to_string()],
        failed: vec![],
    };
    assert!(result.is_success());
}

#[test]
fn test_verification_result_is_failure() {
    let result = VerificationResult {
        successful: vec!["pkg1".to_string()],
        failed: vec![("pkg2".to_string(), "checksum mismatch".to_string())],
    };
    assert!(!result.is_success());
}

#[test]
fn test_verification_result_display() {
    let result = VerificationResult {
        successful: vec!["a".to_string(), "b".to_string(), "c".to_string()],
        failed: vec![("d".to_string(), "error1".to_string())],
    };
    assert_eq!(result.successful.len(), 3);
    assert_eq!(result.failed.len(), 1);
}

#[test]
fn verification_report_and_outcome() {
    let ok = VerificationResult { successful: vec!["a".to_string()], failed: vec![] };
    assert_eq!(
        verification_report_lines(&ok),
        vec!["✓ All packages verified successfully".to_string(), "  1 package(s) verified".to_string()]
    );
    assert!(verification_outcome(&ok).is_ok());
    let bad = VerificationResult {
        successful: vec!["a".to_string(), "b".to_string()],
        failed: vec![("c".to_string(), "checksum mismatch".to_string())],
    };
    assert_eq!(
        verification_report_lines(&bad),
        vec![
            "❌ Verification failed".to_string(),
            "  2 package(s) verified".to_string(),
            "  1 package(s) failed".to_string(),
            "  ❌ c: checksum mismatch".to_string(),
        ]
    );
    assert!(matches!(verification_outcome(&bad), Err(DepotError::Package(m)) if m == "Verification failed for 1 package(s)"));
    assert!(matches!(no_lockfile_error(), DepotError::Package(m) if m.contains("No depot.lock")));
    assert_eq!(LOCKFILE_NAME, "depot.lock");
}

#[test]
fn audit_outcomes() {
    assert!(matches!(audit_outcome(true, true), Err(DepotError::AuditFailed(m)) if m == "Found critical severity vulnerabilities"));
    assert!(matches!(audit_outcome(false, true), Err(DepotError::AuditFailed(m)) if m == "Found high severity vulnerabilities"));
    assert!(audit_outcome(false, false).is_ok());
}

#[test]
fn project_command_decisions() {
    let entries = vec![
        DirEntry { name: "pkg1".to_string(), is_dir: true },
        DirEntry { name: ".lpm".to_string(), is_dir: true },
        DirEntry { name: "readme".to_string(), is_dir: false },
        DirEntry { name: "pkg2".to_string(), is_dir: true },
    ];
    assert_eq!(count_packages(&entries), 2);
    assert_eq!(count_packages(&vec![]), 0);
    assert!(scan_enters(".", true, 0));
    assert!(!scan_enters(".git", true, 1));
    assert!(!scan_enters("lua_modules", true, 2));
    assert!(!scan_enters("node_modules", true, 1));
    assert!(scan_enters("src", true, 1));
    assert!(scan_enters(".hidden.lua", false, 1));
    assert!(compat_outcome(Some(true), "5.4").is_ok());
    assert!(compat_outcome(None, "5.4").is_ok());
    assert!(matches!(compat_outcome(Some(false), "5.1"), Err(DepotError::Package(m)) if m == "Configured lua_version \"5.1\" is incompatible with detected code features"));
    assert_eq!(rockspec_file_name("mylib", "1.2.3").unwrap(), "mylib-1.2-3.rockspec");
    assert_eq!(rockspec_file_name("mylib", "2.0.0").unwrap(), "mylib-2.0.rockspec");
    assert!(rockspec_file_name("mylib", "x").is_err());
    assert_eq!(login_value(LoginField::Username, "  me \n").unwrap(), "me");
    assert!(matches!(login_value(LoginField::ApiKey, "  \n"), Err(DepotError::Package(m)) if m == "API key cannot be empty"));
    assert!(matches!(login_value(LoginField::Username, ""), Err(DepotError::Package(m)) if m == "Username cannot be empty"));
    assert_eq!(login_key_text(LoginField::ApiKey), "luarocks_api_key");
    assert!(matches!(directory_exists_error("p"), DepotError::Path(m) if m == "Directory 'p' already exists"));
    assert!(!renders_entry("template.yaml"));
    assert!(!renders_entry(".gitkeep"));
    assert!(renders_entry("main.lua"));
}

#[test]
fn test_plugin_config_get_nonexistent_key() {
    let config = PluginConfig::new("test");
    let value: Option<String> = config.get_text("nonexistent");
    assert_eq!(value, None);
}

#[test]
fn test_plugin_config_set() {
    let mut config = PluginConfig::new("test");
    config.set("test_key".to_string(), SettingValue::Text("test_value".to_string()));
    assert!(config.settings.contains_key("test_key"));
}

#[test]
fn test_plugin_config_path() {
    let path = PluginConfig::config_path("my-plugin");
    assert!(path.is_ok());
    let path = path.unwrap();
    assert!(path.contains("my-plugin.config.yaml"));
}

#[test]
fn plugin_config_values_and_environment() {
    let mut config = PluginConfig::new("my-plugin");
    config.set("name".to_string(), SettingValue::Text("x".to_string()));
    config.set("count".to_string(), SettingValue::Integer(-3));
    config.set("on".to_string(), SettingValue::Boolean(true));
    config.set("list".to_string(), SettingValue::Other);
    assert_eq!(config.get_text("name"), Some("x".to_string()));
    assert_eq!(config.get_text("count"), None);
    assert_eq!(config.get_integer("count"), Some(-3));
    assert_eq!(config.get_boolean("on"), Some(true));
    let env = config.environment();
    assert_eq!(
        env,
        vec![
            ("LPM_PLUGIN_MY_PLUGIN_NAME".to_string(), "x".to_string()),
            ("LPM_PLUGIN_MY_PLUGIN_COUNT".to_string(), "-3".to_string()),
            ("LPM_PLUGIN_MY_PLUGIN_ON".to_string(), "1".to_string()),
        ]
    );
    assert_eq!(
        PluginConfig::config_path_in("/home/u/.config/depot", "p"),
        "/home/u/.config/depot/plugins/p.config.yaml"
    );
    assert!(has_execute_permission(0o755));
    assert!(has_execute_permission(0o601));
    assert!(!has_execute_permission(0o644));
    assert_eq!(plugin_of_file("lpm-hello"), Some("hello".to_string()));
    assert_eq!(plugin_of_file("depot"), None);
}

fn entry(name: &str, version: &str) -> RegistryEntry {
    RegistryEntry {
        name: name.to_string(),
        version: version.to_string(),
        description: None,
        author: None,
        homepage: None,
        download_url: None,
        versions: vec![version.to_string()],
    }
}

#[test]
fn registry_fallback_finds_first_named() {
    let found = find_entry_named(vec![entry("a", "1"), entry("b", "2"), entry("b", "3")], "b");
    assert_eq!(found.map(|e| e.version), Some("2".to_string()));
    assert!(find_entry_named(vec![entry("a", "1")], "z").is_none());
}

fn dir(name: &str) -> DirEntry {
    DirEntry { name: name.to_string(), is_dir: true }
}

#[test]
fn test_count_packages() {
    let entries = vec![dir("package1"), dir("package2"), dir("package3")];
    assert_eq!(count_packages(&entries), 3);
}

#[test]
fn test_count_packages_skips_lpm_metadata() {
    let entries = vec![dir("package1"), dir(".lpm")];
    assert_eq!(count_packages(&entries), 1);
}

#[test]
fn test_count_packages_empty() {
    let entries: Vec<DirEntry> = vec![];
    assert_eq!(count_packages(&entries), 0);
}
