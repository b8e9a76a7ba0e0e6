use depot::config::{
    default_checksum_algorithm, default_fallback_chain, default_github_api_url,
    default_resolution_strategy, default_true, Config,
};

#[test]
fn test_config_default() {
    let config = Config::default();
    assert_eq!(config.github.api_url, "https://api.github.com");
    assert!(config.verify_checksums);
    assert!(config.show_diffs_on_update);
    assert!(config.strict_native_code);
    assert_eq!(
        config.github.fallback_chain,
        vec!["release", "tag", "branch"]
    );
}

#[test]
fn test_config_with_lua_binary_source_url() {
    let config = Config {
        lua_binary_source_url: Some("https://custom-lua-binaries.com".to_string()),
        ..Default::default()
    };

    assert_eq!(
        config.lua_binary_source_url,
        Some("https://custom-lua-binaries.com".to_string())
    );
}

#[test]
fn test_default_github_api_url() {
    let url = default_github_api_url();
    assert_eq!(url, "https://api.github.com");
}

#[test]
fn test_default_fallback_chain() {
    let chain = default_fallback_chain();
    assert_eq!(chain, vec!["release", "tag", "branch"]);
}

#[test]
fn test_default_true() {
    assert!(default_true());
}

#[test]
fn test_config_default_resolution_strategy() {
    let config = Config::default();
    assert_eq!(config.resolution_strategy, "highest");
}

#[test]
fn test_config_default_no_supported_lua_versions() {
    let config = Config::default();
    assert_eq!(config.supported_lua_versions, None);
}

#[test]
fn test_config_default_strict_conflicts() {
    let config = Config::default();
    assert!(config.strict_conflicts); // Now defaults to true
}

#[test]
fn test_config_default_checksum_algorithm() {
    let config = Config::default();
    assert_eq!(config.checksum_algorithm, "blake3");
    assert_eq!(default_checksum_algorithm(), "blake3");
}

#[test]
fn test_default_resolution_strategy() {
    assert_eq!(default_resolution_strategy(), "highest");
}
