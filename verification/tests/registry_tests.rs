use depot::registry::{
    latest_release_url, plugin_entry_from_release, plugin_repositories, search_results, search_url,
    search_failure, CrateInfo, GitHubAsset, HttpResponse, RegistryEntry,
};

#[test]
fn test_registry_entry_creation() {
    let entry = RegistryEntry {
        name: "test-plugin".to_string(),
        version: "1.0.0".to_string(),
        description: Some("A test plugin".to_string()),
        author: Some("Test Author".to_string()),
        homepage: Some("https://example.com".to_string()),
        download_url: Some("https://example.com/download".to_string()),
        versions: vec!["1.0.0".to_string(), "0.9.0".to_string()],
    };

    assert_eq!(entry.name, "test-plugin");
    assert_eq!(entry.version, "1.0.0");
    assert_eq!(entry.versions.len(), 2);
    assert!(entry.description.is_some());
}

#[test]
fn test_registry_entry_minimal() {
    let entry = RegistryEntry {
        name: "minimal".to_string(),
        version: "2.0.0".to_string(),
        description: None,
        author: None,
        homepage: None,
        download_url: None,
        versions: vec![],
    };

    assert_eq!(entry.name, "minimal");
    assert!(entry.description.is_none());
    assert!(entry.versions.is_empty());
}

#[test]
fn http_response_success_range() {
    assert!(HttpResponse { status: 200, body: vec![] }.is_success());
    assert!(HttpResponse { status: 299, body: vec![] }.is_success());
    assert!(!HttpResponse { status: 300, body: vec![] }.is_success());
    assert!(!HttpResponse { status: 404, body: vec![] }.is_success());
}

#[test]
fn search_url_encodes_query() {
    assert_eq!(
        search_url("my plugin/ü"),
        "https://crates.io/api/v1/crates?q=my%20plugin%2F%C3%BC&per_page=20"
    );
}

#[test]
fn search_keeps_only_plugins() {
    let crates = vec![
        CrateInfo {
            name: "lpm-format".to_string(),
            description: Some("Formatter".to_string()),
            repository: Some("https://github.com/x/lpm-format".to_string()),
            version: "0.3.0".to_string(),
        },
        CrateInfo {
            name: "serde".to_string(),
            description: None,
            repository: None,
            version: "1.0.0".to_string(),
        },
    ];
    let results = search_results(&crates);
    assert_eq!(results.len(), 1);
    assert_eq!(results[0].name, "format");
    assert_eq!(results[0].versions, vec!["0.3.0"]);
}

#[test]
fn release_entry_picks_platform_binary() {
    let assets = vec![
        GitHubAsset {
            name: "README.md".to_string(),
            browser_download_url: "https://x/readme".to_string(),
        },
        GitHubAsset {
            name: "LPM-Tool-Linux".to_string(),
            browser_download_url: "https://x/linux".to_string(),
        },
    ];
    let entry = plugin_entry_from_release("org/lpm-tool", "tool", "vv1.2.0", Some("notes".to_string()), &assets);
    assert_eq!(entry.version, "v1.2.0");
    assert_eq!(entry.versions, vec!["1.2.0"]);
    assert_eq!(entry.homepage, Some("https://github.com/org/lpm-tool".to_string()));
    assert_eq!(entry.download_url, Some("https://x/linux".to_string()));
    assert_eq!(plugin_repositories("tool"), vec!["lpm-org/lpm-tool", "tool/lpm-tool"]);
    assert_eq!(latest_release_url("a/b"), "https://api.github.com/repos/a/b/releases/latest");
}

#[test]
fn test_search_with_mock_client() {
    assert_eq!(search_url("test"), "https://crates.io/api/v1/crates?q=test&per_page=20");
    let crates = vec![
        CrateInfo {
            name: "lpm-test-plugin".to_string(),
            description: Some("A test plugin".to_string()),
            repository: Some("https://github.com/test/lpm-test-plugin".to_string()),
            version: "1.0.0".to_string(),
        },
        CrateInfo {
            name: "not-lpm-plugin".to_string(),
            description: Some("Not an lpm plugin".to_string()),
            repository: None,
            version: "1.0.0".to_string(),
        },
        CrateInfo {
            name: "lpm-another".to_string(),
            description: None,
            repository: None,
            version: "2.0.0".to_string(),
        },
    ];
    let results = search_results(&crates);

    assert_eq!(results.len(), 2);
    assert_eq!(results[0].name, "test-plugin");
    assert_eq!(results[0].version, "1.0.0");
    assert_eq!(results[1].name, "another");
    assert_eq!(results[1].version, "2.0.0");
}

#[test]
fn test_search_with_error_response() {
    let response = HttpResponse { status: 500, body: vec![] };
    assert!(!response.is_success());
    let error = search_failure(response.status);
    assert!(error.to_string().contains("Registry search failed"));
    assert_eq!(error.to_string(), "Package error: Registry search failed with status: 500");
}

#[test]
fn test_get_plugin_from_github_success() {
    let assets = vec![GitHubAsset {
        name: "lpm-test-x86_64".to_string(),
        browser_download_url: "https://github.com/test/releases/download/v1.2.3/lpm-test-x86_64"
            .to_string(),
    }];
    let entry = plugin_entry_from_release(
        "lpm-org/lpm-test",
        "test",
        "v1.2.3",
        Some("Release notes".to_string()),
        &assets,
    );

    assert_eq!(entry.name, "test");
    assert_eq!(entry.version, "1.2.3");
    assert_eq!(entry.description, Some("Release notes".to_string()));
    assert!(entry.download_url.is_some());
}

#[test]
fn test_http_response_is_success() {
    let response = HttpResponse { status: 200, body: vec![] };
    assert!(response.is_success());

    let response = HttpResponse { status: 404, body: vec![] };
    assert!(!response.is_success());
}
