use depot::github::{GitHubRelease, GitHubTag, RefType, TagCommit};
use depot::error::{DepotError, IoKind};
use depot::mocks::{MockCacheProvider, MockConfigProvider, MockGitHubProvider};

#[test]
fn test_mock_config_provider_default() {
    let config = MockConfigProvider::default();

    assert_eq!(config.github_api_url(), "https://api.github.com");
    assert!(config.verify_checksums());
    assert!(config.show_diffs_on_update());
    assert_eq!(config.resolution_strategy(), "highest");
    assert_eq!(config.checksum_algorithm(), "blake3");
    assert!(config.strict_conflicts());
    assert_eq!(config.lua_binary_source_url(), None);
    assert_eq!(config.supported_lua_versions(), None);
    assert!(config.strict_native_code());
}

#[test]
fn test_mock_config_provider_custom() {
    let config = MockConfigProvider {
        cache_dir: "/custom/cache".to_string(),
        verify_checksums: false,
        show_diffs_on_update: false,
        resolution_strategy: "lowest".to_string(),
        checksum_algorithm: "sha256".to_string(),
        strict_conflicts: false,
        lua_binary_source_url: Some("https://lua.org".to_string()),
        supported_lua_versions: Some(vec!["5.1".to_string(), "5.4".to_string()]),
        github_api_url: "https://github.enterprise.com/api".to_string(),
        github_token: Some("ghp_test123".to_string()),
        github_fallback_chain: vec!["tag".to_string()],
        strict_native_code: false,
    };

    assert_eq!(config.github_api_url(), "https://github.enterprise.com/api");
    assert_eq!(config.github_token(), Some("ghp_test123".to_string()));
    assert_eq!(config.cache_dir().unwrap(), "/custom/cache");
    assert!(!config.verify_checksums());
    assert!(!config.show_diffs_on_update());
    assert_eq!(config.resolution_strategy(), "lowest");
    assert_eq!(config.checksum_algorithm(), "sha256");
    assert!(!config.strict_conflicts());
    assert_eq!(config.lua_binary_source_url(), Some("https://lua.org"));
    assert_eq!(
        config.supported_lua_versions(),
        Some(&vec!["5.1".to_string(), "5.4".to_string()])
    );
    assert!(!config.strict_native_code());
}

#[test]
fn test_mock_cache_provider_new() {
    let cache = MockCacheProvider::new();
    assert!(cache.get_files().is_empty());
}

#[test]
fn test_mock_cache_provider_add_file() {
    let mut cache = MockCacheProvider::new();
    let path = "/test/file.txt".to_string();
    let content = b"test content".to_vec();

    cache.add_file(path.clone(), content.clone());

    assert!(cache.file_exists(&path));
    assert_eq!(cache.read(&path).unwrap(), content);
}

#[test]
fn test_mock_cache_provider_write_read() {
    let mut cache = MockCacheProvider::new();
    let path = "/test/write.txt";
    let content = b"written content";

    cache.write(path, content).unwrap();

    assert!(cache.file_exists(path));
    assert_eq!(cache.read(path).unwrap(), content);
}

#[test]
fn test_mock_cache_provider_read_nonexistent() {
    let cache = MockCacheProvider::new();
    let path = "/nonexistent.txt";

    let result = cache.read(path);
    assert!(result.is_err());
    assert!(result.unwrap_err().to_string().contains("File not found"));
}

#[test]
fn test_mock_cache_provider_package_metadata_path() {
    let cache = MockCacheProvider::new();
    let path = cache.package_metadata_path("test-package", "1.0.0");

    assert_eq!(path, "/tmp/packages/test-package/1.0.0/.metadata");
}

#[test]
fn test_mock_cache_provider_source_path() {
    let cache = MockCacheProvider::new();
    let url = "https://example.com/package.tar.gz";
    let path = cache.source_path(url);

    assert!(path.starts_with("/tmp/sources/"));
    assert!(path.contains(".gz"));

    assert_eq!(path, cache.source_path(url));
}

#[test]
fn test_mock_cache_provider_source_path_no_extension() {
    let cache = MockCacheProvider::new();
    let url = "https://example.com/package";
    let path = cache.source_path(url);

    assert!(path.ends_with(".tar.gz"));
}

#[test]
fn test_mock_cache_provider_checksum() {
    let mut cache = MockCacheProvider::new();
    let path = "/test/checksum.txt";
    let content = b"content to hash";

    cache.write(path, content).unwrap();

    let checksum = cache.checksum(path).unwrap();
    assert!(checksum.starts_with("blake3:"));
}

#[test]
fn test_mock_cache_provider_verify_checksum() {
    let mut cache = MockCacheProvider::new();
    let path = "/test/verify.txt";
    let content = b"content";

    cache.write(path, content).unwrap();

    let checksum = cache.checksum(path).unwrap();
    assert!(cache.verify_checksum(path, &checksum).unwrap());
    assert!(!cache.verify_checksum(path, "blake3:wrong").unwrap());
}

#[test]
fn test_mock_cache_provider_rust_build_path() {
    let cache = MockCacheProvider::new();
    let path = cache.rust_build_path("pkg", "1.0.0", "5.1", "x86_64-linux");

    assert_eq!(path, "/tmp/rust-builds/pkg/1.0.0/5.1/x86_64-linux");
}

#[test]
fn test_mock_cache_provider_has_rust_build() {
    let mut cache = MockCacheProvider::new();

    assert!(!cache.has_rust_build("pkg", "1.0.0", "5.1", "x86_64-linux"));

    let path = cache.rust_build_path("pkg", "1.0.0", "5.1", "x86_64-linux");
    cache.write(&path, b"binary").unwrap();

    assert!(cache.has_rust_build("pkg", "1.0.0", "5.1", "x86_64-linux"));
}

#[test]
fn test_mock_cache_provider_get_rust_build() {
    let mut cache = MockCacheProvider::new();

    assert_eq!(cache.get_rust_build("pkg", "1.0.0", "5.1", "x86_64-linux"), None);

    let path = cache.rust_build_path("pkg", "1.0.0", "5.1", "x86_64-linux");
    cache.write(&path, b"binary").unwrap();

    let result = cache.get_rust_build("pkg", "1.0.0", "5.1", "x86_64-linux");
    assert_eq!(result, Some(path));
}

#[test]
fn test_mock_cache_provider_get_files() {
    let mut cache = MockCacheProvider::new();
    cache.add_file("/file1.txt".to_string(), b"content1".to_vec());
    cache.add_file("/file2.txt".to_string(), b"content2".to_vec());

    let files = cache.get_files();
    assert_eq!(files.len(), 2);
    assert_eq!(files.get("/file1.txt"), Some(&b"content1".to_vec()));
    assert_eq!(files.get("/file2.txt"), Some(&b"content2".to_vec()));
}

#[test]
fn test_mock_cache_provider_default() {
    let cache = MockCacheProvider::default();
    assert!(cache.get_files().is_empty());
}

#[test]
fn test_mock_cache_builder_chaining() {
    let cache = MockCacheProvider::new()
        .with_io_error()
        .with_disk_full()
        .with_checksum_failure();
    assert!(cache.simulate_io_error);
    assert!(cache.simulate_disk_full);
    assert!(cache.fail_checksum_verification);
}

#[test]
fn mock_cache_store_rust_build_writes_artifact() {
    let mut cache = MockCacheProvider::new();
    let stored = cache
        .store_rust_build("pkg", "1.0.0", "5.1", "x86_64-linux", b"binary content")
        .unwrap();
    assert_eq!(stored, "/tmp/rust-builds/pkg/1.0.0/5.1/x86_64-linux");
    assert_eq!(cache.read(&stored).unwrap(), b"binary content");
}

#[test]
fn mock_cache_errors_are_simulated() {
    let mut cache = MockCacheProvider::new().with_disk_full();
    let err = cache.write("/a", b"x").unwrap_err();
    assert!(err.to_string().contains("No space left on device"));
    assert!(!cache.file_exists("/a"));

    let mut cache = MockCacheProvider::new();
    cache.add_file("/secret".to_string(), b"x".to_vec());
    cache.deny_read("/secret".to_string());
    let err = cache.read("/secret").unwrap_err();
    assert!(err.to_string().contains("Permission denied: /secret"));
    assert!(matches!(err, DepotError::Io { kind: IoKind::PermissionDenied, .. }));

    let cache = MockCacheProvider::new().with_checksum_failure();
    assert!(!cache.verify_checksum("/missing", "blake3:00").unwrap());
}

#[test]
fn mock_cache_write_replaces_content() {
    let mut cache = MockCacheProvider::new();
    cache.write("/f", b"one").unwrap();
    cache.write("/f", b"two").unwrap();
    assert_eq!(cache.read("/f").unwrap(), b"two");
    assert_eq!(cache.get_files().len(), 1);
}

fn release(tag: &str, draft: bool, prerelease: bool) -> GitHubRelease {
    GitHubRelease {
        tag_name: tag.to_string(),
        name: None,
        draft,
        prerelease,
        tarball_url: format!("https://example.com/{}.tar.gz", tag),
        zipball_url: String::new(),
        assets: vec![],
        body: None,
        published_at: None,
    }
}

fn tag(name: &str, sha: &str) -> GitHubTag {
    GitHubTag {
        name: name.to_string(),
        commit: TagCommit { sha: sha.to_string(), url: String::new() },
        tarball_url: format!("https://example.com/tag/{}.tar.gz", name),
        zipball_url: String::new(),
    }
}

#[test]
fn mock_github_resolves_requested_release_then_tag() {
    let mut github = MockGitHubProvider::new();
    github.add_release("owner", "repo", release("v1.0.0", false, false));
    github.add_tag("owner", "repo", tag("v0.9.0", "abc"));
    let chain = vec!["release".to_string()];

    let r = github.resolve_version("owner", "repo", Some("v1.0.0"), &chain).unwrap();
    assert_eq!(r.ref_type, RefType::Release);
    assert_eq!(r.ref_value, "v1.0.0");
    assert_eq!(r.commit_sha, "mock-sha");

    let t = github.resolve_version("owner", "repo", Some("v0.9.0"), &chain).unwrap();
    assert_eq!(t.ref_type, RefType::Tag);
    assert_eq!(t.commit_sha, "abc");

    let e = github.resolve_version("owner", "repo", Some("v2"), &chain).unwrap_err();
    assert!(e.to_string().contains("Version v2 not found"));
}

#[test]
fn mock_github_fallback_chain() {
    let mut github = MockGitHubProvider::new();
    github.add_release("o", "r", release("v2.0.0-rc", false, true));
    github.add_tag("o", "r", tag("t1", "s1"));
    let chain = vec!["unknown".to_string(), "release".to_string(), "tag".to_string()];
    let r = github.resolve_version("o", "r", None, &chain).unwrap();
    assert_eq!(r.ref_type, RefType::Tag);
    assert_eq!(r.ref_value, "t1");

    github.set_default_branch("o", "r", "develop".to_string());
    let chain = vec!["branch".to_string()];
    let b = github.resolve_version("o", "r", None, &chain).unwrap();
    assert_eq!(b.ref_type, RefType::Branch);
    assert_eq!(b.ref_value, "develop");
    assert_eq!(b.tarball_url, "https://api.github.com/repos/o/r/tarball/develop");

    let none: Vec<String> = vec![];
    let e = github.resolve_version("o", "r", None, &none).unwrap_err();
    assert!(e.to_string().contains("Could not resolve version"));
}

#[test]
fn mock_github_missing_and_rate_limited() {
    let mut github = MockGitHubProvider::new();
    github.add_missing_repo("o", "gone");
    let chain = vec!["branch".to_string()];
    let e = github.resolve_version("o", "gone", None, &chain).unwrap_err();
    assert!(e.to_string().contains("Repository not found: o/gone"));
    assert_eq!(github.get_default_branch("o", "other").unwrap(), "main");

    let github = github.with_rate_limit();
    let e = github.resolve_version("o", "other", None, &chain).unwrap_err();
    assert!(e.to_string().contains("API rate limit exceeded"));
}

#[test]
fn mock_github_contents_and_tarballs() {
    let mut github = MockGitHubProvider::new();
    github.add_file_content("o", "r", "package.yaml", "main", "name: x".to_string());
    github.add_tarball("o", "r", "v1", "/tmp/t.tar.gz".to_string());
    assert_eq!(github.get_file_content("o", "r", "package.yaml", "main").unwrap(), "name: x");
    assert!(github.get_file_content("o", "r", "other", "main").is_err());
    assert_eq!(github.download_tarball("o", "r", "v1").unwrap(), "/tmp/t.tar.gz");
    assert!(github.download_tarball("o", "r", "v2").unwrap_err().to_string().contains("Tarball not found for ref: v2"));
}

#[test]
fn mock_github_lists_releases_and_tags() {
    let mut p = MockGitHubProvider::new();
    assert!(p.get_releases("o", "r").unwrap().is_empty());
    assert!(p.get_tags("o", "r").unwrap().is_empty());
    match p.get_latest_release("o", "r") {
        Err(e) => assert_eq!(e.to_string(), "Package error: No releases found"),
        Ok(_) => panic!("expected no release"),
    }
    p.add_release("o", "r", release("v2.0.0-rc.1", false, true));
    p.add_release("o", "r", release("v1.9.0", false, false));
    p.add_release("o", "r", release("v1.8.0", false, false));
    p.add_tag("o", "r", tag("v1.0.0", "abc"));
    let rs = p.get_releases("o", "r").unwrap();
    assert_eq!(rs.len(), 3);
    assert_eq!(rs[0].tag_name, "v2.0.0-rc.1");
    assert_eq!(p.get_latest_release("o", "r").unwrap().tag_name, "v1.9.0");
    let ts = p.get_tags("o", "r").unwrap();
    assert_eq!(ts.len(), 1);
    assert_eq!(ts[0].commit.sha, "abc");

    p.add_missing_repo("o", "gone");
    match p.get_releases("o", "gone") {
        Err(e) => assert_eq!(e.to_string(), "Package error: Repository not found: o/gone"),
        Ok(_) => panic!("expected a missing repository"),
    }

    p.add_tarball("o", "r", "v1.9.0", "/t/r.tar.gz".to_string());
    let limited = p.with_rate_limit();
    for e in [
        limited.get_releases("o", "r").unwrap_err(),
        limited.get_latest_release("o", "r").unwrap_err(),
        limited.get_tags("o", "r").unwrap_err(),
    ] {
        assert_eq!(e.to_string(), "Package error: API rate limit exceeded");
    }
    assert_eq!(limited.tarballs.get("o/r/v1.9.0"), Some(&"/t/r.tar.gz".to_string()));
}
