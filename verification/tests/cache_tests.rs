use depot::cache::{Cache, CacheCleanResult, ChecksumAlgorithm};

#[test]
fn test_cache_new() {
    let cache = Cache::new("/tmp/depot-cache".to_string());
    assert_eq!(cache.root(), "/tmp/depot-cache");
}

#[test]
fn test_cache_directory_paths() {
    let cache = Cache::new("/tmp/depot-cache".to_string());

    assert!(cache.luarocks_dir().ends_with("luarocks"));
    assert!(cache.rockspecs_dir().ends_with("rockspecs"));
    assert!(cache.sources_dir().ends_with("sources"));
    assert!(cache.rust_builds_dir().ends_with("rust-builds"));
}

#[test]
fn test_cache_rockspec_path() {
    let cache = Cache::new("/tmp/depot-cache".to_string());

    let path = cache.rockspec_path("test-package", "1.0.0");
    assert!(path.ends_with("test-package-1.0.0.rockspec"));
}

#[test]
fn test_cache_source_path() {
    let cache = Cache::new("/tmp/depot-cache".to_string());

    let url = "https://example.com/test.tar.gz";
    let path = cache.source_path(url);
    assert!(path.starts_with("/tmp/depot-cache/luarocks/sources/"));
    assert!(path.ends_with(".gz"));
}

#[test]
fn test_cache_rust_build_path() {
    let cache = Cache::new("/tmp/depot-cache".to_string());

    let path = cache.rust_build_path("test-package", "1.0.0", "5.4", "x86_64-unknown-linux-gnu");
    assert!(path.contains("test-package"));
    assert!(path.contains("1.0.0"));
    assert!(path.contains("5.4"));
    assert!(path.contains("x86_64-unknown-linux-gnu"));
}

#[test]
fn test_cache_url_hash() {
    let cache = Cache::new("/tmp/depot-cache".to_string());
    let url1 = "https://example.com/test.tar.gz";
    let url2 = "https://example.com/test2.tar.gz";
    let hash1 = cache.source_path(url1);
    let hash2 = cache.source_path(url2);
    assert_ne!(hash1, hash2);
}

#[test]
fn test_cache_clean_result_add_assign() {
    let mut result1 = CacheCleanResult { files_removed: 5, bytes_freed: 1000 };
    let result2 = CacheCleanResult { files_removed: 3, bytes_freed: 500 };
    result1.add_assign(result2);
    assert_eq!(result1.files_removed, 8);
    assert_eq!(result1.bytes_freed, 1500);
}

#[test]
fn test_cache_rust_build_path_windows_target() {
    let cache = Cache::new("/tmp/depot-cache".to_string());

    let path = cache.rust_build_path("test-package", "1.0.0", "5.4", "x86_64-pc-windows-msvc");
    assert!(path.contains("dll"));
}

#[test]
fn test_cache_rust_build_path_macos_target() {
    let cache = Cache::new("/tmp/depot-cache".to_string());

    let path = cache.rust_build_path("test-package", "1.0.0", "5.4", "x86_64-apple-darwin");
    assert!(path.contains("dylib"));
}

#[test]
fn test_cache_rust_build_path_linux_target() {
    let cache = Cache::new("/tmp/depot-cache".to_string());

    let path = cache.rust_build_path("test-package", "1.0.0", "5.4", "x86_64-unknown-linux-gnu");
    assert!(path.contains(".so"));
}

#[test]
fn test_cache_source_path_different_extensions() {
    let cache = Cache::new("/tmp/depot-cache".to_string());

    let path1 = cache.source_path("https://example.com/file.zip");
    let path2 = cache.source_path("https://example.com/file.tar.gz");

    assert!(path1.starts_with("/tmp/depot-cache/luarocks/sources/"));
    assert!(path2.starts_with("/tmp/depot-cache/luarocks/sources/"));
    assert!(path1.ends_with(".zip"));
}

#[test]
fn test_checksum_with_blake3() {
    let checksum = Cache::checksum_with_algorithm(b"Hello, BLAKE3!", ChecksumAlgorithm::Blake3);
    assert!(checksum.starts_with("blake3:"));
    assert_eq!(checksum.len(), 71);
}

#[test]
fn test_checksum_with_sha256() {
    let checksum = Cache::checksum_with_algorithm(b"Hello, SHA-256!", ChecksumAlgorithm::Sha256);
    assert!(checksum.starts_with("sha256:"));
    assert_eq!(checksum.len(), 71);
}

#[test]
fn test_checksum_defaults_to_blake3() {
    let checksum = Cache::checksum(b"Test content");
    assert!(checksum.starts_with("blake3:"));
}

#[test]
fn test_verify_checksum_blake3() {
    let checksum = Cache::checksum_with_algorithm(b"Test content", ChecksumAlgorithm::Blake3);
    assert!(Cache::verify_checksum(b"Test content", &checksum));
}

#[test]
fn test_verify_checksum_sha256() {
    let checksum = Cache::checksum_with_algorithm(b"Test content", ChecksumAlgorithm::Sha256);
    assert!(Cache::verify_checksum(b"Test content", &checksum));
}

#[test]
fn test_verify_checksum_mismatch() {
    let wrong_checksum = "blake3:0000000000000000000000000000000000000000000000000000000000000000";
    assert!(!Cache::verify_checksum(b"Test content", wrong_checksum));
}

#[test]
fn test_cache_checksum_same_content() {
    assert_eq!(Cache::checksum(b"test data"), Cache::checksum(b"test data"));
}

#[test]
fn test_cache_checksum_different_content() {
    assert_ne!(Cache::checksum(b"test data 1"), Cache::checksum(b"test data 2"));
}

#[test]
fn test_checksum_algorithm_from_checksum() {
    assert_eq!(ChecksumAlgorithm::from_checksum("blake3:abc123"), ChecksumAlgorithm::Blake3);
    assert_eq!(ChecksumAlgorithm::from_checksum("sha256:def456"), ChecksumAlgorithm::Sha256);
    assert_eq!(ChecksumAlgorithm::from_checksum("unprefixed"), ChecksumAlgorithm::Blake3);
}

#[test]
fn test_checksum_algorithm_default() {
    assert_eq!(ChecksumAlgorithm::default(), ChecksumAlgorithm::Blake3);
}

#[test]
fn checksum_known_values() {
    assert_eq!(
        Cache::checksum_with_algorithm(b"abc", ChecksumAlgorithm::Sha256),
        "sha256:ba7816bf8f01cfea414140de5dae2223b00361a396177a9cb410ff61f20015ad"
    );
    assert_eq!(
        Cache::checksum_with_algorithm(b"", ChecksumAlgorithm::Blake3),
        "blake3:af1349b9f5f9a1a6a0404dea36dcc9499bcb25c9adc112b7cc9a93cae41f3262"
    );
}

#[test]
fn verify_checksum_ignores_prefix() {
    let sha = Cache::checksum_with_algorithm(b"x", ChecksumAlgorithm::Sha256);
    let bare = sha.split_once(':').unwrap().1.to_string();
    assert!(!Cache::verify_checksum(b"x", &bare));
    let blake = Cache::checksum(b"x");
    let bare_blake = blake.split_once(':').unwrap().1.to_string();
    assert!(Cache::verify_checksum(b"x", &bare_blake));
}

#[test]
fn cache_layout_and_names() {
    let cache = Cache::new("/c".to_string());
    assert_eq!(
        cache.init(),
        vec!["/c/luarocks", "/c/luarocks/rockspecs", "/c/luarocks/sources", "/c/rust-builds"]
    );
    assert_eq!(
        cache.rust_build_path("my-pkg", "1.0", "5.4", "aarch64-apple-darwin"),
        "/c/rust-builds/my-pkg/1.0/5.4/aarch64-apple-darwin/libmy_pkg.dylib"
    );
    let source = cache.source_path("https://example.com/archive");
    assert!(source.ends_with(".tar.gz"));
    assert_eq!(source.len(), "/c/luarocks/sources/".len() + 32 + ".tar.gz".len());
}
