use depot::error::DepotError;
use depot::github_api::{
    contents_url, decode_file_content, latest_release_url, releases_url, repo_url, strip_newlines,
    tags_url, tarball_url, text_of_decoded, RateLimiter,
};

const SEC: i128 = 1_000_000_000;

#[test]
fn api_addresses() {
    let api = "https://api.github.com";
    assert_eq!(releases_url(api, "o", "r"), "https://api.github.com/repos/o/r/releases");
    assert_eq!(latest_release_url(api, "o", "r"), "https://api.github.com/repos/o/r/releases/latest");
    assert_eq!(tags_url(api, "o", "r"), "https://api.github.com/repos/o/r/tags");
    assert_eq!(repo_url(api, "o", "r"), "https://api.github.com/repos/o/r");
    assert_eq!(
        contents_url(api, "o", "r", "src/init.lua", "main"),
        "https://api.github.com/repos/o/r/contents/src/init.lua?ref=main"
    );
    assert_eq!(tarball_url(api, "o", "r", "v1.0"), "https://api.github.com/repos/o/r/tarball/v1.0");
}

#[test]
fn rate_limit_allowance_depends_on_token() {
    let with = RateLimiter::new(true, 0);
    let without = RateLimiter::new(false, 0);
    assert_eq!(with.remaining, 5000);
    assert_eq!(without.remaining, 60);
    assert_eq!(with.reset_time, 3600 * SEC);
}

#[test]
fn rate_limit_exhausted_before_reset() {
    let limiter = RateLimiter { remaining: 0, reset_time: 100 * SEC };
    match limiter.check(10 * SEC + 1, false) {
        Err(DepotError::Package(m)) => assert_eq!(
            m,
            "GitHub API rate limit exceeded. Reset in 89 seconds. Consider setting GITHUB_TOKEN to increase rate limit to 5000/hour."
        ),
        other => panic!("unexpected {:?}", other),
    }
    match limiter.check(10 * SEC, true) {
        Err(DepotError::Package(m)) => {
            assert_eq!(m, "GitHub API rate limit exceeded. Reset in 90 seconds. ")
        }
        other => panic!("unexpected {:?}", other),
    }
    assert!(limiter.check(100 * SEC, false).is_ok());
    let fresh = RateLimiter { remaining: 1, reset_time: 100 * SEC };
    assert!(fresh.check(0, false).is_ok());
}

#[test]
fn rate_limit_update_from_headers() {
    let mut limiter = RateLimiter::new(false, 0);
    limiter.update(Some("42"), Some("1700000000"));
    assert_eq!(limiter.remaining, 42);
    assert_eq!(limiter.reset_time, 1_700_000_000 * SEC);
    limiter.update(Some("many"), None);
    assert_eq!(limiter.remaining, 42);
    limiter.update(None, Some("-1"));
    assert_eq!(limiter.reset_time, 1_700_000_000 * SEC);
}

#[test]
fn file_content_is_base64_text() {
    assert_eq!(strip_newlines("aGVs\nbG8=\n"), "aGVsbG8=");
    assert_eq!(decode_file_content("aGVs\nbG8=\n", "base64").unwrap(), "hello");
}

#[test]
fn file_content_errors() {
    match decode_file_content("aGVsbG8=", "utf-8") {
        Err(DepotError::Package(m)) => assert_eq!(m, "Unexpected encoding: utf-8"),
        other => panic!("unexpected {:?}", other),
    }
    match decode_file_content("not base64!", "base64") {
        Err(DepotError::Package(m)) => assert!(m.starts_with("Failed to decode base64 content: ")),
        other => panic!("unexpected {:?}", other),
    }
    match decode_file_content("/w==", "base64") {
        Err(DepotError::Package(m)) => assert!(m.starts_with("Invalid UTF-8 in file content: ")),
        other => panic!("unexpected {:?}", other),
    }
    match text_of_decoded(Err("bad padding".to_string())) {
        Err(DepotError::Package(m)) => assert_eq!(m, "Failed to decode base64 content: bad padding"),
        other => panic!("unexpected {:?}", other),
    }
    assert_eq!(text_of_decoded(Ok(b"ok".to_vec())).unwrap(), "ok");
}
