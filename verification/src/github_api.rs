//! What the GitHub API client decides: the addresses it asks, the rate
//! limit it keeps, and how it reads the content of a file.
use vstd::prelude::*;
use crate::error::{DepotError, DepotResult};
use crate::clock::{NANOS_PER_SECOND, elapsed_nanos};
use crate::github::tarball_address;
use crate::text::{chars_of, decimal, decimal_chars, parse_u64, parse_u64_spec, push_chars, push_str, str_eq, string_from, string_of};

verus! {

// ===================== Addresses =====================

/// The API address of a repository.
pub open spec fn repo_address(api_url: Seq<char>, owner: Seq<char>, repo: Seq<char>) -> Seq<char> {
    api_url + "/repos/"@ + owner + "/"@ + repo
}

/// `api_url/repos/owner/repo` followed by `tail`.
fn repo_url_with(api_url: &str, owner: &str, repo: &str, tail: &str) -> (r: String)
    ensures
        r@ == repo_address(api_url@, owner@, repo@) + tail@,
{
    let mut v = chars_of(api_url);
    push_str(&mut v, "/repos/");
    push_str(&mut v, owner);
    push_str(&mut v, "/");
    push_str(&mut v, repo);
    push_str(&mut v, tail);
    string_from(&v)
}

/// The address of the releases of a repository.
pub fn releases_url(api_url: &str, owner: &str, repo: &str) -> (r: String)
    ensures
        r@ == repo_address(api_url@, owner@, repo@) + "/releases"@,
{
    repo_url_with(api_url, owner, repo, "/releases")
}

/// The address of the latest release of a repository.
pub fn latest_release_url(api_url: &str, owner: &str, repo: &str) -> (r: String)
    ensures
        r@ == repo_address(api_url@, owner@, repo@) + "/releases/latest"@,
{
    repo_url_with(api_url, owner, repo, "/releases/latest")
}

/// The address of the tags of a repository.
pub fn tags_url(api_url: &str, owner: &str, repo: &str) -> (r: String)
    ensures
        r@ == repo_address(api_url@, owner@, repo@) + "/tags"@,
{
    repo_url_with(api_url, owner, repo, "/tags")
}

/// The address of a repository's information.
pub fn repo_url(api_url: &str, owner: &str, repo: &str) -> (r: String)
    ensures
        r@ == repo_address(api_url@, owner@, repo@),
{
    let mut v = chars_of(api_url);
    push_str(&mut v, "/repos/");
    push_str(&mut v, owner);
    push_str(&mut v, "/");
    push_str(&mut v, repo);
    string_from(&v)
}

/// The address of a file of a repository at a reference.
pub fn contents_url(api_url: &str, owner: &str, repo: &str, path: &str, ref_: &str) -> (r: String)
    ensures
        r@ == repo_address(api_url@, owner@, repo@) + "/contents/"@ + path@ + "?ref="@ + ref_@,
{
    let mut v = chars_of(api_url);
    push_str(&mut v, "/repos/");
    push_str(&mut v, owner);
    push_str(&mut v, "/");
    push_str(&mut v, repo);
    push_str(&mut v, "/contents/");
    push_str(&mut v, path);
    push_str(&mut v, "?ref=");
    push_str(&mut v, ref_);
    string_from(&v)
}

/// The address of the archive of a repository at a reference.
pub fn tarball_url(api_url: &str, owner: &str, repo: &str, ref_: &str) -> (r: String)
    ensures
        r@ == tarball_address(api_url@, owner@, repo@, ref_@),
{
    let mut v = chars_of(api_url);
    push_str(&mut v, "/repos/");
    push_str(&mut v, owner);
    push_str(&mut v, "/");
    push_str(&mut v, repo);
    push_str(&mut v, "/tarball/");
    push_str(&mut v, ref_);
    string_from(&v)
}

// ===================== Rate limit =====================


/// How many requests an hour the API allows: 5000 with a token, 60
/// without.
pub open spec fn hourly_allowance(has_token: bool) -> u64 {
    if has_token {
        5000
    } else {
        60
    }
}

/// The hint added to the rate limit error.
pub open spec fn token_hint(has_token: bool) -> Seq<char> {
    if has_token {
        ""@
    } else {
        "Consider setting GITHUB_TOKEN to increase rate limit to 5000/hour."@
    }
}

/// The error text when the rate limit is exhausted, `seconds` before it
/// resets.
pub open spec fn rate_limit_text(seconds: nat, has_token: bool) -> Seq<char> {
    "GitHub API rate limit exceeded. Reset in "@ + decimal(seconds) + " seconds. "@ + token_hint(
        has_token,
    )
}

/// The number of whole seconds from `from` to `to` (both in nanoseconds).
pub open spec fn whole_seconds(from: i128, to: i128) -> nat {
    ((to - from) / (NANOS_PER_SECOND as int)) as nat
}


/// The rate limit of the API, as the client last learned it. Times are in
/// nanoseconds from the Unix epoch.
#[derive(Debug, Clone, Copy)]
pub struct RateLimiter {
    /// Requests left before the limit resets.
    pub remaining: u64,
    /// When the limit resets.
    pub reset_time: i128,
}

impl RateLimiter {
    /// The rate limit before any reply: the hourly allowance, resetting an
    /// hour from `now`.
    pub fn new(has_token: bool, now: i128) -> (r: Self)
        requires
            now + 3600 * NANOS_PER_SECOND <= i128::MAX,
        ensures
            r.remaining == hourly_allowance(has_token),
            r.reset_time == now + 3600 * NANOS_PER_SECOND,
    {
        RateLimiter {
            remaining: if has_token {
                5000
            } else {
                60
            },
            reset_time: now + 3600 * NANOS_PER_SECOND,
        }
    }

    /// Whether a request may be made at `now`: not when no request is left
    /// and the limit has not reset yet.
    pub fn check(&self, now: i128, has_token: bool) -> (r: DepotResult<()>)
        requires
            self.reset_time - now < (u64::MAX + 1) * NANOS_PER_SECOND,
        ensures
            if self.remaining == 0 && now < self.reset_time {
                r matches Err(DepotError::Package(m)) && m@ == rate_limit_text(
                    whole_seconds(now, self.reset_time),
                    has_token,
                )
            } else {
                r is Ok
            },
    {
        if self.remaining == 0 && now < self.reset_time {
            let wait = elapsed_nanos(now, self.reset_time);
            let secs_wide = wait / 1000000000;
            assert(secs_wide <= u64::MAX) by (nonlinear_arith)
                requires
                    secs_wide == wait / 1000000000,
                    wait < (u64::MAX + 1) * 1000000000,
            ;
            let secs = secs_wide as u64;
            let mut v = chars_of("GitHub API rate limit exceeded. Reset in ");
            let d = decimal_chars(secs);
            push_chars(&mut v, d.as_slice());
            push_str(&mut v, " seconds. ");
            if !has_token {
                push_str(&mut v, "Consider setting GITHUB_TOKEN to increase rate limit to 5000/hour.");
            } else {
                proof {
                    reveal_strlit("");
                }
                assert(v@ + ""@ =~= v@);
            }
            return Err(DepotError::Package(string_from(&v)));
        }
        Ok(())
    }

    /// Take in the rate limit headers of a reply: `x-ratelimit-remaining`
    /// and `x-ratelimit-reset` (seconds from the Unix epoch), each when it
    /// is there and a number.
    pub fn update(&mut self, remaining: Option<&str>, reset: Option<&str>)
        requires
            reset matches Some(t) && parse_u64_spec(t@) matches Some(n) ==> n <= i64::MAX,
        ensures
            final(self).remaining == match remaining {
                Some(t) => match parse_u64_spec(t@) {
                    Some(n) => n,
                    None => old(self).remaining,
                },
                None => old(self).remaining,
            },
            final(self).reset_time == match reset {
                Some(t) => match parse_u64_spec(t@) {
                    Some(n) => n * NANOS_PER_SECOND,
                    None => old(self).reset_time as int,
                },
                None => old(self).reset_time as int,
            },
    {
        if let Some(t) = remaining {
            let c = chars_of(t);
            if let Some(n) = parse_u64(c.as_slice()) {
                self.remaining = n;
            }
        }
        if let Some(t) = reset {
            let c = chars_of(t);
            if let Some(n) = parse_u64(c.as_slice()) {
                self.reset_time = (n as i128) * NANOS_PER_SECOND;
            }
        }
    }
}

// ===================== File content =====================

#[verifier::external_type_specification]
#[verifier::external_body]
pub struct ExDecodeError(base64::DecodeError);

#[verifier::external_type_specification]
#[verifier::external_body]
pub struct ExFromUtf8Error(std::string::FromUtf8Error);

/// The bytes that the standard base64 alphabet (with padding) encodes in
/// the text `t`, if `t` is valid base64.
pub uninterp spec fn base64_decoded(t: Seq<char>) -> Option<Seq<u8>>;

/// `base64::engine::general_purpose::STANDARD.decode(text)`: the bytes that
/// `text` encodes, or an error where it is no valid base64; both as named
/// by `base64_decoded`.
#[verifier::external_body]
fn base64_decode(text: &str) -> (r: Result<Vec<u8>, base64::DecodeError>)
    ensures
        match r {
            Ok(d) => base64_decoded(text@) == Some(d@),
            Err(_) => base64_decoded(text@) is None,
        },
{
    base64::Engine::decode(&base64::engine::general_purpose::STANDARD, text)
}

/// The text of a `base64::DecodeError` (its `Display`); its words are not
/// stated.
#[verifier::external_body]
fn decode_error_text(e: &base64::DecodeError) -> (r: String) {
    format!("{}", e)
}

/// `String::from_utf8`: the text that the bytes encode in UTF-8, or an
/// error where they are not UTF-8.
#[verifier::external_body]
fn utf8_string(bytes: Vec<u8>) -> (r: Result<String, std::string::FromUtf8Error>)
    ensures
        match r {
            Ok(s) => vstd::utf8::valid_utf8(bytes@) && s@ == vstd::utf8::decode_utf8(bytes@),
            Err(_) => !vstd::utf8::valid_utf8(bytes@),
        },
{
    String::from_utf8(bytes)
}

/// The text of a `FromUtf8Error` (its `Display`); its words are not stated.
#[verifier::external_body]
fn utf8_error_text(e: &std::string::FromUtf8Error) -> (r: String) {
    format!("{}", e)
}

/// `s` without its line breaks.
pub open spec fn without_newlines(s: Seq<char>) -> Seq<char>
    decreases s.len(),
{
    if s.len() == 0 {
        s
    } else if s.last() == '\n' {
        without_newlines(s.drop_last())
    } else {
        without_newlines(s.drop_last()).push(s.last())
    }
}

/// `s` without its line breaks.
pub fn strip_newlines(s: &str) -> (r: String)
    ensures
        r@ == without_newlines(s@),
{
    let c = chars_of(s);
    let mut v: Vec<char> = Vec::new();
    let mut i: usize = 0;
    while i < c.len()
        invariant
            i <= c.len(),
            c@ == s@,
            v@ == without_newlines(c@.take(i as int)),
        decreases c.len() - i,
    {
        proof {
            assert(c@.take(i as int + 1).drop_last() =~= c@.take(i as int));
        }
        if c[i] != '\n' {
            v.push(c[i]);
        }
        i = i + 1;
    }
    assert(c@.take(c@.len() as int) =~= c@);
    string_from(&v)
}

/// What a decoded file holds as text: the text, or the error that its
/// bytes are no base64 (`decoded` is `Err` with the decoder's words) or no
/// UTF-8.
pub fn text_of_decoded(decoded: Result<Vec<u8>, String>) -> (r: DepotResult<String>)
    ensures
        match decoded {
            Err(text) => r matches Err(DepotError::Package(m)) && m@
                == "Failed to decode base64 content: "@ + text@ && m@.len() >= 33 && m@.take(33)
                == "Failed to decode base64 content: "@,
            Ok(bytes) => if vstd::utf8::valid_utf8(bytes@) {
                r matches Ok(s) && s@ == vstd::utf8::decode_utf8(bytes@)
            } else {
                r matches Err(DepotError::Package(m)) && m@.len() >= 31 && m@.take(31)
                    == "Invalid UTF-8 in file content: "@
            },
        },
{
    match decoded {
        Err(text) => {
            let mut v = chars_of("Failed to decode base64 content: ");
            let ghost head = v@;
            proof {
                reveal_strlit("Failed to decode base64 content: ");
            }
            push_str(&mut v, text.as_str());
            assert(v@.take(33) =~= head);
            Err(DepotError::Package(string_from(&v)))
        },
        Ok(bytes) => match utf8_string(bytes) {
            Ok(s) => Ok(s),
            Err(e) => {
                let mut v = chars_of("Invalid UTF-8 in file content: ");
                let ghost head = v@;
                proof {
                    reveal_strlit("Invalid UTF-8 in file content: ");
                }
                let t = utf8_error_text(&e);
                push_str(&mut v, t.as_str());
                assert(v@.take(31) =~= head);
                Err(DepotError::Package(string_from(&v)))
            },
        },
    }
}

/// The text of a file as the contents API gives it: `content` in
/// `encoding`, which must be base64 (with line breaks, which are dropped).
pub fn decode_file_content(content: &str, encoding: &str) -> (r: DepotResult<String>)
    ensures
        if encoding@ != "base64"@ {
            r matches Err(DepotError::Package(m)) && m@ == "Unexpected encoding: "@ + encoding@
        } else {
            match base64_decoded(without_newlines(content@)) {
                None => r matches Err(DepotError::Package(m)) && m@.len() >= 33 && m@.take(33)
                    == "Failed to decode base64 content: "@,
                Some(bytes) => if vstd::utf8::valid_utf8(bytes) {
                    r matches Ok(s) && s@ == vstd::utf8::decode_utf8(bytes)
                } else {
                    r matches Err(DepotError::Package(m)) && m@.len() >= 31 && m@.take(31)
                        == "Invalid UTF-8 in file content: "@
                },
            }
        },
{
    if !str_eq(encoding, "base64") {
        let mut v = chars_of("Unexpected encoding: ");
        push_str(&mut v, encoding);
        return Err(DepotError::Package(string_from(&v)));
    }
    let cleaned = strip_newlines(content);
    let decoded = match base64_decode(cleaned.as_str()) {
        Ok(d) => Ok(d),
        Err(e) => Err(decode_error_text(&e)),
    };
    text_of_decoded(decoded)
}

} // verus!
