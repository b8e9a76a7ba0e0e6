//! The plugin registry: search addresses, registry entries made from
//! crates.io search results and from GitHub releases.
use vstd::prelude::*;
use crate::digest::hex_digit;
use crate::error::{DepotError, DepotResult};
use crate::text::{
    chars_of, contains_seq, contains_str, decimal, decimal_chars, ends_with, ends_with_str,
    push_chars, push_str, slice_chars, starts_with, starts_with_str, str_eq, string_from,
    string_of,
};

verus! {

/// Plugin registry entry
#[derive(Debug, Clone)]
pub struct RegistryEntry {
    /// Plugin name
    pub name: String,
    /// Latest version
    pub version: String,
    /// Description
    pub description: Option<String>,
    /// Author
    pub author: Option<String>,
    /// Homepage/repository
    pub homepage: Option<String>,
    /// Download URL
    pub download_url: Option<String>,
    /// Available versions
    pub versions: Vec<String>,
}

/// HTTP response abstraction
#[derive(Debug)]
pub struct HttpResponse {
    pub status: u16,
    pub body: Vec<u8>,
}

impl HttpResponse {
    /// Whether the status is a success (2xx).
    pub fn is_success(&self) -> (r: bool)
        ensures
            r == (200 <= self.status < 300),
    {
        self.status >= 200 && self.status < 300
    }
}

/// A byte that percent-encoding keeps: ASCII alphanumerics and `-._~`.
pub open spec fn url_safe(b: u8) -> bool {
    (48 <= b <= 57) || (65 <= b <= 90) || (97 <= b <= 122) || b == 45 || b == 46 || b == 95
        || b == 126
}

/// An uppercase hexadecimal digit.
pub open spec fn upper_hex_digit(d: u8) -> char {
    if d < 10 {
        (48 + d) as char
    } else {
        (55 + d) as char
    }
}

/// The percent-encoding of bytes: safe bytes as they are, every other byte
/// as `%` and two uppercase hexadecimal digits.
pub open spec fn percent_encoded(s: Seq<u8>) -> Seq<char>
    decreases s.len(),
{
    if s.len() == 0 {
        Seq::empty()
    } else {
        let b = s.last();
        percent_encoded(s.drop_last()) + if url_safe(b) {
            seq![b as char]
        } else {
            seq!['%', upper_hex_digit(b / 16), upper_hex_digit(b % 16)]
        }
    }
}

/// `urlencoding::encode`: percent-encodes every byte of the UTF-8 text
/// except ASCII alphanumerics and `-`, `_`, `.`, `~`, with uppercase hex.
#[verifier::external_body]
fn url_encode(s: &str) -> (r: String)
    ensures
        r@ == percent_encoded(vstd::utf8::encode_utf8(s@)),
{
    urlencoding::encode(s).into_owned()
}

/// `str::to_lowercase`: the Unicode lowercase of a text.
pub uninterp spec fn lowercase_of(s: Seq<char>) -> Seq<char>;

/// `str::to_lowercase`.
#[verifier::external_body]
fn to_lowercase(s: &str) -> (r: String)
    ensures
        r@ == lowercase_of(s@),
{
    s.to_lowercase()
}

/// The crates.io search address for a query.
pub fn search_url(query: &str) -> (r: String)
    ensures
        r@ == "https://crates.io/api/v1/crates?q="@ + percent_encoded(
            vstd::utf8::encode_utf8(query@),
        ) + "&per_page=20"@,
{
    let mut v = chars_of("https://crates.io/api/v1/crates?q=");
    let q = url_encode(query);
    push_str(&mut v, q.as_str());
    push_str(&mut v, "&per_page=20");
    string_from(&v)
}

/// The error of a failed search.
pub fn search_failure(status: u16) -> (e: DepotError)
    ensures
        e matches DepotError::Package(m) && m@ == "Registry search failed with status: "@ + decimal(
            status as nat,
        ),
{
    let mut v = chars_of("Registry search failed with status: ");
    let d = decimal_chars(status as u64);
    push_chars(&mut v, d.as_slice());
    DepotError::Package(string_from(&v))
}

/// A crate that a crates.io search found.
#[derive(Debug, Clone)]
pub struct CrateInfo {
    pub name: String,
    pub description: Option<String>,
    pub repository: Option<String>,
    pub version: String,
}

/// The view of an optional string.
pub open spec fn opt_text(o: Option<String>) -> Option<Seq<char>> {
    match o {
        Some(s) => Some(s@),
        None => None,
    }
}

/// Whether a registry entry is the one that a found crate gives: its name
/// without "lpm-", its version, description and repository.
pub open spec fn entry_of_crate(e: RegistryEntry, c: CrateInfo) -> bool {
    &&& e.name@ == c.name@.skip(4)
    &&& e.version@ == c.version@
    &&& opt_text(e.description) == opt_text(c.description)
    &&& e.author is None
    &&& opt_text(e.homepage) == opt_text(c.repository)
    &&& e.download_url is None
    &&& e.versions@.len() == 1 && e.versions@[0]@ == c.version@
}

/// The found crates that are plugins: those named "lpm-...", in order.
pub open spec fn plugin_crates(cs: Seq<CrateInfo>) -> Seq<CrateInfo>
    decreases cs.len(),
{
    if cs.len() == 0 {
        Seq::empty()
    } else if starts_with(cs.last().name@, "lpm-"@) {
        plugin_crates(cs.drop_last()).push(cs.last())
    } else {
        plugin_crates(cs.drop_last())
    }
}

fn opt_copy(o: &Option<String>) -> (r: Option<String>)
    ensures
        opt_text(r) == opt_text(*o),
{
    match o {
        Some(s) => Some(s.clone()),
        None => None,
    }
}

/// The registry entries of the plugins among crates.io search results.
pub fn search_results(crates: &Vec<CrateInfo>) -> (r: Vec<RegistryEntry>)
    ensures
        r.len() == plugin_crates(crates@).len(),
        forall|i: int|
            0 <= i < r.len() ==> entry_of_crate(#[trigger] r@[i], plugin_crates(crates@)[i]),
{
    let mut results: Vec<RegistryEntry> = Vec::new();
    let mut i: usize = 0;
    assert(crates@.take(0) =~= Seq::<CrateInfo>::empty());
    while i < crates.len()
        invariant
            i <= crates.len(),
            results.len() == plugin_crates(crates@.take(i as int)).len(),
            forall|k: int|
                0 <= k < results.len() ==> entry_of_crate(
                    #[trigger] results@[k],
                    plugin_crates(crates@.take(i as int))[k],
                ),
        decreases crates.len() - i,
    {
        assert(crates@.take(i as int + 1).drop_last() =~= crates@.take(i as int));
        let c = &crates[i];
        let n = chars_of(c.name.as_str());
        if starts_with_str(n.as_slice(), "lpm-") {
            proof {
                reveal_strlit("lpm-");
            }
            let name = string_from(&slice_chars(n.as_slice(), 4, n.len()));
            let entry = RegistryEntry {
                name,
                version: c.version.clone(),
                description: opt_copy(&c.description),
                author: None,
                homepage: opt_copy(&c.repository),
                download_url: None,
                versions: vec![c.version.clone()],
            };
            results.push(entry);
        }
        i = i + 1;
    }
    assert(crates@.take(crates.len() as int) =~= crates@);
    results
}

/// The GitHub repositories where a plugin may be published, in the order
/// they are tried.
pub fn plugin_repositories(name: &str) -> (r: Vec<String>)
    ensures
        r@.len() == 2,
        r@[0]@ == "lpm-org/lpm-"@ + name@,
        r@[1]@ == name@ + "/lpm-"@ + name@,
{
    let mut a = chars_of("lpm-org/lpm-");
    push_str(&mut a, name);
    let mut b = chars_of(name);
    push_str(&mut b, "/lpm-");
    push_str(&mut b, name);
    vec![string_from(&a), string_from(&b)]
}

/// The address of the latest release of a GitHub repository.
pub fn latest_release_url(repo: &str) -> (r: String)
    ensures
        r@ == "https://api.github.com/repos/"@ + repo@ + "/releases/latest"@,
{
    let mut v = chars_of("https://api.github.com/repos/");
    push_str(&mut v, repo);
    push_str(&mut v, "/releases/latest");
    string_from(&v)
}

/// An asset of a GitHub release: its name and download address.
#[derive(Debug, Clone)]
pub struct GitHubAsset {
    pub name: String,
    pub browser_download_url: String,
}

/// Whether an asset (by its lowercase name) is a plugin binary.
pub open spec fn is_plugin_binary(lower: Seq<char>) -> bool {
    contains_seq(lower, "lpm-"@) && (ends_with(lower, ".exe"@) || ends_with(lower, "x86_64"@)
        || ends_with(lower, "aarch64"@) || contains_seq(lower, "linux"@) || contains_seq(
        lower,
        "macos"@,
    ) || contains_seq(lower, "darwin"@) || contains_seq(lower, "windows"@))
}

/// The position of the first asset that is a plugin binary.
pub open spec fn first_binary(assets: Seq<GitHubAsset>) -> Option<int>
    decreases assets.len(),
{
    if assets.len() == 0 {
        None
    } else {
        match first_binary(assets.drop_last()) {
            Some(i) => Some(i),
            None => if is_plugin_binary(lowercase_of(assets.last().name@)) {
                Some(assets.len() - 1)
            } else {
                None
            },
        }
    }
}

/// A tag without one leading `v`.
pub open spec fn strip_v(t: Seq<char>) -> Seq<char> {
    if t.len() > 0 && t[0] == 'v' {
        t.skip(1)
    } else {
        t
    }
}

/// A tag without any leading `v`.
pub open spec fn trim_vs(t: Seq<char>) -> Seq<char>
    decreases t.len(),
{
    if t.len() > 0 && t[0] == 'v' {
        trim_vs(t.skip(1))
    } else {
        t
    }
}

fn trim_leading_vs(t: &[char]) -> (r: Vec<char>)
    ensures
        r@ == trim_vs(t@),
{
    let mut i: usize = 0;
    assert(t@.skip(0) =~= t@);
    while i < t.len() && t[i] == 'v'
        invariant
            i <= t.len(),
            trim_vs(t@) == trim_vs(t@.skip(i as int)),
        decreases t.len() - i,
    {
        assert(t@.skip(i as int).skip(1) =~= t@.skip(i as int + 1));
        i = i + 1;
    }
    let r = slice_chars(t, i, t.len());
    assert(r@ =~= t@.skip(i as int));
    r
}

fn first_binary_asset(assets: &Vec<GitHubAsset>) -> (r: Option<usize>)
    ensures
        match r {
            Some(i) => i < assets.len() && first_binary(assets@) == Some(i as int),
            None => first_binary(assets@) is None,
        },
{
    let mut i: usize = 0;
    assert(assets@.take(0) =~= Seq::<GitHubAsset>::empty());
    while i < assets.len()
        invariant
            i <= assets.len(),
            first_binary(assets@.take(i as int)) is None,
        decreases assets.len() - i,
    {
        assert(assets@.take(i as int + 1).drop_last() =~= assets@.take(i as int));
        let lower = to_lowercase(assets[i].name.as_str());
        let n = chars_of(lower.as_str());
        let s = n.as_slice();
        let binary = contains_str(s, "lpm-") && (ends_with_str(s, ".exe") || ends_with_str(
            s,
            "x86_64",
        ) || ends_with_str(s, "aarch64") || contains_str(s, "linux") || contains_str(s, "macos")
            || contains_str(s, "darwin") || contains_str(s, "windows"));
        if binary {
            proof {
                lemma_binary_prefix(assets@, i as int + 1);
            }
            return Some(i);
        }
        i = i + 1;
    }
    assert(assets@.take(assets.len() as int) =~= assets@);
    None
}

proof fn lemma_binary_prefix(assets: Seq<GitHubAsset>, n: int)
    requires
        0 < n <= assets.len(),
        first_binary(assets.take(n)) is Some,
    ensures
        first_binary(assets) == first_binary(assets.take(n)),
    decreases assets.len() - n,
{
    if n < assets.len() {
        assert(assets.take(n + 1).drop_last() =~= assets.take(n));
        lemma_binary_prefix(assets, n + 1);
    } else {
        assert(assets.take(n) =~= assets);
    }
}

/// The registry entry that a plugin's latest GitHub release gives.
pub fn plugin_entry_from_release(
    repo: &str,
    plugin_name: &str,
    tag_name: &str,
    body: Option<String>,
    assets: &Vec<GitHubAsset>,
) -> (r: RegistryEntry)
    ensures
        r.name@ == plugin_name@,
        r.version@ == strip_v(tag_name@),
        opt_text(r.description) == opt_text(body),
        r.author is None,
        opt_text(r.homepage) == Some("https://github.com/"@ + repo@),
        match first_binary(assets@) {
            Some(i) => opt_text(r.download_url) == Some(assets@[i].browser_download_url@),
            None => r.download_url is None,
        },
        r.versions@.len() == 1,
        r.versions@[0]@ == trim_vs(tag_name@),
{
    let t = chars_of(tag_name);
    let version = if t.len() > 0 && t[0] == 'v' {
        string_from(&slice_chars(t.as_slice(), 1, t.len()))
    } else {
        string_of(tag_name)
    };
    let mut home = chars_of("https://github.com/");
    push_str(&mut home, repo);
    let download_url = match first_binary_asset(assets) {
        Some(i) => Some(assets[i].browser_download_url.clone()),
        None => None,
    };
    RegistryEntry {
        name: string_of(plugin_name),
        version,
        description: body,
        author: None,
        homepage: Some(string_from(&home)),
        download_url,
        versions: vec![string_from(&trim_leading_vs(t.as_slice()))],
    }
}

/// The first entry named `name` among search results, as the fallback
/// of a plugin lookup takes it.
pub fn find_entry_named(found: Vec<RegistryEntry>, name: &str) -> (r: Option<RegistryEntry>)
    ensures
        match r {
            Some(e) => exists|i: int|
                0 <= i < found@.len() && found@[i] == e && e.name@ == name@ && forall|j: int|
                    0 <= j < i ==> (#[trigger] found@[j]).name@ != name@,
            None => forall|j: int| 0 <= j < found@.len() ==> (#[trigger] found@[j]).name@ != name@,
        },
{
    let mut i: usize = 0;
    while i < found.len()
        invariant
            i <= found.len(),
            forall|j: int| 0 <= j < i ==> (#[trigger] found@[j]).name@ != name@,
        decreases found.len() - i,
    {
        if str_eq(found[i].name.as_str(), name) {
            let ghost all = found@;
            let mut rest = found;
            let e = rest.remove(i);
            assert(e == all[i as int]);
            return Some(e);
        }
        i = i + 1;
    }
    None
}

} // verus!
