//! In-memory stand-ins for the configuration, the cache and GitHub, for
//! testing code that depends on them.
use vstd::prelude::*;
use crate::digest::{blake3_hex, blake3_of, default_hash, default_hash_of, hex_digit, hex_text};
use crate::error::{DepotError, DepotResult, IoKind};
use crate::github::{
    GitHubRelease, GitHubTag, RefType, ReleaseAsset, ResolvedVersion, TagCommit, release_named,
    tag_named,
};
use crate::paths::{extension, extension_of};
use crate::store::Store;
use crate::text::{texts, chars_of, push_chars, push_str, str_eq, string_from, string_of};

verus! {

/// Mock configuration provider for testing
#[derive(Debug, Clone)]
pub struct MockConfigProvider {
    pub cache_dir: String,
    pub verify_checksums: bool,
    pub show_diffs_on_update: bool,
    pub resolution_strategy: String,
    pub checksum_algorithm: String,
    pub strict_conflicts: bool,
    pub lua_binary_source_url: Option<String>,
    pub supported_lua_versions: Option<Vec<String>>,
    pub github_api_url: String,
    pub github_token: Option<String>,
    pub github_fallback_chain: Vec<String>,
    pub strict_native_code: bool,
}

impl Default for MockConfigProvider {
    fn default() -> (r: Self)
        ensures
            r.cache_dir@ == "/tmp/depot-test-cache"@,
            r.verify_checksums,
            r.show_diffs_on_update,
            r.resolution_strategy@ == "highest"@,
            r.checksum_algorithm@ == "blake3"@,
            r.strict_conflicts,
            r.lua_binary_source_url is None,
            r.supported_lua_versions is None,
            r.github_api_url@ == "https://api.github.com"@,
            r.github_token is None,
            texts(r.github_fallback_chain@) == seq!["release"@, "tag"@, "branch"@],
            r.strict_native_code,
    {
        let chain = vec![string_of("release"), string_of("tag"), string_of("branch")];
        assert(texts(chain@) =~= seq!["release"@, "tag"@, "branch"@]);
        MockConfigProvider {
            cache_dir: string_of("/tmp/depot-test-cache"),
            verify_checksums: true,
            show_diffs_on_update: true,
            resolution_strategy: string_of("highest"),
            checksum_algorithm: string_of("blake3"),
            strict_conflicts: true,
            lua_binary_source_url: None,
            supported_lua_versions: None,
            github_api_url: string_of("https://api.github.com"),
            github_token: None,
            github_fallback_chain: chain,
            strict_native_code: true,
        }
    }
}

impl MockConfigProvider {
    /// Get the cache directory path
    pub fn cache_dir(&self) -> (r: DepotResult<String>)
        ensures
            r matches Ok(d) && d@ == self.cache_dir@,
    {
        Ok(self.cache_dir.clone())
    }

    /// Check if checksum verification is enabled
    pub fn verify_checksums(&self) -> (r: bool)
        ensures
            r == self.verify_checksums,
    {
        self.verify_checksums
    }

    /// Check if diffs should be shown on update
    pub fn show_diffs_on_update(&self) -> (r: bool)
        ensures
            r == self.show_diffs_on_update,
    {
        self.show_diffs_on_update
    }

    /// Get the resolution strategy
    pub fn resolution_strategy(&self) -> (r: &str)
        ensures
            r@ == self.resolution_strategy@,
    {
        self.resolution_strategy.as_str()
    }

    /// Get the checksum algorithm
    pub fn checksum_algorithm(&self) -> (r: &str)
        ensures
            r@ == self.checksum_algorithm@,
    {
        self.checksum_algorithm.as_str()
    }

    /// Check if strict conflict detection is enabled
    pub fn strict_conflicts(&self) -> (r: bool)
        ensures
            r == self.strict_conflicts,
    {
        self.strict_conflicts
    }

    /// Get the Lua binary source URL
    pub fn lua_binary_source_url(&self) -> (r: Option<&str>)
        ensures
            match self.lua_binary_source_url {
                Some(u) => r matches Some(s) && s@ == u@,
                None => r is None,
            },
    {
        match &self.lua_binary_source_url {
            Some(u) => Some(u.as_str()),
            None => None,
        }
    }

    /// Get the list of supported Lua versions
    pub fn supported_lua_versions(&self) -> (r: Option<&Vec<String>>)
        ensures
            match self.supported_lua_versions {
                Some(v) => r matches Some(s) && s@ == v@,
                None => r is None,
            },
    {
        match &self.supported_lua_versions {
            Some(v) => Some(v),
            None => None,
        }
    }

    /// Get the GitHub API URL
    pub fn github_api_url(&self) -> (r: &str)
        ensures
            r@ == self.github_api_url@,
    {
        self.github_api_url.as_str()
    }

    /// Get the GitHub token
    pub fn github_token(&self) -> (r: Option<String>)
        ensures
            match self.github_token {
                Some(t) => r matches Some(s) && s@ == t@,
                None => r is None,
            },
    {
        match &self.github_token {
            Some(t) => Some(t.clone()),
            None => None,
        }
    }

    /// Get the GitHub fallback chain for version resolution
    pub fn github_fallback_chain(&self) -> (r: &[String])
        ensures
            r@ == self.github_fallback_chain@,
    {
        self.github_fallback_chain.as_slice()
    }

    /// Check if strict native code warnings are enabled
    pub fn strict_native_code(&self) -> (r: bool)
        ensures
            r == self.strict_native_code,
    {
        self.strict_native_code
    }
}

/// The lowercase hexadecimal notation of a number, without leading zeros.
pub open spec fn hex_number(n: u64) -> Seq<char>
    decreases n,
{
    if n < 16 {
        seq![hex_digit(n as u8)]
    } else {
        hex_number(n / 16) + seq![hex_digit((n % 16) as u8)]
    }
}

/// The lowercase hexadecimal notation of a number.
pub fn hex_number_chars(n: u64) -> (r: Vec<char>)
    ensures
        r@ == hex_number(n),
    decreases n,
{
    let d: u8 = (n % 16) as u8;
    let c = if d < 10 {
        ((48 + d) as char)
    } else {
        ((87 + d) as char)
    };
    if n < 16 {
        let mut v: Vec<char> = Vec::new();
        v.push(c);
        assert(v@ =~= seq![hex_digit(n as u8)]);
        v
    } else {
        let mut v = hex_number_chars(n / 16);
        v.push(c);
        v
    }
}

fn copy_bytes(v: &[u8]) -> (r: Vec<u8>)
    ensures
        r@ == v@,
{
    let mut r: Vec<u8> = Vec::new();
    let mut i: usize = 0;
    while i < v.len()
        invariant
            i <= v.len(),
            r@ == v@.take(i as int),
        decreases v.len() - i,
    {
        r.push(v[i]);
        assert(r@ =~= v@.take(i as int + 1));
        i = i + 1;
    }
    assert(v@.take(v.len() as int) =~= v@);
    r
}

/// Text made of a prefix and a path.
fn prefixed(prefix: &str, text: &str) -> (r: String)
    ensures
        r@ == prefix@ + text@,
{
    let mut v = chars_of(prefix);
    push_str(&mut v, text);
    string_from(&v)
}

/// Whether `p` is among `v`.
pub open spec fn listed(v: Seq<String>, p: Seq<char>) -> bool {
    exists|i: int| 0 <= i < v.len() && (#[trigger] v[i])@ == p
}

fn is_listed(v: &Vec<String>, p: &str) -> (r: bool)
    ensures
        r == listed(v@, p@),
{
    let mut i: usize = 0;
    while i < v.len()
        invariant
            i <= v.len(),
            forall|j: int| 0 <= j < i ==> (#[trigger] v@[j])@ != p@,
        decreases v.len() - i,
    {
        if str_eq(v[i].as_str(), p) {
            return true;
        }
        i = i + 1;
    }
    false
}

/// Mock cache provider for testing: stores files in memory.
#[derive(Debug)]
pub struct MockCacheProvider {
    /// The files held, by path.
    pub files: Store<Vec<u8>>,
    /// Simulate I/O errors on read/write operations
    pub simulate_io_error: bool,
    /// Simulate disk full errors on write operations
    pub simulate_disk_full: bool,
    /// Force checksum verification failures
    pub fail_checksum_verification: bool,
    /// Paths that should deny read access (permission errors)
    pub deny_read_access: Vec<String>,
}

/// The text of a mock cache's source path for a URL.
pub open spec fn mock_source_path(url: Seq<char>) -> Seq<char> {
    "/tmp/sources/"@ + hex_number(default_hash_of(url)) + "."@ + match extension(url) {
        Some(e) => e,
        None => "tar.gz"@,
    }
}

/// The text of a mock cache's path for a Rust build.
pub open spec fn mock_build_path(package: Seq<char>, version: Seq<char>, lua_version: Seq<char>, target: Seq<char>) -> Seq<char> {
    "/tmp/rust-builds/"@ + package + "/"@ + version + "/"@ + lua_version + "/"@ + target
}

/// Whether a mock cache lets a path be read.
pub open spec fn readable(c: MockCacheProvider, path: Seq<char>) -> bool {
    !listed(c.deny_read_access@, path) && !c.simulate_io_error && c.files().contains_key(path)
}

/// The error of reading a path that a mock cache does not let be read.
pub open spec fn read_error(c: MockCacheProvider, path: Seq<char>, e: DepotError) -> bool {
    if listed(c.deny_read_access@, path) {
        e matches DepotError::Io { kind: IoKind::PermissionDenied, message: m } && m@
            == "Permission denied: "@ + path
    } else if c.simulate_io_error {
        e matches DepotError::Io { kind: IoKind::Other, message: m } && m@ == "Simulated I/O error"@
    } else {
        e matches DepotError::Cache(m) && m@ == "File not found: "@ + path
    }
}

/// The checksum text of some content.
pub open spec fn blake3_checksum(data: Seq<u8>) -> Seq<char> {
    "blake3:"@ + hex_text(blake3_of(data))
}

impl MockCacheProvider {
    /// The files held, by path.
    pub open spec fn files(self) -> Map<Seq<char>, Seq<u8>> {
        self.files@
    }

    /// Create a new mock cache provider
    pub fn new() -> (r: Self)
        ensures
            r.files() == Map::<Seq<char>, Seq<u8>>::empty(),
            !r.simulate_io_error,
            !r.simulate_disk_full,
            !r.fail_checksum_verification,
            r.deny_read_access@.len() == 0,
    {
        MockCacheProvider {
            files: Store::new(),
            simulate_io_error: false,
            simulate_disk_full: false,
            fail_checksum_verification: false,
            deny_read_access: Vec::new(),
        }
    }

    /// Add a file to the mock cache
    pub fn add_file(&mut self, path: String, content: Vec<u8>)
        ensures
            final(self).files() == old(self).files().insert(path@, content@),
            final(self).simulate_io_error == old(self).simulate_io_error,
            final(self).simulate_disk_full == old(self).simulate_disk_full,
            final(self).fail_checksum_verification == old(self).fail_checksum_verification,
            final(self).deny_read_access@ == old(self).deny_read_access@,
    {
        self.files.insert(path, content);
    }

    /// Get all files in the mock cache
    pub fn get_files(&self) -> (r: &Store<Vec<u8>>)
        ensures
            r@ == self.files(),
    {
        &self.files
    }

    /// Add a path to the deny list (simulates permission errors)
    pub fn deny_read(&mut self, path: String)
        ensures
            final(self).deny_read_access@ == old(self).deny_read_access@.push(path),
            final(self).files() == old(self).files(),
            final(self).simulate_io_error == old(self).simulate_io_error,
            final(self).simulate_disk_full == old(self).simulate_disk_full,
            final(self).fail_checksum_verification == old(self).fail_checksum_verification,
    {
        self.deny_read_access.push(path);
    }

    /// Builder pattern: simulate I/O errors
    pub fn with_io_error(self) -> (r: Self)
        ensures
            r.simulate_io_error,
            r.simulate_disk_full == self.simulate_disk_full,
            r.fail_checksum_verification == self.fail_checksum_verification,
            r.files() == self.files(),
            r.deny_read_access@ == self.deny_read_access@,
    {
        let mut s = self;
        s.simulate_io_error = true;
        s
    }

    /// Builder pattern: simulate disk full
    pub fn with_disk_full(self) -> (r: Self)
        ensures
            r.simulate_disk_full,
            r.simulate_io_error == self.simulate_io_error,
            r.fail_checksum_verification == self.fail_checksum_verification,
            r.files() == self.files(),
            r.deny_read_access@ == self.deny_read_access@,
    {
        let mut s = self;
        s.simulate_disk_full = true;
        s
    }

    /// Builder pattern: fail checksum verification
    pub fn with_checksum_failure(self) -> (r: Self)
        ensures
            r.fail_checksum_verification,
            r.simulate_io_error == self.simulate_io_error,
            r.simulate_disk_full == self.simulate_disk_full,
            r.files() == self.files(),
            r.deny_read_access@ == self.deny_read_access@,
    {
        let mut s = self;
        s.fail_checksum_verification = true;
        s
    }

    /// Get the cache path for a package metadata file
    pub fn package_metadata_path(&self, package: &str, version: &str) -> (r: String)
        ensures
            r@ == "/tmp/packages/"@ + package@ + "/"@ + version@ + "/.metadata"@,
    {
        let mut v = chars_of("/tmp/packages/");
        push_str(&mut v, package);
        push_str(&mut v, "/");
        push_str(&mut v, version);
        push_str(&mut v, "/.metadata");
        string_from(&v)
    }

    /// Get the cache path for a source archive: a hash of the URL, with the
    /// URL's extension or "tar.gz".
    pub fn source_path(&self, url: &str) -> (r: String)
        ensures
            r@ == mock_source_path(url@),
    {
        let hash = default_hash(url);
        let mut v = chars_of("/tmp/sources/");
        let h = hex_number_chars(hash);
        push_chars(&mut v, h.as_slice());
        push_str(&mut v, ".");
        match extension_of(url) {
            Some(e) => push_chars(&mut v, e.as_slice()),
            None => push_str(&mut v, "tar.gz"),
        }
        string_from(&v)
    }

    /// Check if a file exists in the cache
    pub fn file_exists(&self, path: &str) -> (r: bool)
        ensures
            r == self.files().contains_key(path@),
    {
        self.files.contains_key(path)
    }

    /// Read a file from the cache
    pub fn read(&self, path: &str) -> (r: DepotResult<Vec<u8>>)
        ensures
            if readable(*self, path@) {
                r matches Ok(d) && d@ == self.files()[path@]
            } else {
                r matches Err(e) && read_error(*self, path@, e)
            },
    {
        if is_listed(&self.deny_read_access, path) {
            return Err(
                DepotError::Io { kind: IoKind::PermissionDenied, message: prefixed("Permission denied: ", path) },
            );
        }
        if self.simulate_io_error {
            return Err(DepotError::Io { kind: IoKind::Other, message: string_of("Simulated I/O error") });
        }
        match self.files.get(path) {
            Some(data) => Ok(copy_bytes(data.as_slice())),
            None => Err(DepotError::Cache(prefixed("File not found: ", path))),
        }
    }

    /// Write a file to the cache
    pub fn write(&mut self, path: &str, data: &[u8]) -> (r: DepotResult<()>)
        ensures
            final(self).simulate_io_error == old(self).simulate_io_error,
            final(self).simulate_disk_full == old(self).simulate_disk_full,
            final(self).fail_checksum_verification == old(self).fail_checksum_verification,
            final(self).deny_read_access@ == old(self).deny_read_access@,
            if old(self).simulate_disk_full {
                (r matches Err(DepotError::Io { kind: IoKind::Other, message: m }) && m@
                    == "No space left on device"@)
                    && final(self).files() == old(self).files()
            } else if old(self).simulate_io_error {
                (r matches Err(DepotError::Io { kind: IoKind::Other, message: m }) && m@
                    == "Simulated I/O error"@)
                    && final(self).files() == old(self).files()
            } else {
                r is Ok && final(self).files() == old(self).files().insert(path@, data@)
            },
    {
        if self.simulate_disk_full {
            return Err(DepotError::Io { kind: IoKind::Other, message: string_of("No space left on device") });
        }
        if self.simulate_io_error {
            return Err(DepotError::Io { kind: IoKind::Other, message: string_of("Simulated I/O error") });
        }
        self.files.insert(string_of(path), copy_bytes(data));
        Ok(())
    }

    /// Calculate the checksum of a file: "blake3:" and the hexadecimal BLAKE3
    /// hash of its content.
    pub fn checksum(&self, path: &str) -> (r: DepotResult<String>)
        ensures
            if readable(*self, path@) {
                r matches Ok(c) && c@ == blake3_checksum(self.files()[path@])
            } else {
                r matches Err(e) && read_error(*self, path@, e)
            },
    {
        let data = match self.read(path) {
            Ok(d) => d,
            Err(e) => return Err(e),
        };
        let hash = blake3_hex(data.as_slice());
        Ok(prefixed("blake3:", hash.as_str()))
    }

    /// Verify the checksum of a file: whether its checksum is `expected`.
    pub fn verify_checksum(&self, path: &str, expected: &str) -> (r: DepotResult<bool>)
        ensures
            if self.fail_checksum_verification {
                r == DepotResult::<bool>::Ok(false)
            } else if readable(*self, path@) {
                r == DepotResult::<bool>::Ok(blake3_checksum(self.files()[path@]) == expected@)
            } else {
                r matches Err(e) && read_error(*self, path@, e)
            },
    {
        if self.fail_checksum_verification {
            return Ok(false);
        }
        match self.checksum(path) {
            Ok(actual) => Ok(str_eq(actual.as_str(), expected)),
            Err(e) => Err(e),
        }
    }

    /// Get the cache path for a Rust build artifact
    pub fn rust_build_path(&self, package: &str, version: &str, lua_version: &str, target: &str) -> (r:
        String)
        ensures
            r@ == mock_build_path(package@, version@, lua_version@, target@),
    {
        let mut v = chars_of("/tmp/rust-builds/");
        push_str(&mut v, package);
        push_str(&mut v, "/");
        push_str(&mut v, version);
        push_str(&mut v, "/");
        push_str(&mut v, lua_version);
        push_str(&mut v, "/");
        push_str(&mut v, target);
        string_from(&v)
    }

    /// Check if a Rust build artifact exists in cache
    pub fn has_rust_build(&self, package: &str, version: &str, lua_version: &str, target: &str) -> (r:
        bool)
        ensures
            r == self.files().contains_key(mock_build_path(package@, version@, lua_version@, target@)),
    {
        let path = self.rust_build_path(package, version, lua_version, target);
        self.file_exists(path.as_str())
    }

    /// Get a Rust build artifact from cache
    pub fn get_rust_build(&self, package: &str, version: &str, lua_version: &str, target: &str) -> (r:
        Option<String>)
        ensures
            match r {
                Some(p) => p@ == mock_build_path(package@, version@, lua_version@, target@)
                    && self.files().contains_key(p@),
                None => !self.files().contains_key(
                    mock_build_path(package@, version@, lua_version@, target@),
                ),
            },
    {
        let path = self.rust_build_path(package, version, lua_version, target);
        if self.file_exists(path.as_str()) {
            Some(path)
        } else {
            None
        }
    }

    /// Store the content of a Rust build artifact in cache, at the path of
    /// the build.
    pub fn store_rust_build(
        &mut self,
        package: &str,
        version: &str,
        lua_version: &str,
        target: &str,
        artifact: &[u8],
    ) -> (r: DepotResult<String>)
        ensures
            final(self).simulate_io_error == old(self).simulate_io_error,
            final(self).simulate_disk_full == old(self).simulate_disk_full,
            if old(self).simulate_disk_full || old(self).simulate_io_error {
                r is Err && final(self).files() == old(self).files()
            } else {
                r matches Ok(p) && p@ == mock_build_path(package@, version@, lua_version@, target@)
                    && final(self).files() == old(self).files().insert(p@, artifact@)
            },
    {
        let dest = self.rust_build_path(package, version, lua_version, target);
        match self.write(dest.as_str(), artifact) {
            Ok(()) => Ok(dest),
            Err(e) => Err(e),
        }
    }
}

impl Default for MockCacheProvider {
    fn default() -> (r: Self)
        ensures
            r.files() == Map::<Seq<char>, Seq<u8>>::empty(),
            !r.simulate_io_error,
            !r.simulate_disk_full,
            !r.fail_checksum_verification,
            r.deny_read_access@.len() == 0,
    {
        Self::new()
    }
}

/// Mock GitHub provider for testing: releases, tags, branches, tarballs
/// and file contents held in memory, by repository.
#[derive(Debug)]
pub struct MockGitHubProvider {
    /// Releases by "owner/repo".
    pub releases: Store<Vec<GitHubRelease>>,
    /// Tags by "owner/repo".
    pub tags: Store<Vec<GitHubTag>>,
    /// Default branches by "owner/repo".
    pub default_branches: Store<String>,
    /// Tarball paths by "owner/repo/ref".
    pub tarballs: Store<String>,
    /// File contents by "owner/repo/path@ref".
    pub file_contents: Store<String>,
    /// Simulate API rate limit errors
    pub simulate_rate_limit: bool,
    /// Repositories that should return 404
    pub missing_repos: Vec<String>,
}

/// The key of a repository: "owner/repo".
pub open spec fn repo_key(owner: Seq<char>, repo: Seq<char>) -> Seq<char> {
    owner + "/"@ + repo
}

/// The releases of a repository in a mock.
pub open spec fn releases_of(g: MockGitHubProvider, key: Seq<char>) -> Seq<GitHubRelease> {
    if g.releases@.contains_key(key) {
        g.releases@[key]
    } else {
        Seq::empty()
    }
}

/// The tags of a repository in a mock.
pub open spec fn tags_of(g: MockGitHubProvider, key: Seq<char>) -> Seq<GitHubTag> {
    if g.tags@.contains_key(key) {
        g.tags@[key]
    } else {
        Seq::empty()
    }
}

/// The default branch of a repository in a mock: "main" unless set.
pub open spec fn default_branch_of(g: MockGitHubProvider, key: Seq<char>) -> Seq<char> {
    if g.default_branches@.contains_key(key) {
        g.default_branches@[key]
    } else {
        "main"@
    }
}

/// The position of the first release that is neither a draft nor a
/// prerelease.
pub open spec fn first_stable(rs: Seq<GitHubRelease>) -> Option<int>
    decreases rs.len(),
{
    if rs.len() == 0 {
        None
    } else {
        match first_stable(rs.drop_last()) {
            Some(i) => Some(i),
            None => if !rs.last().draft && !rs.last().prerelease {
                Some(rs.len() - 1)
            } else {
                None
            },
        }
    }
}

/// A mock's resolution of a release.
pub open spec fn mock_release(v: ResolvedVersion, r: GitHubRelease) -> bool {
    v.ref_type == RefType::Release && v.ref_value@ == r.tag_name@ && v.commit_sha@ == "mock-sha"@
        && v.tarball_url@ == r.tarball_url@
}

/// A mock's resolution of a tag.
pub open spec fn mock_tag(v: ResolvedVersion, t: GitHubTag) -> bool {
    v.ref_type == RefType::Tag && v.ref_value@ == t.name@ && v.commit_sha@ == t.commit.sha@
        && v.tarball_url@ == t.tarball_url@
}

/// A mock's resolution of a branch.
pub open spec fn mock_branch(v: ResolvedVersion, owner: Seq<char>, repo: Seq<char>, b: Seq<char>) -> bool {
    v.ref_type == RefType::Branch && v.ref_value@ == b && v.commit_sha@ == "mock-sha"@
        && v.tarball_url@ == "https://api.github.com/repos/"@ + owner + "/"@ + repo + "/tarball/"@ + b
}

/// What a mock's fallback chain gives from position `i`.
pub open spec fn mock_chain_result(
    g: MockGitHubProvider,
    owner: Seq<char>,
    repo: Seq<char>,
    chain: Seq<String>,
    i: int,
    r: DepotResult<ResolvedVersion>,
) -> bool
    decreases chain.len() - i,
{
    let key = repo_key(owner, repo);
    let missing = listed(g.missing_repos@, key);
    if i < 0 || i >= chain.len() {
        r matches Err(DepotError::Package(m)) && m@ == "Could not resolve version"@
    } else if chain[i]@ == "release"@ {
        if !missing && first_stable(releases_of(g, key)) is Some {
            r matches Ok(v) && mock_release(v, releases_of(g, key)[first_stable(releases_of(g, key)).unwrap()])
        } else {
            mock_chain_result(g, owner, repo, chain, i + 1, r)
        }
    } else if chain[i]@ == "tag"@ {
        if !missing && tags_of(g, key).len() > 0 {
            r matches Ok(v) && mock_tag(v, tags_of(g, key)[0])
        } else {
            mock_chain_result(g, owner, repo, chain, i + 1, r)
        }
    } else if chain[i]@ == "branch"@ {
        if missing {
            r matches Err(DepotError::Package(m)) && m@ == "Repository not found: "@ + key
        } else {
            r matches Ok(v) && mock_branch(v, owner, repo, default_branch_of(g, key))
        }
    } else {
        mock_chain_result(g, owner, repo, chain, i + 1, r)
    }
}

/// What a mock's resolution of a version gives.
pub open spec fn mock_resolution(
    g: MockGitHubProvider,
    owner: Seq<char>,
    repo: Seq<char>,
    version_spec: Option<Seq<char>>,
    chain: Seq<String>,
    r: DepotResult<ResolvedVersion>,
) -> bool {
    let key = repo_key(owner, repo);
    let missing = listed(g.missing_repos@, key);
    if g.simulate_rate_limit {
        r matches Err(DepotError::Package(m)) && m@ == "API rate limit exceeded"@
    } else {
        match version_spec {
            Some(v) => if !missing && release_named(releases_of(g, key), v) is Some {
                r matches Ok(x) && mock_release(
                    x,
                    releases_of(g, key)[release_named(releases_of(g, key), v).unwrap()],
                )
            } else if !missing && tag_named(tags_of(g, key), v) is Some {
                r matches Ok(x) && mock_tag(x, tags_of(g, key)[tag_named(tags_of(g, key), v).unwrap()])
            } else {
                r matches Err(DepotError::Package(m)) && m@ == "Version "@ + v + " not found"@
            },
            None => mock_chain_result(g, owner, repo, chain, 0, r),
        }
    }
}

/// Whether two mocks hold the same data but for the field named.
pub open spec fn same_except_releases(a: MockGitHubProvider, b: MockGitHubProvider) -> bool {
    a.tags@ == b.tags@ && a.default_branches@ == b.default_branches@ && a.tarballs@ == b.tarballs@
        && a.file_contents@ == b.file_contents@ && a.simulate_rate_limit == b.simulate_rate_limit
        && a.missing_repos@ == b.missing_repos@
}

/// Whether `a` is a copy of the release `b`: the same fields, and assets
/// that hold the same entries.
pub open spec fn same_release(a: GitHubRelease, b: GitHubRelease) -> bool {
    &&& a.tag_name == b.tag_name
    &&& a.name == b.name
    &&& a.draft == b.draft
    &&& a.prerelease == b.prerelease
    &&& a.tarball_url == b.tarball_url
    &&& a.zipball_url == b.zipball_url
    &&& a.assets@ == b.assets@
    &&& a.body == b.body
    &&& a.published_at == b.published_at
}

/// Whether `a` is a copy of the releases `b`, entry by entry.
pub open spec fn copied_releases(a: Seq<GitHubRelease>, b: Seq<GitHubRelease>) -> bool {
    a.len() == b.len() && forall|i: int| 0 <= i < a.len() ==> same_release(#[trigger] a[i], b[i])
}

fn copy_opt(o: &Option<String>) -> (r: Option<String>)
    ensures
        r == *o,
{
    match o {
        Some(s) => Some(s.clone()),
        None => None,
    }
}

fn copy_asset(a: &ReleaseAsset) -> (r: ReleaseAsset)
    ensures
        r == *a,
{
    ReleaseAsset {
        name: a.name.clone(),
        browser_download_url: a.browser_download_url.clone(),
        size: a.size,
        content_type: a.content_type.clone(),
    }
}

fn copy_release(r: &GitHubRelease) -> (c: GitHubRelease)
    ensures
        same_release(c, *r),
{
    let mut assets: Vec<ReleaseAsset> = Vec::new();
    let mut i: usize = 0;
    while i < r.assets.len()
        invariant
            i <= r.assets.len(),
            assets@ == r.assets@.take(i as int),
        decreases r.assets.len() - i,
    {
        assets.push(copy_asset(&r.assets[i]));
        assert(assets@ =~= r.assets@.take(i as int + 1));
        i = i + 1;
    }
    assert(r.assets@.take(r.assets.len() as int) =~= r.assets@);
    GitHubRelease {
        tag_name: r.tag_name.clone(),
        name: copy_opt(&r.name),
        draft: r.draft,
        prerelease: r.prerelease,
        tarball_url: r.tarball_url.clone(),
        zipball_url: r.zipball_url.clone(),
        assets,
        body: copy_opt(&r.body),
        published_at: copy_opt(&r.published_at),
    }
}

fn copy_releases(rs: &Vec<GitHubRelease>) -> (r: Vec<GitHubRelease>)
    ensures
        copied_releases(r@, rs@),
{
    let mut r: Vec<GitHubRelease> = Vec::new();
    let mut i: usize = 0;
    while i < rs.len()
        invariant
            i <= rs.len(),
            copied_releases(r@, rs@.take(i as int)),
        decreases rs.len() - i,
    {
        r.push(copy_release(&rs[i]));
        i = i + 1;
    }
    assert(rs@.take(rs.len() as int) =~= rs@);
    r
}

fn copy_tags(ts: &Vec<GitHubTag>) -> (r: Vec<GitHubTag>)
    ensures
        r@ == ts@,
{
    let mut r: Vec<GitHubTag> = Vec::new();
    let mut i: usize = 0;
    while i < ts.len()
        invariant
            i <= ts.len(),
            r@ == ts@.take(i as int),
        decreases ts.len() - i,
    {
        let t = &ts[i];
        r.push(GitHubTag {
            name: t.name.clone(),
            commit: TagCommit { sha: t.commit.sha.clone(), url: t.commit.url.clone() },
            tarball_url: t.tarball_url.clone(),
            zipball_url: t.zipball_url.clone(),
        });
        assert(r@ =~= ts@.take(i as int + 1));
        i = i + 1;
    }
    assert(ts@.take(ts.len() as int) =~= ts@);
    r
}

fn key_of(owner: &str, repo: &str) -> (r: String)
    ensures
        r@ == repo_key(owner@, repo@),
{
    let mut v = chars_of(owner);
    push_str(&mut v, "/");
    push_str(&mut v, repo);
    string_from(&v)
}

fn find_stable(rs: &Vec<GitHubRelease>) -> (r: Option<usize>)
    ensures
        match r {
            Some(i) => i < rs.len() && first_stable(rs@) == Some(i as int),
            None => first_stable(rs@) is None,
        },
{
    let mut i: usize = 0;
    assert(rs@.take(0) =~= Seq::<GitHubRelease>::empty());
    while i < rs.len()
        invariant
            i <= rs.len(),
            first_stable(rs@.take(i as int)) is None,
        decreases rs.len() - i,
    {
        assert(rs@.take(i as int + 1).drop_last() =~= rs@.take(i as int));
        if !rs[i].draft && !rs[i].prerelease {
            proof { lemma_stable_prefix(rs@, i as int + 1); }
            return Some(i);
        }
        i = i + 1;
    }
    assert(rs@.take(rs.len() as int) =~= rs@);
    None
}

proof fn lemma_stable_prefix(rs: Seq<GitHubRelease>, n: int)
    requires
        0 < n <= rs.len(),
        first_stable(rs.take(n)) is Some,
    ensures
        first_stable(rs) == first_stable(rs.take(n)),
    decreases rs.len() - n,
{
    if n < rs.len() {
        assert(rs.take(n + 1).drop_last() =~= rs.take(n));
        lemma_stable_prefix(rs, n + 1);
    } else {
        assert(rs.take(n) =~= rs);
    }
}

fn mock_release_of(r: &GitHubRelease) -> (v: ResolvedVersion)
    ensures
        mock_release(v, *r),
{
    ResolvedVersion {
        ref_type: RefType::Release,
        ref_value: r.tag_name.clone(),
        commit_sha: string_of("mock-sha"),
        tarball_url: r.tarball_url.clone(),
    }
}

fn mock_tag_of(t: &GitHubTag) -> (v: ResolvedVersion)
    ensures
        mock_tag(v, *t),
{
    ResolvedVersion {
        ref_type: RefType::Tag,
        ref_value: t.name.clone(),
        commit_sha: t.commit.sha.clone(),
        tarball_url: t.tarball_url.clone(),
    }
}

fn package_error(m: String) -> (e: DepotError)
    ensures
        e matches DepotError::Package(x) && x@ == m@,
{
    DepotError::Package(m)
}

impl MockGitHubProvider {
    /// Create a new mock GitHub provider
    pub fn new() -> (r: Self)
        ensures
            r.releases@ == Map::<Seq<char>, Seq<GitHubRelease>>::empty(),
            r.tags@ == Map::<Seq<char>, Seq<GitHubTag>>::empty(),
            r.default_branches@ == Map::<Seq<char>, Seq<char>>::empty(),
            r.tarballs@ == Map::<Seq<char>, Seq<char>>::empty(),
            r.file_contents@ == Map::<Seq<char>, Seq<char>>::empty(),
            !r.simulate_rate_limit,
            r.missing_repos@.len() == 0,
    {
        MockGitHubProvider {
            releases: Store::new(),
            tags: Store::new(),
            default_branches: Store::new(),
            tarballs: Store::new(),
            file_contents: Store::new(),
            simulate_rate_limit: false,
            missing_repos: Vec::new(),
        }
    }

    /// Add a release for a repository
    pub fn add_release(&mut self, owner: &str, repo: &str, release: GitHubRelease)
        ensures
            final(self).releases@ == old(self).releases@.insert(
                repo_key(owner@, repo@),
                releases_of(*old(self), repo_key(owner@, repo@)).push(release),
            ),
            same_except_releases(*old(self), *final(self)),
    {
        let key = key_of(owner, repo);
        let mut list = match self.releases.replace(key.clone(), Vec::new()) {
            Some(l) => l,
            None => Vec::new(),
        };
        list.push(release);
        self.releases.insert(key, list);
    }

    /// Add a tag for a repository
    pub fn add_tag(&mut self, owner: &str, repo: &str, tag: GitHubTag)
        ensures
            final(self).tags@ == old(self).tags@.insert(
                repo_key(owner@, repo@),
                tags_of(*old(self), repo_key(owner@, repo@)).push(tag),
            ),
            final(self).releases@ == old(self).releases@,
            final(self).default_branches@ == old(self).default_branches@,
            final(self).missing_repos@ == old(self).missing_repos@,
            final(self).simulate_rate_limit == old(self).simulate_rate_limit,
    {
        let key = key_of(owner, repo);
        let mut list = match self.tags.replace(key.clone(), Vec::new()) {
            Some(l) => l,
            None => Vec::new(),
        };
        list.push(tag);
        self.tags.insert(key, list);
    }

    /// Set the default branch for a repository
    pub fn set_default_branch(&mut self, owner: &str, repo: &str, branch: String)
        ensures
            final(self).default_branches@ == old(self).default_branches@.insert(
                repo_key(owner@, repo@),
                branch@,
            ),
            final(self).releases@ == old(self).releases@,
            final(self).tags@ == old(self).tags@,
            final(self).missing_repos@ == old(self).missing_repos@,
            final(self).simulate_rate_limit == old(self).simulate_rate_limit,
    {
        let key = key_of(owner, repo);
        self.default_branches.insert(key, branch);
    }

    /// Add a tarball download path
    pub fn add_tarball(&mut self, owner: &str, repo: &str, ref_: &str, path: String)
        ensures
            final(self).tarballs@ == old(self).tarballs@.insert(
                repo_key(owner@, repo@) + "/"@ + ref_@,
                path@,
            ),
            final(self).releases@ == old(self).releases@,
            final(self).tags@ == old(self).tags@,
            final(self).simulate_rate_limit == old(self).simulate_rate_limit,
    {
        let mut v = chars_of(owner);
        push_str(&mut v, "/");
        push_str(&mut v, repo);
        push_str(&mut v, "/");
        push_str(&mut v, ref_);
        self.tarballs.insert(string_from(&v), path);
    }

    /// Add file content for a repository file
    pub fn add_file_content(&mut self, owner: &str, repo: &str, path: &str, ref_: &str, content: String)
        ensures
            final(self).file_contents@ == old(self).file_contents@.insert(
                repo_key(owner@, repo@) + "/"@ + path@ + "@"@ + ref_@,
                content@,
            ),
            final(self).releases@ == old(self).releases@,
            final(self).tags@ == old(self).tags@,
            final(self).simulate_rate_limit == old(self).simulate_rate_limit,
    {
        let mut v = chars_of(owner);
        push_str(&mut v, "/");
        push_str(&mut v, repo);
        push_str(&mut v, "/");
        push_str(&mut v, path);
        push_str(&mut v, "@");
        push_str(&mut v, ref_);
        self.file_contents.insert(string_from(&v), content);
    }

    /// Mark a repository as missing (returns 404)
    pub fn add_missing_repo(&mut self, owner: &str, repo: &str)
        ensures
            final(self).missing_repos@.len() == old(self).missing_repos@.len() + 1,
            final(self).missing_repos@.drop_last() == old(self).missing_repos@,
            final(self).missing_repos@.last()@ == repo_key(owner@, repo@),
            final(self).releases@ == old(self).releases@,
            final(self).tags@ == old(self).tags@,
            final(self).default_branches@ == old(self).default_branches@,
            final(self).simulate_rate_limit == old(self).simulate_rate_limit,
    {
        let key = key_of(owner, repo);
        self.missing_repos.push(key);
        assert(self.missing_repos@.drop_last() =~= old(self).missing_repos@);
    }

    /// Builder pattern: simulate rate limit errors
    pub fn with_rate_limit(self) -> (r: Self)
        ensures
            r.simulate_rate_limit,
            r.releases@ == self.releases@,
            r.tags@ == self.tags@,
            r.default_branches@ == self.default_branches@,
            r.tarballs@ == self.tarballs@,
            r.file_contents@ == self.file_contents@,
            r.missing_repos@ == self.missing_repos@,
    {
        let mut s = self;
        s.simulate_rate_limit = true;
        s
    }

    /// Get the releases of a repository (none when none were added).
    pub fn get_releases(&self, owner: &str, repo: &str) -> (r: DepotResult<Vec<GitHubRelease>>)
        ensures
            if self.simulate_rate_limit {
                r matches Err(DepotError::Package(m)) && m@ == "API rate limit exceeded"@
            } else if listed(self.missing_repos@, repo_key(owner@, repo@)) {
                r matches Err(DepotError::Package(m)) && m@ == "Repository not found: "@ + repo_key(
                    owner@,
                    repo@,
                )
            } else {
                r matches Ok(v) && copied_releases(v@, releases_of(*self, repo_key(owner@, repo@)))
            },
    {
        if self.simulate_rate_limit {
            return Err(DepotError::Package(string_of("API rate limit exceeded")));
        }
        let key = key_of(owner, repo);
        if is_listed(&self.missing_repos, key.as_str()) {
            return Err(package_error(prefixed("Repository not found: ", key.as_str())));
        }
        match self.releases.get(key.as_str()) {
            Some(rs) => Ok(copy_releases(rs)),
            None => {
                let v: Vec<GitHubRelease> = Vec::new();
                assert(copied_releases(v@, Seq::<GitHubRelease>::empty()));
                Ok(v)
            },
        }
    }

    /// Get the latest release of a repository: its first release that is
    /// neither a draft nor a prerelease.
    pub fn get_latest_release(&self, owner: &str, repo: &str) -> (r: DepotResult<GitHubRelease>)
        ensures
            if self.simulate_rate_limit {
                r matches Err(DepotError::Package(m)) && m@ == "API rate limit exceeded"@
            } else if listed(self.missing_repos@, repo_key(owner@, repo@)) {
                r matches Err(DepotError::Package(m)) && m@ == "Repository not found: "@ + repo_key(
                    owner@,
                    repo@,
                )
            } else {
                match first_stable(releases_of(*self, repo_key(owner@, repo@))) {
                    Some(i) => r matches Ok(x) && same_release(
                        x,
                        releases_of(*self, repo_key(owner@, repo@))[i],
                    ),
                    None => r matches Err(DepotError::Package(m)) && m@ == "No releases found"@,
                }
            },
    {
        let releases = match self.get_releases(owner, repo) {
            Ok(v) => v,
            Err(e) => return Err(e),
        };
        let ghost rs = releases_of(*self, repo_key(owner@, repo@));
        let mut i: usize = 0;
        while i < releases.len()
            invariant
                i <= releases.len(),
                copied_releases(releases@, rs),
                rs == releases_of(*self, repo_key(owner@, repo@)),
                !self.simulate_rate_limit,
                !listed(self.missing_repos@, repo_key(owner@, repo@)),
                first_stable(rs.take(i as int)) is None,
            decreases releases.len() - i,
        {
            proof {
                assert(rs.take(i as int + 1).drop_last() =~= rs.take(i as int));
                assert(rs.take(i as int + 1).last() == rs[i as int]);
                assert(same_release(releases@[i as int], rs[i as int]));
            }
            if !releases[i].draft && !releases[i].prerelease {
                proof {
                    assert(first_stable(rs.take(i as int + 1)) == Some(i as int));
                    lemma_stable_prefix(rs, i as int + 1);
                }
                let found = copy_release(&releases[i]);
                assert(same_release(found, rs[i as int]));
                return Ok(found);
            }
            i = i + 1;
        }
        proof {
            assert(rs.take(rs.len() as int) =~= rs);
        }
        Err(DepotError::Package(string_of("No releases found")))
    }

    /// Get the tags of a repository (none when none were added).
    pub fn get_tags(&self, owner: &str, repo: &str) -> (r: DepotResult<Vec<GitHubTag>>)
        ensures
            if self.simulate_rate_limit {
                r matches Err(DepotError::Package(m)) && m@ == "API rate limit exceeded"@
            } else if listed(self.missing_repos@, repo_key(owner@, repo@)) {
                r matches Err(DepotError::Package(m)) && m@ == "Repository not found: "@ + repo_key(
                    owner@,
                    repo@,
                )
            } else {
                r matches Ok(v) && v@ == tags_of(*self, repo_key(owner@, repo@))
            },
    {
        if self.simulate_rate_limit {
            return Err(DepotError::Package(string_of("API rate limit exceeded")));
        }
        let key = key_of(owner, repo);
        if is_listed(&self.missing_repos, key.as_str()) {
            return Err(package_error(prefixed("Repository not found: ", key.as_str())));
        }
        match self.tags.get(key.as_str()) {
            Some(ts) => Ok(copy_tags(ts)),
            None => {
                let v: Vec<GitHubTag> = Vec::new();
                assert(v@ =~= Seq::<GitHubTag>::empty());
                Ok(v)
            },
        }
    }

    /// Get the default branch for a repository
    pub fn get_default_branch(&self, owner: &str, repo: &str) -> (r: DepotResult<String>)
        ensures
            if self.simulate_rate_limit {
                r matches Err(DepotError::Package(m)) && m@ == "API rate limit exceeded"@
            } else if listed(self.missing_repos@, repo_key(owner@, repo@)) {
                r matches Err(DepotError::Package(m)) && m@ == "Repository not found: "@ + repo_key(
                    owner@,
                    repo@,
                )
            } else {
                r matches Ok(b) && b@ == default_branch_of(*self, repo_key(owner@, repo@))
            },
    {
        if self.simulate_rate_limit {
            return Err(DepotError::Package(string_of("API rate limit exceeded")));
        }
        let key = key_of(owner, repo);
        if is_listed(&self.missing_repos, key.as_str()) {
            return Err(package_error(prefixed("Repository not found: ", key.as_str())));
        }
        match self.default_branches.get(key.as_str()) {
            Some(b) => Ok(b.clone()),
            None => Ok(string_of("main")),
        }
    }

    /// Get file content from a repository at a specific ref
    pub fn get_file_content(&self, owner: &str, repo: &str, path: &str, ref_: &str) -> (r:
        DepotResult<String>)
        ensures
            ({
                let key = repo_key(owner@, repo@) + "/"@ + path@ + "@"@ + ref_@;
                if self.simulate_rate_limit {
                    r matches Err(DepotError::Package(m)) && m@ == "API rate limit exceeded"@
                } else if self.file_contents@.contains_key(key) {
                    r matches Ok(c) && c@ == self.file_contents@[key]
                } else {
                    r matches Err(DepotError::Package(m)) && m@ == "File not found: "@ + path@
                }
            }),
    {
        if self.simulate_rate_limit {
            return Err(DepotError::Package(string_of("API rate limit exceeded")));
        }
        let mut v = chars_of(owner);
        push_str(&mut v, "/");
        push_str(&mut v, repo);
        push_str(&mut v, "/");
        push_str(&mut v, path);
        push_str(&mut v, "@");
        push_str(&mut v, ref_);
        let key = string_from(&v);
        match self.file_contents.get(key.as_str()) {
            Some(c) => Ok(c.clone()),
            None => Err(package_error(prefixed("File not found: ", path))),
        }
    }

    /// Download a tarball for a specific ref: the path it was stored at.
    pub fn download_tarball(&self, owner: &str, repo: &str, ref_: &str) -> (r: DepotResult<String>)
        ensures
            ({
                let key = repo_key(owner@, repo@) + "/"@ + ref_@;
                if self.simulate_rate_limit {
                    r matches Err(DepotError::Package(m)) && m@ == "API rate limit exceeded"@
                } else if self.tarballs@.contains_key(key) {
                    r matches Ok(p) && p@ == self.tarballs@[key]
                } else {
                    r matches Err(DepotError::Package(m)) && m@ == "Tarball not found for ref: "@
                        + ref_@
                }
            }),
    {
        if self.simulate_rate_limit {
            return Err(DepotError::Package(string_of("API rate limit exceeded")));
        }
        let mut v = chars_of(owner);
        push_str(&mut v, "/");
        push_str(&mut v, repo);
        push_str(&mut v, "/");
        push_str(&mut v, ref_);
        let key = string_from(&v);
        match self.tarballs.get(key.as_str()) {
            Some(p) => Ok(p.clone()),
            None => Err(package_error(prefixed("Tarball not found for ref: ", ref_))),
        }
    }

    fn chain_from(&self, owner: &str, repo: &str, chain: &[String], i: usize) -> (r: DepotResult<
        ResolvedVersion,
    >)
        requires
            i <= chain.len(),
        ensures
            mock_chain_result(*self, owner@, repo@, chain@, i as int, r),
        decreases chain.len() - i,
    {
        if i >= chain.len() {
            return Err(DepotError::Package(string_of("Could not resolve version")));
        }
        let key = key_of(owner, repo);
        let missing = is_listed(&self.missing_repos, key.as_str());
        let strategy = chain[i].as_str();
        if str_eq(strategy, "release") {
            if !missing {
                match self.releases.get(key.as_str()) {
                    Some(rs) => match find_stable(rs) {
                        Some(k) => return Ok(mock_release_of(&rs[k])),
                        None => {},
                    },
                    None => {
                        assert(first_stable(Seq::<GitHubRelease>::empty()) is None);
                    },
                }
            }
            self.chain_from(owner, repo, chain, i + 1)
        } else if str_eq(strategy, "tag") {
            if !missing {
                match self.tags.get(key.as_str()) {
                    Some(ts) => if ts.len() > 0 {
                        return Ok(mock_tag_of(&ts[0]));
                    },
                    None => {},
                }
            }
            self.chain_from(owner, repo, chain, i + 1)
        } else if str_eq(strategy, "branch") {
            if missing {
                return Err(package_error(prefixed("Repository not found: ", key.as_str())));
            }
            let b = match self.default_branches.get(key.as_str()) {
                Some(b) => b.clone(),
                None => string_of("main"),
            };
            let mut url = chars_of("https://api.github.com/repos/");
            push_str(&mut url, owner);
            push_str(&mut url, "/");
            push_str(&mut url, repo);
            push_str(&mut url, "/tarball/");
            push_str(&mut url, b.as_str());
            Ok(
                ResolvedVersion {
                    ref_type: RefType::Branch,
                    ref_value: b,
                    commit_sha: string_of("mock-sha"),
                    tarball_url: string_from(&url),
                },
            )
        } else {
            self.chain_from(owner, repo, chain, i + 1)
        }
    }

    /// Resolve a version: a requested version among the releases and then
    /// the tags, or else the strategies of the fallback chain in order.
    pub fn resolve_version(
        &self,
        owner: &str,
        repo: &str,
        version_spec: Option<&str>,
        fallback_chain: &[String],
    ) -> (r: DepotResult<ResolvedVersion>)
        ensures
            mock_resolution(
                *self,
                owner@,
                repo@,
                match version_spec {
                    Some(v) => Some(v@),
                    None => None,
                },
                fallback_chain@,
                r,
            ),
    {
        if self.simulate_rate_limit {
            return Err(DepotError::Package(string_of("API rate limit exceeded")));
        }
        match version_spec {
            Some(version) => {
                let key = key_of(owner, repo);
                let missing = is_listed(&self.missing_repos, key.as_str());
                if !missing {
                    match self.releases.get(key.as_str()) {
                        Some(rs) => match crate::github::find_release(rs, version) {
                            Some(k) => return Ok(mock_release_of(&rs[k])),
                            None => {},
                        },
                        None => {
                            assert(release_named(Seq::<GitHubRelease>::empty(), version@) is None);
                        },
                    }
                    match self.tags.get(key.as_str()) {
                        Some(ts) => match crate::github::find_tag(ts, version) {
                            Some(k) => return Ok(mock_tag_of(&ts[k])),
                            None => {},
                        },
                        None => {
                            assert(tag_named(Seq::<GitHubTag>::empty(), version@) is None);
                        },
                    }
                }
                let mut m = chars_of("Version ");
                push_str(&mut m, version);
                push_str(&mut m, " not found");
                Err(package_error(string_from(&m)))
            },
            None => self.chain_from(owner, repo, fallback_chain, 0),
        }
    }
}

impl Default for MockGitHubProvider {
    fn default() -> (r: Self)
        ensures
            r.releases@ == Map::<Seq<char>, Seq<GitHubRelease>>::empty(),
            r.tags@ == Map::<Seq<char>, Seq<GitHubTag>>::empty(),
            !r.simulate_rate_limit,
            r.missing_repos@.len() == 0,
    {
        Self::new()
    }
}

} // verus!

verus! {

/// What a read gives back of a write: once `write(path, data)` has
/// succeeded on a mock cache that lets `path` be read, reading `path` gives
/// `data` and its checksum is the checksum of `data`; every other path
/// reads as before.
pub proof fn lemma_mock_read_after_write(
    before: MockCacheProvider,
    after: MockCacheProvider,
    path: Seq<char>,
    data: Seq<u8>,
)
    requires
        after.files() == before.files().insert(path, data),
        after.simulate_io_error == before.simulate_io_error,
        after.deny_read_access@ == before.deny_read_access@,
        !before.simulate_io_error,
        !listed(before.deny_read_access@, path),
    ensures
        readable(after, path),
        after.files()[path] == data,
        blake3_checksum(after.files()[path]) == blake3_checksum(data),
        forall|q: Seq<char>|
            q != path ==> readable(after, q) == readable(before, q) && (readable(before, q)
                ==> #[trigger] after.files()[q] == before.files()[q]),
{
}

} // verus!
