//! The package cache: where rockspecs, sources and Rust builds are kept,
//! and the checksums that guard them.
use vstd::prelude::*;
use crate::digest::{blake3_hex, blake3_of, hex_encode, hex_text, sha256_digest, sha256_of};
use crate::error::{DepotError, DepotResult};
use crate::paths::{cache_dir, extension, extension_of, join_path, path_join};
use crate::text::{
    chars_of, contains_seq, contains_str, find_first, find_first_char, push_chars, push_str,
    replace_char, replace_chars, slice_chars, starts_with, starts_with_str, string_from, string_of,
};

verus! {

/// Checksum algorithm for verifying package integrity
#[derive(Debug, Clone, Copy, PartialEq, Eq, Structural)]
pub enum ChecksumAlgorithm {
    /// SHA-256 (legacy, for backward compatibility)
    Sha256,
    /// BLAKE3 (default, faster and more secure)
    Blake3,
}

impl Default for ChecksumAlgorithm {
    fn default() -> (r: Self)
        ensures
            r == ChecksumAlgorithm::Blake3,
    {
        ChecksumAlgorithm::Blake3
    }
}

/// The algorithm that a prefixed checksum names; BLAKE3 when it has no
/// known prefix.
pub open spec fn algorithm_of(checksum: Seq<char>) -> ChecksumAlgorithm {
    if starts_with(checksum, "blake3:"@) {
        ChecksumAlgorithm::Blake3
    } else if starts_with(checksum, "sha256:"@) {
        ChecksumAlgorithm::Sha256
    } else {
        ChecksumAlgorithm::Blake3
    }
}

impl ChecksumAlgorithm {
    /// Parse algorithm from a prefixed checksum string
    pub fn from_checksum(checksum: &str) -> (r: Self)
        ensures
            r == algorithm_of(checksum@),
    {
        let v = chars_of(checksum);
        if starts_with_str(v.as_slice(), "blake3:") {
            ChecksumAlgorithm::Blake3
        } else if starts_with_str(v.as_slice(), "sha256:") {
            ChecksumAlgorithm::Sha256
        } else {
            ChecksumAlgorithm::Blake3
        }
    }
}

/// The checksum text of some content: the algorithm's prefix and the
/// lowercase hexadecimal digest.
pub open spec fn checksum_text(data: Seq<u8>, algorithm: ChecksumAlgorithm) -> Seq<char> {
    match algorithm {
        ChecksumAlgorithm::Sha256 => "sha256:"@ + hex_text(sha256_of(data)),
        ChecksumAlgorithm::Blake3 => "blake3:"@ + hex_text(blake3_of(data)),
    }
}

/// A checksum without its prefix: what follows the first `:`, or all of it.
pub open spec fn checksum_digest(c: Seq<char>) -> Seq<char> {
    match find_first(c, ':') {
        Some(i) => c.skip(i + 1),
        None => c,
    }
}

/// The library file name of a Rust build for a target.
pub open spec fn build_file_name(package: Seq<char>, target: Seq<char>) -> Seq<char> {
    "lib"@ + replace_char(package, '-', '_') + "."@ + if contains_seq(target, "windows"@) {
        "dll"@
    } else if contains_seq(target, "darwin"@) || contains_seq(target, "apple"@) {
        "dylib"@
    } else {
        "so"@
    }
}

/// Package cache manager
#[derive(Debug, Clone)]
pub struct Cache {
    root: String,
}

/// Result of cache cleaning operation
#[derive(Debug, Clone, Copy, PartialEq, Eq, Structural)]
pub struct CacheCleanResult {
    pub files_removed: usize,
    pub bytes_freed: u64,
}

impl Default for CacheCleanResult {
    fn default() -> (r: Self)
        ensures
            r.files_removed == 0,
            r.bytes_freed == 0,
    {
        CacheCleanResult { files_removed: 0, bytes_freed: 0 }
    }
}

impl CacheCleanResult {
    /// Add the counts of another result to this one.
    pub fn add_assign(&mut self, other: Self)
        requires
            old(self).files_removed + other.files_removed <= usize::MAX,
            old(self).bytes_freed + other.bytes_freed <= u64::MAX,
        ensures
            final(self).files_removed == old(self).files_removed + other.files_removed,
            final(self).bytes_freed == old(self).bytes_freed + other.bytes_freed,
    {
        self.files_removed = self.files_removed + other.files_removed;
        self.bytes_freed = self.bytes_freed + other.bytes_freed;
    }
}

impl Cache {
    /// The root directory of the cache.
    pub closed spec fn root_path(&self) -> Seq<char> {
        self.root@
    }

    /// A cache rooted at `cache_root` (the caller makes sure the directory
    /// exists).
    pub fn new(cache_root: String) -> (r: Self)
        ensures
            r.root_path() == cache_root@,
    {
        Cache { root: cache_root }
    }

    /// The cache in the user's cache directory.
    pub fn default_cache() -> (r: DepotResult<Self>)
        ensures
            match r {
                Ok(c) => exists|d: Seq<char>| c.root_path() == path_join(d, "depot"@),
                Err(e) => e matches DepotError::Path(m) && m@
                    == "Could not determine cache directory"@,
            },
    {
        match cache_dir() {
            Ok(d) => Ok(Cache::new(d)),
            Err(e) => Err(e),
        }
    }

    /// The root directory of the cache.
    pub fn root(&self) -> (r: &str)
        ensures
            r@ == self.root_path(),
    {
        self.root.as_str()
    }

    /// Get the LuaRocks cache directory
    pub fn luarocks_dir(&self) -> (r: String)
        ensures
            r@ == path_join(self.root_path(), "luarocks"@),
    {
        join_path(self.root.as_str(), "luarocks")
    }

    /// Get the rockspecs cache directory
    pub fn rockspecs_dir(&self) -> (r: String)
        ensures
            r@ == path_join(path_join(self.root_path(), "luarocks"@), "rockspecs"@),
    {
        let d = self.luarocks_dir();
        join_path(d.as_str(), "rockspecs")
    }

    /// Get the sources cache directory
    pub fn sources_dir(&self) -> (r: String)
        ensures
            r@ == path_join(path_join(self.root_path(), "luarocks"@), "sources"@),
    {
        let d = self.luarocks_dir();
        join_path(d.as_str(), "sources")
    }

    /// Get the Rust builds cache directory
    pub fn rust_builds_dir(&self) -> (r: String)
        ensures
            r@ == path_join(self.root_path(), "rust-builds"@),
    {
        join_path(self.root.as_str(), "rust-builds")
    }

    /// The directories of the cache's layout, in the order initializing the
    /// cache creates them.
    pub fn init(&self) -> (r: Vec<String>)
        ensures
            r@.len() == 4,
            r@[0]@ == path_join(self.root_path(), "luarocks"@),
            r@[1]@ == path_join(path_join(self.root_path(), "luarocks"@), "rockspecs"@),
            r@[2]@ == path_join(path_join(self.root_path(), "luarocks"@), "sources"@),
            r@[3]@ == path_join(self.root_path(), "rust-builds"@),
    {
        vec![self.luarocks_dir(), self.rockspecs_dir(), self.sources_dir(), self.rust_builds_dir()]
    }

    /// Get the cached path for a rockspec file
    pub fn rockspec_path(&self, package: &str, version: &str) -> (r: String)
        ensures
            r@ == path_join(
                path_join(path_join(self.root_path(), "luarocks"@), "rockspecs"@),
                package@ + "-"@ + version@ + ".rockspec"@,
            ),
    {
        let mut name = chars_of(package);
        push_str(&mut name, "-");
        push_str(&mut name, version);
        push_str(&mut name, ".rockspec");
        let d = self.rockspecs_dir();
        let n = string_from(&name);
        join_path(d.as_str(), n.as_str())
    }

    /// Get the cached path for a source archive: the hexadecimal text of the
    /// first 16 bytes of the URL's SHA-256 digest, with the URL's extension
    /// or "tar.gz".
    pub fn source_path(&self, url: &str) -> (r: String)
        ensures
            r@ == path_join(
                path_join(path_join(self.root_path(), "luarocks"@), "sources"@),
                url_hash(url@) + "."@ + match extension(url@) {
                    Some(e) => e,
                    None => "tar.gz"@,
                },
            ),
    {
        let hash = Self::url_hash(url);
        let mut name = chars_of(hash.as_str());
        push_str(&mut name, ".");
        match extension_of(url) {
            Some(e) => push_chars(&mut name, e.as_slice()),
            None => push_str(&mut name, "tar.gz"),
        }
        let d = self.sources_dir();
        let n = string_from(&name);
        join_path(d.as_str(), n.as_str())
    }

    /// Hash a URL for use as a filename
    fn url_hash(url: &str) -> (r: String)
        ensures
            r@ == url_hash(url@),
    {
        let digest = sha256_digest(url.as_bytes());
        let mut first: Vec<u8> = Vec::new();
        let mut i: usize = 0;
        while i < 16
            invariant
                i <= 16,
                digest@.len() == 32,
                first@ == digest@.take(i as int),
            decreases 16 - i,
        {
            first.push(digest[i]);
            assert(first@ =~= digest@.take(i as int + 1));
            i = i + 1;
        }
        hex_encode(first.as_slice())
    }

    /// Calculate the checksum of some content using the specified algorithm
    pub fn checksum_with_algorithm(data: &[u8], algorithm: ChecksumAlgorithm) -> (r: String)
        ensures
            r@ == checksum_text(data@, algorithm),
            r@.len() == 71,
    {
        match algorithm {
            ChecksumAlgorithm::Sha256 => {
                let digest = sha256_digest(data);
                let h = hex_encode(digest.as_slice());
                proof {
                    crate::digest::lemma_hex_text_len(digest@);
                    reveal_strlit("sha256:");
                }
                let mut v = chars_of("sha256:");
                push_str(&mut v, h.as_str());
                string_from(&v)
            },
            ChecksumAlgorithm::Blake3 => {
                let h = blake3_hex(data);
                proof {
                    reveal_strlit("blake3:");
                }
                let mut v = chars_of("blake3:");
                push_str(&mut v, h.as_str());
                string_from(&v)
            },
        }
    }

    /// Calculate the checksum of some content (BLAKE3)
    pub fn checksum(data: &[u8]) -> (r: String)
        ensures
            r@ == checksum_text(data@, ChecksumAlgorithm::Blake3),
            r@.len() == 71,
    {
        Self::checksum_with_algorithm(data, ChecksumAlgorithm::default())
    }

    /// Whether content matches an expected checksum, computed with the
    /// algorithm that the checksum's prefix names; the digests are compared
    /// without their prefixes.
    pub fn verify_checksum(data: &[u8], expected: &str) -> (r: bool)
        ensures
            r == (checksum_digest(expected@) == checksum_digest(
                checksum_text(data@, algorithm_of(expected@)),
            )),
    {
        let algorithm = ChecksumAlgorithm::from_checksum(expected);
        let actual = Self::checksum_with_algorithm(data, algorithm);
        let e = chars_of(expected);
        let a = chars_of(actual.as_str());
        let eh = digest_part(e.as_slice());
        let ah = digest_part(a.as_slice());
        crate::text::seq_eq(eh.as_slice(), ah.as_slice())
    }

    /// The directories that cleaning goes through, in order: rockspecs,
    /// sources and Rust builds.
    pub fn clean_directories(&self) -> (r: Vec<String>)
        ensures
            r@.len() == 3,
            r@[0]@ == path_join(path_join(self.root_path(), "luarocks"@), "rockspecs"@),
            r@[1]@ == path_join(path_join(self.root_path(), "luarocks"@), "sources"@),
            r@[2]@ == path_join(self.root_path(), "rust-builds"@),
    {
        let mut r: Vec<String> = Vec::new();
        r.push(self.rockspecs_dir());
        r.push(self.sources_dir());
        r.push(self.rust_builds_dir());
        r
    }

    /// Get the cache path for a Rust build, including Lua version:
    /// `rust-builds/{package}/{version}/{lua_version}/{target}/lib{name}.{ext}`.
    pub fn rust_build_path(&self, package: &str, version: &str, lua_version: &str, target: &str) -> (r:
        String)
        ensures
            r@ == path_join(
                path_join(
                    path_join(
                        path_join(path_join(path_join(self.root_path(), "rust-builds"@), package@), version@),
                        lua_version@,
                    ),
                    target@,
                ),
                build_file_name(package@, target@),
            ),
    {
        let d0 = self.rust_builds_dir();
        let d1 = join_path(d0.as_str(), package);
        let d2 = join_path(d1.as_str(), version);
        let d3 = join_path(d2.as_str(), lua_version);
        let dir = join_path(d3.as_str(), target);
        let t = chars_of(target);
        let ext = if contains_str(t.as_slice(), "windows") {
            "dll"
        } else if contains_str(t.as_slice(), "darwin") || contains_str(t.as_slice(), "apple") {
            "dylib"
        } else {
            "so"
        };
        let mut name = chars_of("lib");
        let p = chars_of(package);
        let pr = replace_chars(p.as_slice(), '-', '_');
        push_chars(&mut name, pr.as_slice());
        push_str(&mut name, ".");
        push_str(&mut name, ext);
        let n = string_from(&name);
        proof {
            reveal_strlit("dll");
            reveal_strlit("dylib");
            reveal_strlit("so");
        }
        join_path(dir.as_str(), n.as_str())
    }
}

/// The file name that a URL's hash gives: the lowercase hexadecimal text of
/// the first 16 bytes of the SHA-256 digest of its UTF-8 bytes.
pub open spec fn url_hash(url: Seq<char>) -> Seq<char> {
    hex_text(sha256_of(vstd::utf8::encode_utf8(url)).take(16))
}

/// What follows the first `:` of a checksum, or all of it.
fn digest_part(c: &[char]) -> (r: Vec<char>)
    ensures
        r@ == checksum_digest(c@),
{
    match find_first_char(c, ':') {
        Some(i) => slice_chars(c, i + 1, c.len()),
        None => slice_chars(c, 0, c.len()),
    }
}

} // verus!

verus! {

/// A checksum verifies the content it was made of: the algorithm named by
/// the prefix of `Cache::checksum_with_algorithm(data, algorithm)` is
/// `algorithm`, so `Cache::verify_checksum(data, &that)` returns true.
pub proof fn lemma_checksum_verifies(data: Seq<u8>, algorithm: ChecksumAlgorithm)
    ensures
        algorithm_of(checksum_text(data, algorithm)) == algorithm,
        checksum_digest(checksum_text(data, algorithm)) == checksum_digest(
            checksum_text(data, algorithm_of(checksum_text(data, algorithm))),
        ),
{
    let c = checksum_text(data, algorithm);
    reveal_strlit("blake3:");
    reveal_strlit("sha256:");
    match algorithm {
        ChecksumAlgorithm::Blake3 => {
            assert(c.take(7) =~= "blake3:"@);
        },
        ChecksumAlgorithm::Sha256 => {
            assert(c.take(7) =~= "sha256:"@);
            assert(c[0] != "blake3:"@[0]);
            assert(c.take(7) != "blake3:"@);
        },
    }
}

} // verus!
