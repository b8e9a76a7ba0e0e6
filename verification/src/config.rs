//! User configuration and its defaults.
use vstd::prelude::*;
use crate::error::{DepotError, DepotResult};
use crate::paths::{cache_dir, path_join};
use crate::store::Store;
use crate::text::{string_of, texts};

verus! {

/// The configuration of the package manager.
#[derive(Debug)]
pub struct Config {
    /// Cache directory (defaults to the platform's cache directory)
    pub cache_dir: Option<String>,
    /// Whether to verify checksums on install
    pub verify_checksums: bool,
    /// Whether to show diffs on update
    pub show_diffs_on_update: bool,
    /// Default Lua binary source URL
    pub lua_binary_source_url: Option<String>,
    /// Per-version Lua binary source URLs
    pub lua_binary_sources: Option<Store<String>>,
    /// Resolution strategy for selecting package versions: "highest" or
    /// "lowest"
    pub resolution_strategy: String,
    /// Checksum algorithm for package verification: "blake3" or "sha256"
    pub checksum_algorithm: String,
    /// Override for supported Lua versions
    pub supported_lua_versions: Option<Vec<String>>,
    /// Enable strict conflict detection mode
    pub strict_conflicts: bool,
    /// GitHub configuration for package sources
    pub github: GitHubConfig,
    /// Enable strict native code warnings
    pub strict_native_code: bool,
    /// Custom global installation path
    pub global_install_path: Option<String>,
}

/// GitHub configuration
#[derive(Debug, Clone)]
pub struct GitHubConfig {
    /// GitHub API URL
    pub api_url: String,
    /// GitHub Personal Access Token for increased rate limits
    pub token: Option<String>,
    /// Fallback chain for version resolution
    pub fallback_chain: Vec<String>,
}

/// The default fallback chain: release, then tag, then branch.
pub open spec fn default_chain() -> Seq<Seq<char>> {
    seq!["release"@, "tag"@, "branch"@]
}

/// The default checksum algorithm: "blake3".
pub fn default_checksum_algorithm() -> (r: String)
    ensures
        r@ == "blake3"@,
{
    string_of("blake3")
}

/// The default resolution strategy: "highest".
pub fn default_resolution_strategy() -> (r: String)
    ensures
        r@ == "highest"@,
{
    string_of("highest")
}

/// The default GitHub API URL.
pub fn default_github_api_url() -> (r: String)
    ensures
        r@ == "https://api.github.com"@,
{
    string_of("https://api.github.com")
}

/// The default fallback chain for version resolution.
pub fn default_fallback_chain() -> (r: Vec<String>)
    ensures
        texts(r@) == default_chain(),
{
    let r = vec![string_of("release"), string_of("tag"), string_of("branch")];
    assert(texts(r@) =~= default_chain());
    r
}

/// The default of the boolean settings: true.
pub fn default_true() -> (r: bool)
    ensures
        r,
{
    true
}

impl Default for GitHubConfig {
    fn default() -> (r: Self)
        ensures
            r.api_url@ == "https://api.github.com"@,
            r.token is None,
            texts(r.fallback_chain@) == default_chain(),
    {
        GitHubConfig {
            api_url: default_github_api_url(),
            token: None,
            fallback_chain: default_fallback_chain(),
        }
    }
}

/// Whether a configuration holds the default settings.
pub open spec fn is_default_config(c: Config) -> bool {
    &&& c.cache_dir is None
    &&& c.verify_checksums
    &&& c.show_diffs_on_update
    &&& c.lua_binary_source_url is None
    &&& c.lua_binary_sources is None
    &&& c.resolution_strategy@ == "highest"@
    &&& c.checksum_algorithm@ == "blake3"@
    &&& c.supported_lua_versions is None
    &&& c.strict_conflicts
    &&& c.github.api_url@ == "https://api.github.com"@
    &&& c.github.token is None
    &&& texts(c.github.fallback_chain@) == default_chain()
    &&& c.strict_native_code
    &&& c.global_install_path is None
}

impl Default for Config {
    fn default() -> (r: Self)
        ensures
            is_default_config(r),
    {
        Config {
            cache_dir: None,
            verify_checksums: true,
            show_diffs_on_update: true,
            lua_binary_source_url: None,
            lua_binary_sources: None,
            resolution_strategy: default_resolution_strategy(),
            checksum_algorithm: default_checksum_algorithm(),
            supported_lua_versions: None,
            strict_conflicts: true,
            github: GitHubConfig::default(),
            strict_native_code: true,
            global_install_path: None,
        }
    }
}

impl Config {
    /// Get the cache directory path: the configured one, or the default.
    pub fn get_cache_dir(&self) -> (r: DepotResult<String>)
        ensures
            match self.cache_dir {
                Some(d) => r matches Ok(p) && p@ == d@,
                None => match r {
                    Ok(p) => exists|h: Seq<char>| p@ == path_join(h, "depot"@),
                    Err(e) => e matches DepotError::Path(m) && m@
                        == "Could not determine cache directory"@,
                },
            },
    {
        match &self.cache_dir {
            Some(d) => Ok(d.clone()),
            None => cache_dir(),
        }
    }

    /// The GitHub token: the one from the environment if there is one,
    /// else the configured one.
    pub fn github_token_with(&self, env_token: Option<String>) -> (r: Option<String>)
        ensures
            match env_token {
                Some(t) => r matches Some(s) && s@ == t@,
                None => match self.github.token {
                    Some(t) => r matches Some(s) && s@ == t@,
                    None => r is None,
                },
            },
    {
        match env_token {
            Some(t) => Some(t),
            None => match &self.github.token {
                Some(t) => Some(t.clone()),
                None => None,
            },
        }
    }
}

} // verus!
