//! Pre-built binaries of native modules.
use vstd::prelude::*;
use super::targets::Target;
use crate::cache::Cache;
use crate::error::{DepotError, DepotResult};
use crate::lua_version::LuaVersion;
use crate::paths::path_join;
use crate::store::Store;
use crate::text::{decimal, chars_of, push_str, string_from};

verus! {

/// Manages pre-built binary downloads for Rust-compiled Lua native modules
#[derive(Debug)]
pub struct PrebuiltBinaryManager {
    pub cache: Cache,
}

/// The key of a binary in a package's `binary_urls` table:
/// "{lua major.minor}-{target triple}".
pub open spec fn binary_key(target: Target, lua_version: LuaVersion) -> Seq<char> {
    decimal(lua_version.major as nat) + seq!['.'] + decimal(lua_version.minor as nat) + "-"@
        + target.triple@
}

impl PrebuiltBinaryManager {
    /// A manager over the cache in the user's cache directory.
    pub fn new() -> (r: DepotResult<Self>)
        ensures
            match r {
                Ok(m) => exists|d: Seq<char>| m.cache.root_path() == path_join(d, "depot"@),
                Err(e) => e matches DepotError::Path(msg) && msg@
                    == "Could not determine cache directory"@,
            },
    {
        match Cache::default_cache() {
            Ok(cache) => Ok(PrebuiltBinaryManager { cache }),
            Err(e) => Err(e),
        }
    }

    /// Where the pre-built binary of a package for a Lua version and a
    /// target is cached (whether it is there is for the caller to see).
    pub fn prebuilt_path(&self, package: &str, version: &str, lua_version: &LuaVersion, target: &Target) -> (r:
        String)
        ensures
            r@ == path_join(
                path_join(
                    path_join(
                        path_join(
                            path_join(path_join(self.cache.root_path(), "rust-builds"@), package@),
                            version@,
                        ),
                        decimal(lua_version.major as nat) + seq!['.'] + decimal(lua_version.minor as nat),
                    ),
                    target.triple@,
                ),
                crate::cache::build_file_name(package@, target.triple@),
            ),
    {
        let lv = lua_version.major_minor();
        self.cache.rust_build_path(package, version, lv.as_str(), target.triple.as_str())
    }

    /// Find binary URL from a package's binary_urls table, by the key
    /// "{lua_version}-{target_triple}".
    pub fn find_binary_url(binary_urls: &Store<String>, target: &Target, lua_version: &LuaVersion) -> (r:
        Option<String>)
        ensures
            match r {
                Some(u) => binary_urls@.contains_key(binary_key(*target, *lua_version)) && u@
                    == binary_urls@[binary_key(*target, *lua_version)],
                None => !binary_urls@.contains_key(binary_key(*target, *lua_version)),
            },
    {
        let mut key = chars_of(lua_version.major_minor().as_str());
        push_str(&mut key, "-");
        push_str(&mut key, target.triple.as_str());
        let k = string_from(&key);
        match binary_urls.get(k.as_str()) {
            Some(u) => Some(u.clone()),
            None => None,
        }
    }
}

} // verus!
