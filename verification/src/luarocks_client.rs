//! Names and versions in LuaRocks rockspec addresses.
use vstd::prelude::*;
use crate::cache::Cache;
use crate::text::{
    chars_of, ends_with, ends_with_str, find_last, find_last_char, slice_chars, split,
    split_chars, string_from, string_of,
};

verus! {

/// The last segment of an address: what follows its last `/`.
pub open spec fn last_segment(url: Seq<char>) -> Seq<char> {
    match find_last(url, '/') {
        Some(i) => url.skip(i + 1),
        None => url,
    }
}

/// The package name in a rockspec address: the part of its last segment
/// before the first `-`.
pub open spec fn url_package_name(url: Seq<char>) -> Seq<char> {
    split(last_segment(url), '-')[0]
}

/// The version in a rockspec address: the second `-`-separated part of its
/// last segment without ".rockspec", or "unknown".
pub open spec fn url_version(url: Seq<char>) -> Seq<char> {
    let f = last_segment(url);
    if ends_with(f, ".rockspec"@) {
        let stem = f.take(f.len() - 9);
        if split(stem, '-').len() > 1 {
            split(stem, '-')[1]
        } else {
            "unknown"@
        }
    } else {
        "unknown"@
    }
}

fn last_segment_of(url: &str) -> (r: Vec<char>)
    ensures
        r@ == last_segment(url@),
{
    let v = chars_of(url);
    match find_last_char(v.as_slice(), '/') {
        Some(i) => slice_chars(v.as_slice(), i + 1, v.len()),
        None => slice_chars(v.as_slice(), 0, v.len()),
    }
}

/// Extract the package name from a rockspec URL
pub fn extract_package_name_from_url(url: &str) -> (r: String)
    ensures
        r@ == url_package_name(url@),
{
    let f = last_segment_of(url);
    let parts = split_chars(f.as_slice(), '-');
    let first = slice_chars(parts[0].as_slice(), 0, parts[0].len());
    assert(parts[0]@.subrange(0, parts[0]@.len() as int) =~= parts[0]@);
    string_from(&first)
}

/// Extract the version from a rockspec URL
pub fn extract_version_from_url(url: &str) -> (r: String)
    ensures
        r@ == url_version(url@),
{
    let f = last_segment_of(url);
    if ends_with_str(f.as_slice(), ".rockspec") {
        proof {
            reveal_strlit(".rockspec");
        }
        let stem = slice_chars(f.as_slice(), 0, f.len() - 9);
        let parts = split_chars(stem.as_slice(), '-');
        if parts.len() > 1 {
            let second = slice_chars(parts[1].as_slice(), 0, parts[1].len());
            assert(parts[1]@.subrange(0, parts[1]@.len() as int) =~= parts[1]@);
            string_from(&second)
        } else {
            string_of("unknown")
        }
    } else {
        string_of("unknown")
    }
}

/// Where a downloaded rockspec is cached: by the package name and version
/// that its address holds.
pub fn rockspec_cache_path(cache: &Cache, url: &str) -> (r: String)
    ensures
        r@ == crate::paths::path_join(
            crate::paths::path_join(crate::paths::path_join(cache.root_path(), "luarocks"@), "rockspecs"@),
            url_package_name(url@) + "-"@ + url_version(url@) + ".rockspec"@,
        ),
{
    let name = extract_package_name_from_url(url);
    let version = extract_version_from_url(url);
    cache.rockspec_path(name.as_str(), version.as_str())
}

} // verus!
