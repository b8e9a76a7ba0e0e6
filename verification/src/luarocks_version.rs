//! Conversion between LuaRocks version strings (`3.0-1`) and versions.
use vstd::prelude::*;
use crate::error::{DepotError, DepotResult};
use crate::text::{chars_of, decimal, decimal_chars, parse_u64, parse_u64_spec, push_chars, split, split_chars, string_from};
use crate::version::{SemVer, Version, parse_version_spec};

verus! {

/// The rockspec revision of a LuaRocks version: the number after the first
/// `-`, or 0 where there is none or it is no number.
pub open spec fn luarocks_revision(s: Seq<char>) -> u64 {
    let parts = split(s, '-');
    if parts.len() > 1 {
        match parse_u64_spec(parts[1]) {
            Some(n) => n,
            None => 0,
        }
    } else {
        0
    }
}

/// The version part of a LuaRocks version: what precedes the first `-`.
pub open spec fn luarocks_base(s: Seq<char>) -> Seq<char> {
    split(s, '-')[0]
}

/// Whether adding the revision to the patch number stays within `u64`.
pub open spec fn revision_in_range(s: Seq<char>) -> bool {
    match parse_version_spec(luarocks_base(s)) {
        Some(v) => v.patch + luarocks_revision(s) <= u64::MAX,
        None => true,
    }
}

/// The version that a LuaRocks version text stands for, if it reads as
/// one (the revision added to the patch number).
pub open spec fn luarocks_semver(s: Seq<char>) -> Option<SemVer> {
    match parse_version_spec(luarocks_base(s)) {
        Some(v) => Some(SemVer { patch: (v.patch + luarocks_revision(s)) as u64, ..v }),
        None => None,
    }
}

/// The LuaRocks text of a version: `major.minor-patch` for a patch from 1
/// to 9, `major.minor` otherwise.
pub open spec fn luarocks_text(v: SemVer) -> Seq<char> {
    let base = decimal(v.major as nat) + seq!['.'] + decimal(v.minor as nat);
    if v.patch > 0 && v.patch < 10 {
        base + seq!['-'] + decimal(v.patch as nat)
    } else {
        base
    }
}

/// Normalize LuaRocks version format to SemVer.
///
/// LuaRocks uses a format like "3.0-1" where "3.0" is the version and "-1"
/// is the rockspec revision; a revision above 0 is added to the patch
/// number ("3.0-1" becomes 3.0.1).
pub fn normalize_luarocks_version(luarocks_version: &str) -> (r: DepotResult<Version>)
    requires
        revision_in_range(luarocks_version@),
    ensures
        match parse_version_spec(luarocks_base(luarocks_version@)) {
            Some(v) => r matches Ok(x) && x.major == v.major && x.minor == v.minor && x.patch == v.patch
                + luarocks_revision(luarocks_version@) && x@.pre == v.pre && x@.build == v.build,
            None => r matches Err(DepotError::Version(m)) && m@ == "Invalid major version: "@
                + crate::text::trim(luarocks_base(luarocks_version@)),
        },
        r matches Ok(x) ==> luarocks_semver(luarocks_version@) == Some(x@),
{
    let s = chars_of(luarocks_version);
    let parts = split_chars(s.as_slice(), '-');
    assert(parts@[0]@ == parts.deep_view()[0]);
    let revision: u64 = if parts.len() > 1 {
        assert(parts@[1]@ == parts.deep_view()[1]);
        match parse_u64(parts[1].as_slice()) {
            Some(n) => n,
            None => 0,
        }
    } else {
        0
    };
    let mut version = match Version::parse_chars(parts[0].as_slice()) {
        Ok(v) => v,
        Err(e) => {
            return Err(e);
        },
    };
    if revision > 0 {
        version.patch = version.patch + revision;
    }
    Ok(version)
}

/// Convert SemVer back to LuaRocks format (for display): "3.0.1" -> "3.0-1".
pub fn to_luarocks_version(version: &Version) -> (r: String)
    ensures
        r@ == luarocks_text(version@),
{
    let mut v = decimal_chars(version.major);
    v.push('.');
    let mi = decimal_chars(version.minor);
    push_chars(&mut v, mi.as_slice());
    if version.patch > 0 && version.patch < 10 {
        v.push('-');
        let pa = decimal_chars(version.patch);
        push_chars(&mut v, pa.as_slice());
    }
    string_from(&v)
}

} // verus!

verus! {

/// Reading back the LuaRocks text of a version gives its number back:
/// for a patch number below 10, the version that `to_luarocks_version(v)`
/// stands for (what `normalize_luarocks_version` gives for it) has the
/// major, minor and patch numbers of `v`, and no pre-release or build
/// metadata ("3.0.1" gives "3.0-1", which gives 3.0.1 again).
pub proof fn lemma_luarocks_round_trip(v: SemVer)
    requires
        v.patch < 10,
    ensures
        revision_in_range(luarocks_text(v)),
        luarocks_semver(luarocks_text(v)) == Some(
            (SemVer { major: v.major, minor: v.minor, patch: v.patch, pre: None, build: None }),
        ),
{
    let d1 = decimal(v.major as nat);
    let d2 = decimal(v.minor as nat);
    let d3 = decimal(v.patch as nat);
    crate::text::lemma_decimal(v.major as nat);
    crate::text::lemma_decimal(v.minor as nat);
    crate::text::lemma_decimal(v.patch as nat);
    let base = d1 + seq!['.'] + d2;
    assert forall|x: Seq<char>, c: char|
        #![trigger x.contains(c)]
        crate::text::all_digits(x) && !crate::text::is_digit(c) implies !x.contains(c) by {
        assert forall|i: int| 0 <= i < x.len() implies x[i] != c by {
            assert(crate::text::is_digit(x[i]));
        }
    }
    assert forall|i: int| 0 <= i < base.len() implies base[i] != '-' && base[i] != '+' by {
        if i < d1.len() {
            assert(base[i] == d1[i]);
            assert(crate::text::is_digit(d1[i]));
        } else if i > d1.len() {
            assert(base[i] == d2[i - d1.len() - 1]);
            assert(crate::text::is_digit(d2[i - d1.len() - 1]));
        }
    }
    assert(!d3.contains('-'));
    assert(!base.contains('-'));
    assert(!base.contains('+'));
    crate::text::lemma_split_without(base, '-');
    crate::text::lemma_split_without(d3, '-');
    let text = luarocks_text(v);
    if v.patch > 0 {
        crate::text::lemma_split_concat(base, d3, '-');
        assert(split(text, '-') =~= seq![base, d3]);
        crate::text::lemma_parse_decimal(v.patch);
        assert(luarocks_revision(text) == v.patch);
    } else {
        assert(luarocks_revision(text) == 0);
    }
    assert(luarocks_base(text) == base);
    assert(base[0] == d1[0]);
    assert(crate::text::is_digit(d1[0]));
    assert(base.last() == d2.last());
    assert(crate::text::is_digit(d2[d2.len() - 1]));
    crate::text::lemma_trim_unchanged(base);
    crate::text::lemma_find_without(base, '+');
    crate::text::lemma_find_without(base, '-');
    crate::text::lemma_replace_absent(base, '-', '.');
    assert(!d1.contains('.'));
    assert(!d2.contains('.'));
    crate::text::lemma_split_without(d1, '.');
    crate::text::lemma_split_without(d2, '.');
    crate::text::lemma_split_concat(d1, d2, '.');
    assert(split(base, '.') =~= seq![d1, d2]);
    assert(crate::version::version_fields(base) == seq![d1, d2]);
    crate::text::lemma_parse_decimal(v.major);
    crate::text::lemma_parse_decimal(v.minor);
}

} // verus!
