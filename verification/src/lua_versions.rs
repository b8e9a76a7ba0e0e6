//! Lua interpreter version strings such as `5.4.8`.
use vstd::prelude::*;
use crate::error::{DepotError, DepotResult, message};
use crate::text::{chars_of, decimal, decimal_chars, parse_u32_spec, parse_u64, push_chars, split, split_chars, string_from};

verus! {

/// The outcome of reading a Lua version `major.minor[.patch]`: the three
/// numbers, or the message of the error.
pub open spec fn lua_version_spec(s: Seq<char>) -> Result<(u32, u32, u32), Seq<char>> {
    let parts = split(s, '.');
    if parts.len() < 2 {
        Err("Invalid version format: "@ + s + ". Expected format: X.Y.Z"@)
    } else {
        match (parse_u32_spec(parts[0]), parse_u32_spec(parts[1])) {
            (None, _) => Err("Invalid major version: "@ + parts[0]),
            (Some(_), None) => Err("Invalid minor version: "@ + parts[1]),
            (Some(major), Some(minor)) => if parts.len() > 2 {
                match parse_u32_spec(parts[2]) {
                    Some(patch) => Ok((major, minor, patch)),
                    None => Err("Invalid patch version: "@ + parts[2]),
                }
            } else {
                Ok((major, minor, 0))
            },
        }
    }
}

/// Lexicographic order of two version triples as -1, 0 or 1.
pub open spec fn triple_order(a: (u32, u32, u32), b: (u32, u32, u32)) -> int {
    if a.0 != b.0 {
        if a.0 < b.0 { -1 } else { 1 }
    } else if a.1 != b.1 {
        if a.1 < b.1 { -1 } else { 1 }
    } else if a.2 != b.2 {
        if a.2 < b.2 { -1 } else { 1 }
    } else {
        0
    }
}

/// What `s.parse::<u32>()` gives, as an option.
pub fn parse_u32(s: &[char]) -> (r: Option<u32>)
    ensures
        r == parse_u32_spec(s@),
{
    match parse_u64(s) {
        Some(n) => if n <= 4294967295u64 {
            Some(n as u32)
        } else {
            None
        },
        None => None,
    }
}

/// Parse and validate Lua version strings ("5.4.8" -> (5, 4, 8); the patch
/// number defaults to 0).
pub fn parse_version(version: &str) -> (r: DepotResult<(u32, u32, u32)>)
    ensures
        match lua_version_spec(version@) {
            Ok(t) => r == Ok::<(u32, u32, u32), DepotError>(t),
            Err(m) => r matches Err(DepotError::Package(e)) && e@ == m,
        },
{
    let s = chars_of(version);
    let parts = split_chars(s.as_slice(), '.');
    if parts.len() < 2 {
        let mut v = chars_of("Invalid version format: ");
        push_chars(&mut v, s.as_slice());
        let tail = chars_of(". Expected format: X.Y.Z");
        push_chars(&mut v, tail.as_slice());
        return Err(DepotError::Package(string_from(&v)));
    }
    assert(parts@[0]@ == parts.deep_view()[0]);
    assert(parts@[1]@ == parts.deep_view()[1]);
    let major = match parse_u32(parts[0].as_slice()) {
        Some(n) => n,
        None => {
            return Err(DepotError::Package(message("Invalid major version: ", parts[0].as_slice())));
        },
    };
    let minor = match parse_u32(parts[1].as_slice()) {
        Some(n) => n,
        None => {
            return Err(DepotError::Package(message("Invalid minor version: ", parts[1].as_slice())));
        },
    };
    let patch = if parts.len() > 2 {
        assert(parts@[2]@ == parts.deep_view()[2]);
        match parse_u32(parts[2].as_slice()) {
            Some(n) => n,
            None => {
                return Err(DepotError::Package(message("Invalid patch version: ", parts[2].as_slice())));
            },
        }
    } else {
        0
    };
    Ok((major, minor, patch))
}

/// Extract version code from version string (e.g., "5.4.8" -> "54")
pub fn version_code(version: &str) -> (r: DepotResult<String>)
    ensures
        match lua_version_spec(version@) {
            Ok(t) => r matches Ok(c) && c@ == decimal(t.0 as nat) + decimal(t.1 as nat),
            Err(m) => r matches Err(DepotError::Package(e)) && e@ == m,
        },
{
    let (major, minor, _) = match parse_version(version) {
        Ok(t) => t,
        Err(e) => {
            return Err(e);
        },
    };
    let mut v = decimal_chars(major as u64);
    let mi = decimal_chars(minor as u64);
    push_chars(&mut v, mi.as_slice());
    Ok(string_from(&v))
}

/// The order of two Lua versions as -1, 0 or 1.
pub fn order_versions(a: &str, b: &str) -> (r: DepotResult<i8>)
    ensures
        match (lua_version_spec(a@), lua_version_spec(b@)) {
            (Ok(x), Ok(y)) => r matches Ok(o) && o == triple_order(x, y),
            (Err(m), _) => r matches Err(DepotError::Package(e)) && e@ == m,
            (Ok(_), Err(m)) => r matches Err(DepotError::Package(e)) && e@ == m,
        },
{
    let x = match parse_version(a) {
        Ok(t) => t,
        Err(e) => {
            return Err(e);
        },
    };
    let y = match parse_version(b) {
        Ok(t) => t,
        Err(e) => {
            return Err(e);
        },
    };
    let o: i8 = if x.0 != y.0 {
        if x.0 < y.0 { -1 } else { 1 }
    } else if x.1 != y.1 {
        if x.1 < y.1 { -1 } else { 1 }
    } else if x.2 != y.2 {
        if x.2 < y.2 { -1 } else { 1 }
    } else {
        0
    };
    Ok(o)
}


/// Lua versions are ordered by major, then minor, then patch number: `a`
/// comes first exactly when its major number is lower, or it is equal and
/// the minor number is lower, or both are equal and the patch number is
/// lower (so 5.3.6 comes before 5.4.0).  The order is antisymmetric and
/// only equal versions compare as equal.
pub proof fn lemma_lua_version_order(a: (u32, u32, u32), b: (u32, u32, u32))
    ensures
        triple_order(a, b) < 0 <==> (a.0 < b.0 || (a.0 == b.0 && (a.1 < b.1 || (a.1 == b.1
            && a.2 < b.2)))),
        triple_order(a, b) == 0 <==> a == b,
        triple_order(a, b) == -triple_order(b, a),
        -1 <= triple_order(a, b) <= 1,
{
}

} // verus!
