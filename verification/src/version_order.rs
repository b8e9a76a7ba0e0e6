//! Precedence and equality of versions, and the standard comparison
//! traits on [`Version`].
use vstd::prelude::*;
use vstd::std_specs::cmp::{PartialEqSpecImpl, PartialOrdSpecImpl};
use core::cmp::Ordering;
use crate::text::{split_chars, parse_u64};
use crate::error::{DepotError, DepotResult};
use crate::lua_versions::{lua_version_spec, order_versions, triple_order};
use crate::version::{
    Version, SemVer, lex_order, ident_order, idents_order, prerelease_order, version_order,
    version_eq,
};

verus! {

/// The `Ordering` that an order number (-1, 0, 1) stands for.
pub open spec fn ordering_of(x: int) -> Ordering {
    if x < 0 {
        Ordering::Less
    } else if x == 0 {
        Ordering::Equal
    } else {
        Ordering::Greater
    }
}

fn order_u64(a: u64, b: u64) -> (r: i8)
    ensures
        r == crate::version::order_of_ints(a as int, b as int),
{
    if a < b {
        -1
    } else if a == b {
        0
    } else {
        1
    }
}

/// Lexicographic comparison of two character sequences.
pub fn lex_order_chars(a: &[char], b: &[char]) -> (r: i8)
    ensures
        r == lex_order(a@, b@),
{
    let mut i: usize = 0;
    assert(a@.skip(0) == a@ && b@.skip(0) == b@);
    while i < a.len() && i < b.len()
        invariant
            i <= a.len(),
            i <= b.len(),
            lex_order(a@, b@) == lex_order(a@.skip(i as int), b@.skip(i as int)),
        decreases a.len() - i,
    {
        let x = a[i];
        let y = b[i];
        assert(a@.skip(i as int)[0] == x);
        assert(b@.skip(i as int)[0] == y);
        if x != y {
            if x < y {
                return -1;
            } else {
                return 1;
            }
        }
        assert(a@.skip(i as int).drop_first() == a@.skip(i as int + 1));
        assert(b@.skip(i as int).drop_first() == b@.skip(i as int + 1));
        i = i + 1;
    }
    if a.len() - i < b.len() - i {
        -1
    } else if a.len() - i == b.len() - i {
        0
    } else {
        1
    }
}

/// Comparison of two pre-release identifiers.
pub fn ident_order_chars(a: &[char], b: &[char]) -> (r: i8)
    ensures
        r == ident_order(a@, b@),
{
    match (parse_u64(a), parse_u64(b)) {
        (Some(x), Some(y)) => order_u64(x, y),
        (Some(_), None) => -1,
        (None, Some(_)) => 1,
        (None, None) => lex_order_chars(a, b),
    }
}

/// Comparison of two lists of pre-release identifiers.
pub fn idents_order_vecs(a: &Vec<Vec<char>>, b: &Vec<Vec<char>>) -> (r: i8)
    ensures
        r == idents_order(a.deep_view(), b.deep_view()),
{
    let ghost da = a.deep_view();
    let ghost db = b.deep_view();
    let mut i: usize = 0;
    assert(da.skip(0) == da && db.skip(0) == db);
    while i < a.len() && i < b.len()
        invariant
            i <= a.len(),
            i <= b.len(),
            da == a.deep_view(),
            db == b.deep_view(),
            idents_order(da, db) == idents_order(da.skip(i as int), db.skip(i as int)),
        decreases a.len() - i,
    {
        assert(da.skip(i as int)[0] == a@[i as int]@);
        assert(db.skip(i as int)[0] == b@[i as int]@);
        let o = ident_order_chars(a[i].as_slice(), b[i].as_slice());
        if o != 0 {
            return o;
        }
        assert(da.skip(i as int).drop_first() == da.skip(i as int + 1));
        assert(db.skip(i as int).drop_first() == db.skip(i as int + 1));
        i = i + 1;
    }
    if a.len() - i < b.len() - i {
        -1
    } else if a.len() - i == b.len() - i {
        0
    } else {
        1
    }
}

/// Comparison of two pre-release texts.
pub fn prerelease_order_str(a: &String, b: &String) -> (r: i8)
    ensures
        r == prerelease_order(a@, b@),
{
    let av = crate::text::chars_of(a.as_str());
    let bv = crate::text::chars_of(b.as_str());
    let pa = split_chars(av.as_slice(), '.');
    let pb = split_chars(bv.as_slice(), '.');
    idents_order_vecs(&pa, &pb)
}

impl Version {
    /// The precedence of this version against `other`: -1 when it comes
    /// before, 0 when they are equal, 1 when it comes after.
    pub fn order_against(&self, other: &Version) -> (r: i8)
        ensures
            r == version_order(self@, other@),
    {
        if self.major != other.major {
            order_u64(self.major, other.major)
        } else if self.minor != other.minor {
            order_u64(self.minor, other.minor)
        } else if self.patch != other.patch {
            order_u64(self.patch, other.patch)
        } else {
            match (&self.prerelease, &other.prerelease) {
                (None, None) => 0,
                (Some(_), None) => -1,
                (None, Some(_)) => 1,
                (Some(x), Some(y)) => prerelease_order_str(x, y),
            }
        }
    }

    /// Version equality: build metadata is ignored.
    pub fn same_as(&self, other: &Version) -> (r: bool)
        ensures
            r == version_eq(self@, other@),
    {
        if self.major != other.major || self.minor != other.minor || self.patch != other.patch {
            return false;
        }
        match (&self.prerelease, &other.prerelease) {
            (None, None) => true,
            (Some(x), Some(y)) => {
                let xv = crate::text::chars_of(x.as_str());
                crate::text::eq_str(xv.as_slice(), y.as_str())
            },
            _ => false,
        }
    }
}

impl PartialEq for Version {
    fn eq(&self, other: &Self) -> (r: bool) {
        self.same_as(other)
    }
}

impl PartialEqSpecImpl for Version {
    open spec fn obeys_eq_spec() -> bool {
        true
    }

    open spec fn eq_spec(&self, other: &Version) -> bool {
        version_eq(self@, other@)
    }
}

impl Eq for Version {
}

impl PartialOrd for Version {
    fn partial_cmp(&self, other: &Self) -> (r: Option<Ordering>) {
        let o = self.order_against(other);
        if o < 0 {
            Some(Ordering::Less)
        } else if o == 0 {
            Some(Ordering::Equal)
        } else {
            Some(Ordering::Greater)
        }
    }
}

impl PartialOrdSpecImpl for Version {
    open spec fn obeys_partial_cmp_spec() -> bool {
        true
    }

    open spec fn partial_cmp_spec(&self, other: &Version) -> Option<Ordering> {
        Some(ordering_of(version_order(self@, other@)))
    }
}

/// Compare two Lua version strings.
pub fn compare_versions(a: &str, b: &str) -> (r: DepotResult<Ordering>)
    ensures
        match (lua_version_spec(a@), lua_version_spec(b@)) {
            (Ok(x), Ok(y)) => r matches Ok(o) && o == ordering_of(triple_order(x, y)),
            (Err(m), _) => r matches Err(DepotError::Package(e)) && e@ == m,
            (Ok(_), Err(m)) => r matches Err(DepotError::Package(e)) && e@ == m,
        },
{
    match order_versions(a, b) {
        Ok(o) => if o < 0 {
            Ok(Ordering::Less)
        } else if o == 0 {
            Ok(Ordering::Equal)
        } else {
            Ok(Ordering::Greater)
        },
        Err(e) => Err(e),
    }
}

} // verus!
