//! Lua source analysis for version compatibility: sets of Lua versions,
//! the database of version-specific features, and project reports.
use vstd::prelude::*;
use crate::text::{join, chars_of, push_str, starts_with, starts_with_str, str_eq, string_from};

pub mod compat_db;
pub mod report;
pub mod scanner;

verus! {

/// Bitflags representing a set of Lua versions.
///
/// Each bit corresponds to a specific Lua version. Intersecting two sets
/// gives the versions compatible with both requirements.
#[derive(Debug, Clone, Copy, PartialEq, Eq, Structural)]
pub struct LuaVersionSet(u8);

impl View for LuaVersionSet {
    type V = u8;

    closed spec fn view(&self) -> u8 {
        self.0
    }
}

/// The names of the versions in the set `b`, in order
/// 5.1, 5.2, 5.3, 5.4, 5.5, LuaJIT.
pub open spec fn version_names_spec(b: u8) -> Seq<Seq<char>> {
    (if b & 1 != 0 { seq!["5.1"@] } else { Seq::empty() })
    + (if b & 2 != 0 { seq!["5.2"@] } else { Seq::empty() })
    + (if b & 4 != 0 { seq!["5.3"@] } else { Seq::empty() })
    + (if b & 8 != 0 { seq!["5.4"@] } else { Seq::empty() })
    + (if b & 16 != 0 { seq!["5.5"@] } else { Seq::empty() })
    + (if b & 32 != 0 { seq!["LuaJIT"@] } else { Seq::empty() })
}


/// The text of a set of versions: the names joined by ", ", or "(none)".
pub open spec fn version_set_text(b: u8) -> Seq<char> {
    if version_names_spec(b).len() == 0 {
        "(none)"@
    } else {
        join(version_names_spec(b), ", "@)
    }
}

/// The version flag that a Lua version text names: "5.1" to "5.5", or a
/// patch release of one of them ("5.4.8").
pub open spec fn version_flag(v: Seq<char>) -> Option<u8> {
    if v == "5.1"@ { Some(1u8) }
    else if v == "5.2"@ { Some(2u8) }
    else if v == "5.3"@ { Some(4u8) }
    else if v == "5.4"@ { Some(8u8) }
    else if v == "5.5"@ { Some(16u8) }
    else if starts_with(v, "5.1."@) { Some(1u8) }
    else if starts_with(v, "5.2."@) { Some(2u8) }
    else if starts_with(v, "5.3."@) { Some(4u8) }
    else if starts_with(v, "5.4."@) { Some(8u8) }
    else if starts_with(v, "5.5."@) { Some(16u8) }
    else { None }
}

/// The versions that every set in `s` allows (all versions when `s` is
/// empty).
pub open spec fn intersect_all(s: Seq<u8>) -> u8
    decreases s.len(),
{
    if s.len() == 0 {
        63u8
    } else {
        intersect_all(s.drop_last()) & s.last()
    }
}

/// A flag for one Lua version.
pub open spec fn is_version_flag(f: u8) -> bool {
    f == 1u8 || f == 2u8 || f == 4u8 || f == 8u8 || f == 16u8 || f == 32u8
}

/// The intersection of version sets holds exactly the versions that every
/// one of them holds.
pub proof fn lemma_intersect_all(s: Seq<u8>, f: u8)
    requires
        is_version_flag(f),
    ensures
        (intersect_all(s) & f != 0) <==> (forall|i: int| 0 <= i < s.len() ==> #[trigger] s[i] & f != 0),
    decreases s.len(),
{
    if s.len() > 0 {
        lemma_intersect_all(s.drop_last(), f);
        let a = intersect_all(s.drop_last());
        let b = s.last();
        assert((a & b) & f != 0 <==> (a & f != 0 && b & f != 0)) by (bit_vector)
            requires
                f == 1u8 || f == 2u8 || f == 4u8 || f == 8u8 || f == 16u8 || f == 32u8,
        ;
        if intersect_all(s) & f != 0 {
            assert forall|i: int| 0 <= i < s.len() implies #[trigger] s[i] & f != 0 by {
                if i < s.len() - 1 {
                    assert(s[i] == s.drop_last()[i]);
                }
            }
        } else {
            if forall|i: int| 0 <= i < s.len() ==> #[trigger] s[i] & f != 0 {
                assert forall|i: int| 0 <= i < s.drop_last().len() implies #[trigger] s.drop_last()[i] & f != 0 by {
                    assert(s.drop_last()[i] == s[i]);
                }
                assert(s[s.len() - 1] & f != 0);
            }
        }
    } else {
        assert(63u8 & f != 0) by (bit_vector)
            requires
                f == 1u8 || f == 2u8 || f == 4u8 || f == 8u8 || f == 16u8 || f == 32u8,
        ;
    }
}

/// Membership in combined version sets: the intersection of two sets holds
/// a version exactly when both hold it, the union when either does; the
/// set of all versions holds every version and the empty set none.
pub proof fn lemma_version_set_membership(a: u8, b: u8, f: u8)
    requires
        is_version_flag(f),
    ensures
        ((a & b) & f != 0) <==> (a & f != 0 && b & f != 0),
        ((a | b) & f != 0) <==> (a & f != 0 || b & f != 0),
        63u8 & f != 0,
        0u8 & f == 0,
{
    assert(((a & b) & f != 0) <==> (a & f != 0 && b & f != 0)) by (bit_vector)
        requires
            f == 1u8 || f == 2u8 || f == 4u8 || f == 8u8 || f == 16u8 || f == 32u8,
    ;
    assert(((a | b) & f != 0) <==> (a & f != 0 || b & f != 0)) by (bit_vector)
        requires
            f == 1u8 || f == 2u8 || f == 4u8 || f == 8u8 || f == 16u8 || f == 32u8,
    ;
    assert(63u8 & f != 0 && 0u8 & f == 0) by (bit_vector)
        requires
            f == 1u8 || f == 2u8 || f == 4u8 || f == 8u8 || f == 16u8 || f == 32u8,
    ;
}

/// The pieces joined by `sep`.
pub fn join_strs(parts: &Vec<&str>, sep: &str) -> (r: Vec<char>)
    ensures
        r@ == join(parts@.map_values(|p: &str| p@), sep@),
{
    let ghost views = parts@.map_values(|p: &str| p@);
    let mut r: Vec<char> = Vec::new();
    let mut i: usize = 0;
    while i < parts.len()
        invariant
            i <= parts.len(),
            views == parts@.map_values(|p: &str| p@),
            r@ == join(views.take(i as int), sep@),
        decreases parts.len() - i,
    {
        let ghost before = r@;
        if i > 0 {
            push_str(&mut r, sep);
        }
        push_str(&mut r, parts[i]);
        assert(views.take(i as int + 1).drop_last() == views.take(i as int));
        assert(views.take(i as int + 1).last() == parts@[i as int]@);
        if i == 0 {
            assert(views.take(1).len() == 1);
            assert(r@ =~= views.take(1)[0]);
        }
        i = i + 1;
    }
    assert(views.take(parts.len() as int) == views);
    r
}

impl LuaVersionSet {
    pub const LUA_5_1: u8 = 1;
    pub const LUA_5_2: u8 = 2;
    pub const LUA_5_3: u8 = 4;
    pub const LUA_5_4: u8 = 8;
    pub const LUA_5_5: u8 = 16;
    pub const LUAJIT: u8 = 32;
    pub const ALL_STANDARD: u8 = 31;
    pub const ALL: u8 = 63;

    pub fn all() -> (r: Self)
        ensures
            r@ == 63,
    {
        LuaVersionSet(63)
    }

    pub fn empty() -> (r: Self)
        ensures
            r@ == 0,
    {
        LuaVersionSet(0)
    }

    pub fn from_bits(bits: u8) -> (r: Self)
        ensures
            r@ == bits,
    {
        LuaVersionSet(bits)
    }

    pub fn bits(self) -> (r: u8)
        ensures
            r == self@,
    {
        self.0
    }

    pub fn intersect(self, other: Self) -> (r: Self)
        ensures
            r@ == self@ & other@,
    {
        LuaVersionSet(self.0 & other.0)
    }

    pub fn union(self, other: Self) -> (r: Self)
        ensures
            r@ == self@ | other@,
    {
        LuaVersionSet(self.0 | other.0)
    }

    pub fn contains(self, flag: u8) -> (r: bool)
        ensures
            r == (self@ & flag != 0),
    {
        (self.0 & flag) != 0
    }

    pub fn is_empty(self) -> (r: bool)
        ensures
            r == (self@ == 0),
    {
        self.0 == 0
    }

    /// Equality of two sets.
    pub fn same_as(self, other: Self) -> (r: bool)
        ensures
            r == (self@ == other@),
    {
        self.0 == other.0
    }

    /// Returns human-readable version names for all versions in this set.
    pub fn version_names(self) -> (r: Vec<&'static str>)
        ensures
            r@.map_values(|p: &str| p@) == version_names_spec(self@),
    {
        let mut names: Vec<&'static str> = Vec::new();
        if self.contains(1) {
            names.push("5.1");
        }
        let ghost a = names@.map_values(|p: &str| p@);
        if self.contains(2) {
            names.push("5.2");
        }
        let ghost b = names@.map_values(|p: &str| p@);
        if self.contains(4) {
            names.push("5.3");
        }
        let ghost c = names@.map_values(|p: &str| p@);
        if self.contains(8) {
            names.push("5.4");
        }
        let ghost d = names@.map_values(|p: &str| p@);
        if self.contains(16) {
            names.push("5.5");
        }
        let ghost e = names@.map_values(|p: &str| p@);
        if self.contains(32) {
            names.push("LuaJIT");
        }
        let ghost f = names@.map_values(|p: &str| p@);
        assert(a =~= (if self@ & 1 != 0 { seq!["5.1"@] } else { Seq::empty() }));
        assert(b =~= a + (if self@ & 2 != 0 { seq!["5.2"@] } else { Seq::empty() }));
        assert(c =~= b + (if self@ & 4 != 0 { seq!["5.3"@] } else { Seq::empty() }));
        assert(d =~= c + (if self@ & 8 != 0 { seq!["5.4"@] } else { Seq::empty() }));
        assert(e =~= d + (if self@ & 16 != 0 { seq!["5.5"@] } else { Seq::empty() }));
        assert(f =~= e + (if self@ & 32 != 0 { seq!["LuaJIT"@] } else { Seq::empty() }));
        names
    }

    /// The text of this set: the version names joined by ", ", or "(none)".
    pub fn to_string(self) -> (r: String)
        ensures
            r@ == version_set_text(self@),
    {
        let names = self.version_names();
        if names.len() == 0 {
            string_from(&chars_of("(none)"))
        } else {
            let v = join_strs(&names, ", ");
            string_from(&v)
        }
    }

    /// Checks if a specific Lua version string (e.g., "5.4" or "5.4.8") is
    /// in this set.
    pub fn contains_version_str(&self, version: &str) -> (r: bool)
        ensures
            r == match version_flag(version@) {
                Some(f) => self@ & f != 0,
                None => false,
            },
    {
        let v = chars_of(version);
        if str_eq(version, "5.1") {
            self.contains(1)
        } else if str_eq(version, "5.2") {
            self.contains(2)
        } else if str_eq(version, "5.3") {
            self.contains(4)
        } else if str_eq(version, "5.4") {
            self.contains(8)
        } else if str_eq(version, "5.5") {
            self.contains(16)
        } else if starts_with_str(v.as_slice(), "5.1.") {
            self.contains(1)
        } else if starts_with_str(v.as_slice(), "5.2.") {
            self.contains(2)
        } else if starts_with_str(v.as_slice(), "5.3.") {
            self.contains(4)
        } else if starts_with_str(v.as_slice(), "5.4.") {
            self.contains(8)
        } else if starts_with_str(v.as_slice(), "5.5.") {
            self.contains(16)
        } else {
            false
        }
    }
}


/// The flag of Lua 5.`k`, from the constants of [`LuaVersionSet`] (none
/// for other numbers).
pub open spec fn minor_bit(k: int) -> int {
    if k == 1 {
        LuaVersionSet::LUA_5_1 as int
    } else if k == 2 {
        LuaVersionSet::LUA_5_2 as int
    } else if k == 3 {
        LuaVersionSet::LUA_5_3 as int
    } else if k == 4 {
        LuaVersionSet::LUA_5_4 as int
    } else if k == 5 {
        LuaVersionSet::LUA_5_5 as int
    } else {
        0
    }
}

/// The flags of the standard Lua versions 5.`first` to 5.`last`.
pub open spec fn series_bits(first: int, last: int) -> int
    decreases last - first + 1,
{
    if first > last || first < 1 {
        0
    } else {
        minor_bit(first) + series_bits(first + 1, last)
    }
}

/// A Lua version text names the version of its minor series: "5.`n`" names
/// Lua 5.`n`, and every patch release "5.`n`.…" names the same version, so
/// `contains_version_str` answers alike for "5.1" and "5.1.5".
pub proof fn lemma_patch_release_names_series(c: char, p: Seq<char>)
    requires
        '1' <= c <= '5',
    ensures
        version_flag(seq!['5', '.', c]) matches Some(f) && f as int == minor_bit(c as int - '0' as int),
        version_flag(seq!['5', '.', c, '.'] + p) == version_flag(seq!['5', '.', c]),
{
    reveal_strlit("5.1");
    reveal_strlit("5.2");
    reveal_strlit("5.3");
    reveal_strlit("5.4");
    reveal_strlit("5.5");
    reveal_strlit("5.1.");
    reveal_strlit("5.2.");
    reveal_strlit("5.3.");
    reveal_strlit("5.4.");
    reveal_strlit("5.5.");
    let t = seq!['5', '.', c, '.'] + p;
    let m = seq!['5', '.', c];
    assert(t.take(4) =~= seq!['5', '.', c, '.']);
    assert(t != "5.1"@ && t != "5.2"@ && t != "5.3"@ && t != "5.4"@ && t != "5.5"@) by {
        assert(t.len() >= 4);
    }
    assert(starts_with(t, "5.1."@) <==> c == '1') by {
        if c != '1' {
            assert(t.take(4)[2] != "5.1."@[2]);
        } else {
            assert(t.take(4) =~= "5.1."@);
        }
    }
    assert(starts_with(t, "5.2."@) <==> c == '2') by {
        if c != '2' {
            assert(t.take(4)[2] != "5.2."@[2]);
        } else {
            assert(t.take(4) =~= "5.2."@);
        }
    }
    assert(starts_with(t, "5.3."@) <==> c == '3') by {
        if c != '3' {
            assert(t.take(4)[2] != "5.3."@[2]);
        } else {
            assert(t.take(4) =~= "5.3."@);
        }
    }
    assert(starts_with(t, "5.4."@) <==> c == '4') by {
        if c != '4' {
            assert(t.take(4)[2] != "5.4."@[2]);
        } else {
            assert(t.take(4) =~= "5.4."@);
        }
    }
    assert(starts_with(t, "5.5."@) <==> c == '5') by {
        if c != '5' {
            assert(t.take(4)[2] != "5.5."@[2]);
        } else {
            assert(t.take(4) =~= "5.5."@);
        }
    }
    if c == '1' {
        assert(m =~= "5.1"@);
    } else if c == '2' {
        assert(m =~= "5.2"@);
    } else if c == '3' {
        assert(m =~= "5.3"@);
    } else if c == '4' {
        assert(m =~= "5.4"@);
    } else {
        assert(m =~= "5.5"@);
    }
}

} // verus!
