//! Parsing and checking version constraints.
use vstd::prelude::*;
use crate::error::{DepotError, DepotResult};
use crate::text::{
    chars_of, ends_with, ends_with_str, slice_chars, split_str, split_str_chars, starts_with,
    starts_with_str, trim, trim_chars,
};
use crate::version::{
    SemVer, Version, VersionConstraint, any_satisfies, parse_version_spec, precedes_release,
    satisfies_spec, version_eq, version_order,
};

verus! {

/// The forms of a single constraint.
pub enum ConstraintForm {
    Compatible,
    Patch,
    GreaterOrEqual,
    LessThan,
    AnyPatch,
    Exact,
}

/// The form of the (trimmed) constraint text `t`, and the text of its
/// version.
pub open spec fn constraint_form(t: Seq<char>) -> (ConstraintForm, Seq<char>) {
    if starts_with(t, "^"@) {
        (ConstraintForm::Compatible, t.skip(1))
    } else if starts_with(t, "~"@) {
        (ConstraintForm::Patch, t.skip(1))
    } else if starts_with(t, ">="@) {
        (ConstraintForm::GreaterOrEqual, t.skip(2))
    } else if starts_with(t, "<"@) {
        (ConstraintForm::LessThan, t.skip(1))
    } else if ends_with(t, ".x"@) {
        (ConstraintForm::AnyPatch, t.take(t.len() - 2))
    } else {
        (ConstraintForm::Exact, t)
    }
}

/// Whether `c` is a constraint of form `f` on version `v`.
pub open spec fn has_form(c: VersionConstraint, f: ConstraintForm, v: SemVer) -> bool {
    match (f, c) {
        (ConstraintForm::Compatible, VersionConstraint::Compatible(w)) => w@ == v,
        (ConstraintForm::Patch, VersionConstraint::Patch(w)) => w@ == v,
        (ConstraintForm::GreaterOrEqual, VersionConstraint::GreaterOrEqual(w)) => w@ == v,
        (ConstraintForm::LessThan, VersionConstraint::LessThan(w)) => w@ == v,
        (ConstraintForm::AnyPatch, VersionConstraint::AnyPatch(w)) => w@ == v,
        (ConstraintForm::Exact, VersionConstraint::Exact(w)) => w@ == v,
        _ => false,
    }
}

/// The message of a version text that does not parse.
pub open spec fn bad_version_message(text: Seq<char>) -> Seq<char> {
    "Invalid major version: "@ + trim(text)
}

/// Whether `c` is what the single constraint `s` denotes.
pub open spec fn simple_ok(s: Seq<char>, c: VersionConstraint) -> bool {
    let (f, text) = constraint_form(trim(s));
    match parse_version_spec(text) {
        Some(v) => has_form(c, f, v),
        None => false,
    }
}

/// The error of the single constraint `s`, if it has one.
pub open spec fn simple_error(s: Seq<char>) -> Option<Seq<char>> {
    let (f, text) = constraint_form(trim(s));
    match parse_version_spec(text) {
        Some(_) => None,
        None => Some(bad_version_message(text)),
    }
}

/// The bounds of a range `>=X, <Y`, when `t` has that shape.
pub open spec fn range_bounds(t: Seq<char>) -> Option<(Seq<char>, Seq<char>)> {
    let ands = split_str(t, ", "@);
    if ands.len() == 2 && starts_with(ands[0], ">="@) && starts_with(ands[1], "<"@) {
        Some((trim(ands[0].skip(2)), trim(ands[1].skip(1))))
    } else {
        None
    }
}

/// Whether `c` is what the alternative `s` (a range or a single
/// constraint) denotes.
pub open spec fn alternative_ok(s: Seq<char>, c: VersionConstraint) -> bool {
    let t = trim(s);
    match range_bounds(t) {
        Some((lo, hi)) => match (parse_version_spec(lo), parse_version_spec(hi), c) {
            (Some(l), Some(h), VersionConstraint::Range { lower, upper }) => lower@ == l
                && upper@ == h,
            _ => false,
        },
        None => simple_ok(t, c),
    }
}

/// The error of the alternative `s`, if it has one.
pub open spec fn alternative_error(s: Seq<char>) -> Option<Seq<char>> {
    let t = trim(s);
    match range_bounds(t) {
        Some((lo, hi)) => if parse_version_spec(lo) is None {
            Some(bad_version_message(lo))
        } else if parse_version_spec(hi) is None {
            Some(bad_version_message(hi))
        } else {
            None
        },
        None => simple_error(t),
    }
}

/// The error of the first alternative in `parts` that has one.
pub open spec fn first_alternative_error(parts: Seq<Seq<char>>) -> Option<Seq<char>>
    decreases parts.len(),
{
    if parts.len() == 0 {
        None
    } else {
        match alternative_error(parts[0]) {
            Some(m) => Some(m),
            None => first_alternative_error(parts.drop_first()),
        }
    }
}

/// The alternatives of a compound constraint.
pub open spec fn alternatives(s: Seq<char>) -> Seq<Seq<char>> {
    split_str(trim(s), " || "@)
}

/// The error of the compound constraint `s`, if it has one.
pub open spec fn compound_error(s: Seq<char>) -> Option<Seq<char>> {
    let ors = alternatives(s);
    if ors.len() > 1 {
        first_alternative_error(ors)
    } else {
        alternative_error(trim(s))
    }
}

/// Whether `c` is what the compound constraint `s` denotes.
pub open spec fn compound_ok(s: Seq<char>, c: VersionConstraint) -> bool {
    let ors = alternatives(s);
    if ors.len() > 1 {
        match c {
            VersionConstraint::AnyOf(cs) => cs@.len() == ors.len() && forall|i: int|
                0 <= i < ors.len() ==> #[trigger] alternative_ok(ors[i], cs@[i]),
            _ => false,
        }
    } else {
        alternative_ok(trim(s), c)
    }
}

impl Version {
    /// Whether this version comes before the release `(major + 1).0.0`.
    fn below_next_major(&self, major: u64) -> (r: bool)
        ensures
            r == precedes_release(self@, major + 1, 0, 0),
    {
        self.major <= major || (major < u64::MAX && self.major == major + 1 && self.minor == 0
            && self.patch == 0 && self.prerelease.is_some())
    }

    /// Whether this version comes before the release `major.(minor + 1).0`.
    fn below_next_minor(&self, major: u64, minor: u64) -> (r: bool)
        ensures
            r == precedes_release(self@, major as int, minor + 1, 0),
    {
        self.major < major || (self.major == major && (self.minor <= minor || (minor < u64::MAX
            && self.minor == minor + 1 && self.patch == 0 && self.prerelease.is_some())))
    }

    /// Check if this version satisfies a constraint
    pub fn satisfies(&self, constraint: &VersionConstraint) -> (r: bool)
        ensures
            r == satisfies_spec(self@, *constraint),
        decreases constraint,
    {
        match constraint {
            VersionConstraint::Exact(v) => self.same_as(v),
            VersionConstraint::Compatible(v) => {
                self.order_against(v) >= 0 && self.below_next_major(v.major)
            },
            VersionConstraint::Patch(v) => {
                self.order_against(v) >= 0 && self.below_next_minor(v.major, v.minor)
            },
            VersionConstraint::GreaterOrEqual(v) => self.order_against(v) >= 0,
            VersionConstraint::LessThan(v) => self.order_against(v) < 0,
            VersionConstraint::AnyPatch(v) => self.major == v.major && self.minor == v.minor,
            VersionConstraint::Range { lower, upper } => {
                self.order_against(lower) >= 0 && self.order_against(upper) < 0
            },
            VersionConstraint::AnyOf(constraints) => {
                let ghost cs = constraints@;
                assert(decreases_to!(*constraint => constraint->AnyOf_0));
                let mut i: usize = 0;
                assert(cs.skip(0) == cs);
                while i < constraints.len()
                    invariant
                        i <= constraints.len(),
                        cs == constraints@,
                        *constraint == VersionConstraint::AnyOf(*constraints),
                        decreases_to!(*constraint => *constraints),
                        any_satisfies(self@, cs) == any_satisfies(self@, cs.skip(i as int)),
                    decreases constraints.len() - i,
                {
                    let ghost rest = cs.skip(i as int);
                    assert(rest[0] == cs[i as int]);
                    assert(rest.drop_first() == cs.skip(i as int + 1));
                    assert(decreases_to!(*constraints => cs));
                    assert(decreases_to!(cs => cs[i as int]));
                    if self.satisfies(&constraints[i]) {
                        return true;
                    }
                    i = i + 1;
                }
                false
            },
        }
    }
}

fn parse_form(t: &[char]) -> (r: DepotResult<VersionConstraint>)
    ensures
        match simple_error(t@) {
            Some(m) => r matches Err(DepotError::Version(e)) && e@ == m,
            None => r matches Ok(c) && simple_ok(t@, c),
        },
{
    let s = trim_chars(t);
    let n = s.len();
    if starts_with_str(s.as_slice(), "^") {
        proof {
            reveal_strlit("^");
        }
        let rest = slice_chars(s.as_slice(), 1, n);
        assert(rest@ == s@.skip(1));
        match Version::parse_chars(rest.as_slice()) {
            Ok(v) => Ok(VersionConstraint::Compatible(v)),
            Err(e) => Err(e),
        }
    } else if starts_with_str(s.as_slice(), "~") {
        proof {
            reveal_strlit("~");
        }
        let rest = slice_chars(s.as_slice(), 1, n);
        assert(rest@ == s@.skip(1));
        match Version::parse_chars(rest.as_slice()) {
            Ok(v) => Ok(VersionConstraint::Patch(v)),
            Err(e) => Err(e),
        }
    } else if starts_with_str(s.as_slice(), ">=") {
        proof {
            reveal_strlit(">=");
        }
        let rest = slice_chars(s.as_slice(), 2, n);
        assert(rest@ == s@.skip(2));
        match Version::parse_chars(rest.as_slice()) {
            Ok(v) => Ok(VersionConstraint::GreaterOrEqual(v)),
            Err(e) => Err(e),
        }
    } else if starts_with_str(s.as_slice(), "<") {
        proof {
            reveal_strlit("<");
        }
        let rest = slice_chars(s.as_slice(), 1, n);
        assert(rest@ == s@.skip(1));
        match Version::parse_chars(rest.as_slice()) {
            Ok(v) => Ok(VersionConstraint::LessThan(v)),
            Err(e) => Err(e),
        }
    } else if ends_with_str(s.as_slice(), ".x") {
        proof {
            reveal_strlit(".x");
        }
        let base = slice_chars(s.as_slice(), 0, n - 2);
        assert(base@ == s@.take(s@.len() - 2));
        match Version::parse_chars(base.as_slice()) {
            Ok(v) => Ok(VersionConstraint::AnyPatch(v)),
            Err(e) => Err(e),
        }
    } else {
        match Version::parse_chars(s.as_slice()) {
            Ok(v) => Ok(VersionConstraint::Exact(v)),
            Err(e) => Err(e),
        }
    }
}

/// Parse a version constraint string: `^X`, `~X`, `>=X`, `<X`, `X.Y.x`
/// or an exact version `X`.
pub fn parse_constraint(s: &str) -> (r: DepotResult<VersionConstraint>)
    ensures
        match simple_error(s@) {
            Some(m) => r matches Err(DepotError::Version(e)) && e@ == m,
            None => r matches Ok(c) && simple_ok(s@, c),
        },
{
    let v = chars_of(s);
    parse_form(v.as_slice())
}

fn parse_alternative(s: &[char]) -> (r: DepotResult<VersionConstraint>)
    ensures
        match alternative_error(s@) {
            Some(m) => r matches Err(DepotError::Version(e)) && e@ == m,
            None => r matches Ok(c) && alternative_ok(s@, c),
        },
{
    let t = trim_chars(s);
    let sep = chars_of(", ");
    proof {
        reveal_strlit(", ");
    }
    let ands = split_str_chars(t.as_slice(), sep.as_slice());
    if ands.len() == 2 {
        assert(ands@[0]@ == ands.deep_view()[0]);
        assert(ands@[1]@ == ands.deep_view()[1]);
        if starts_with_str(ands[0].as_slice(), ">=") && starts_with_str(ands[1].as_slice(), "<") {
            proof {
                reveal_strlit(">=");
                reveal_strlit("<");
            }
            let ge = slice_chars(ands[0].as_slice(), 2, ands[0].len());
            let lt = slice_chars(ands[1].as_slice(), 1, ands[1].len());
            let ge_t = trim_chars(ge.as_slice());
            let lt_t = trim_chars(lt.as_slice());
            assert(ge@ == ands.deep_view()[0].skip(2));
            assert(lt@ == ands.deep_view()[1].skip(1));
            let lower = match Version::parse_chars(ge_t.as_slice()) {
                Ok(v) => v,
                Err(e) => {
                    return Err(e);
                },
            };
            let upper = match Version::parse_chars(lt_t.as_slice()) {
                Ok(v) => v,
                Err(e) => {
                    return Err(e);
                },
            };
            return Ok(VersionConstraint::Range { lower, upper });
        }
    }
    parse_form(t.as_slice())
}

/// Parse a compound constraint string with `||` (OR) and `, ` (range)
/// operators.
///
/// Examples: `<2.0.0`, `>=0.0.0, <2.0.0`, `>=0.0.0, <2.0.0 || >=2.5.0, <3.0.0`
pub fn parse_compound_constraint(s: &str) -> (r: DepotResult<VersionConstraint>)
    ensures
        match compound_error(s@) {
            Some(m) => r matches Err(DepotError::Version(e)) && e@ == m,
            None => r matches Ok(c) && compound_ok(s@, c),
        },
{
    let raw = chars_of(s);
    let t = trim_chars(raw.as_slice());
    let sep = chars_of(" || ");
    proof {
        reveal_strlit(" || ");
    }
    let ors = split_str_chars(t.as_slice(), sep.as_slice());
    let ghost parts = ors.deep_view();
    if ors.len() > 1 {
        assert(parts.skip(0) == parts);
        let mut cs: Vec<VersionConstraint> = Vec::new();
        let mut i: usize = 0;
        while i < ors.len()
            invariant
                i <= ors.len(),
                ors.len() > 1,
                parts.len() == ors.len(),
                parts == ors.deep_view(),
                parts == alternatives(s@),
                cs@.len() == i,
                forall|k: int| 0 <= k < i ==> #[trigger] alternative_ok(parts[k], cs@[k]),
                forall|k: int| 0 <= k < i ==> #[trigger] alternative_error(parts[k]) is None,
                first_alternative_error(parts) == first_alternative_error(parts.skip(i as int)),
            decreases ors.len() - i,
        {
            assert(ors@[i as int]@ == parts[i as int]);
            assert(parts.skip(i as int)[0] == parts[i as int]);
            assert(parts.skip(i as int).drop_first() == parts.skip(i as int + 1));
            match parse_alternative(ors[i].as_slice()) {
                Ok(c) => {
                    cs.push(c);
                },
                Err(e) => {
                    assert(first_alternative_error(parts.skip(i as int)) == alternative_error(parts[i as int]));
                    return Err(e);
                },
            }
            i = i + 1;
        }
        assert(parts.skip(i as int).len() == 0);
        Ok(VersionConstraint::AnyOf(cs))
    } else {
        parse_alternative(t.as_slice())
    }
}


/// A constraint written `X.Y.x` is met by exactly the versions with the
/// major and minor numbers of `X.Y`, whatever their patch number: what
/// `parse_constraint` gives for "1.2.x" is met by 1.2.0 and 1.2.9 but never
/// by 1.5.0 or 2.2.0.
pub proof fn lemma_any_patch_constraint(s: Seq<char>, c: VersionConstraint, v: SemVer)
    requires
        simple_ok(s, c),
        ends_with(trim(s), ".x"@),
        crate::text::is_digit(trim(s)[0]),
    ensures
        parse_version_spec(trim(s).take(trim(s).len() - 2)) matches Some(w) && (satisfies_spec(v, c)
            <==> (v.major == w.major && v.minor == w.minor)),
{
    reveal_strlit("^");
    reveal_strlit("~");
    reveal_strlit(">=");
    reveal_strlit("<");
    reveal_strlit(".x");
    let t = trim(s);
    assert(t.len() >= 2);
    assert(!starts_with(t, "^"@)) by {
        assert(t.take(1)[0] == t[0]);
    }
    assert(!starts_with(t, "~"@)) by {
        assert(t.take(1)[0] == t[0]);
    }
    assert(!starts_with(t, ">="@)) by {
        if t.len() >= 2 {
            assert(t.take(2)[0] == t[0]);
        }
    }
    assert(!starts_with(t, "<"@)) by {
        assert(t.take(1)[0] == t[0]);
    }
}


/// The release `major.minor.patch`, with no pre-release or build.
pub open spec fn release(major: u64, minor: u64, patch: u64) -> SemVer {
    SemVer { major, minor, patch, pre: None, build: None }
}

/// What each single constraint means, for the version `w` written after
/// its operator: `^w` is met by the versions from `w` up to, not
/// including, the next major release; `~w` up to the next minor release;
/// `>=w` by those from `w` on; `<w` by those before `w`; and a bare `w` by
/// `w` alone (build metadata aside).
pub proof fn lemma_constraint_forms(s: Seq<char>, c: VersionConstraint, v: SemVer)
    requires
        simple_ok(s, c),
    ensures
        ({
            let t = trim(s);
            &&& starts_with(t, "^"@) ==> (parse_version_spec(t.skip(1)) matches Some(w) && (w.major
                < u64::MAX ==> (satisfies_spec(v, c) <==> (version_order(v, w) >= 0 && version_order(
                v,
                release((w.major + 1) as u64, 0, 0),
            ) < 0))))
            &&& starts_with(t, "~"@) ==> (parse_version_spec(t.skip(1)) matches Some(w) && (w.minor
                < u64::MAX ==> (satisfies_spec(v, c) <==> (version_order(v, w) >= 0 && version_order(
                v,
                release(w.major, (w.minor + 1) as u64, 0),
            ) < 0))))
            &&& starts_with(t, ">="@) ==> (parse_version_spec(t.skip(2)) matches Some(w) && (
            satisfies_spec(v, c) <==> version_order(v, w) >= 0))
            &&& starts_with(t, "<"@) ==> (parse_version_spec(t.skip(1)) matches Some(w) && (
            satisfies_spec(v, c) <==> version_order(v, w) < 0))
            &&& (t.len() > 0 && crate::text::is_digit(t[0]) && !ends_with(t, ".x"@)) ==> (
            parse_version_spec(t) matches Some(w) && (satisfies_spec(v, c) <==> version_eq(v, w)))
        }),
{
    reveal_strlit("^");
    reveal_strlit("~");
    reveal_strlit(">=");
    reveal_strlit("<");
    let t = trim(s);
    if starts_with(t, "<"@) {
        assert(!starts_with(t, "^"@) && !starts_with(t, "~"@) && !starts_with(t, ">="@)) by {
            assert(t.take(1)[0] == t[0]);
            if t.len() >= 2 {
                assert(t.take(2)[0] == t[0]);
            }
        }
    }
    if starts_with(t, ">="@) {
        assert(!starts_with(t, "^"@) && !starts_with(t, "~"@)) by {
            assert(t.take(1)[0] == t[0]);
            assert(t.take(2)[0] == t[0]);
        }
    }
    if starts_with(t, "~"@) {
        assert(!starts_with(t, "^"@)) by {
            assert(t.take(1)[0] == t[0]);
        }
    }
    if t.len() > 0 && crate::text::is_digit(t[0]) {
        assert(!starts_with(t, "^"@) && !starts_with(t, "~"@) && !starts_with(t, ">="@)
            && !starts_with(t, "<"@)) by {
            assert(t.take(1)[0] == t[0]);
            if t.len() >= 2 {
                assert(t.take(2)[0] == t[0]);
            }
        }
    }
}

} // verus!
