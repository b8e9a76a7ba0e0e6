//! Semantic versions and version constraints.
use vstd::prelude::*;
use crate::error::{DepotError, DepotResult, message};
use crate::text::{
    all_digits, chars_of, decimal, decimal_chars, find_first, find_first_char, find_last,
    find_last_char, has_char, parse_u64, parse_u64_spec, push_chars, replace_char, replace_chars,
    slice_chars, split, split_chars, string_from, trim, trim_chars,
};

verus! {

/// A version: `major.minor.patch`, an optional pre-release part
/// (e.g. `alpha.1`) and optional build metadata (e.g. `build.123`).
#[derive(Debug)]
pub struct Version {
    pub major: u64,
    pub minor: u64,
    pub patch: u64,
    /// Pre-release version (e.g., "alpha.1", "beta.2", "rc.1")
    pub prerelease: Option<String>,
    /// Build metadata (e.g., "build.123")
    pub build_metadata: Option<String>,
}

/// The mathematical value of a [`Version`].
pub struct SemVer {
    pub major: u64,
    pub minor: u64,
    pub patch: u64,
    pub pre: Option<Seq<char>>,
    pub build: Option<Seq<char>>,
}

pub open spec fn opt_chars(o: Option<String>) -> Option<Seq<char>> {
    match o {
        Some(s) => Some(s@),
        None => None,
    }
}

impl View for Version {
    type V = SemVer;

    open spec fn view(&self) -> SemVer {
        SemVer {
            major: self.major,
            minor: self.minor,
            patch: self.patch,
            pre: opt_chars(self.prerelease),
            build: opt_chars(self.build_metadata),
        }
    }
}

/// Version constraint types
#[derive(Debug)]
pub enum VersionConstraint {
    /// Exact version: "1.2.3"
    Exact(Version),
    /// Compatible version: "^1.2.3" (>=1.2.3 <2.0.0)
    Compatible(Version),
    /// Patch version: "~1.2.3" (>=1.2.3 <1.3.0)
    Patch(Version),
    /// Greater than or equal: ">=1.2.3"
    GreaterOrEqual(Version),
    /// Less than: "<2.0.0"
    LessThan(Version),
    /// Any patch version: "1.2.x"
    AnyPatch(Version),
    /// Range: >= lower AND < upper
    Range { lower: Version, upper: Version },
    /// Any of the given constraints (OR semantics)
    AnyOf(Vec<VersionConstraint>),
}

// ===================== Parsing, as specified =====================

/// `t` split at its first `+`: the version and pre-release part, and the
/// build metadata.
pub open spec fn split_build(t: Seq<char>) -> (Seq<char>, Option<Seq<char>>) {
    match find_first(t, '+') {
        Some(p) => (t.take(p), Some(t.skip(p + 1))),
        None => (t, None),
    }
}

/// The version part split at its last `-`.  What follows the dash is a
/// pre-release when it holds a dot or a non-digit, or when the part before
/// the dash already has three dot-separated fields; otherwise (as in the
/// LuaRocks form `3.0-1`) the dash separates the patch number.
pub open spec fn split_prerelease(vp: Seq<char>) -> (Seq<char>, Option<Seq<char>>) {
    match find_last(vp, '-') {
        Some(p) => {
            let pot = vp.skip(p + 1);
            let before = vp.take(p);
            if pot.contains('.') || !all_digits(pot) {
                (before, Some(pot))
            } else if split(before, '.').len() >= 3 {
                (before, Some(pot))
            } else {
                (vp, None)
            }
        },
        None => (vp, None),
    }
}

/// The dot-separated numeric fields of the version text `s`.
pub open spec fn version_fields(s: Seq<char>) -> Seq<Seq<char>> {
    let (vp, build) = split_build(trim(s));
    let (vpart, pre) = split_prerelease(vp);
    let normalized = if pre is None { replace_char(vpart, '-', '.') } else { vpart };
    split(normalized, '.')
}

/// Field `i` of `parts` read as a number, 0 where it is absent or no number.
pub open spec fn field_or_zero(parts: Seq<Seq<char>>, i: int) -> u64 {
    if i < parts.len() {
        match parse_u64_spec(parts[i]) {
            Some(n) => n,
            None => 0,
        }
    } else {
        0
    }
}

/// The version that the text `s` denotes, if its major field is a number.
pub open spec fn parse_version_spec(s: Seq<char>) -> Option<SemVer> {
    let (vp, build) = split_build(trim(s));
    let (vpart, pre) = split_prerelease(vp);
    let parts = version_fields(s);
    match parse_u64_spec(parts[0]) {
        Some(major) => Some(
            SemVer {
                major,
                minor: field_or_zero(parts, 1),
                patch: field_or_zero(parts, 2),
                pre,
                build,
            },
        ),
        None => None,
    }
}

/// The text of a version: `major.minor.patch[-pre][+build]`.
pub open spec fn version_text(v: SemVer) -> Seq<char> {
    let core = decimal(v.major as nat) + seq!['.'] + decimal(v.minor as nat) + seq!['.']
        + decimal(v.patch as nat);
    let with_pre = match v.pre {
        Some(p) => core + seq!['-'] + p,
        None => core,
    };
    match v.build {
        Some(b) => with_pre + seq!['+'] + b,
        None => with_pre,
    }
}

// ===================== Comparison, as specified =====================

/// Ordering of two numbers as -1, 0 or 1.
pub open spec fn order_of_ints(a: int, b: int) -> int {
    if a < b {
        -1
    } else if a == b {
        0
    } else {
        1
    }
}

/// Lexicographic comparison of two character sequences by code point
/// (which is how `str` compares UTF-8 text, byte by byte).
pub open spec fn lex_order(a: Seq<char>, b: Seq<char>) -> int
    decreases a.len(),
{
    if a.len() == 0 || b.len() == 0 {
        order_of_ints(a.len() as int, b.len() as int)
    } else if a[0] != b[0] {
        order_of_ints(a[0] as int, b[0] as int)
    } else {
        lex_order(a.drop_first(), b.drop_first())
    }
}

/// Comparison of two pre-release identifiers: numbers compare as numbers
/// and before alphanumeric identifiers, which compare lexically.
pub open spec fn ident_order(a: Seq<char>, b: Seq<char>) -> int {
    match (parse_u64_spec(a), parse_u64_spec(b)) {
        (Some(x), Some(y)) => order_of_ints(x as int, y as int),
        (Some(_), None) => -1,
        (None, Some(_)) => 1,
        (None, None) => lex_order(a, b),
    }
}

/// Comparison of two lists of identifiers, the first difference deciding
/// and a longer list being greater when one is a prefix of the other.
pub open spec fn idents_order(a: Seq<Seq<char>>, b: Seq<Seq<char>>) -> int
    decreases a.len(),
{
    if a.len() == 0 || b.len() == 0 {
        order_of_ints(a.len() as int, b.len() as int)
    } else if ident_order(a[0], b[0]) != 0 {
        ident_order(a[0], b[0])
    } else {
        idents_order(a.drop_first(), b.drop_first())
    }
}

/// Comparison of two pre-release texts by their dot-separated identifiers.
pub open spec fn prerelease_order(a: Seq<char>, b: Seq<char>) -> int {
    idents_order(split(a, '.'), split(b, '.'))
}

/// Version precedence: `major.minor.patch` first; then a pre-release
/// comes before the release; build metadata is ignored.
pub open spec fn version_order(a: SemVer, b: SemVer) -> int {
    if a.major != b.major {
        order_of_ints(a.major as int, b.major as int)
    } else if a.minor != b.minor {
        order_of_ints(a.minor as int, b.minor as int)
    } else if a.patch != b.patch {
        order_of_ints(a.patch as int, b.patch as int)
    } else {
        match (a.pre, b.pre) {
            (None, None) => 0,
            (Some(_), None) => -1,
            (None, Some(_)) => 1,
            (Some(x), Some(y)) => prerelease_order(x, y),
        }
    }
}

/// Version equality: all but the build metadata agree.
pub open spec fn version_eq(a: SemVer, b: SemVer) -> bool {
    a.major == b.major && a.minor == b.minor && a.patch == b.patch && a.pre == b.pre
}

/// Whether `v` comes before the release `major.minor.patch` (one with no
/// pre-release), the numbers taken as integers so that they may pass the
/// largest field value.
pub open spec fn precedes_release(v: SemVer, major: int, minor: int, patch: int) -> bool {
    v.major < major || (v.major == major && (v.minor < minor || (v.minor == minor && (v.patch
        < patch || (v.patch == patch && v.pre is Some)))))
}

/// Whether version `v` meets constraint `c`: `^X.Y.Z` is `>=X.Y.Z <(X+1).0.0`
/// and `~X.Y.Z` is `>=X.Y.Z <X.(Y+1).0`.
pub open spec fn satisfies_spec(v: SemVer, c: VersionConstraint) -> bool
    decreases c,
{
    match c {
        VersionConstraint::Exact(w) => version_eq(v, w@),
        VersionConstraint::Compatible(w) => version_order(v, w@) >= 0 && precedes_release(
            v,
            w.major + 1,
            0,
            0,
        ),
        VersionConstraint::Patch(w) => version_order(v, w@) >= 0 && precedes_release(
            v,
            w.major as int,
            w.minor + 1,
            0,
        ),
        VersionConstraint::GreaterOrEqual(w) => version_order(v, w@) >= 0,
        VersionConstraint::LessThan(w) => version_order(v, w@) < 0,
        VersionConstraint::AnyPatch(w) => v.major == w.major && v.minor == w.minor,
        VersionConstraint::Range { lower, upper } => version_order(v, lower@) >= 0 && version_order(
            v,
            upper@,
        ) < 0,
        VersionConstraint::AnyOf(cs) => any_satisfies(v, cs@),
    }
}

/// Whether version `v` meets one of the constraints `cs`.
pub open spec fn any_satisfies(v: SemVer, cs: Seq<VersionConstraint>) -> bool
    decreases cs,
{
    if cs.len() == 0 {
        false
    } else {
        satisfies_spec(v, cs[0]) || any_satisfies(v, cs.drop_first())
    }
}

// ===================== Code =====================

pub fn copy_string(s: &String) -> (r: String)
    ensures
        r@ == s@,
{
    s.clone()
}

pub fn copy_opt_string(s: &Option<String>) -> (r: Option<String>)
    ensures
        opt_chars(r) == opt_chars(*s),
{
    match s {
        Some(x) => Some(x.clone()),
        None => None,
    }
}

impl Version {
    pub fn new(major: u64, minor: u64, patch: u64) -> (v: Self)
        ensures
            v.major == major,
            v.minor == minor,
            v.patch == patch,
            v.prerelease is None,
            v.build_metadata is None,
    {
        Version { major, minor, patch, prerelease: None, build_metadata: None }
    }

    /// Create a new version with pre-release metadata
    pub fn with_prerelease(major: u64, minor: u64, patch: u64, prerelease: String) -> (v: Self)
        ensures
            v.major == major,
            v.minor == minor,
            v.patch == patch,
            v@.pre == Some(prerelease@),
            v.build_metadata is None,
    {
        Version { major, minor, patch, prerelease: Some(prerelease), build_metadata: None }
    }

    /// A copy of this version.
    pub fn copy(&self) -> (v: Self)
        ensures
            v@ == self@,
    {
        Version {
            major: self.major,
            minor: self.minor,
            patch: self.patch,
            prerelease: copy_opt_string(&self.prerelease),
            build_metadata: copy_opt_string(&self.build_metadata),
        }
    }

    /// Parse a version string (e.g., "1.2.3", "1.2.3-alpha.1", "1.2.3+build.123",
    /// "1.2.3-rc.1+build.456"; also the dash-separated "3.0-1", read as 3.0.1).
    pub fn parse(s: &str) -> (r: DepotResult<Self>)
        ensures
            match parse_version_spec(s@) {
                Some(v) => r matches Ok(x) && x@ == v,
                None => r matches Err(DepotError::Version(m)) && m@
                    == "Invalid major version: "@ + trim(s@),
            },
    {
        let raw = chars_of(s);
        Self::parse_chars(raw.as_slice())
    }

    /// [`Version::parse`] on the characters of a string.
    pub fn parse_chars(raw: &[char]) -> (r: DepotResult<Self>)
        ensures
            match parse_version_spec(raw@) {
                Some(v) => r matches Ok(x) && x@ == v,
                None => r matches Err(DepotError::Version(m)) && m@
                    == "Invalid major version: "@ + trim(raw@),
            },
    {
        let t = trim_chars(raw);
        // Split at the first '+' to separate build metadata.
        let (vp, build): (Vec<char>, Option<Vec<char>>) = match find_first_char(t.as_slice(), '+') {
            Some(pos) => (slice_chars(t.as_slice(), 0, pos), Some(slice_chars(t.as_slice(), pos + 1, t.len()))),
            None => (slice_chars(t.as_slice(), 0, t.len()), None),
        };
        assert(t@.subrange(0, t@.len() as int) == t@);
        assert((vp@, match build { Some(b) => Some(b@), None => None::<Seq<char>> }) == split_build(t@));
        // Split at the last '-' to separate a pre-release.
        let (vpart, pre): (Vec<char>, Option<Vec<char>>) = match find_last_char(vp.as_slice(), '-') {
            Some(pos) => {
                let pot = slice_chars(vp.as_slice(), pos + 1, vp.len());
                let before = slice_chars(vp.as_slice(), 0, pos);
                if has_char(pot.as_slice(), '.') || !all_ascii_digits(pot.as_slice()) {
                    (before, Some(pot))
                } else {
                    let fields = split_chars(before.as_slice(), '.');
                    if fields.len() >= 3 {
                        (before, Some(pot))
                    } else {
                        (slice_chars(vp.as_slice(), 0, vp.len()), None)
                    }
                }
            },
            None => (slice_chars(vp.as_slice(), 0, vp.len()), None),
        };
        assert(vp@.subrange(0, vp@.len() as int) == vp@);
        assert((vpart@, match pre { Some(b) => Some(b@), None => None::<Seq<char>> }) == split_prerelease(vp@));
        let normalized = if pre.is_none() {
            replace_chars(vpart.as_slice(), '-', '.')
        } else {
            vpart
        };
        let parts = split_chars(normalized.as_slice(), '.');
        assert(parts.deep_view() == version_fields(raw@));
        assert(parts@[0]@ == parts.deep_view()[0]);
        let major = match parse_u64(parts[0].as_slice()) {
            Some(m) => m,
            None => {
                return Err(DepotError::Version(message("Invalid major version: ", t.as_slice())));
            },
        };
        let minor = if parts.len() > 1 {
            assert(parts@[1]@ == parts.deep_view()[1]);
            match parse_u64(parts[1].as_slice()) {
                Some(m) => m,
                None => 0,
            }
        } else {
            0
        };
        let patch = if parts.len() > 2 {
            assert(parts@[2]@ == parts.deep_view()[2]);
            match parse_u64(parts[2].as_slice()) {
                Some(m) => m,
                None => 0,
            }
        } else {
            0
        };
        let prerelease = match pre {
            Some(p) => Some(string_from(&p)),
            None => None,
        };
        let build_metadata = match build {
            Some(b) => Some(string_from(&b)),
            None => None,
        };
        Ok(Version { major, minor, patch, prerelease, build_metadata })
    }

    /// The text of this version: `major.minor.patch[-pre][+build]`.
    pub fn to_string(&self) -> (r: String)
        ensures
            r@ == version_text(self@),
    {
        let mut v = decimal_chars(self.major);
        v.push('.');
        let mi = decimal_chars(self.minor);
        push_chars(&mut v, mi.as_slice());
        v.push('.');
        let pa = decimal_chars(self.patch);
        push_chars(&mut v, pa.as_slice());
        if let Some(p) = &self.prerelease {
            v.push('-');
            let pc = chars_of(p.as_str());
            push_chars(&mut v, pc.as_slice());
        }
        if let Some(b) = &self.build_metadata {
            v.push('+');
            let bc = chars_of(b.as_str());
            push_chars(&mut v, bc.as_slice());
        }
        string_from(&v)
    }
}

/// Whether every character of `s` is an ASCII digit.
pub fn all_ascii_digits(s: &[char]) -> (r: bool)
    ensures
        r == all_digits(s@),
{
    let mut i: usize = 0;
    while i < s.len()
        invariant
            i <= s.len(),
            forall|j: int| 0 <= j < i ==> crate::text::is_digit(#[trigger] s@[j]),
        decreases s.len() - i,
    {
        if !('0' <= s[i] && s[i] <= '9') {
            assert(!crate::text::is_digit(s@[i as int]));
            return false;
        }
        i = i + 1;
    }
    true
}

} // verus!

verus! {

// ===================== Laws =====================

/// The characters of `major.minor.patch` are digits and dots only.
proof fn lemma_core_text(v: SemVer)
    ensures
        ({
            let d1 = decimal(v.major as nat);
            let d2 = decimal(v.minor as nat);
            let d3 = decimal(v.patch as nat);
            let core = d1 + seq!['.'] + d2 + seq!['.'] + d3;
            &&& core.len() > 0
            &&& crate::text::is_digit(core[0])
            &&& !core.contains('-')
            &&& !core.contains('+')
            &&& split(core, '.') == seq![d1, d2, d3]
        }),
{
    let d1 = decimal(v.major as nat);
    let d2 = decimal(v.minor as nat);
    let d3 = decimal(v.patch as nat);
    crate::text::lemma_decimal(v.major as nat);
    crate::text::lemma_decimal(v.minor as nat);
    crate::text::lemma_decimal(v.patch as nat);
    let core = d1 + seq!['.'] + d2 + seq!['.'] + d3;
    assert forall|i: int| 0 <= i < core.len() implies core[i] != '-' && core[i] != '+' by {
        if i < d1.len() {
            assert(core[i] == d1[i]);
            assert(crate::text::is_digit(d1[i]));
        } else if i == d1.len() {
        } else if i < d1.len() + 1 + d2.len() {
            assert(core[i] == d2[i - d1.len() - 1]);
            assert(crate::text::is_digit(d2[i - d1.len() - 1]));
        } else if i == d1.len() + 1 + d2.len() {
        } else {
            assert(core[i] == d3[i - d1.len() - 2 - d2.len()]);
            assert(crate::text::is_digit(d3[i - d1.len() - 2 - d2.len()]));
        }
    }
    assert(core[0] == d1[0]);
    assert(crate::text::is_digit(d1[0]));
    assert forall|x: Seq<char>| #![trigger x.contains('.')] x == d1 || x == d2 || x == d3 implies !x.contains('.') by {
        assert forall|i: int| 0 <= i < x.len() implies x[i] != '.' by {
            assert(crate::text::is_digit(x[i]));
        }
    }
    assert(!d1.contains('.'));
    assert(!d2.contains('.'));
    assert(!d3.contains('.'));
    crate::text::lemma_split_without(d1, '.');
    crate::text::lemma_split_without(d2, '.');
    crate::text::lemma_split_without(d3, '.');
    crate::text::lemma_split_concat(d1, d2, '.');
    crate::text::lemma_split_concat(d1 + seq!['.'] + d2, d3, '.');
    assert(split(core, '.') == seq![d1] + seq![d2] + seq![d3]);
    assert(seq![d1] + seq![d2] + seq![d3] =~= seq![d1, d2, d3]);
}

/// Reading back the text of a version gives that version: for `v` whose
/// pre-release holds no `-` or `+` (which would move where the text is
/// split) and whose text does not end in whitespace (which parsing trims),
/// `Version::parse(&v.to_string())` gives `v`.
pub proof fn lemma_version_text_round_trip(v: SemVer)
    requires
        v.pre matches Some(p) ==> !p.contains('-') && !p.contains('+'),
        !crate::text::is_ws(version_text(v).last()),
    ensures
        parse_version_spec(version_text(v)) == Some(v),
{
    lemma_core_text(v);
    let d1 = decimal(v.major as nat);
    let d2 = decimal(v.minor as nat);
    let d3 = decimal(v.patch as nat);
    let core = d1 + seq!['.'] + d2 + seq!['.'] + d3;
    let wp = match v.pre {
        Some(p) => core + seq!['-'] + p,
        None => core,
    };
    let text = version_text(v);
    assert(text =~= match v.build {
        Some(b) => wp + seq!['+'] + b,
        None => wp,
    });
    assert(!wp.contains('+')) by {
        if let Some(p) = v.pre {
            assert forall|i: int| 0 <= i < wp.len() implies wp[i] != '+' by {
                if i < core.len() {
                    assert(wp[i] == core[i]);
                } else if i > core.len() {
                    assert(wp[i] == p[i - core.len() - 1]);
                }
            }
        }
    }
    assert(text[0] == core[0]);
    crate::text::lemma_trim_unchanged(text);
    // The build metadata is what follows the first '+'.
    match v.build {
        Some(b) => {
            crate::text::lemma_find_first_after(wp, b, '+');
            assert(text.take(wp.len() as int) =~= wp);
            assert(text.skip(wp.len() + 1int) =~= b);
        },
        None => {
            crate::text::lemma_find_without(wp, '+');
        },
    }
    assert(split_build(trim(text)) == (wp, v.build));
    // The pre-release is what follows the last '-'.
    match v.pre {
        Some(p) => {
            crate::text::lemma_find_last_before(core, p, '-');
            assert(wp.take(core.len() as int) =~= core);
            assert(wp.skip(core.len() + 1int) =~= p);
        },
        None => {
            crate::text::lemma_find_without(core, '-');
            crate::text::lemma_replace_absent(core, '-', '.');
        },
    }
    assert(split_prerelease(wp) == (core, v.pre));
    assert(version_fields(text) == seq![d1, d2, d3]);
    crate::text::lemma_parse_decimal(v.major);
    crate::text::lemma_parse_decimal(v.minor);
    crate::text::lemma_parse_decimal(v.patch);
}

} // verus!

verus! {

/// `o` is one of -1, 0, 1.
pub open spec fn is_order(o: int) -> bool {
    o == -1 || o == 0 || o == 1
}

proof fn lemma_lex_order_props(a: Seq<char>, b: Seq<char>)
    ensures
        is_order(lex_order(a, b)),
        lex_order(a, b) == -lex_order(b, a),
        lex_order(a, b) == 0 <==> a == b,
    decreases a.len(),
{
    if a.len() > 0 && b.len() > 0 && a[0] == b[0] {
        lemma_lex_order_props(a.drop_first(), b.drop_first());
        if a.drop_first() == b.drop_first() {
            assert(a =~= seq![a[0]] + a.drop_first());
            assert(b =~= seq![b[0]] + b.drop_first());
        }
    }
    if a.len() == 0 && b.len() == 0 {
        assert(a =~= b);
    }
}

proof fn lemma_lex_order_trans(a: Seq<char>, b: Seq<char>, c: Seq<char>)
    ensures
        lex_order(a, b) <= 0 && lex_order(b, c) <= 0 ==> lex_order(a, c) <= 0,
        lex_order(a, b) < 0 && lex_order(b, c) <= 0 ==> lex_order(a, c) < 0,
        lex_order(a, b) <= 0 && lex_order(b, c) < 0 ==> lex_order(a, c) < 0,
    decreases a.len(),
{
    lemma_lex_order_props(a, b);
    lemma_lex_order_props(b, c);
    lemma_lex_order_props(a, c);
    if a.len() > 0 && b.len() > 0 && c.len() > 0 && a[0] == b[0] && b[0] == c[0] {
        lemma_lex_order_trans(a.drop_first(), b.drop_first(), c.drop_first());
    }
}

proof fn lemma_ident_order_props(a: Seq<char>, b: Seq<char>)
    ensures
        is_order(ident_order(a, b)),
        ident_order(a, b) == -ident_order(b, a),
        ident_order(a, a) == 0,
{
    lemma_lex_order_props(a, b);
    lemma_lex_order_props(a, a);
}

proof fn lemma_ident_order_trans(a: Seq<char>, b: Seq<char>, c: Seq<char>)
    ensures
        ident_order(a, b) <= 0 && ident_order(b, c) <= 0 ==> ident_order(a, c) <= 0,
        ident_order(a, b) < 0 && ident_order(b, c) <= 0 ==> ident_order(a, c) < 0,
        ident_order(a, b) <= 0 && ident_order(b, c) < 0 ==> ident_order(a, c) < 0,
{
    lemma_lex_order_trans(a, b, c);
    lemma_ident_order_props(a, b);
    lemma_ident_order_props(b, c);
    lemma_ident_order_props(a, c);
}

proof fn lemma_idents_order_props(a: Seq<Seq<char>>, b: Seq<Seq<char>>)
    ensures
        is_order(idents_order(a, b)),
        idents_order(a, b) == -idents_order(b, a),
        idents_order(a, a) == 0,
    decreases a.len(),
{
    if a.len() > 0 && b.len() > 0 {
        lemma_ident_order_props(a[0], b[0]);
        lemma_idents_order_props(a.drop_first(), b.drop_first());
    }
    if a.len() > 0 {
        lemma_ident_order_props(a[0], a[0]);
        lemma_idents_order_props(a.drop_first(), a.drop_first());
    }
}

proof fn lemma_idents_order_trans(a: Seq<Seq<char>>, b: Seq<Seq<char>>, c: Seq<Seq<char>>)
    ensures
        idents_order(a, b) <= 0 && idents_order(b, c) <= 0 ==> idents_order(a, c) <= 0,
        idents_order(a, b) < 0 && idents_order(b, c) <= 0 ==> idents_order(a, c) < 0,
        idents_order(a, b) <= 0 && idents_order(b, c) < 0 ==> idents_order(a, c) < 0,
    decreases a.len(),
{
    lemma_idents_order_props(a, b);
    lemma_idents_order_props(b, c);
    lemma_idents_order_props(a, c);
    if a.len() > 0 && b.len() > 0 && c.len() > 0 {
        lemma_ident_order_trans(a[0], b[0], c[0]);
        lemma_ident_order_trans(c[0], b[0], a[0]);
        lemma_ident_order_props(a[0], b[0]);
        lemma_ident_order_props(b[0], c[0]);
        lemma_ident_order_props(a[0], c[0]);
        lemma_idents_order_trans(a.drop_first(), b.drop_first(), c.drop_first());
    }
}

/// Version precedence is antisymmetric and reflexive: comparing `b` with
/// `a` gives the opposite of comparing `a` with `b`, and versions that are
/// equal (build metadata aside) compare as equal.
pub proof fn lemma_version_order_antisymmetric(a: SemVer, b: SemVer)
    ensures
        is_order(version_order(a, b)),
        version_order(a, b) == -version_order(b, a),
        version_eq(a, b) ==> version_order(a, b) == 0,
{
    if let (Some(x), Some(y)) = (a.pre, b.pre) {
        lemma_idents_order_props(split(x, '.'), split(y, '.'));
        lemma_idents_order_props(split(x, '.'), split(x, '.'));
    }
}

/// Version precedence is transitive: if `a` comes no later than `b` and
/// `b` no later than `c`, then `a` comes no later than `c`, and strictly
/// earlier when either step is strict.
pub proof fn lemma_version_order_transitive(a: SemVer, b: SemVer, c: SemVer)
    ensures
        version_order(a, b) <= 0 && version_order(b, c) <= 0 ==> version_order(a, c) <= 0,
        version_order(a, b) < 0 && version_order(b, c) <= 0 ==> version_order(a, c) < 0,
        version_order(a, b) <= 0 && version_order(b, c) < 0 ==> version_order(a, c) < 0,
{
    lemma_version_order_antisymmetric(a, b);
    lemma_version_order_antisymmetric(b, c);
    lemma_version_order_antisymmetric(a, c);
    if let (Some(x), Some(y), Some(z)) = (a.pre, b.pre, c.pre) {
        lemma_idents_order_trans(split(x, '.'), split(y, '.'), split(z, '.'));
    }
}

/// A pre-release comes before its release: `1.0.0-alpha < 1.0.0`.
pub proof fn lemma_prerelease_before_release(a: SemVer, b: SemVer)
    requires
        a.major == b.major,
        a.minor == b.minor,
        a.patch == b.patch,
        a.pre is Some,
        b.pre is None,
    ensures
        version_order(a, b) < 0,
{
}

/// Build metadata plays no part in precedence or equality.
pub proof fn lemma_build_metadata_ignored(a: SemVer, b: SemVer, build: Option<Seq<char>>)
    ensures
        version_order(SemVer { build, ..a }, b) == version_order(a, b),
        version_eq(SemVer { build, ..a }, b) == version_eq(a, b),
{
}


/// A version meets the constraints written from it: exactly it, `^` it,
/// `~` it, `>=` it and its `.x` series; it never meets `<` it.
pub proof fn lemma_version_meets_own_constraints(w: Version)
    ensures
        satisfies_spec(w@, VersionConstraint::Exact(w)),
        satisfies_spec(w@, VersionConstraint::Compatible(w)),
        satisfies_spec(w@, VersionConstraint::Patch(w)),
        satisfies_spec(w@, VersionConstraint::GreaterOrEqual(w)),
        satisfies_spec(w@, VersionConstraint::AnyPatch(w)),
        !satisfies_spec(w@, VersionConstraint::LessThan(w)),
{
    lemma_version_order_antisymmetric(w@, w@);
}


/// A pre-release identifier written canonically: one that reads as a
/// number is that number's decimal text (no leading zeros).
pub open spec fn canonical_ident(x: Seq<char>) -> bool {
    parse_u64_spec(x) matches Some(n) ==> x == decimal(n as nat)
}

/// A version whose pre-release identifiers are all written canonically.
pub open spec fn canonical_pre(v: SemVer) -> bool {
    v.pre matches Some(p) ==> forall|i: int|
        0 <= i < split(p, '.').len() ==> canonical_ident(#[trigger] split(p, '.')[i])
}

proof fn lemma_ident_order_zero(a: Seq<char>, b: Seq<char>)
    requires
        canonical_ident(a),
        canonical_ident(b),
        ident_order(a, b) == 0,
    ensures
        a == b,
{
    lemma_lex_order_props(a, b);
}

proof fn lemma_idents_order_zero(a: Seq<Seq<char>>, b: Seq<Seq<char>>)
    requires
        forall|i: int| 0 <= i < a.len() ==> canonical_ident(#[trigger] a[i]),
        forall|i: int| 0 <= i < b.len() ==> canonical_ident(#[trigger] b[i]),
        idents_order(a, b) == 0,
    ensures
        a == b,
    decreases a.len(),
{
    if a.len() == 0 || b.len() == 0 {
        assert(a =~= b);
    } else {
        assert(canonical_ident(a[0]));
        assert(canonical_ident(b[0]));
        lemma_ident_order_zero(a[0], b[0]);
        assert forall|i: int| 0 <= i < a.drop_first().len() implies canonical_ident(
            #[trigger] a.drop_first()[i],
        ) by {
            assert(a.drop_first()[i] == a[i + 1]);
        }
        assert forall|i: int| 0 <= i < b.drop_first().len() implies canonical_ident(
            #[trigger] b.drop_first()[i],
        ) by {
            assert(b.drop_first()[i] == b[i + 1]);
        }
        lemma_idents_order_zero(a.drop_first(), b.drop_first());
        assert(a =~= seq![a[0]] + a.drop_first());
        assert(b =~= seq![b[0]] + b.drop_first());
    }
}

/// Versions of equal precedence are equal (build metadata aside), when
/// their pre-release identifiers are written canonically: `1.0.0-01` and
/// `1.0.0-1` compare as equal but differ.
pub proof fn lemma_version_order_zero_is_equal(a: SemVer, b: SemVer)
    requires
        canonical_pre(a),
        canonical_pre(b),
    ensures
        version_order(a, b) == 0 <==> version_eq(a, b),
{
    lemma_version_order_antisymmetric(a, b);
    if version_order(a, b) == 0 {
        if let (Some(x), Some(y)) = (a.pre, b.pre) {
            lemma_idents_order_zero(split(x, '.'), split(y, '.'));
            crate::text::lemma_join_split(x, '.');
            crate::text::lemma_join_split(y, '.');
        }
    }
}

} // verus!
