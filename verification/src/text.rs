//! Character-level text helpers shared by the parsers of the library.
//!
//! Every helper works on the characters of a string (`Seq<char>` in
//! specifications, `Vec<char>` in code) and is specified by a spec function
//! of its own.
use vstd::prelude::*;

verus! {

broadcast use vstd::string::group_string_axioms;

// ===================== Specifications =====================

/// The characters that Unicode classifies as `White_Space`
/// (the set tested by `char::is_whitespace`).
pub open spec fn is_ws(c: char) -> bool {
    ||| ('\u{9}' <= c && c <= '\u{d}')
    ||| c == ' '
    ||| c == '\u{85}'
    ||| c == '\u{a0}'
    ||| c == '\u{1680}'
    ||| ('\u{2000}' <= c && c <= '\u{200a}')
    ||| c == '\u{2028}'
    ||| c == '\u{2029}'
    ||| c == '\u{202f}'
    ||| c == '\u{205f}'
    ||| c == '\u{3000}'
}

/// `s` without its leading white space.
pub open spec fn trim_start(s: Seq<char>) -> Seq<char>
    decreases s.len(),
{
    if s.len() > 0 && is_ws(s[0]) {
        trim_start(s.drop_first())
    } else {
        s
    }
}

/// `s` without its trailing white space.
pub open spec fn trim_end(s: Seq<char>) -> Seq<char>
    decreases s.len(),
{
    if s.len() > 0 && is_ws(s.last()) {
        trim_end(s.drop_last())
    } else {
        s
    }
}

/// `s` without leading and trailing white space.
pub open spec fn trim(s: Seq<char>) -> Seq<char> {
    trim_end(trim_start(s))
}

pub open spec fn is_digit(c: char) -> bool {
    '0' <= c && c <= '9'
}

pub open spec fn all_digits(s: Seq<char>) -> bool {
    forall|i: int| 0 <= i < s.len() ==> #[trigger] is_digit(s[i])
}

pub open spec fn digit_value(c: char) -> nat {
    (c as int - '0' as int) as nat
}

/// The number written by the decimal digits `s` (most significant first).
pub open spec fn digits_value(s: Seq<char>) -> nat
    decreases s.len(),
{
    if s.len() == 0 {
        0
    } else {
        digits_value(s.drop_last()) * 10 + digit_value(s.last())
    }
}

/// The digits of a number as `str::parse` reads them: an optional `+`,
/// then at least one decimal digit.
pub open spec fn unsigned_digits(s: Seq<char>) -> Seq<char> {
    if s.len() > 0 && s[0] == '+' {
        s.drop_first()
    } else {
        s
    }
}

/// Whether `s` is the text of an unsigned number of any size.
pub open spec fn is_unsigned_text(s: Seq<char>) -> bool {
    let d = unsigned_digits(s);
    d.len() > 0 && all_digits(d)
}

/// What `s.parse::<u64>()` gives, as an option.
pub open spec fn parse_u64_spec(s: Seq<char>) -> Option<u64> {
    if is_unsigned_text(s) && digits_value(unsigned_digits(s)) <= u64::MAX {
        Some(digits_value(unsigned_digits(s)) as u64)
    } else {
        None
    }
}

/// What `s.parse::<u32>()` gives, as an option.
pub open spec fn parse_u32_spec(s: Seq<char>) -> Option<u32> {
    if is_unsigned_text(s) && digits_value(unsigned_digits(s)) <= u32::MAX {
        Some(digits_value(unsigned_digits(s)) as u32)
    } else {
        None
    }
}

/// The pieces of `s` between occurrences of `c` (what `str::split` yields
/// for a character pattern).  There is always at least one piece.
pub open spec fn split(s: Seq<char>, c: char) -> Seq<Seq<char>>
    decreases s.len(),
{
    if s.len() == 0 {
        seq![Seq::<char>::empty()]
    } else {
        let p = split(s.drop_last(), c);
        if s.last() == c {
            p.push(Seq::<char>::empty())
        } else {
            p.update(p.len() - 1, p.last().push(s.last()))
        }
    }
}

/// The position of the first `c` in `s`.
pub open spec fn find_first(s: Seq<char>, c: char) -> Option<int>
    decreases s.len(),
{
    if s.len() == 0 {
        None
    } else if s[0] == c {
        Some(0)
    } else {
        match find_first(s.drop_first(), c) {
            Some(i) => Some(i + 1),
            None => None,
        }
    }
}

/// The position of the last `c` in `s`.
pub open spec fn find_last(s: Seq<char>, c: char) -> Option<int>
    decreases s.len(),
{
    if s.len() == 0 {
        None
    } else if s.last() == c {
        Some(s.len() - 1)
    } else {
        find_last(s.drop_last(), c)
    }
}

pub open spec fn starts_with(s: Seq<char>, p: Seq<char>) -> bool {
    p.len() <= s.len() && s.take(p.len() as int) == p
}

pub open spec fn ends_with(s: Seq<char>, p: Seq<char>) -> bool {
    p.len() <= s.len() && s.skip(s.len() - p.len()) == p
}

/// Whether `p` occurs in `s` as a contiguous piece.
pub open spec fn contains_seq(s: Seq<char>, p: Seq<char>) -> bool {
    exists|i: int| 0 <= i && i + p.len() <= s.len() && #[trigger] s.subrange(i, i + p.len()) == p
}

/// `s` with every `from` replaced by `to`.
pub open spec fn replace_char(s: Seq<char>, from: char, to: char) -> Seq<char> {
    s.map_values(|x: char| if x == from { to } else { x })
}

pub open spec fn digit_char(d: nat) -> char {
    if d == 0 { '0' }
    else if d == 1 { '1' }
    else if d == 2 { '2' }
    else if d == 3 { '3' }
    else if d == 4 { '4' }
    else if d == 5 { '5' }
    else if d == 6 { '6' }
    else if d == 7 { '7' }
    else if d == 8 { '8' }
    else { '9' }
}

/// The decimal notation of `n`, without leading zeros.
pub open spec fn decimal(n: nat) -> Seq<char>
    decreases n,
{
    if n < 10 {
        seq![digit_char(n)]
    } else {
        decimal(n / 10).push(digit_char(n % 10))
    }
}


/// The pieces `parts` joined by `sep`.
pub open spec fn join(parts: Seq<Seq<char>>, sep: Seq<char>) -> Seq<char>
    decreases parts.len(),
{
    if parts.len() == 0 {
        Seq::empty()
    } else if parts.len() == 1 {
        parts[0]
    } else {
        join(parts.drop_last(), sep) + sep + parts.last()
    }
}

/// `s` with every occurrence of `pat` replaced by `rep`, scanning from the
/// left (what `str::replace` gives).
pub open spec fn replace_all(s: Seq<char>, pat: Seq<char>, rep: Seq<char>) -> Seq<char> {
    join(split_str(s, pat), rep)
}

/// The views of a list of strings.
pub open spec fn texts(v: Seq<String>) -> Seq<Seq<char>> {
    v.map_values(|s: String| s@)
}

/// `s` followed by spaces up to `width` characters (what a `{:<width}`
/// format gives).
pub open spec fn pad_right(s: Seq<char>, width: nat) -> Seq<char> {
    if s.len() >= width {
        s
    } else {
        s + Seq::new((width - s.len()) as nat, |i: int| ' ')
    }
}

/// The position of the first occurrence of `p` in `s`.
pub open spec fn find_seq(s: Seq<char>, p: Seq<char>) -> Option<int>
    decreases s.len(),
{
    if s.len() < p.len() {
        None
    } else if s.take(p.len() as int) == p {
        Some(0)
    } else if s.len() == 0 {
        None
    } else {
        match find_seq(s.drop_first(), p) {
            Some(i) => Some(i + 1),
            None => None,
        }
    }
}

/// The pieces of `s` between the non-overlapping occurrences of `p`, found
/// from the left (what `str::split` yields for a text pattern).
pub open spec fn split_str(s: Seq<char>, p: Seq<char>) -> Seq<Seq<char>>
    decreases s.len(),
{
    if p.len() == 0 {
        seq![s]
    } else {
        match find_seq(s, p) {
            Some(i) => {
                proof {
                    lemma_find_seq_bounds(s, p);
                }
                seq![s.take(i)] + split_str(s.skip(i + p.len()), p)
            },
            None => seq![s],
        }
    }
}

pub proof fn lemma_find_seq_bounds(s: Seq<char>, p: Seq<char>)
    ensures
        find_seq(s, p) matches Some(i) ==> 0 <= i && i + p.len() <= s.len(),
    decreases s.len(),
{
    if s.len() >= p.len() && s.take(p.len() as int) != p && s.len() > 0 {
        lemma_find_seq_bounds(s.drop_first(), p);
    }
}

proof fn lemma_find_seq_at(s: Seq<char>, p: Seq<char>, i: int)
    requires
        0 <= i,
        i + p.len() <= s.len(),
        s.subrange(i, i + p.len()) == p,
        forall|k: int| 0 <= k < i ==> #[trigger] s.subrange(k, k + p.len()) != p,
    ensures
        find_seq(s, p) == Some(i),
    decreases i,
{
    if i == 0 {
        assert(s.take(p.len() as int) == s.subrange(0, p.len() as int));
    } else {
        assert(s.take(p.len() as int) == s.subrange(0int, 0int + p.len()));
        let t = s.drop_first();
        assert forall|k: int| 0 <= k < i - 1 implies #[trigger] t.subrange(k, k + p.len()) != p by {
            assert(t.subrange(k, k + p.len()) == s.subrange(k + 1, k + 1 + p.len()));
        }
        assert(t.subrange(i - 1, i - 1 + p.len()) == s.subrange(i, i + p.len()));
        lemma_find_seq_at(t, p, i - 1);
    }
}

proof fn lemma_find_seq_none(s: Seq<char>, p: Seq<char>)
    requires
        forall|k: int| 0 <= k && k + p.len() <= s.len() ==> #[trigger] s.subrange(k, k + p.len()) != p,
    ensures
        find_seq(s, p) is None,
    decreases s.len(),
{
    if s.len() >= p.len() {
        assert(s.take(p.len() as int) == s.subrange(0int, 0int + p.len()));
        if s.len() > 0 {
            let t = s.drop_first();
            assert forall|k: int| 0 <= k && k + p.len() <= t.len() implies #[trigger] t.subrange(k, k + p.len()) != p by {
                assert(t.subrange(k, k + p.len()) == s.subrange(k + 1, k + 1 + p.len()));
            }
            lemma_find_seq_none(t, p);
        }
    }
}

// ===================== Lemmas =====================

/// A digit below ten is written with a digit character that reads back as
/// the digit.
pub proof fn lemma_digit_char(d: nat)
    requires
        d < 10,
    ensures
        is_digit(digit_char(d)),
        digit_value(digit_char(d)) == d,
{
}

/// The decimal text of a number is a non-empty run of digits that reads
/// back as the number.
pub proof fn lemma_decimal(n: nat)
    ensures
        decimal(n).len() > 0,
        all_digits(decimal(n)),
        digits_value(decimal(n)) == n,
    decreases n,
{
    if n < 10 {
        lemma_digit_char(n);
        assert(seq![digit_char(n)].drop_last() =~= Seq::<char>::empty());
        assert(digits_value(Seq::<char>::empty()) == 0);
    } else {
        lemma_decimal(n / 10);
        lemma_digit_char(n % 10);
        let s = decimal(n);
        assert(s.drop_last() =~= decimal(n / 10));
        assert(s.last() == digit_char(n % 10));
        assert(n == (n / 10) * 10 + n % 10) by (nonlinear_arith);
        assert(digits_value(s) == digits_value(decimal(n / 10)) * 10 + digit_value(digit_char(n % 10)));
        assert forall|i: int| 0 <= i < s.len() implies #[trigger] is_digit(s[i]) by {
            if i < s.len() - 1 {
                assert(s[i] == decimal(n / 10)[i]);
            }
        }
    }
}

/// `str::parse` reads a number's decimal text back as the number.
pub proof fn lemma_parse_decimal(n: u64)
    ensures
        parse_u64_spec(decimal(n as nat)) == Some(n),
{
    lemma_decimal(n as nat);
    let d = decimal(n as nat);
    assert(is_digit(d[0]));
    assert(unsigned_digits(d) == d);
}

/// Joining the pieces of a split with the separator gives the text back.
pub proof fn lemma_join_split(s: Seq<char>, c: char)
    ensures
        join(split(s, c), seq![c]) == s,
    decreases s.len(),
{
    if s.len() > 0 {
        let p = split(s.drop_last(), c);
        lemma_join_split(s.drop_last(), c);
        lemma_split_len(s.drop_last(), c);
        if s.last() == c {
            assert(p.push(Seq::<char>::empty()).drop_last() =~= p);
            assert(s =~= join(p, seq![c]) + seq![c] + Seq::<char>::empty());
        } else {
            let q = p.update(p.len() - 1, p.last().push(s.last()));
            if p.len() == 1 {
                assert(s =~= s.drop_last().push(s.last()));
            } else {
                assert(q.drop_last() =~= p.drop_last());
                assert(q.last() == p.last().push(s.last()));
                assert(join(p, seq![c]) == join(p.drop_last(), seq![c]) + seq![c] + p.last());
                assert(s =~= s.drop_last().push(s.last()));
                assert(join(q, seq![c]) == join(p.drop_last(), seq![c]) + seq![c] + q.last());
                assert(join(q, seq![c]) =~= join(p, seq![c]).push(s.last()));
            }
        }
    } else {
        assert(split(s, c) =~= seq![Seq::<char>::empty()]);
    }
}

/// Text without the separator is a single piece.
pub proof fn lemma_split_without(x: Seq<char>, c: char)
    requires
        !x.contains(c),
    ensures
        split(x, c) == seq![x],
    decreases x.len(),
{
    if x.len() > 0 {
        assert(!x.drop_last().contains(c)) by {
            if x.drop_last().contains(c) {
                let i = choose|i: int| 0 <= i < x.drop_last().len() && x.drop_last()[i] == c;
                assert(x[i] == c);
            }
        }
        lemma_split_without(x.drop_last(), c);
        assert(x.last() != c) by {
            assert(x[x.len() - 1] == x.last());
        }
        assert(x.drop_last().push(x.last()) =~= x);
        assert(split(x, c) =~= seq![x]);
    } else {
        assert(x =~= Seq::<char>::empty());
    }
}

/// Splitting gives at least one piece.
pub proof fn lemma_split_len(x: Seq<char>, c: char)
    ensures
        split(x, c).len() >= 1,
    decreases x.len(),
{
    if x.len() > 0 {
        lemma_split_len(x.drop_last(), c);
    }
}

/// Splitting at a separator splits each side.
pub proof fn lemma_split_concat(a: Seq<char>, b: Seq<char>, c: char)
    ensures
        split(a + seq![c] + b, c) == split(a, c) + split(b, c),
    decreases b.len(),
{
    let t = a + seq![c] + b;
    if b.len() == 0 {
        assert(t =~= a.push(c));
        assert(t.drop_last() =~= a);
        assert(split(a, c) + split(b, c) =~= split(a, c).push(Seq::<char>::empty()));
    } else {
        lemma_split_concat(a, b.drop_last(), c);
        assert(t.drop_last() =~= a + seq![c] + b.drop_last());
        assert(t.last() == b.last());
        let p = split(a, c);
        let q = split(b.drop_last(), c);
        if b.last() == c {
            assert(p + q.push(Seq::<char>::empty()) =~= (p + q).push(Seq::<char>::empty()));
        } else {
            lemma_split_len(b.drop_last(), c);
            let pq = p + q;
            assert(pq.update(pq.len() - 1, pq.last().push(b.last())) =~= p + q.update(
                q.len() - 1,
                q.last().push(b.last()),
            ));
        }
    }
}

/// The first `c` after a part without one is where that part ends.
pub proof fn lemma_find_first_after(a: Seq<char>, b: Seq<char>, c: char)
    requires
        !a.contains(c),
    ensures
        find_first(a + seq![c] + b, c) == Some(a.len() as int),
{
    let t = a + seq![c] + b;
    assert forall|j: int| 0 <= j < a.len() implies t[j] != c by {
        assert(t[j] == a[j]);
    }
    lemma_find_first_at(t, c, a.len() as int);
}

/// The last `c` before a part without one is where that part begins.
pub proof fn lemma_find_last_before(a: Seq<char>, b: Seq<char>, c: char)
    requires
        !b.contains(c),
    ensures
        find_last(a + seq![c] + b, c) == Some(a.len() as int),
{
    let t = a + seq![c] + b;
    assert forall|j: int| a.len() < j < t.len() implies t[j] != c by {
        assert(t[j] == b[j - a.len() - 1]);
    }
    lemma_find_last_at(t, c, a.len() as int);
}

/// Text without `c` has no first or last `c`.
pub proof fn lemma_find_without(x: Seq<char>, c: char)
    requires
        !x.contains(c),
    ensures
        find_first(x, c) is None,
        find_last(x, c) is None,
{
    assert forall|j: int| 0 <= j < x.len() implies x[j] != c by {
        if x[j] == c {
            assert(x.contains(c));
        }
    }
    lemma_find_first_none(x, c);
    lemma_find_last_none(x, c);
}

/// Text that neither begins nor ends with white space is its own trim.
pub proof fn lemma_trim_unchanged(s: Seq<char>)
    requires
        s.len() > 0 ==> !is_ws(s[0]) && !is_ws(s.last()),
    ensures
        trim(s) == s,
{
}

/// Replacing a character that does not occur changes nothing.
pub proof fn lemma_replace_absent(x: Seq<char>, from: char, to: char)
    requires
        !x.contains(from),
    ensures
        replace_char(x, from, to) == x,
{
    assert forall|i: int| 0 <= i < x.len() implies x[i] != from by {
        if x[i] == from {
            assert(x.contains(from));
        }
    }
    assert(replace_char(x, from, to) =~= x);
}


pub proof fn lemma_find_first_at(s: Seq<char>, c: char, i: int)
    requires
        0 <= i < s.len(),
        s[i] == c,
        forall|j: int| 0 <= j < i ==> s[j] != c,
    ensures
        find_first(s, c) == Some(i),
    decreases i,
{
    if i > 0 {
        lemma_find_first_at(s.drop_first(), c, i - 1);
    }
}

pub proof fn lemma_find_first_none(s: Seq<char>, c: char)
    requires
        forall|j: int| 0 <= j < s.len() ==> s[j] != c,
    ensures
        find_first(s, c) is None,
    decreases s.len(),
{
    if s.len() > 0 {
        lemma_find_first_none(s.drop_first(), c);
    }
}

pub proof fn lemma_find_last_at(s: Seq<char>, c: char, i: int)
    requires
        0 <= i < s.len(),
        s[i] == c,
        forall|j: int| i < j < s.len() ==> s[j] != c,
    ensures
        find_last(s, c) == Some(i),
    decreases s.len(),
{
    if i < s.len() - 1 {
        lemma_find_last_at(s.drop_last(), c, i);
    }
}

pub proof fn lemma_find_last_none(s: Seq<char>, c: char)
    requires
        forall|j: int| 0 <= j < s.len() ==> s[j] != c,
    ensures
        find_last(s, c) is None,
    decreases s.len(),
{
    if s.len() > 0 {
        lemma_find_last_none(s.drop_last(), c);
    }
}

/// A prefix of all-digit text is worth no more than the whole text.
proof fn lemma_digits_value_prefix(s: Seq<char>, k: int)
    requires
        0 <= k <= s.len(),
        all_digits(s),
    ensures
        digits_value(s.take(k)) <= digits_value(s),
    decreases s.len() - k,
{
    if k < s.len() {
        lemma_digits_value_prefix(s, k + 1);
        assert(s.take(k + 1).drop_last() == s.take(k));
        assert(s.take(k + 1).last() == s[k]);
        assert(digits_value(s.take(k + 1)) == digits_value(s.take(k)) * 10 + digit_value(s[k]));
    } else {
        assert(s.take(k) == s);
    }
}

proof fn lemma_trim_start_skip(s: Seq<char>, i: int)
    requires
        0 <= i <= s.len(),
        forall|j: int| 0 <= j < i ==> is_ws(#[trigger] s[j]),
    ensures
        trim_start(s) == trim_start(s.skip(i)),
    decreases i,
{
    if i > 0 {
        assert(is_ws(s[0]));
        assert(s.drop_first().skip(i - 1) == s.skip(i));
        assert forall|j: int| 0 <= j < i - 1 implies is_ws(#[trigger] s.drop_first()[j]) by {
            assert(s.drop_first()[j] == s[j + 1]);
        }
        lemma_trim_start_skip(s.drop_first(), i - 1);
    } else {
        assert(s.skip(0) == s);
    }
}

proof fn lemma_trim_end_take(s: Seq<char>, j: int)
    requires
        0 <= j <= s.len(),
        forall|k: int| j <= k < s.len() ==> is_ws(#[trigger] s[k]),
    ensures
        trim_end(s) == trim_end(s.take(j)),
    decreases s.len() - j,
{
    if j < s.len() {
        assert(is_ws(s[s.len() - 1]));
        assert(s.drop_last().take(j) == s.take(j));
        assert forall|k: int| j <= k < s.drop_last().len() implies is_ws(#[trigger] s.drop_last()[k]) by {
            assert(s.drop_last()[k] == s[k]);
        }
        lemma_trim_end_take(s.drop_last(), j);
    } else {
        assert(s.take(j) == s);
    }
}

// ===================== Code =====================

/// The characters of `s`, in order.
pub fn chars_of(s: &str) -> (v: Vec<char>)
    ensures
        v@ == s@,
{
    let mut v: Vec<char> = Vec::new();
    for c in iter: s.chars()
        invariant
            iter.seq() == s@,
            v@ == s@.take(iter.index() as int),
    {
        v.push(c);
        assert(s@.take(iter.index() as int + 1) == v@);
    }
    assert(s@.take(s@.len() as int) == s@);
    v
}

/// `Iterator::collect` into a `String`: a string holding the characters
/// `v`, in order.
#[verifier::external_body]
pub(crate) fn string_from(v: &Vec<char>) -> (s: String)
    ensures
        s@ == v@,
{
    v.iter().collect()
}

/// A `String` holding the characters of `s`.
pub fn string_of(s: &str) -> (r: String)
    ensures
        r@ == s@,
{
    let v = chars_of(s);
    string_from(&v)
}

/// Whether two character sequences are equal.
pub fn seq_eq(a: &[char], b: &[char]) -> (r: bool)
    ensures
        r == (a@ == b@),
{
    if a.len() != b.len() {
        return false;
    }
    let mut i: usize = 0;
    while i < a.len()
        invariant
            a.len() == b.len(),
            i <= a.len(),
            forall|j: int| 0 <= j < i ==> a@[j] == b@[j],
        decreases a.len() - i,
    {
        if a[i] != b[i] {
            return false;
        }
        i = i + 1;
    }
    assert(a@ =~= b@);
    true
}

/// Whether the characters `a` are those of `b`.
pub fn eq_str(a: &[char], b: &str) -> (r: bool)
    ensures
        r == (a@ == b@),
{
    let bv = chars_of(b);
    seq_eq(a, bv.as_slice())
}

/// Whether two strings are equal.
pub fn str_eq(a: &str, b: &str) -> (r: bool)
    ensures
        r == (a@ == b@),
{
    let av = chars_of(a);
    eq_str(av.as_slice(), b)
}

pub fn is_ws_char(c: char) -> (r: bool)
    ensures
        r == is_ws(c),
{
    ('\u{9}' <= c && c <= '\u{d}') || c == ' ' || c == '\u{85}' || c == '\u{a0}' || c == '\u{1680}'
        || ('\u{2000}' <= c && c <= '\u{200a}') || c == '\u{2028}' || c == '\u{2029}' || c
        == '\u{202f}' || c == '\u{205f}' || c == '\u{3000}'
}

/// The characters `s[from..to]`.
pub fn slice_chars(s: &[char], from: usize, to: usize) -> (r: Vec<char>)
    requires
        from <= to <= s.len(),
    ensures
        r@ == s@.subrange(from as int, to as int),
{
    let mut r: Vec<char> = Vec::new();
    let mut i = from;
    while i < to
        invariant
            from <= i <= to <= s.len(),
            r@ == s@.subrange(from as int, i as int),
        decreases to - i,
    {
        r.push(s[i]);
        assert(r@ == s@.subrange(from as int, i as int + 1));
        i = i + 1;
    }
    r
}

/// `s` without leading and trailing white space.
pub fn trim_chars(s: &[char]) -> (r: Vec<char>)
    ensures
        r@ == trim(s@),
{
    let mut i: usize = 0;
    while i < s.len() && is_ws_char(s[i])
        invariant
            i <= s.len(),
            forall|j: int| 0 <= j < i ==> is_ws(#[trigger] s@[j]),
        decreases s.len() - i,
    {
        i = i + 1;
    }
    proof {
        lemma_trim_start_skip(s@, i as int);
    }
    let ghost t = s@.skip(i as int);
    assert(trim_start(t) == t);
    let mut j: usize = s.len();
    while j > i && is_ws_char(s[j - 1])
        invariant
            i <= j <= s.len(),
            t == s@.skip(i as int),
            forall|k: int| j <= k < s.len() ==> is_ws(#[trigger] s@[k]),
        decreases j,
    {
        j = j - 1;
    }
    proof {
        let jj = j - i;
        assert forall|k: int| jj <= k < t.len() implies is_ws(#[trigger] t[k]) by {
            assert(t[k] == s@[k + i]);
        }
        lemma_trim_end_take(t, jj as int);
        assert(t.take(jj as int) == s@.subrange(i as int, j as int));
    }
    slice_chars(s, i, j)
}

/// The position of the first `c` in `s`.
pub fn find_first_char(s: &[char], c: char) -> (r: Option<usize>)
    ensures
        match r {
            Some(i) => i < s.len() && s@[i as int] == c && find_first(s@, c) == Some(i as int),
            None => find_first(s@, c) is None,
        },
{
    let mut i: usize = 0;
    while i < s.len()
        invariant
            i <= s.len(),
            forall|j: int| 0 <= j < i ==> s@[j] != c,
        decreases s.len() - i,
    {
        if s[i] == c {
            proof {
                lemma_find_first_at(s@, c, i as int);
            }
            return Some(i);
        }
        i = i + 1;
    }
    proof {
        lemma_find_first_none(s@, c);
    }
    None
}

/// The position of the last `c` in `s`.
pub fn find_last_char(s: &[char], c: char) -> (r: Option<usize>)
    ensures
        match r {
            Some(i) => i < s.len() && s@[i as int] == c && find_last(s@, c) == Some(i as int),
            None => find_last(s@, c) is None,
        },
{
    let mut i: usize = s.len();
    while i > 0
        invariant
            i <= s.len(),
            forall|j: int| i <= j < s.len() ==> s@[j] != c,
        decreases i,
    {
        if s[i - 1] == c {
            proof {
                lemma_find_last_at(s@, c, i - 1);
            }
            return Some(i - 1);
        }
        i = i - 1;
    }
    proof {
        lemma_find_last_none(s@, c);
    }
    None
}

/// Whether `c` occurs in `s`.
pub fn has_char(s: &[char], c: char) -> (r: bool)
    ensures
        r == s@.contains(c),
{
    let mut i: usize = 0;
    while i < s.len()
        invariant
            i <= s.len(),
            forall|j: int| 0 <= j < i ==> s@[j] != c,
        decreases s.len() - i,
    {
        if s[i] == c {
            assert(s@[i as int] == c);
            return true;
        }
        i = i + 1;
    }
    false
}

/// The pieces of `s` between occurrences of `c`.
pub fn split_chars(s: &[char], c: char) -> (r: Vec<Vec<char>>)
    ensures
        r.deep_view() == split(s@, c),
        r.len() >= 1,
{
    let mut r: Vec<Vec<char>> = Vec::new();
    r.push(Vec::new());
    assert(s@.take(0) =~= Seq::<char>::empty());
    assert(r.deep_view() =~~= split(s@.take(0), c));
    let mut i: usize = 0;
    while i < s.len()
        invariant
            i <= s.len(),
            r.len() >= 1,
            r.deep_view() == split(s@.take(i as int), c),
        decreases s.len() - i,
    {
        let ghost before = r.deep_view();
        assert(s@.take(i as int + 1).drop_last() == s@.take(i as int));
        if s[i] == c {
            r.push(Vec::new());
            assert(r.deep_view() =~~= before.push(Seq::<char>::empty()));
        } else {
            let last = r.len() - 1;
            let mut piece = r.pop().unwrap();
            piece.push(s[i]);
            r.push(piece);
            assert(r.deep_view() =~~= before.update(before.len() - 1, before.last().push(s@[i as int])));
        }
        i = i + 1;
    }
    assert(s@.take(s.len() as int) == s@);
    r
}

/// What `s.parse::<u64>()` gives, as an option.
pub fn parse_u64(s: &[char]) -> (r: Option<u64>)
    ensures
        r == parse_u64_spec(s@),
{
    let start: usize = if s.len() > 0 && s[0] == '+' { 1 } else { 0 };
    let ghost d = unsigned_digits(s@);
    assert(d == s@.skip(start as int));
    if start >= s.len() {
        return None;
    }
    let mut acc: u64 = 0;
    let mut i: usize = start;
    while i < s.len()
        invariant
            start <= i <= s.len(),
            d == s@.skip(start as int),
            d == unsigned_digits(s@),
            forall|j: int| start <= j < i ==> #[trigger] is_digit(s@[j]),
            acc as nat == digits_value(d.take(i - start)),
        decreases s.len() - i,
    {
        let ch = s[i];
        if !('0' <= ch && ch <= '9') {
            assert(d[i - start] == s@[i as int]);
            assert(!is_digit(d[i - start]));
            assert(!all_digits(d));
            return None;
        }
        let dv: u64 = ch as u64 - '0' as u64;
        assert(d.take(i - start + 1).drop_last() == d.take(i - start));
        if acc > 1844674407370955161 || (acc == 1844674407370955161 && dv > 5) {
            proof {
                assert(d[i - start] == s@[i as int]);
                assert(d.take(i - start + 1).last() == ch);
                assert(digits_value(d.take(i - start + 1)) == acc * 10 + dv);
                assert(digits_value(d.take(i - start + 1)) > u64::MAX);
                if all_digits(d) {
                    lemma_digits_value_prefix(d, i - start + 1);
                }
            }
            return None;
        }
        acc = acc * 10 + dv;
        i = i + 1;
    }
    assert(d.take(i - start) == d);
    assert(all_digits(d)) by {
        assert forall|j: int| 0 <= j < d.len() implies #[trigger] is_digit(d[j]) by {
            assert(d[j] == s@[j + start]);
        }
    }
    Some(acc)
}

/// The decimal notation of `n`.
pub fn decimal_chars(n: u64) -> (r: Vec<char>)
    ensures
        r@ == decimal(n as nat),
    decreases n,
{
    let d = n % 10;
    let c = if d == 0 { '0' }
        else if d == 1 { '1' }
        else if d == 2 { '2' }
        else if d == 3 { '3' }
        else if d == 4 { '4' }
        else if d == 5 { '5' }
        else if d == 6 { '6' }
        else if d == 7 { '7' }
        else if d == 8 { '8' }
        else { '9' };
    if n < 10 {
        let mut v: Vec<char> = Vec::new();
        v.push(c);
        assert(v@ =~= seq![digit_char(n as nat)]);
        v
    } else {
        let mut v = decimal_chars(n / 10);
        v.push(c);
        v
    }
}

/// Whether `s` begins with the characters `p`.
pub fn starts_with_chars(s: &[char], p: &[char]) -> (r: bool)
    ensures
        r == starts_with(s@, p@),
{
    if p.len() > s.len() {
        return false;
    }
    let mut i: usize = 0;
    while i < p.len()
        invariant
            p.len() <= s.len(),
            i <= p.len(),
            forall|j: int| 0 <= j < i ==> s@[j] == p@[j],
        decreases p.len() - i,
    {
        if s[i] != p[i] {
            assert(s@.take(p.len() as int)[i as int] != p@[i as int]);
            return false;
        }
        i = i + 1;
    }
    assert(s@.take(p.len() as int) =~= p@);
    true
}

/// Whether `s` ends with the characters `p`.
pub fn ends_with_chars(s: &[char], p: &[char]) -> (r: bool)
    ensures
        r == ends_with(s@, p@),
{
    if p.len() > s.len() {
        return false;
    }
    let off = s.len() - p.len();
    let mut i: usize = 0;
    while i < p.len()
        invariant
            p.len() <= s.len(),
            off == s.len() - p.len(),
            i <= p.len(),
            forall|j: int| 0 <= j < i ==> s@[j + off] == p@[j],
        decreases p.len() - i,
    {
        if s[off + i] != p[i] {
            assert(s@.skip(off as int)[i as int] != p@[i as int]);
            return false;
        }
        i = i + 1;
    }
    assert(s@.skip(off as int) =~= p@);
    true
}

/// Whether `s` begins with the text `p`.
pub fn starts_with_str(s: &[char], p: &str) -> (r: bool)
    ensures
        r == starts_with(s@, p@),
{
    let pv = chars_of(p);
    starts_with_chars(s, pv.as_slice())
}

/// Whether `s` ends with the text `p`.
pub fn ends_with_str(s: &[char], p: &str) -> (r: bool)
    ensures
        r == ends_with(s@, p@),
{
    let pv = chars_of(p);
    ends_with_chars(s, pv.as_slice())
}

/// Whether `p` occurs in `s`.
pub fn contains_chars(s: &[char], p: &[char]) -> (r: bool)
    ensures
        r == contains_seq(s@, p@),
{
    if p.len() > s.len() {
        proof {
            assert forall|i: int| 0 <= i && i + p@.len() <= s@.len() implies #[trigger] s@.subrange(i, i + p@.len()) != p@ by {}
        }
        return false;
    }
    if p.len() == 0 {
        assert(s@.subrange(0int, 0int + p@.len()) =~= p@);
        return true;
    }
    let mut i: usize = 0;
    while i <= s.len() - p.len()
        invariant
            1 <= p.len() <= s.len(),
            i <= s.len() - p.len() + 1,
            forall|k: int| 0 <= k < i ==> #[trigger] s@.subrange(k, k + p@.len()) != p@,
        decreases s.len() - p.len() + 1 - i,
    {
        let mut j: usize = 0;
        let mut ok = true;
        while j < p.len()
            invariant
                p.len() <= s.len(),
                i <= s.len() - p.len(),
                j <= p.len(),
                ok ==> forall|k: int| 0 <= k < j ==> s@[i + k] == p@[k],
                !ok ==> s@.subrange(i as int, i + p@.len()) != p@,
            decreases p.len() - j,
        {
            if s[i + j] != p[j] {
                ok = false;
                assert(s@.subrange(i as int, i + p@.len())[j as int] != p@[j as int]);
            }
            j = j + 1;
        }
        if ok {
            assert(s@.subrange(i as int, i + p@.len()) =~= p@);
            return true;
        }
        i = i + 1;
    }
    false
}

/// Whether the text `p` occurs in `s`.
pub fn contains_str(s: &[char], p: &str) -> (r: bool)
    ensures
        r == contains_seq(s@, p@),
{
    let pv = chars_of(p);
    contains_chars(s, pv.as_slice())
}

/// `s` with every `from` replaced by `to`.
pub fn replace_chars(s: &[char], from: char, to: char) -> (r: Vec<char>)
    ensures
        r@ == replace_char(s@, from, to),
{
    let mut r: Vec<char> = Vec::new();
    let mut i: usize = 0;
    while i < s.len()
        invariant
            i <= s.len(),
            r@ == replace_char(s@.take(i as int), from, to),
        decreases s.len() - i,
    {
        let x = s[i];
        r.push(if x == from { to } else { x });
        assert(r@ =~= replace_char(s@.take(i as int + 1), from, to));
        i = i + 1;
    }
    assert(s@.take(s.len() as int) == s@);
    r
}

/// Appends the characters of `p` to `v`.
pub fn push_str(v: &mut Vec<char>, p: &str)
    ensures
        final(v)@ == old(v)@ + p@,
{
    let pv = chars_of(p);
    let mut i: usize = 0;
    let ghost start = v@;
    while i < pv.len()
        invariant
            i <= pv.len(),
            pv@ == p@,
            v@ == start + pv@.take(i as int),
        decreases pv.len() - i,
    {
        v.push(pv[i]);
        assert(v@ =~= start + pv@.take(i as int + 1));
        i = i + 1;
    }
    assert(pv@.take(pv.len() as int) == pv@);
}

/// Appends the characters `p` to `v`.
pub fn push_chars(v: &mut Vec<char>, p: &[char])
    ensures
        final(v)@ == old(v)@ + p@,
{
    let mut i: usize = 0;
    let ghost start = v@;
    while i < p.len()
        invariant
            i <= p.len(),
            v@ == start + p@.take(i as int),
        decreases p.len() - i,
    {
        v.push(p[i]);
        assert(v@ =~= start + p@.take(i as int + 1));
        i = i + 1;
    }
    assert(p@.take(p.len() as int) == p@);
}

/// The pieces joined by `sep`.
pub fn join_chars(parts: &Vec<Vec<char>>, sep: &[char]) -> (r: Vec<char>)
    ensures
        r@ == join(parts.deep_view(), sep@),
{
    let ghost ps = parts.deep_view();
    let mut r: Vec<char> = Vec::new();
    let mut i: usize = 0;
    assert(ps.take(0) =~= Seq::<Seq<char>>::empty());
    while i < parts.len()
        invariant
            i <= parts.len(),
            ps == parts.deep_view(),
            r@ == join(ps.take(i as int), sep@),
        decreases parts.len() - i,
    {
        if i > 0 {
            push_chars(&mut r, sep);
        }
        push_chars(&mut r, parts[i].as_slice());
        assert(ps.take(i as int + 1).drop_last() =~= ps.take(i as int));
        assert(ps.take(i as int + 1).last() == parts[i as int]@);
        if i == 0 {
            assert(ps.take(1).len() == 1);
            assert(r@ =~= ps.take(1)[0]);
        }
        i = i + 1;
    }
    assert(ps.take(parts.len() as int) =~= ps);
    r
}

/// `s` with every occurrence of `pat` replaced by `rep`.
pub fn replace_str(s: &str, pat: &str, rep: &str) -> (r: String)
    requires
        pat@.len() > 0,
    ensures
        r@ == replace_all(s@, pat@, rep@),
{
    let sv = chars_of(s);
    let pv = chars_of(pat);
    let rv = chars_of(rep);
    let parts = split_str_chars(sv.as_slice(), pv.as_slice());
    let joined = join_chars(&parts, rv.as_slice());
    string_from(&joined)
}

/// Appends `p` to `v`, followed by spaces up to `width` characters.
pub fn push_padded(v: &mut Vec<char>, p: &[char], width: usize)
    ensures
        final(v)@ == old(v)@ + pad_right(p@, width as nat),
{
    let ghost start = v@;
    push_chars(v, p);
    let mut n: usize = p.len();
    while n < width
        invariant
            p.len() <= n,
            p.len() < width ==> n <= width,
            p.len() >= width ==> n == p.len(),
            v@ == start + p@ + Seq::new((n - p.len()) as nat, |i: int| ' '),
        decreases width - n,
    {
        v.push(' ');
        assert(v@ =~= start + p@ + Seq::new((n + 1 - p.len()) as nat, |i: int| ' '));
        n = n + 1;
    }
    if p.len() >= width {
        assert(Seq::new(0nat, |i: int| ' ') =~= Seq::<char>::empty());
        assert(v@ =~= start + p@);
    }
}

/// The position of the first occurrence of `p` in `s`.
pub fn find_seq_chars(s: &[char], p: &[char]) -> (r: Option<usize>)
    ensures
        match r {
            Some(i) => i + p.len() <= s.len() && find_seq(s@, p@) == Some(i as int),
            None => find_seq(s@, p@) is None,
        },
{
    if p.len() > s.len() {
        proof {
            lemma_find_seq_none(s@, p@);
        }
        return None;
    }
    let mut i: usize = 0;
    while i <= s.len() - p.len()
        invariant
            p.len() <= s.len(),
            i <= s.len() - p.len() + 1,
            forall|k: int| 0 <= k < i ==> #[trigger] s@.subrange(k, k + p@.len()) != p@,
        decreases s.len() - p.len() + 1 - i,
    {
        let mut j: usize = 0;
        let mut ok = true;
        while j < p.len()
            invariant
                p.len() <= s.len(),
                i <= s.len() - p.len(),
                j <= p.len(),
                ok ==> forall|k: int| 0 <= k < j ==> s@[i + k] == p@[k],
                !ok ==> s@.subrange(i as int, i + p@.len()) != p@,
            decreases p.len() - j,
        {
            if s[i + j] != p[j] {
                ok = false;
                assert(s@.subrange(i as int, i + p@.len())[j as int] != p@[j as int]);
            }
            j = j + 1;
        }
        if ok {
            assert(s@.subrange(i as int, i + p@.len()) =~= p@);
            proof {
                lemma_find_seq_at(s@, p@, i as int);
            }
            return Some(i);
        }
        if i == s.len() - p.len() {
            proof {
                lemma_find_seq_none(s@, p@);
            }
            return None;
        }
        i = i + 1;
    }
    proof {
        lemma_find_seq_none(s@, p@);
    }
    None
}

/// The pieces of `s` between the occurrences of the text `p`.
pub fn split_str_chars(s: &[char], p: &[char]) -> (r: Vec<Vec<char>>)
    requires
        p.len() > 0,
    ensures
        r.deep_view() == split_str(s@, p@),
{
    let mut pieces: Vec<Vec<char>> = Vec::new();
    let mut rest: Vec<char> = slice_chars(s, 0, s.len());
    assert(rest@ =~= s@);
    loop
        invariant
            p.len() > 0,
            split_str(s@, p@) == pieces.deep_view() + split_str(rest@, p@),
        decreases rest.len(),
    {
        match find_seq_chars(rest.as_slice(), p) {
            Some(i) => {
                proof {
                    lemma_find_seq_bounds(rest@, p@);
                }
                let head = slice_chars(rest.as_slice(), 0, i);
                let tail = slice_chars(rest.as_slice(), i + p.len(), rest.len());
                let ghost old_pieces = pieces.deep_view();
                pieces.push(head);
                assert(pieces.deep_view() =~~= old_pieces.push(rest@.take(i as int)));
                assert(split_str(rest@, p@) == seq![rest@.take(i as int)] + split_str(tail@, p@));
                assert(pieces.deep_view() + split_str(tail@, p@) =~~= old_pieces + split_str(rest@, p@));
                rest = tail;
            },
            None => {
                let ghost old_pieces = pieces.deep_view();
                let ghost last = rest@;
                pieces.push(rest);
                assert(pieces.deep_view() =~~= old_pieces.push(last));
                assert(split_str(s@, p@) =~~= pieces.deep_view());
                return pieces;
            },
        }
    }
}

/// The texts `parts` joined by `sep`.
pub fn join_texts(parts: &[String], sep: &str) -> (r: String)
    ensures
        r@ == join(texts(parts@), sep@),
{
    let ghost ps = texts(parts@);
    let mut v: Vec<char> = Vec::new();
    let mut i: usize = 0;
    assert(ps.take(0) =~= Seq::<Seq<char>>::empty());
    while i < parts.len()
        invariant
            i <= parts.len(),
            ps == texts(parts@),
            v@ == join(ps.take(i as int), sep@),
        decreases parts.len() - i,
    {
        if i > 0 {
            push_str(&mut v, sep);
        }
        push_str(&mut v, parts[i].as_str());
        assert(ps.take(i as int + 1).drop_last() =~= ps.take(i as int));
        assert(ps.take(i as int + 1).last() == parts@[i as int]@);
        if i == 0 {
            assert(v@ =~= ps.take(1)[0]);
        }
        i = i + 1;
    }
    assert(ps.take(parts.len() as int) =~= ps);
    string_from(&v)
}

} // verus!
