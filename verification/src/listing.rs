//! The text of `depot list`: the dependencies of a project, flat or as a
//! tree, and the packages installed globally.
use vstd::prelude::*;
use crate::text::{chars_of, join, join_texts, push_str, string_from, texts};
use crate::version::lex_order;
use crate::version_order::lex_order_chars;

verus! {

/// A dependency as the listing shows it.
#[derive(Debug)]
pub struct ListedDependency {
    pub name: String,
    /// The constraint of the manifest.
    pub constraint: String,
    /// Whether its files are in `lua_modules`.
    pub installed: bool,
    /// The version the lockfile resolved it to, if any.
    pub resolved: Option<String>,
}

/// A dependency of a locked package, as the tree shows it.
#[derive(Debug)]
pub struct LockedDependency {
    pub name: String,
    pub version: String,
    pub installed: bool,
}

/// An entry of the dependency tree: a dependency of the manifest, whether
/// it is a dev dependency, and the dependencies the lockfile records for
/// it.
#[derive(Debug)]
pub struct TreeEntry {
    pub dependency: ListedDependency,
    pub dev: bool,
    pub locked: Vec<LockedDependency>,
}

/// The mark of an installed (or missing) package.
pub open spec fn status_mark(installed: bool) -> Seq<char> {
    if installed {
        "✓"@
    } else {
        "✗"@
    }
}

/// `@version` when there is one.
pub open spec fn at_version(resolved: Option<String>) -> Seq<char> {
    match resolved {
        Some(v) => "@"@ + v@,
        None => ""@,
    }
}

/// A line of the flat list: `  ✓ name@version (constraint: c)`, with `, dev`
/// inside the brackets for a dev dependency.
pub open spec fn dependency_line(d: ListedDependency, dev: bool) -> Seq<char> {
    "  "@ + status_mark(d.installed) + " "@ + d.name@ + at_version(d.resolved) + " (constraint: "@
        + d.constraint@ + if dev {
        ", dev)"@
    } else {
        ")"@
    }
}

fn push_status(v: &mut Vec<char>, installed: bool)
    ensures
        final(v)@ == old(v)@ + status_mark(installed),
{
    if installed {
        push_str(v, "✓");
    } else {
        push_str(v, "✗");
    }
}

fn push_at_version(v: &mut Vec<char>, resolved: &Option<String>)
    ensures
        final(v)@ == old(v)@ + at_version(*resolved),
{
    match resolved {
        Some(r) => {
            push_str(v, "@");
            push_str(v, r.as_str());
        },
        None => {
            proof {
                reveal_strlit("");
                assert(v@ + ""@ =~= v@);
            }
        },
    }
}

/// A line of the flat list.
pub fn dependency_line_text(d: &ListedDependency, dev: bool) -> (r: String)
    ensures
        r@ == dependency_line(*d, dev),
{
    let mut v = chars_of("  ");
    push_status(&mut v, d.installed);
    push_str(&mut v, " ");
    push_str(&mut v, d.name.as_str());
    push_at_version(&mut v, &d.resolved);
    push_str(&mut v, " (constraint: ");
    push_str(&mut v, d.constraint.as_str());
    if dev {
        push_str(&mut v, ", dev)");
    } else {
        push_str(&mut v, ")");
    }
    string_from(&v)
}

/// The lines of one kind of dependency.
pub open spec fn dependency_lines(ds: Seq<ListedDependency>, dev: bool) -> Seq<Seq<char>> {
    ds.map_values(|d: ListedDependency| dependency_line(d, dev))
}

/// The flat list: a heading; `(none)` when there is no dependency; the
/// regular dependencies; and, if there are any, the dev dependencies under
/// their own heading.
pub open spec fn package_list(deps: Seq<ListedDependency>, dev: Seq<ListedDependency>) -> Seq<Seq<char>> {
    if deps.len() == 0 && dev.len() == 0 {
        seq!["Dependencies:"@, "  (none)"@]
    } else {
        seq!["Dependencies:"@] + dependency_lines(deps, false) + if dev.len() > 0 {
            seq!["\nDev Dependencies:"@] + dependency_lines(dev, true)
        } else {
            Seq::empty()
        }
    }
}

fn push_dependency_lines(out: &mut Vec<String>, ds: &Vec<ListedDependency>, dev: bool)
    ensures
        texts(final(out)@) == texts(old(out)@) + dependency_lines(ds@, dev),
{
    let ghost start = texts(out@);
    let mut i: usize = 0;
    while i < ds.len()
        invariant
            i <= ds.len(),
            texts(out@) == start + dependency_lines(ds@.take(i as int), dev),
        decreases ds.len() - i,
    {
        let line = dependency_line_text(&ds[i], dev);
        let ghost before = out@;
        out.push(line);
        proof {
            assert(texts(out@) =~= texts(before).push(line@));
            assert(dependency_lines(ds@.take(i as int + 1), dev) =~= dependency_lines(ds@.take(i as int), dev).push(dependency_line(ds@[i as int], dev)));
        }
        i = i + 1;
    }
    assert(ds@.take(ds@.len() as int) =~= ds@);
}

/// The lines of the flat list of a project's dependencies.
pub fn package_list_lines(deps: &Vec<ListedDependency>, dev: &Vec<ListedDependency>) -> (r: Vec<String>)
    ensures
        texts(r@) == package_list(deps@, dev@),
{
    let mut out: Vec<String> = Vec::new();
    out.push(string_from(&chars_of("Dependencies:")));
    if deps.len() == 0 && dev.len() == 0 {
        out.push(string_from(&chars_of("  (none)")));
        assert(texts(out@) =~= seq!["Dependencies:"@, "  (none)"@]);
        return out;
    }
    assert(texts(out@) =~= seq!["Dependencies:"@]);
    push_dependency_lines(&mut out, deps, false);
    if dev.len() > 0 {
        let ghost mid = texts(out@);
        out.push(string_from(&chars_of("\nDev Dependencies:")));
        assert(texts(out@) =~= mid + seq!["\nDev Dependencies:"@]);
        push_dependency_lines(&mut out, dev, true);
        assert(texts(out@) =~= seq!["Dependencies:"@] + dependency_lines(deps@, false) + (seq!["\nDev Dependencies:"@] + dependency_lines(dev@, true)));
    } else {
        assert(texts(out@) =~= seq!["Dependencies:"@] + dependency_lines(deps@, false) + Seq::<Seq<char>>::empty());
    }
    out
}

// ===================== The tree =====================

/// The connector of a tree entry: `└──` for the last, `├──` otherwise.
pub open spec fn connector(last: bool) -> Seq<char> {
    if last {
        "└──"@
    } else {
        "├──"@
    }
}

/// The prefix under an entry: `   ` after the last, `│  ` otherwise.
pub open spec fn next_prefix(prefix: Seq<char>, last: bool) -> Seq<char> {
    prefix + if last {
        "   "@
    } else {
        "│  "@
    }
}

/// The line of a tree entry.
pub open spec fn tree_line(prefix: Seq<char>, e: TreeEntry, last: bool) -> Seq<char> {
    prefix + connector(last) + " "@ + status_mark(e.dependency.installed) + " "@ + e.dependency.name@
        + at_version(e.dependency.resolved) + " (constraint: "@ + e.dependency.constraint@ + ")"@
        + if e.dev {
        " (dev)"@
    } else {
        ""@
    }
}

/// The line of a locked dependency under an entry.
pub open spec fn locked_line(prefix: Seq<char>, d: LockedDependency, last: bool) -> Seq<char> {
    prefix + connector(last) + " "@ + status_mark(d.installed) + " "@ + d.name@ + "@"@ + d.version@
}

/// The lines of the locked dependencies, the first `n` of them.
pub open spec fn locked_lines(prefix: Seq<char>, ds: Seq<LockedDependency>, n: int) -> Seq<Seq<char>>
    decreases n,
{
    if n <= 0 {
        Seq::empty()
    } else {
        locked_lines(prefix, ds, n - 1).push(locked_line(prefix, ds[n - 1], n - 1 == ds.len() - 1))
    }
}

/// The lines of the first `n` tree entries.
pub open spec fn tree_lines(prefix: Seq<char>, es: Seq<TreeEntry>, n: int) -> Seq<Seq<char>>
    decreases n,
{
    if n <= 0 {
        Seq::empty()
    } else {
        let last = n - 1 == es.len() - 1;
        tree_lines(prefix, es, n - 1) + seq![tree_line(prefix, es[n - 1], last)] + locked_lines(
            next_prefix(prefix, last),
            es[n - 1].locked@,
            es[n - 1].locked@.len() as int,
        )
    }
}

fn push_connector(v: &mut Vec<char>, last: bool)
    ensures
        final(v)@ == old(v)@ + connector(last),
{
    if last {
        push_str(v, "└──");
    } else {
        push_str(v, "├──");
    }
}

fn tree_line_text(prefix: &str, e: &TreeEntry, last: bool) -> (r: String)
    ensures
        r@ == tree_line(prefix@, *e, last),
{
    let mut v = chars_of(prefix);
    push_connector(&mut v, last);
    push_str(&mut v, " ");
    push_status(&mut v, e.dependency.installed);
    push_str(&mut v, " ");
    push_str(&mut v, e.dependency.name.as_str());
    push_at_version(&mut v, &e.dependency.resolved);
    push_str(&mut v, " (constraint: ");
    push_str(&mut v, e.dependency.constraint.as_str());
    push_str(&mut v, ")");
    if e.dev {
        push_str(&mut v, " (dev)");
    } else {
        proof {
            reveal_strlit("");
            assert(v@ + ""@ =~= v@);
        }
    }
    string_from(&v)
}

fn locked_line_text(prefix: &str, d: &LockedDependency, last: bool) -> (r: String)
    ensures
        r@ == locked_line(prefix@, *d, last),
{
    let mut v = chars_of(prefix);
    push_connector(&mut v, last);
    push_str(&mut v, " ");
    push_status(&mut v, d.installed);
    push_str(&mut v, " ");
    push_str(&mut v, d.name.as_str());
    push_str(&mut v, "@");
    push_str(&mut v, d.version.as_str());
    string_from(&v)
}

fn next_prefix_text(prefix: &str, last: bool) -> (r: String)
    ensures
        r@ == next_prefix(prefix@, last),
{
    let mut v = chars_of(prefix);
    if last {
        push_str(&mut v, "   ");
    } else {
        push_str(&mut v, "│  ");
    }
    string_from(&v)
}

/// The lines of the dependency tree: each entry with its connector and,
/// under it, the dependencies the lockfile records for it.
pub fn dependency_tree_lines(prefix: &str, entries: &Vec<TreeEntry>) -> (r: Vec<String>)
    ensures
        texts(r@) == tree_lines(prefix@, entries@, entries@.len() as int),
{
    let mut out: Vec<String> = Vec::new();
    let n = entries.len();
    let mut i: usize = 0;
    assert(texts(out@) =~= Seq::<Seq<char>>::empty());
    while i < n
        invariant
            i <= n,
            n == entries.len(),
            texts(out@) == tree_lines(prefix@, entries@, i as int),
        decreases n - i,
    {
        let last = i == n - 1;
        let e = &entries[i];
        let ghost before = texts(out@);
        out.push(tree_line_text(prefix, e, last));
        let sub = next_prefix_text(prefix, last);
        let m = e.locked.len();
        let mut j: usize = 0;
        assert(texts(out@) =~= before + seq![tree_line(prefix@, entries@[i as int], last)] + locked_lines(sub@, e.locked@, 0));
        while j < m
            invariant
                j <= m,
                m == e.locked.len(),
                texts(out@) == before + seq![tree_line(prefix@, entries@[i as int], last)]
                    + locked_lines(sub@, e.locked@, j as int),
            decreases m - j,
        {
            let ghost b2 = out@;
            out.push(locked_line_text(sub.as_str(), &e.locked[j], j == m - 1));
            assert(texts(out@) =~= texts(b2).push(locked_line(sub@, e.locked@[j as int], j == m - 1)));
            j = j + 1;
        }
        i = i + 1;
    }
    out
}

// ===================== Global packages =====================

/// Whether `order` lists every index of `names` once, in text order (equal
/// names in the order found).
pub open spec fn text_order(names: Seq<Seq<char>>, order: Seq<usize>) -> bool {
    &&& order.len() == names.len()
    &&& forall|k: int| 0 <= k < order.len() ==> order[k] < names.len()
    &&& forall|a: int, b: int|
        0 <= a < b < order.len() ==> text_before(names, #[trigger] order[a] as int, #[trigger] order[b] as int)
}

/// Whether name `i` comes before name `j`: lower text first, then the one
/// found first.
pub open spec fn text_before(names: Seq<Seq<char>>, i: int, j: int) -> bool {
    lex_order(names[i], names[j]) < 0 || (lex_order(names[i], names[j]) == 0 && i < j)
}

/// `names` sorted: whether `sorted` is `names` in text order.
pub open spec fn sorted_names(names: Seq<Seq<char>>, sorted: Seq<Seq<char>>) -> bool {
    exists|order: Seq<usize>|
        text_order(names, order) && sorted.len() == names.len() && forall|k: int|
            0 <= k < sorted.len() ==> #[trigger] sorted[k] == names[order[k] as int]
}

/// The names of the globally installed packages: the directories of the
/// global `lua_modules`, without the `.lpm` metadata directory, sorted.
pub open spec fn global_names(found: Seq<Seq<char>>) -> Seq<Seq<char>> {
    found.filter(|n: Seq<char>| n != ".lpm"@)
}

proof fn lemma_lex_basics(a: Seq<char>, b: Seq<char>)
    ensures
        lex_order(a, b) == -lex_order(b, a),
        lex_order(a, a) == 0,
        lex_order(a, b) == 0 ==> a == b,
    decreases a.len(),
{
    if a.len() > 0 && b.len() > 0 && a[0] == b[0] {
        lemma_lex_basics(a.drop_first(), b.drop_first());
        if a.drop_first() == b.drop_first() {
            assert(a =~= seq![a[0]] + a.drop_first());
            assert(b =~= seq![b[0]] + b.drop_first());
        }
    }
    if a.len() > 0 {
        lemma_lex_basics(a.drop_first(), a.drop_first());
    }
    if a.len() == 0 && b.len() == 0 {
        assert(a =~= b);
    }
}

proof fn lemma_lex_trans(a: Seq<char>, b: Seq<char>, c: Seq<char>)
    ensures
        lex_order(a, b) <= 0 && lex_order(b, c) <= 0 ==> lex_order(a, c) <= 0,
        lex_order(a, b) < 0 && lex_order(b, c) <= 0 ==> lex_order(a, c) < 0,
        lex_order(a, b) <= 0 && lex_order(b, c) < 0 ==> lex_order(a, c) < 0,
    decreases a.len(),
{
    lemma_lex_basics(a, b);
    lemma_lex_basics(b, c);
    lemma_lex_basics(a, c);
    if a.len() > 0 && b.len() > 0 && c.len() > 0 && a[0] == b[0] && b[0] == c[0] {
        lemma_lex_trans(a.drop_first(), b.drop_first(), c.drop_first());
    }
}

/// The indices of `names` in text order (a stable sort).
pub fn text_sort_order(names: &Vec<String>) -> (order: Vec<usize>)
    ensures
        text_order(texts(names@), order@),
{
    let ghost ns = texts(names@);
    let mut cs: Vec<Vec<char>> = Vec::new();
    let mut t: usize = 0;
    while t < names.len()
        invariant
            t <= names.len(),
            cs.len() == t,
            ns == texts(names@),
            forall|k: int| 0 <= k < t ==> (#[trigger] cs@[k])@ == ns[k],
        decreases names.len() - t,
    {
        cs.push(chars_of(names[t].as_str()));
        t = t + 1;
    }
    let mut order: Vec<usize> = Vec::new();
    let mut i: usize = 0;
    while i < names.len()
        invariant
            i <= names.len(),
            cs.len() == names.len(),
            ns == texts(names@),
            forall|k: int| 0 <= k < cs.len() ==> (#[trigger] cs@[k])@ == ns[k],
            order.len() == i,
            forall|k: int| 0 <= k < order.len() ==> order[k] < i,
            forall|a: int, b: int|
                0 <= a < b < order.len() ==> text_before(ns, #[trigger] order[a] as int, #[trigger] order[b] as int),
        decreases names.len() - i,
    {
        let mut p: usize = 0;
        while p < order.len() && lex_order_chars(cs[order[p]].as_slice(), cs[i].as_slice()) <= 0
            invariant
                p <= order.len(),
                order.len() == i,
                i < names.len(),
                cs.len() == names.len(),
                forall|k: int| 0 <= k < cs.len() ==> (#[trigger] cs@[k])@ == ns[k],
                forall|k: int| 0 <= k < order.len() ==> order[k] < i,
                forall|q: int| 0 <= q < p ==> lex_order(ns[#[trigger] order[q] as int], ns[i as int]) <= 0,
            decreases order.len() - p,
        {
            p = p + 1;
        }
        let ghost old_order = order@;
        proof {
            assert forall|q: int| p <= q < old_order.len() implies lex_order(
                ns[#[trigger] old_order[q] as int],
                ns[i as int],
            ) > 0 by {
                if q > p {
                    assert(text_before(ns, old_order[p as int] as int, old_order[q] as int));
                    lemma_lex_trans(ns[i as int], ns[old_order[p as int] as int], ns[old_order[q] as int]);
                    lemma_lex_basics(ns[i as int], ns[old_order[p as int] as int]);
                    lemma_lex_basics(ns[i as int], ns[old_order[q] as int]);
                    lemma_lex_basics(ns[old_order[p as int] as int], ns[old_order[q] as int]);
                }
            }
        }
        order.insert(p, i);
        proof {
            assert forall|a: int, b: int| 0 <= a < b < order.len() implies text_before(
                ns,
                #[trigger] order[a] as int,
                #[trigger] order[b] as int,
            ) by {
                if a < p && b < p {
                    assert(order[a] == old_order[a] && order[b] == old_order[b]);
                } else if a < p && b == p {
                    assert(order[a] == old_order[a]);
                } else if a < p {
                    assert(order[a] == old_order[a] && order[b] == old_order[b - 1]);
                } else if a == p {
                    assert(order[b] == old_order[b - 1]);
                    lemma_lex_basics(ns[i as int], ns[old_order[b - 1] as int]);
                } else {
                    assert(order[a] == old_order[a - 1] && order[b] == old_order[b - 1]);
                }
            }
            assert forall|k: int| 0 <= k < order.len() implies order[k] < i + 1 by {
                if k < p {
                    assert(order[k] == old_order[k]);
                } else if k > p {
                    assert(order[k] == old_order[k - 1]);
                }
            }
        }
        i = i + 1;
    }
    order
}

/// Sort names in text order (stably).
pub fn sort_names(names: Vec<String>) -> (r: Vec<String>)
    ensures
        sorted_names(texts(names@), texts(r@)),
{
    let ghost ns = texts(names@);
    let order = text_sort_order(&names);
    let mut r: Vec<String> = Vec::new();
    let mut k: usize = 0;
    while k < order.len()
        invariant
            k <= order.len(),
            order.len() == names.len(),
            ns == texts(names@),
            forall|j: int| 0 <= j < order.len() ==> order[j] < names.len(),
            r.len() == k,
            forall|j: int| 0 <= j < k ==> #[trigger] texts(r@)[j] == ns[order[j] as int],
        decreases order.len() - k,
    {
        let s = names[order[k]].clone();
        let ghost before = r@;
        r.push(s);
        proof {
            assert(ns[order[k as int] as int] == names@[order[k as int] as int]@);
            assert forall|j: int| 0 <= j < k + 1 implies #[trigger] texts(r@)[j] == ns[order[j] as int] by {
                assert(texts(r@)[j] == r@[j]@);
                if j < k {
                    assert(r@[j] == before[j]);
                    assert(texts(before)[j] == before[j]@);
                }
            }
        }
        k = k + 1;
    }
    assert(text_order(ns, order@));
    assert(texts(r@).len() == ns.len());
    r
}

/// The names of the globally installed packages, from the directory names
/// found: without `.lpm`, sorted.
pub fn global_package_names(found: Vec<String>) -> (r: Vec<String>)
    ensures
        sorted_names(global_names(texts(found@)), texts(r@)),
{
    let ghost fs = texts(found@);
    let mut kept: Vec<String> = Vec::new();
    let mut i: usize = 0;
    assert(fs.take(0) =~= Seq::<Seq<char>>::empty());
    while i < found.len()
        invariant
            i <= found.len(),
            fs == texts(found@),
            texts(kept@) == global_names(fs.take(i as int)),
        decreases found.len() - i,
    {
        proof {
            assert(fs.take(i as int + 1).drop_last() =~= fs.take(i as int));
            reveal(Seq::filter);
        }
        if !crate::text::str_eq(found[i].as_str(), ".lpm") {
            let ghost before = kept@;
            kept.push(found[i].clone());
            assert(texts(kept@) =~= texts(before).push(found@[i as int]@));
        }
        i = i + 1;
    }
    assert(fs.take(found@.len() as int) =~= fs);
    sort_names(kept)
}

/// The line of a globally installed package: its name, and its
/// executables when it has any.
pub open spec fn global_package_line(name: Seq<char>, executables: Seq<Seq<char>>) -> Seq<char> {
    if executables.len() == 0 {
        "  "@ + name
    } else {
        "  "@ + name + " (executables: "@ + join(executables, ", "@) + ")"@
    }
}

/// The line of a globally installed package.
pub fn global_package_line_text(name: &str, executables: &Vec<String>) -> (r: String)
    ensures
        r@ == global_package_line(name@, texts(executables@)),
{
    let mut v = chars_of("  ");
    push_str(&mut v, name);
    if executables.len() > 0 {
        push_str(&mut v, " (executables: ");
        let j = join_texts(executables.as_slice(), ", ");
        push_str(&mut v, j.as_str());
        push_str(&mut v, ")");
    }
    string_from(&v)
}

} // verus!
