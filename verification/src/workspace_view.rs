//! The text of the `workspace` commands: the package list, the detailed
//! information, and the dependencies that packages share.
use vstd::prelude::*;
use crate::listing::{text_order, text_sort_order};
use crate::text::{chars_of, decimal, decimal_chars, join, join_texts, push_chars, push_str, string_from, string_of, texts};

verus! {

/// A package of a workspace, as the commands show it.
#[derive(Debug)]
pub struct WorkspacePackageSummary {
    pub name: String,
    /// Its path below the workspace root.
    pub path: String,
    pub version: String,
    /// How many dependencies and dev dependencies its manifest names.
    pub dependency_count: usize,
    pub dev_dependency_count: usize,
}

/// The package metadata shared by a workspace.
#[derive(Debug)]
pub struct WorkspaceMetadataSummary {
    pub version: Option<String>,
    pub license: Option<String>,
    pub authors: Option<Vec<String>>,
}

/// A workspace, as the commands show it.
#[derive(Debug)]
pub struct WorkspaceSummary {
    pub name: String,
    pub root: String,
    /// The patterns that select its packages, and those that exclude some.
    pub package_patterns: Vec<String>,
    pub exclude_patterns: Vec<String>,
    pub default_members: Option<Vec<String>>,
    /// Its dependencies and dev dependencies, name and version.
    pub dependencies: Vec<(String, String)>,
    pub dev_dependencies: Vec<(String, String)>,
    pub package_metadata: Option<WorkspaceMetadataSummary>,
    pub packages: Vec<WorkspacePackageSummary>,
}

/// The names of the packages.
pub open spec fn package_names(ps: Seq<WorkspacePackageSummary>) -> Seq<Seq<char>> {
    ps.map_values(|p: WorkspacePackageSummary| p.name@)
}

/// `ps` in the order `order` gives.
pub open spec fn in_order<T>(ps: Seq<T>, order: Seq<usize>) -> Seq<T> {
    order.map_values(|i: usize| ps[i as int])
}

/// The line of a package in the workspace list.
pub open spec fn member_line(p: WorkspacePackageSummary) -> Seq<char> {
    "  "@ + p.name@ + " ("@ + p.path@ + ")"@
}

/// The workspace list: its name and root, its packages by name, and their
/// number.
pub open spec fn workspace_list(w: WorkspaceSummary, order: Seq<usize>) -> Seq<Seq<char>> {
    seq!["Workspace: "@ + w.name@, "Root: "@ + w.root@, "\nPackages:"@] + in_order(
        w.packages@,
        order,
    ).map_values(|p: WorkspacePackageSummary| member_line(p)) + seq![
        "\nTotal: "@ + decimal(w.packages@.len()) + " packages"@,
    ]
}

fn package_name_list(ps: &Vec<WorkspacePackageSummary>) -> (r: Vec<String>)
    ensures
        texts(r@) == package_names(ps@),
{
    let mut r: Vec<String> = Vec::new();
    let mut i: usize = 0;
    while i < ps.len()
        invariant
            i <= ps.len(),
            texts(r@) == package_names(ps@.take(i as int)),
        decreases ps.len() - i,
    {
        let ghost before = r@;
        r.push(ps[i].name.clone());
        proof {
            assert(texts(r@) =~= texts(before).push(ps@[i as int].name@));
            assert(package_names(ps@.take(i as int + 1)) =~= package_names(ps@.take(i as int)).push(ps@[i as int].name@));
        }
        i = i + 1;
    }
    assert(ps@.take(ps@.len() as int) =~= ps@);
    r
}

/// The order in which the packages of a workspace are shown: by name.
pub fn package_order(w: &WorkspaceSummary) -> (order: Vec<usize>)
    ensures
        text_order(package_names(w.packages@), order@),
{
    let names = package_name_list(&w.packages);
    text_sort_order(&names)
}

fn decimal_text(n: usize) -> (r: String)
    ensures
        r@ == decimal(n as nat),
{
    string_from(&decimal_chars(n as u64))
}

fn prefixed_text(prefix: &str, s: &str) -> (r: String)
    ensures
        r@ == prefix@ + s@,
{
    let mut v = chars_of(prefix);
    push_str(&mut v, s);
    string_from(&v)
}

/// The lines of `depot workspace list`, the packages in `order`.
pub fn workspace_list_lines(w: &WorkspaceSummary, order: &Vec<usize>) -> (r: Vec<String>)
    requires
        text_order(package_names(w.packages@), order@),
    ensures
        texts(r@) == workspace_list(*w, order@),
{
    let mut r: Vec<String> = Vec::new();
    r.push(prefixed_text("Workspace: ", w.name.as_str()));
    r.push(prefixed_text("Root: ", w.root.as_str()));
    r.push(string_of("\nPackages:"));
    let ghost head = texts(r@);
    assert(head =~= seq!["Workspace: "@ + w.name@, "Root: "@ + w.root@, "\nPackages:"@]);
    let mut k: usize = 0;
    while k < order.len()
        invariant
            k <= order.len(),
            text_order(package_names(w.packages@), order@),
            texts(r@) == head + in_order(w.packages@, order@.take(k as int)).map_values(
                |p: WorkspacePackageSummary| member_line(p),
            ),
        decreases order.len() - k,
    {
        let p = &w.packages[order[k]];
        let mut v = chars_of("  ");
        push_str(&mut v, p.name.as_str());
        push_str(&mut v, " (");
        push_str(&mut v, p.path.as_str());
        push_str(&mut v, ")");
        let ghost before = r@;
        r.push(string_from(&v));
        proof {
            assert(texts(r@) =~= texts(before).push(member_line(w.packages@[order@[k as int] as int])));
            assert(in_order(w.packages@, order@.take(k as int + 1)).map_values(|p: WorkspacePackageSummary| member_line(p))
                =~= in_order(w.packages@, order@.take(k as int)).map_values(|p: WorkspacePackageSummary| member_line(p)).push(member_line(w.packages@[order@[k as int] as int])));
        }
        k = k + 1;
    }
    assert(order@.take(order@.len() as int) =~= order@);
    let mut t = chars_of("\nTotal: ");
    let d = decimal_chars(w.packages.len() as u64);
    push_chars(&mut t, d.as_slice());
    push_str(&mut t, " packages");
    r.push(string_from(&t));
    r
}

// ===================== Information =====================

/// `  - item` for each item.
pub open spec fn bullet_lines(items: Seq<String>) -> Seq<Seq<char>> {
    items.map_values(|s: String| "  - "@ + s@)
}

/// `  name = version` for each pair.
pub open spec fn pair_lines(items: Seq<(String, String)>) -> Seq<Seq<char>> {
    items.map_values(|p: (String, String)| "  "@ + p.0@ + " = "@ + p.1@)
}

/// The lines of the shared package metadata.
pub open spec fn metadata_lines(m: WorkspaceMetadataSummary) -> Seq<Seq<char>> {
    seq!["Workspace package metadata:"@] + (match m.version {
        Some(v) => seq!["  version: "@ + v@],
        None => Seq::empty(),
    }) + (match m.license {
        Some(l) => seq!["  license: "@ + l@],
        None => Seq::empty(),
    }) + (match m.authors {
        Some(a) => seq!["  authors: "@ + join(texts(a@), ", "@)],
        None => Seq::empty(),
    }) + seq![""@]
}

/// The lines of a package in the detailed information.
pub open spec fn member_info_lines(p: WorkspacePackageSummary) -> Seq<Seq<char>> {
    seq!["  "@ + p.name@, "    path: "@ + p.path@, "    version: "@ + p.version@] + (if p.dependency_count
        > 0 {
        seq!["    dependencies: "@ + decimal(p.dependency_count as nat)]
    } else {
        Seq::empty()
    }) + (if p.dev_dependency_count > 0 {
        seq!["    dev-dependencies: "@ + decimal(p.dev_dependency_count as nat)]
    } else {
        Seq::empty()
    })
}

/// The lines of the packages, in `order`, each after the one before.
pub open spec fn members_info(ps: Seq<WorkspacePackageSummary>, order: Seq<usize>) -> Seq<Seq<char>>
    decreases order.len(),
{
    if order.len() == 0 {
        Seq::empty()
    } else {
        members_info(ps, order.drop_last()) + member_info_lines(ps[order.last() as int])
    }
}

/// The start of the detailed information: name, root and package
/// patterns.
pub open spec fn info_head(w: WorkspaceSummary) -> Seq<Seq<char>> {
    seq!["Workspace: "@ + w.name@, "Root: "@ + w.root@, ""@, "Package patterns:"@] + bullet_lines(
        w.package_patterns@,
    ) + seq![""@]
}

/// A titled list: the title, the lines and a blank line, where there are
/// lines.
pub open spec fn titled(title: Seq<char>, lines: Seq<Seq<char>>) -> Seq<Seq<char>> {
    if lines.len() > 0 {
        seq![title] + lines + seq![""@]
    } else {
        Seq::empty()
    }
}

/// The exclude patterns, default members, dependencies and dev
/// dependencies, each section where there is something to show (the
/// default members even when the list is empty).
pub open spec fn info_sections(w: WorkspaceSummary) -> Seq<Seq<char>> {
    titled("Exclude patterns:"@, bullet_lines(w.exclude_patterns@)) + (match w.default_members {
        Some(m) => seq!["Default members:"@] + bullet_lines(m@) + seq![""@],
        None => Seq::empty(),
    }) + titled("Workspace dependencies:"@, pair_lines(w.dependencies@)) + titled(
        "Workspace dev dependencies:"@,
        pair_lines(w.dev_dependencies@),
    )
}

/// The packages of the detailed information, in `order`.
pub open spec fn info_packages(w: WorkspaceSummary, order: Seq<usize>) -> Seq<Seq<char>> {
    seq!["Packages ("@ + decimal(w.packages@.len()) + "):"@] + members_info(w.packages@, order)
}

/// The detailed information of a workspace: name and root; the package
/// patterns; the exclude patterns, default members, dependencies, dev
/// dependencies and package metadata where there are any; the packages by
/// name.
pub open spec fn workspace_info(w: WorkspaceSummary, order: Seq<usize>) -> Seq<Seq<char>> {
    info_head(w) + info_sections(w) + (match w.package_metadata {
        Some(m) => metadata_lines(m),
        None => Seq::empty(),
    }) + info_packages(w, order)
}

fn push_line(out: &mut Vec<String>, line: String)
    ensures
        texts(final(out)@) == texts(old(out)@).push(line@),
{
    let ghost before = out@;
    out.push(line);
    assert(texts(out@) =~= texts(before).push(line@));
}

fn push_bullets(out: &mut Vec<String>, items: &Vec<String>)
    ensures
        texts(final(out)@) == texts(old(out)@) + bullet_lines(items@),
{
    let ghost start = texts(out@);
    let mut i: usize = 0;
    while i < items.len()
        invariant
            i <= items.len(),
            texts(out@) == start + bullet_lines(items@.take(i as int)),
        decreases items.len() - i,
    {
        push_line(out, prefixed_text("  - ", items[i].as_str()));
        assert(bullet_lines(items@.take(i as int + 1)) =~= bullet_lines(items@.take(i as int)).push("  - "@ + items@[i as int]@));
        i = i + 1;
    }
    assert(items@.take(items@.len() as int) =~= items@);
}

fn push_pairs(out: &mut Vec<String>, items: &Vec<(String, String)>)
    ensures
        texts(final(out)@) == texts(old(out)@) + pair_lines(items@),
{
    let ghost start = texts(out@);
    let mut i: usize = 0;
    while i < items.len()
        invariant
            i <= items.len(),
            texts(out@) == start + pair_lines(items@.take(i as int)),
        decreases items.len() - i,
    {
        let mut v = chars_of("  ");
        push_str(&mut v, items[i].0.as_str());
        push_str(&mut v, " = ");
        push_str(&mut v, items[i].1.as_str());
        push_line(out, string_from(&v));
        assert(pair_lines(items@.take(i as int + 1)) =~= pair_lines(items@.take(i as int)).push("  "@ + items@[i as int].0@ + " = "@ + items@[i as int].1@));
        i = i + 1;
    }
    assert(items@.take(items@.len() as int) =~= items@);
}

fn push_member_info(out: &mut Vec<String>, p: &WorkspacePackageSummary)
    ensures
        texts(final(out)@) == texts(old(out)@) + member_info_lines(*p),
{
    let ghost start = texts(out@);
    push_line(out, prefixed_text("  ", p.name.as_str()));
    push_line(out, prefixed_text("    path: ", p.path.as_str()));
    push_line(out, prefixed_text("    version: ", p.version.as_str()));
    let ghost mid = texts(out@);
    if p.dependency_count > 0 {
        let d = decimal_text(p.dependency_count);
        push_line(out, prefixed_text("    dependencies: ", d.as_str()));
    }
    let ghost mid2 = texts(out@);
    if p.dev_dependency_count > 0 {
        let d = decimal_text(p.dev_dependency_count);
        push_line(out, prefixed_text("    dev-dependencies: ", d.as_str()));
    }
    assert(texts(out@) =~= start + member_info_lines(*p));
}

fn push_info_head(out: &mut Vec<String>, w: &WorkspaceSummary)
    ensures
        texts(final(out)@) == texts(old(out)@) + info_head(*w),
{
    let ghost start = texts(out@);
    push_line(out, prefixed_text("Workspace: ", w.name.as_str()));
    push_line(out, prefixed_text("Root: ", w.root.as_str()));
    push_line(out, string_of(""));
    push_line(out, string_of("Package patterns:"));
    push_bullets(out, &w.package_patterns);
    push_line(out, string_of(""));
    proof {
        reveal_strlit("");
    }
    assert(texts(out@) =~= start + info_head(*w));
}

fn push_titled_bullets(out: &mut Vec<String>, title: &str, items: &Vec<String>)
    ensures
        texts(final(out)@) == texts(old(out)@) + titled(title@, bullet_lines(items@)),
{
    proof {
        reveal_strlit("");
    }
    let ghost s0 = texts(out@);
    if items.len() > 0 {
        push_line(out, string_of(title));
        push_bullets(out, items);
        push_line(out, string_of(""));
    }
    assert(texts(out@) =~= s0 + titled(title@, bullet_lines(items@)));
}

fn push_titled_pairs(out: &mut Vec<String>, title: &str, items: &Vec<(String, String)>)
    ensures
        texts(final(out)@) == texts(old(out)@) + titled(title@, pair_lines(items@)),
{
    proof {
        reveal_strlit("");
    }
    let ghost s0 = texts(out@);
    if items.len() > 0 {
        push_line(out, string_of(title));
        push_pairs(out, items);
        push_line(out, string_of(""));
    }
    assert(texts(out@) =~= s0 + titled(title@, pair_lines(items@)));
}

fn push_default_members(out: &mut Vec<String>, m: &Option<Vec<String>>)
    ensures
        texts(final(out)@) == texts(old(out)@) + match *m {
            Some(m) => seq!["Default members:"@] + bullet_lines(m@) + seq![""@],
            None => Seq::empty(),
        },
{
    proof {
        reveal_strlit("");
    }
    let ghost s0 = texts(out@);
    if let Some(m) = m {
        push_line(out, string_of("Default members:"));
        push_bullets(out, m);
        push_line(out, string_of(""));
        assert(texts(out@) =~= s0 + (seq!["Default members:"@] + bullet_lines(m@) + seq![""@]));
    } else {
        assert(texts(out@) =~= s0 + Seq::<Seq<char>>::empty());
    }
}

fn push_info_sections(out: &mut Vec<String>, w: &WorkspaceSummary)
    ensures
        texts(final(out)@) == texts(old(out)@) + info_sections(*w),
{
    let ghost s0 = texts(out@);
    push_titled_bullets(out, "Exclude patterns:", &w.exclude_patterns);
    push_default_members(out, &w.default_members);
    push_titled_pairs(out, "Workspace dependencies:", &w.dependencies);
    push_titled_pairs(out, "Workspace dev dependencies:", &w.dev_dependencies);
    assert(texts(out@) =~= s0 + info_sections(*w));
}

fn push_metadata(out: &mut Vec<String>, m: &WorkspaceMetadataSummary)
    ensures
        texts(final(out)@) == texts(old(out)@) + metadata_lines(*m),
{
    proof {
        reveal_strlit("");
    }
    let ghost s0 = texts(out@);
    push_line(out, string_of("Workspace package metadata:"));
    if let Some(v) = &m.version {
        push_line(out, prefixed_text("  version: ", v.as_str()));
    }
    if let Some(l) = &m.license {
        push_line(out, prefixed_text("  license: ", l.as_str()));
    }
    if let Some(a) = &m.authors {
        let j = join_texts(a.as_slice(), ", ");
        push_line(out, prefixed_text("  authors: ", j.as_str()));
    }
    push_line(out, string_of(""));
    assert(texts(out@) =~= s0 + metadata_lines(*m));
}

fn push_info_packages(out: &mut Vec<String>, w: &WorkspaceSummary, order: &Vec<usize>)
    requires
        text_order(package_names(w.packages@), order@),
    ensures
        texts(final(out)@) == texts(old(out)@) + info_packages(*w, order@),
{
    let ghost s0 = texts(out@);
    let mut t = chars_of("Packages (");
    let d = decimal_chars(w.packages.len() as u64);
    push_chars(&mut t, d.as_slice());
    push_str(&mut t, "):");
    push_line(out, string_from(&t));
    let ghost head = texts(out@);
    let mut k: usize = 0;
    assert(members_info(w.packages@, order@.take(0)) =~= Seq::<Seq<char>>::empty());
    while k < order.len()
        invariant
            k <= order.len(),
            text_order(package_names(w.packages@), order@),
            texts(out@) == head + members_info(w.packages@, order@.take(k as int)),
        decreases order.len() - k,
    {
        push_member_info(out, &w.packages[order[k]]);
        assert(order@.take(k as int + 1).drop_last() =~= order@.take(k as int));
        k = k + 1;
    }
    assert(order@.take(order@.len() as int) =~= order@);
    assert(texts(out@) =~= s0 + info_packages(*w, order@));
}

/// The lines of `depot workspace info`, the packages in `order`.
pub fn workspace_info_lines(w: &WorkspaceSummary, order: &Vec<usize>) -> (r: Vec<String>)
    requires
        text_order(package_names(w.packages@), order@),
    ensures
        texts(r@) == workspace_info(*w, order@),
{
    let mut out: Vec<String> = Vec::new();
    push_info_head(&mut out, w);
    push_info_sections(&mut out, w);
    let ghost s2 = texts(out@);
    if let Some(m) = &w.package_metadata {
        push_metadata(&mut out, m);
    }
    push_info_packages(&mut out, w, order);
    assert(texts(out@) =~= workspace_info(*w, order@));
    out
}

// ===================== Shared dependencies =====================

/// Whether the usages of a dependency name more than one version.
pub open spec fn has_conflict(usages: Seq<(String, String)>) -> bool {
    exists|i: int, j: int| 0 <= i < usages.len() && 0 <= j < usages.len() && (#[trigger] usages[i]).1@
        != (#[trigger] usages[j]).1@
}

/// Whether the usages of a dependency (package, version) name more than
/// one version.
pub fn version_conflict(usages: &Vec<(String, String)>) -> (r: bool)
    ensures
        r == has_conflict(usages@),
{
    if usages.len() == 0 {
        return false;
    }
    let mut i: usize = 1;
    while i < usages.len()
        invariant
            1 <= i <= usages.len(),
            forall|j: int| 0 <= j < i ==> (#[trigger] usages@[j]).1@ == usages@[0].1@,
        decreases usages.len() - i,
    {
        if !crate::text::str_eq(usages[i].1.as_str(), usages[0].1.as_str()) {
            assert(usages@[i as int].1@ != usages@[0].1@);
            return true;
        }
        i = i + 1;
    }
    proof {
        assert forall|a: int, b: int| 0 <= a < usages@.len() && 0 <= b < usages@.len() implies (
        #[trigger] usages@[a]).1@ == (#[trigger] usages@[b]).1@ by {}
    }
    false
}

/// The lines of one shared dependency: its name, each package that uses
/// it and the version, a warning when the versions differ, and a blank
/// line.
pub open spec fn shared_dependency_lines(name: Seq<char>, usages: Seq<(String, String)>) -> Seq<Seq<char>> {
    seq![name + ":"@] + usages.map_values(|u: (String, String)| "  "@ + u.0@ + " uses "@ + u.1@) + (
    if has_conflict(usages) {
        seq!["  ⚠️  Version conflict detected!"@]
    } else {
        Seq::empty()
    }) + seq![""@]
}

/// The lines of one shared dependency.
pub fn shared_dependency_text(name: &str, usages: &Vec<(String, String)>) -> (r: Vec<String>)
    ensures
        texts(r@) == shared_dependency_lines(name@, usages@),
{
    let mut out: Vec<String> = Vec::new();
    let mut h = chars_of(name);
    push_str(&mut h, ":");
    push_line(&mut out, string_from(&h));
    let ghost head = texts(out@);
    let mut i: usize = 0;
    while i < usages.len()
        invariant
            i <= usages.len(),
            texts(out@) == head + usages@.take(i as int).map_values(
                |u: (String, String)| "  "@ + u.0@ + " uses "@ + u.1@,
            ),
        decreases usages.len() - i,
    {
        let mut v = chars_of("  ");
        push_str(&mut v, usages[i].0.as_str());
        push_str(&mut v, " uses ");
        push_str(&mut v, usages[i].1.as_str());
        push_line(&mut out, string_from(&v));
        assert(usages@.take(i as int + 1).map_values(|u: (String, String)| "  "@ + u.0@ + " uses "@ + u.1@)
            =~= usages@.take(i as int).map_values(|u: (String, String)| "  "@ + u.0@ + " uses "@ + u.1@).push("  "@ + usages@[i as int].0@ + " uses "@ + usages@[i as int].1@));
        i = i + 1;
    }
    assert(usages@.take(usages@.len() as int) =~= usages@);
    let ghost mid = texts(out@);
    if version_conflict(usages) {
        push_line(&mut out, string_of("  ⚠️  Version conflict detected!"));
    }
    push_line(&mut out, string_of(""));
    proof {
        reveal_strlit("");
    }
    assert(texts(out@) =~= shared_dependency_lines(name@, usages@));
    out
}

} // verus!
