//! Filesystem paths as text: joining, file names and extensions.
//!
//! Paths are `/`-separated strings; the rules follow those of
//! `std::path` on Unix.
use vstd::prelude::*;
use crate::error::{DepotError, DepotResult};
use crate::text::{
    chars_of, find_last, find_last_char, join, join_chars, push_chars, push_str, slice_chars, split,
    split_chars, string_from, string_of, starts_with, texts,
};

verus! {

/// `base` joined with `rel`: an absolute `rel` replaces `base`; otherwise a
/// separator is put between them unless `base` is empty or already ends
/// with one.
pub open spec fn path_join(base: Seq<char>, rel: Seq<char>) -> Seq<char> {
    if rel.len() > 0 && rel[0] == '/' {
        rel
    } else if base.len() == 0 || base.last() == '/' {
        base + rel
    } else {
        base + seq!['/'] + rel
    }
}

/// A component that names something: neither empty nor `.`.
pub open spec fn is_named(c: Seq<char>) -> bool {
    c.len() > 0 && c != seq!['.']
}

/// The last component of `parts` that names something.
pub open spec fn last_named(parts: Seq<Seq<char>>) -> Option<Seq<char>>
    decreases parts.len(),
{
    if parts.len() == 0 {
        None
    } else if is_named(parts.last()) {
        Some(parts.last())
    } else {
        last_named(parts.drop_last())
    }
}

/// The final component of a path, unless the path ends in `..` or has no
/// named component.
pub open spec fn file_name(p: Seq<char>) -> Option<Seq<char>> {
    match last_named(split(p, '/')) {
        Some(n) => if n == seq!['.', '.'] {
            None
        } else {
            Some(n)
        },
        None => None,
    }
}

/// The extension of a path: what follows the last `.` of its file name,
/// unless that `.` is the name's first character or there is none.
pub open spec fn extension(p: Seq<char>) -> Option<Seq<char>> {
    match file_name(p) {
        Some(n) => match find_last(n, '.') {
            Some(i) => if i == 0 {
                None
            } else {
                Some(n.skip(i + 1))
            },
            None => None,
        },
        None => None,
    }
}

/// Join two paths.
pub fn join_path(base: &str, rel: &str) -> (r: String)
    ensures
        r@ == path_join(base@, rel@),
{
    let b = chars_of(base);
    let rv = chars_of(rel);
    if rv.len() > 0 && rv[0] == '/' {
        return string_from(&rv);
    }
    let mut v = b;
    if v.len() > 0 && v[v.len() - 1] != '/' {
        v.push('/');
    }
    push_chars(&mut v, rv.as_slice());
    string_from(&v)
}

/// Join a path with a relative name given as characters.
pub fn join_path_chars(base: &str, rel: &[char]) -> (r: String)
    ensures
        r@ == path_join(base@, rel@),
{
    let s = string_from(&slice_chars(rel, 0, rel.len()));
    assert(rel@.subrange(0, rel@.len() as int) == rel@);
    join_path(base, s.as_str())
}

/// The final component of a path.
pub fn file_name_of(p: &str) -> (r: Option<Vec<char>>)
    ensures
        match r {
            Some(n) => file_name(p@) == Some(n@),
            None => file_name(p@) is None,
        },
{
    let v = chars_of(p);
    let parts = split_chars(v.as_slice(), '/');
    let ghost ps = split(p@, '/');
    let mut i: usize = parts.len();
    assert(ps.take(i as int) =~= ps);
    while i > 0
        invariant
            i <= parts.len(),
            parts.deep_view() == ps,
            ps == split(p@, '/'),
            last_named(ps) == last_named(ps.take(i as int)),
        decreases i,
    {
        let part = &parts[i - 1];
        assert(ps.take(i as int).last() == part@);
        assert(ps.take(i as int).drop_last() =~= ps.take(i as int - 1));
        let named = part.len() > 0 && !(part.len() == 1 && part[0] == '.');
        assert(named == is_named(part@)) by {
            if part.len() == 1 && part[0] == '.' {
                assert(part@ =~= seq!['.']);
            }
        }
        if named {
            assert(last_named(ps.take(i as int)) == Some(part@));
            assert(part@.subrange(0, part@.len() as int) =~= part@);
            let dotdot = part.len() == 2 && part[0] == '.' && part[1] == '.';
            assert(dotdot == (part@ == seq!['.', '.'])) by {
                if dotdot {
                    assert(part@ =~= seq!['.', '.']);
                }
            }
            if dotdot {
                return None;
            }
            return Some(slice_chars(part.as_slice(), 0, part.len()));
        }
        i = i - 1;
    }
    None
}

/// The extension of a path.
pub fn extension_of(p: &str) -> (r: Option<Vec<char>>)
    ensures
        match r {
            Some(e) => extension(p@) == Some(e@),
            None => extension(p@) is None,
        },
{
    match file_name_of(p) {
        Some(n) => match find_last_char(n.as_slice(), '.') {
            Some(i) => if i == 0 {
                None
            } else {
                Some(slice_chars(n.as_slice(), i + 1, n.len()))
            },
            None => None,
        },
        None => None,
    }
}

/// `dirs::config_dir`: the user's configuration directory, which the
/// environment decides; nothing is promised of it.
#[verifier::external_body]
fn config_home() -> (r: Option<String>) {
    match dirs::config_dir() {
        Some(p) => Some(p.to_string_lossy().into_owned()),
        None => None,
    }
}

/// `dirs::cache_dir`: the user's cache directory, which the environment
/// decides; nothing is promised of it.
#[verifier::external_body]
fn cache_home() -> (r: Option<String>) {
    match dirs::cache_dir() {
        Some(p) => Some(p.to_string_lossy().into_owned()),
        None => None,
    }
}

/// The Depot home directory inside a configuration directory.
pub fn depot_home_in(config_dir: Option<String>) -> (r: DepotResult<String>)
    ensures
        match config_dir {
            Some(d) => r matches Ok(p) && p@ == path_join(d@, "depot"@),
            None => r matches Err(DepotError::Path(m)) && m@
                == "Could not determine config directory"@,
        },
{
    match config_dir {
        Some(d) => Ok(join_path(d.as_str(), "depot")),
        None => Err(DepotError::Path(crate::text::string_of("Could not determine config directory"))),
    }
}

/// Whether `r` is a path under the Depot home directory, or the error of
/// not finding the configuration directory.
pub open spec fn under_home(r: DepotResult<String>, rel: Seq<Seq<char>>) -> bool {
    match r {
        Ok(p) => exists|d: Seq<char>| p@ == join_all(path_join(d, "depot"@), rel),
        Err(e) => e matches DepotError::Path(m) && m@ == "Could not determine config directory"@,
    }
}

/// `base` joined with each of `rel` in turn.
pub open spec fn join_all(base: Seq<char>, rel: Seq<Seq<char>>) -> Seq<char>
    decreases rel.len(),
{
    if rel.len() == 0 {
        base
    } else {
        path_join(join_all(base, rel.drop_last()), rel.last())
    }
}

/// Get the Depot home directory: `depot` in the user's configuration
/// directory.
pub fn depot_home() -> (r: DepotResult<String>)
    ensures
        under_home(r, Seq::empty()),
{
    let r = depot_home_in(config_home());
    proof {
        if r is Ok {
            let p = r->Ok_0;
            let d = choose|d: Seq<char>| p@ == path_join(d, "depot"@);
            assert(p@ == join_all(path_join(d, "depot"@), Seq::empty()));
        }
    }
    r
}

/// The Depot home directory with `rel` joined to it.
fn home_path(rel: &str) -> (r: DepotResult<String>)
    ensures
        under_home(r, seq![rel@]),
{
    match depot_home() {
        Ok(h) => {
            let p = join_path(h.as_str(), rel);
            proof {
                let d = choose|d: Seq<char>| h@ == join_all(path_join(d, "depot"@), Seq::empty());
                assert(seq![rel@].drop_last() =~= Seq::<Seq<char>>::empty());
                assert(p@ == join_all(path_join(d, "depot"@), seq![rel@]));
            }
            Ok(p)
        },
        Err(e) => Err(e),
    }
}

/// Get the cache directory: `depot` in the user's cache directory.
pub fn cache_dir_in(cache_home: Option<String>) -> (r: DepotResult<String>)
    ensures
        match cache_home {
            Some(d) => r matches Ok(p) && p@ == path_join(d@, "depot"@),
            None => r matches Err(DepotError::Path(m)) && m@
                == "Could not determine cache directory"@,
        },
{
    match cache_home {
        Some(d) => Ok(join_path(d.as_str(), "depot")),
        None => Err(DepotError::Path(crate::text::string_of("Could not determine cache directory"))),
    }
}

/// Get the cache directory.
pub fn cache_dir() -> (r: DepotResult<String>)
    ensures
        match r {
            Ok(p) => exists|d: Seq<char>| p@ == path_join(d, "depot"@),
            Err(e) => e matches DepotError::Path(m) && m@ == "Could not determine cache directory"@,
        },
{
    cache_dir_in(cache_home())
}

/// Get the config file path
pub fn config_file() -> (r: DepotResult<String>)
    ensures
        under_home(r, seq!["config.yaml"@]),
{
    home_path("config.yaml")
}

/// Get the credentials file path
pub fn credentials_file() -> (r: DepotResult<String>)
    ensures
        under_home(r, seq!["credentials"@]),
{
    home_path("credentials")
}

/// Get the global installation directory
pub fn global_dir() -> (r: DepotResult<String>)
    ensures
        under_home(r, seq!["global"@]),
{
    home_path("global")
}

/// Get the global bin directory (for executables)
pub fn global_bin_dir() -> (r: DepotResult<String>)
    ensures
        under_home(r, seq!["bin"@]),
{
    home_path("bin")
}

/// Get the global Lua modules directory
pub fn global_lua_modules_dir() -> (r: DepotResult<String>)
    ensures
        under_home(r, seq!["global"@, "lua_modules"@]),
{
    match global_dir() {
        Ok(g) => {
            let p = join_path(g.as_str(), "lua_modules");
            proof {
                let d = choose|d: Seq<char>| g@ == join_all(path_join(d, "depot"@), seq!["global"@]);
                assert(seq!["global"@, "lua_modules"@].drop_last() =~= seq!["global"@]);
                assert(p@ == join_all(path_join(d, "depot"@), seq!["global"@, "lua_modules"@]));
            }
            Ok(p)
        },
        Err(e) => Err(e),
    }
}

/// Get the global packages metadata directory
pub fn global_packages_metadata_dir() -> (r: DepotResult<String>)
    ensures
        under_home(r, seq!["global"@, ".depot"@, "packages"@]),
{
    match global_dir() {
        Ok(g) => {
            let m = join_path(g.as_str(), ".depot");
            let p = join_path(m.as_str(), "packages");
            proof {
                let d = choose|d: Seq<char>| g@ == join_all(path_join(d, "depot"@), seq!["global"@]);
                assert(seq!["global"@, ".depot"@].drop_last() =~= seq!["global"@]);
                assert(seq!["global"@, ".depot"@, "packages"@].drop_last() =~= seq!["global"@, ".depot"@]);
                assert(m@ == join_all(path_join(d, "depot"@), seq!["global"@, ".depot"@]));
                assert(p@ == join_all(path_join(d, "depot"@), seq!["global"@, ".depot"@, "packages"@]));
            }
            Ok(p)
        },
        Err(e) => Err(e),
    }
}

/// Get the Lua modules directory for a project (./lua_modules)
pub fn lua_modules_dir(project_root: &str) -> (r: String)
    ensures
        r@ == path_join(project_root@, "lua_modules"@),
{
    join_path(project_root, "lua_modules")
}

/// Get the Depot metadata directory (./lua_modules/.depot)
pub fn depot_metadata_dir(project_root: &str) -> (r: String)
    ensures
        r@ == path_join(path_join(project_root@, "lua_modules"@), ".depot"@),
{
    let m = lua_modules_dir(project_root);
    join_path(m.as_str(), ".depot")
}

/// Get the packages metadata directory (./lua_modules/.depot/packages)
pub fn packages_metadata_dir(project_root: &str) -> (r: String)
    ensures
        r@ == path_join(path_join(path_join(project_root@, "lua_modules"@), ".depot"@), "packages"@),
{
    let m = depot_metadata_dir(project_root);
    join_path(m.as_str(), "packages")
}


/// Whether a path starts at the root.
pub open spec fn is_rooted(p: Seq<char>) -> bool {
    p.len() > 0 && p[0] == '/'
}

/// The parts of a list that name something, in order.
pub open spec fn named_parts(parts: Seq<Seq<char>>) -> Seq<Seq<char>>
    decreases parts.len(),
{
    if parts.len() == 0 {
        parts
    } else if is_named(parts.last()) {
        named_parts(parts.drop_last()).push(parts.last())
    } else {
        named_parts(parts.drop_last())
    }
}

/// The components of a path after its root: the parts between `/`s that
/// name something (`..` among them), and a leading `.` when the path
/// begins with one.
pub open spec fn path_components(p: Seq<char>) -> Seq<Seq<char>> {
    let parts = split(p, '/');
    if parts[0] == seq!['.'] {
        seq![seq!['.']] + named_parts(parts)
    } else {
        named_parts(parts)
    }
}

/// The root of a path as text: `/` for a rooted path, else nothing.
pub open spec fn root_text(p: Seq<char>) -> Seq<char> {
    if is_rooted(p) {
        seq!['/']
    } else {
        Seq::empty()
    }
}

/// A path rebuilt from its root and its first `k` components.
pub open spec fn path_prefix(p: Seq<char>, k: int) -> Seq<char> {
    root_text(p) + join(path_components(p).take(k), seq!['/'])
}

/// A path rebuilt from its root and components: repeated separators, a
/// trailing separator and `.` components other than a leading one are
/// gone.
pub open spec fn normalized(p: Seq<char>) -> Seq<char> {
    path_prefix(p, path_components(p).len() as int)
}

/// A copy of a list of characters.
fn copy_chars(v: &Vec<char>) -> (r: Vec<char>)
    ensures
        r@ == v@,
        r.deep_view() == v.deep_view(),
{
    let r = slice_chars(v.as_slice(), 0, v.len());
    assert(v@.subrange(0, v@.len() as int) =~= v@);
    assert(r.deep_view() =~= v.deep_view());
    r
}

/// The components of a path.
fn components_of(p: &[char]) -> (r: Vec<Vec<char>>)
    ensures
        r.deep_view() == path_components(p@),
{
    let parts = split_chars(p, '/');
    let ghost ps = parts.deep_view();
    let mut kept: Vec<Vec<char>> = Vec::new();
    let mut i: usize = 0;
    assert(ps.take(0) =~= Seq::<Seq<char>>::empty());
    while i < parts.len()
        invariant
            i <= parts.len(),
            ps == parts.deep_view(),
            kept.deep_view() == named_parts(ps.take(i as int)),
        decreases parts.len() - i,
    {
        let ghost before = kept.deep_view();
        assert(ps.take(i as int + 1).drop_last() =~= ps.take(i as int));
        assert(ps.take(i as int + 1).last() == parts@[i as int]@);
        let part = &parts[i];
        let named = part.len() > 0 && !(part.len() == 1 && part[0] == '.');
        proof {
            assert(part.deep_view() =~= part@);
            assert(ps[i as int] == part.deep_view());
            if part@.len() == 1 && part@[0] == '.' {
                assert(part@ =~= seq!['.']);
            }
        }
        if named {
            kept.push(copy_chars(part));
            assert(kept.deep_view() =~~= before.push(ps[i as int]));
        }
        i = i + 1;
    }
    assert(ps.take(parts.len() as int) =~= ps);
    let lead = parts[0].len() == 1 && parts[0][0] == '.';
    proof {
        assert(parts@[0].deep_view() =~= parts@[0]@);
        if parts@[0]@.len() == 1 && parts@[0]@[0] == '.' {
            assert(parts@[0]@ =~= seq!['.']);
        }
    }
    if lead {
        let mut r: Vec<Vec<char>> = Vec::new();
        let mut dot: Vec<char> = Vec::new();
        dot.push('.');
        assert(dot.deep_view() =~= seq!['.']);
        r.push(dot);
        let mut j: usize = 0;
        while j < kept.len()
            invariant
                j <= kept.len(),
                r.deep_view() == seq![seq!['.']] + kept.deep_view().take(j as int),
            decreases kept.len() - j,
        {
            let c = copy_chars(&kept[j]);
            let ghost before = r.deep_view();
            r.push(c);
            assert(r.deep_view() =~= before.push(c.deep_view()));
            assert(c.deep_view() == kept.deep_view()[j as int]);
            assert(kept.deep_view().take(j as int + 1) =~= kept.deep_view().take(j as int).push(
                kept.deep_view()[j as int],
            ));
            assert(r.deep_view() =~= seq![seq!['.']] + kept.deep_view().take(j as int + 1));
            j = j + 1;
        }
        assert(kept.deep_view().take(kept.len() as int) =~= kept.deep_view());
        r
    } else {
        kept
    }
}

/// The path from the root of `p` through its first `k` components.
fn prefix_of(p: &[char], comps: &Vec<Vec<char>>, k: usize) -> (r: String)
    requires
        comps.deep_view() == path_components(p@),
        k <= comps.len(),
    ensures
        r@ == path_prefix(p@, k as int),
{
    let mut first: Vec<Vec<char>> = Vec::new();
    let mut j: usize = 0;
    while j < k
        invariant
            j <= k <= comps.len(),
            first.deep_view() == comps.deep_view().take(j as int),
        decreases k - j,
    {
        let c = copy_chars(&comps[j]);
        let ghost before = first.deep_view();
        first.push(c);
        assert(first.deep_view() =~= before.push(c.deep_view()));
        assert(c.deep_view() == comps.deep_view()[j as int]);
        assert(comps.deep_view().take(j as int + 1) =~= comps.deep_view().take(j as int).push(
            comps.deep_view()[j as int],
        ));
        j = j + 1;
    }
    let mut sep: Vec<char> = Vec::new();
    sep.push('/');
    assert(sep@ =~= seq!['/']);
    assert(first.deep_view() =~= path_components(p@).take(k as int));
    let joined = join_chars(&first, sep.as_slice());
    let mut v: Vec<char> = Vec::new();
    if p.len() > 0 && p[0] == '/' {
        v.push('/');
    }
    push_chars(&mut v, joined.as_slice());
    assert(v@ =~= root_text(p@) + join(path_components(p@).take(k as int), seq!['/']));
    string_from(&v)
}

/// Normalize a path: rebuild it from its root and components, as
/// collecting `Path::components` does for `/`-separated paths.
pub fn normalize_path(path: &str) -> (r: String)
    ensures
        r@ == normalized(path@),
{
    let p = chars_of(path);
    let comps = components_of(p.as_slice());
    prefix_of(p.as_slice(), &comps, comps.len())
}

/// The directories searched for a project, nearest first: the start
/// itself, then each of its parents up to the root (or, for a relative
/// path, up to the empty path).
pub open spec fn search_dirs(start: Seq<char>) -> Seq<Seq<char>> {
    let n = path_components(start).len();
    seq![start] + Seq::new(n, |i: int| path_prefix(start, n - 1 - i))
}

/// The directories searched for a project from `start`.
pub fn project_search_dirs(start: &str) -> (r: Vec<String>)
    ensures
        texts(r@) == search_dirs(start@),
{
    let p = chars_of(start);
    let comps = components_of(p.as_slice());
    let n = comps.len();
    let mut r: Vec<String> = Vec::new();
    r.push(string_of(start));
    let ghost want = search_dirs(start@);
    let mut i: usize = 0;
    while i < n
        invariant
            i <= n == comps.len(),
            p@ == start@,
            comps.deep_view() == path_components(start@),
            want == search_dirs(start@),
            texts(r@) == want.take(i as int + 1),
        decreases n - i,
    {
        let d = prefix_of(p.as_slice(), &comps, n - 1 - i);
        assert(want[i as int + 1] == path_prefix(start@, n - 1 - i));
        let ghost before = r@;
        r.push(d);
        assert(r@ == before.push(d));
        assert(texts(r@) =~= texts(before).push(d@));
        assert(want.take(i as int + 2) =~= want.take(i as int + 1).push(want[i as int + 1]));
        i = i + 1;
    }
    assert(want.take(n as int + 1) =~= want);
    r
}

/// The files that mark a project directory: `workspace.yaml`, then
/// `package.yaml`.
pub fn project_markers(dir: &str) -> (r: Vec<String>)
    ensures
        texts(r@) == seq![path_join(dir@, "workspace.yaml"@), path_join(dir@, "package.yaml"@)],
{
    let a = join_path(dir, "workspace.yaml");
    let b = join_path(dir, "package.yaml");
    let r = vec![a, b];
    assert(texts(r@) =~= seq![a@, b@]);
    r
}

/// The project root: the first of the searched directories that holds a
/// marker file; an error when none does.
pub fn project_root_among(dirs: &Vec<String>, marked: &Vec<bool>) -> (r: DepotResult<String>)
    ensures
        match r {
            Ok(d) => exists|i: int|
                0 <= i < dirs@.len() && i < marked@.len() && marked@[i] && d@ == dirs@[i]@ && forall|j: int|
                    0 <= j < i ==> !(#[trigger] marked@[j]),
            Err(e) => (forall|i: int| 0 <= i < dirs@.len() && i < marked@.len() ==> !(#[trigger] marked@[i]))
                && (e matches DepotError::Path(m) && m@
                == "Could not find package.yaml or workspace.yaml in current directory or parents"@),
        },
{
    let mut i: usize = 0;
    while i < dirs.len()
        invariant
            i <= dirs.len(),
            forall|j: int| 0 <= j < i && j < marked@.len() ==> !(#[trigger] marked@[j]),
        decreases dirs.len() - i,
    {
        if i < marked.len() && marked[i] {
            return Ok(dirs[i].clone());
        }
        i = i + 1;
    }
    Err(DepotError::Path(string_of("Could not find package.yaml or workspace.yaml in current directory or parents")))
}

} // verus!
