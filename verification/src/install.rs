//! Installing packages: reading a package spec, choosing the version to
//! ask for, checking the options, and choosing which dependencies to
//! install.
use vstd::prelude::*;
use crate::error::{DepotError, DepotResult};
use crate::store::{Store, extend_with, insert_missing};
use crate::text::{
    chars_of, ends_with, find_first, find_first_char, push_chars, push_str, replace_char,
    replace_chars, slice_chars, split, split_chars, starts_with, starts_with_str, ends_with_str,
    string_from, string_of, trim, trim_chars,
};
use crate::version::opt_chars;

verus! {

/// The options of `depot install`.
#[derive(Debug)]
pub struct InstallOptions {
    pub package: Option<String>,
    pub dev: bool,
    pub path: Option<String>,
    pub no_dev: bool,
    pub dev_only: bool,
    pub global: bool,
    pub interactive: bool,
    pub filter: Vec<String>,
    pub branch: Option<String>,
    pub commit: Option<String>,
    pub release: Option<String>,
}

// ===================== Package specs =====================

/// `s` without a leading GitHub address (`https://github.com/`,
/// `http://github.com/` or `github.com/`).
pub open spec fn strip_github_prefix(s: Seq<char>) -> Seq<char> {
    if starts_with(s, "https://github.com/"@) {
        s.skip(19)
    } else if starts_with(s, "http://github.com/"@) {
        s.skip(18)
    } else if starts_with(s, "github.com/"@) {
        s.skip(11)
    } else {
        s
    }
}

/// `s` without a trailing `.git`.
pub open spec fn strip_git_suffix(s: Seq<char>) -> Seq<char> {
    if ends_with(s, ".git"@) {
        s.take(s.len() - 4)
    } else {
        s
    }
}

/// The repository and version that a package spec names: the spec,
/// trimmed, without a GitHub address or `.git`, split at its first `@`.
pub open spec fn package_spec_parts(spec: Seq<char>) -> (Seq<char>, Option<Seq<char>>) {
    let r = strip_git_suffix(strip_github_prefix(trim(spec)));
    match find_first(r, '@') {
        Some(p) => (r.take(p), Some(r.skip(p + 1))),
        None => (r, None),
    }
}

/// Whether `r` has the form `owner/repo`, both parts non-empty.
pub open spec fn valid_repository(r: Seq<char>) -> bool {
    split(r, '/').len() == 2 && split(r, '/')[0].len() > 0 && split(r, '/')[1].len() > 0
}

/// The error for a package spec that names no repository.
pub open spec fn invalid_spec_text(spec: Seq<char>) -> Seq<char> {
    "Invalid repository format '"@ + trim(spec)
        + "'. Expected 'owner/repo' or 'https://github.com/owner/repo'"@
}

fn strip_prefix_chars(s: &Vec<char>, n: usize) -> (r: Vec<char>)
    requires
        n <= s.len(),
    ensures
        r@ == s@.skip(n as int),
{
    slice_chars(s.as_slice(), n, s.len())
}

/// Parse package specification from either owner/repo[@version] or full
/// GitHub URL (`https://github.com/owner/repo[@version]`,
/// `http://github.com/...`, `github.com/...`, with or without `.git`).
/// Returns (repository, version) where repository is always in
/// "owner/repo" format.
pub fn parse_package_spec(spec: &str) -> (r: DepotResult<(String, Option<String>)>)
    ensures
        if valid_repository(package_spec_parts(spec@).0) {
            r matches Ok((repo, version)) && repo@ == package_spec_parts(spec@).0 && opt_chars(
                version,
            ) == package_spec_parts(spec@).1
        } else {
            r matches Err(DepotError::Config(m)) && m@ == invalid_spec_text(spec@)
        },
{
    let raw = chars_of(spec);
    let t = trim_chars(raw.as_slice());
    let p = if starts_with_str(t.as_slice(), "https://github.com/") {
        proof { reveal_strlit("https://github.com/"); }
        strip_prefix_chars(&t, 19)
    } else if starts_with_str(t.as_slice(), "http://github.com/") {
        proof { reveal_strlit("http://github.com/"); }
        strip_prefix_chars(&t, 18)
    } else if starts_with_str(t.as_slice(), "github.com/") {
        proof { reveal_strlit("github.com/"); }
        strip_prefix_chars(&t, 11)
    } else {
        slice_chars(t.as_slice(), 0, t.len())
    };
    assert(t@.subrange(0, t@.len() as int) =~= t@);
    assert(p@ == strip_github_prefix(trim(spec@)));
    let q = if ends_with_str(p.as_slice(), ".git") {
        proof { reveal_strlit(".git"); }
        slice_chars(p.as_slice(), 0, p.len() - 4)
    } else {
        slice_chars(p.as_slice(), 0, p.len())
    };
    assert(p@.subrange(0, p@.len() as int) =~= p@);
    assert(q@ == strip_git_suffix(p@));
    let (repository, version): (Vec<char>, Option<Vec<char>>) = match find_first_char(q.as_slice(), '@') {
        Some(at) => (slice_chars(q.as_slice(), 0, at), Some(slice_chars(q.as_slice(), at + 1, q.len()))),
        None => (slice_chars(q.as_slice(), 0, q.len()), None),
    };
    assert(q@.subrange(0, q@.len() as int) =~= q@);
    let parts = split_chars(repository.as_slice(), '/');
    if parts.len() != 2 || parts[0].len() == 0 || parts[1].len() == 0 {
        proof {
            if parts.len() == 2 {
                assert(parts@[0]@ == parts.deep_view()[0]);
                assert(parts@[1]@ == parts.deep_view()[1]);
            }
        }
        let mut m = chars_of("Invalid repository format '");
        push_chars(&mut m, t.as_slice());
        push_str(&mut m, "'. Expected 'owner/repo' or 'https://github.com/owner/repo'");
        return Err(DepotError::Config(string_from(&m)));
    }
    assert(parts@[0]@ == parts.deep_view()[0]);
    assert(parts@[1]@ == parts.deep_view()[1]);
    let v = match version {
        Some(x) => Some(string_from(&x)),
        None => None,
    };
    Ok((string_from(&repository), v))
}

/// The version to ask for, by priority: the commit (`-c`), the branch
/// (`-b`), the release (`-r`), the `@version` of the spec, and `*`.
pub open spec fn version_choice(
    parsed_version: Option<Seq<char>>,
    branch: Option<Seq<char>>,
    commit: Option<Seq<char>>,
    release: Option<Seq<char>>,
) -> Seq<char> {
    match (commit, branch, release, parsed_version) {
        (Some(c), _, _, _) => c,
        (None, Some(b), _, _) => b,
        (None, None, Some(r), _) => r,
        (None, None, None, Some(v)) => v,
        (None, None, None, None) => "*"@,
    }
}

/// Determine the version string from package spec and ref flags.
///
/// Priority: -c (commit) > -b (branch) > -r (release) > @version in spec > default
pub fn build_version_spec(
    parsed_version: Option<String>,
    branch: Option<String>,
    commit: Option<String>,
    release: Option<String>,
) -> (r: String)
    ensures
        r@ == version_choice(
            opt_chars(parsed_version),
            opt_chars(branch),
            opt_chars(commit),
            opt_chars(release),
        ),
{
    if let Some(commit_sha) = commit {
        return commit_sha;
    }
    if let Some(branch_name) = branch {
        return branch_name;
    }
    if let Some(release_tag) = release {
        return release_tag;
    }
    match parsed_version {
        Some(v) => v,
        None => string_of("*"),
    }
}

// ===================== Options =====================

/// Where an installation goes.
#[derive(Debug)]
pub enum InstallScope {
    /// System-wide, of this package spec.
    Global(String),
    /// Into the project of the current directory.
    Project,
}

/// Check the options of `depot install` that need no project, and say
/// where the installation goes: `--no-dev` and `--dev-only` exclude each
/// other; a global installation needs a package and no local path.
pub fn install_scope(options: &InstallOptions) -> (r: DepotResult<InstallScope>)
    ensures
        if options.no_dev && options.dev_only {
            r matches Err(DepotError::Package(m)) && m@
                == "Cannot use both --no-dev and --dev-only flags"@
        } else if options.global {
            match options.package {
                None => r matches Err(DepotError::Package(m)) && m@
                    == "Global installation requires a package name. Use: depot install -g <package>"@,
                Some(p) => if options.path is Some {
                    r matches Err(DepotError::Package(m)) && m@
                        == "Cannot install from local path globally. Use: depot install --path <path>"@
                } else {
                    r matches Ok(InstallScope::Global(s)) && s@ == p@
                },
            }
        } else {
            r matches Ok(InstallScope::Project)
        },
{
    if options.no_dev && options.dev_only {
        return Err(DepotError::Package(string_of("Cannot use both --no-dev and --dev-only flags")));
    }
    if options.global {
        match &options.package {
            None => {
                return Err(
                    DepotError::Package(
                        string_of(
                            "Global installation requires a package name. Use: depot install -g <package>",
                        ),
                    ),
                );
            },
            Some(p) => {
                if options.path.is_some() {
                    return Err(
                        DepotError::Package(
                            string_of(
                                "Cannot install from local path globally. Use: depot install --path <path>",
                            ),
                        ),
                    );
                }
                return Ok(InstallScope::Global(p.clone()));
            },
        }
    }
    Ok(InstallScope::Project)
}

/// How a project installation proceeds.
#[derive(Debug, Clone, Copy, PartialEq, Eq, Structural)]
pub enum ProjectInstall {
    /// For the workspace packages that the filter selects.
    Filtered,
    /// From the project's manifest.
    Manifest,
}

/// How a project installation proceeds: a filter needs a workspace;
/// installing from a local path is not available.
pub fn project_install_mode(has_filter: bool, in_workspace: bool, has_path: bool) -> (r: DepotResult<
    ProjectInstall,
>)
    ensures
        if has_filter {
            if in_workspace {
                r == DepotResult::<ProjectInstall>::Ok(ProjectInstall::Filtered)
            } else {
                r matches Err(DepotError::Package(m)) && m@
                    == "--filter can only be used in workspace mode"@
            }
        } else if has_path {
            r matches Err(DepotError::NotImplemented(m)) && m@
                == "Installing from local path is not yet implemented"@
        } else {
            r == DepotResult::<ProjectInstall>::Ok(ProjectInstall::Manifest)
        },
{
    if has_filter {
        if in_workspace {
            return Ok(ProjectInstall::Filtered);
        }
        return Err(DepotError::Package(string_of("--filter can only be used in workspace mode")));
    }
    if has_path {
        return Err(
            DepotError::NotImplemented(string_of("Installing from local path is not yet implemented")),
        );
    }
    Ok(ProjectInstall::Manifest)
}

/// `--dev` and `--dev-only` exclude each other.
pub fn check_dev_flags(dev: bool, dev_only: bool) -> (r: DepotResult<()>)
    ensures
        if dev && dev_only {
            r matches Err(DepotError::Package(m)) && m@ == "Cannot use both --dev and --dev-only flags"@
        } else {
            r is Ok
        },
{
    if dev && dev_only {
        return Err(DepotError::Package(string_of("Cannot use both --dev and --dev-only flags")));
    }
    Ok(())
}

/// Whether a manifest has dependencies to install under the flags.
pub fn has_dependencies_to_install(
    dependencies: &Store<String>,
    dev_dependencies: &Store<String>,
    no_dev: bool,
    dev_only: bool,
) -> (r: bool)
    ensures
        r == (dependencies@.dom().len() > 0 || (!no_dev && dev_dependencies@.dom().len() > 0) || (
        dev_only && dev_dependencies@.dom().len() > 0)),
{
    !dependencies.is_empty() || (!no_dev && !dev_dependencies.is_empty()) || (dev_only
        && !dev_dependencies.is_empty())
}

// ===================== Dependencies to install =====================

/// The dependencies of a project to install: the regular ones unless
/// `--dev-only`, then the dev ones unless `--no-dev` (a dev version wins
/// over a regular one of the same package).
pub fn dependencies_to_install(
    dependencies: &Store<String>,
    dev_dependencies: &Store<String>,
    no_dev: bool,
    dev_only: bool,
) -> (r: Store<String>)
    ensures
        r@ == (if dev_only {
            Map::empty()
        } else {
            dependencies@
        }).union_prefer_right(if no_dev {
            Map::empty()
        } else {
            dev_dependencies@
        }),
{
    let mut r: Store<String> = Store::new();
    if !dev_only {
        extend_with(&mut r, dependencies);
    }
    let ghost after_regular = r@;
    if !no_dev {
        extend_with(&mut r, dev_dependencies);
    }
    proof {
        assert(Map::<Seq<char>, Seq<char>>::empty().union_prefer_right(dependencies@) =~= dependencies@);
        assert(after_regular.union_prefer_right(Map::<Seq<char>, Seq<char>>::empty()) =~= after_regular);
    }
    r
}

/// The dependencies to install for one workspace package: both kinds
/// unless a flag says otherwise, only the dev ones with `--dev-only`, only
/// the regular ones with `--no-dev`.
pub fn package_dependencies_to_install(
    dependencies: &Store<String>,
    dev_dependencies: &Store<String>,
    no_dev: bool,
    dev_only: bool,
) -> (r: Store<String>)
    ensures
        r@ == if !no_dev && !dev_only {
            dependencies@.union_prefer_right(dev_dependencies@)
        } else if dev_only {
            dev_dependencies@
        } else {
            dependencies@
        },
{
    let mut r: Store<String> = Store::new();
    if !no_dev && !dev_only {
        extend_with(&mut r, dependencies);
        extend_with(&mut r, dev_dependencies);
    } else if dev_only {
        extend_with(&mut r, dev_dependencies);
    } else {
        extend_with(&mut r, dependencies);
    }
    proof {
        assert(Map::<Seq<char>, Seq<char>>::empty().union_prefer_right(dependencies@) =~= dependencies@);
        assert(Map::<Seq<char>, Seq<char>>::empty().union_prefer_right(dev_dependencies@) =~= dev_dependencies@);
    }
    r
}

/// A workspace package's dependencies with those of the workspace added
/// where the package names no version of its own.
pub fn with_workspace_dependencies(
    package_dependencies: &mut Store<String>,
    workspace_dependencies: &Store<String>,
)
    ensures
        final(package_dependencies)@ == workspace_dependencies@.union_prefer_right(
            old(package_dependencies)@,
        ),
{
    insert_missing(package_dependencies, workspace_dependencies);
}

/// The regular and dev dependencies shared at a workspace root: those of
/// the workspace (unless excluded by the flags), then those of each
/// package in turn that are not there yet.
pub fn workspace_shared_dependencies(
    workspace_dependencies: &Store<String>,
    workspace_dev_dependencies: &Store<String>,
    packages: &Vec<(Store<String>, Store<String>)>,
    no_dev: bool,
    dev_only: bool,
) -> (r: (Store<String>, Store<String>))
    ensures
        r.0@ == shared_map(
            if dev_only { Map::empty() } else { workspace_dependencies@ },
            packages@,
            !dev_only,
            true,
        ),
        r.1@ == shared_map(
            if no_dev { Map::empty() } else { workspace_dev_dependencies@ },
            packages@,
            !no_dev,
            false,
        ),
{
    let mut deps: Store<String> = Store::new();
    let mut dev: Store<String> = Store::new();
    if !dev_only {
        extend_with(&mut deps, workspace_dependencies);
    }
    if !no_dev {
        extend_with(&mut dev, workspace_dev_dependencies);
    }
    proof {
        assert(Map::<Seq<char>, Seq<char>>::empty().union_prefer_right(workspace_dependencies@) =~= workspace_dependencies@);
        assert(Map::<Seq<char>, Seq<char>>::empty().union_prefer_right(workspace_dev_dependencies@) =~= workspace_dev_dependencies@);
    }
    let ghost d0 = deps@;
    let ghost v0 = dev@;
    let mut i: usize = 0;
    assert(packages@.take(0) =~= Seq::<(Store<String>, Store<String>)>::empty());
    while i < packages.len()
        invariant
            i <= packages.len(),
            d0 == (if dev_only { Map::empty() } else { workspace_dependencies@ }),
            v0 == (if no_dev { Map::empty() } else { workspace_dev_dependencies@ }),
            deps@ == shared_map(d0, packages@.take(i as int), !dev_only, true),
            dev@ == shared_map(v0, packages@.take(i as int), !no_dev, false),
        decreases packages.len() - i,
    {
        assert(packages@.take(i as int + 1).drop_last() =~= packages@.take(i as int));
        if !dev_only {
            insert_missing(&mut deps, &packages[i].0);
        }
        if !no_dev {
            insert_missing(&mut dev, &packages[i].1);
        }
        i = i + 1;
    }
    assert(packages@.take(packages@.len() as int) =~= packages@);
    (deps, dev)
}

/// `start`, then the regular (`regular`) or dev dependencies of each of
/// `packages` in turn added where their names are not there yet; nothing
/// is added unless `take`.
pub open spec fn shared_map(
    start: Map<Seq<char>, Seq<char>>,
    packages: Seq<(Store<String>, Store<String>)>,
    take: bool,
    regular: bool,
) -> Map<Seq<char>, Seq<char>>
    decreases packages.len(),
{
    if packages.len() == 0 {
        start
    } else {
        let before = shared_map(start, packages.drop_last(), take, regular);
        if take {
            (if regular {
                packages.last().0@
            } else {
                packages.last().1@
            }).union_prefer_right(before)
        } else {
            before
        }
    }
}

/// A package spec `name[@version]` split at its first `@`.
pub fn split_at_version(spec: &str) -> (r: (String, Option<String>))
    ensures
        match find_first(spec@, '@') {
            Some(p) => r.0@ == spec@.take(p) && opt_chars(r.1) == Some(spec@.skip(p + 1)),
            None => r.0@ == spec@ && r.1 is None,
        },
{
    let c = chars_of(spec);
    match find_first_char(c.as_slice(), '@') {
        Some(at) => {
            let name = slice_chars(c.as_slice(), 0, at);
            let version = slice_chars(c.as_slice(), at + 1, c.len());
            (string_from(&name), Some(string_from(&version)))
        },
        None => (string_of(spec), None),
    }
}

/// The file name of a globally installed package's metadata: the
/// repository with `-` for `/`, and `.yaml`.
pub fn global_metadata_file_name(repository: &str) -> (r: String)
    ensures
        r@ == replace_char(repository@, '/', '-') + ".yaml"@,
{
    let c = chars_of(repository);
    let mut v = replace_chars(c.as_slice(), '/', '-');
    push_str(&mut v, ".yaml");
    string_from(&v)
}

} // verus!
