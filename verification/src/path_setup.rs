//! Shell and PATH setup: shell profiles, home expansion and the Depot bin
//! directory.
use vstd::prelude::*;
use crate::paths::{join_path, path_join};
use crate::error::{DepotError, DepotResult};
use crate::text::{
    chars_of, contains_seq, contains_str, find_last, find_last_char, push_str, replace_all,
    replace_str, slice_chars, split, split_chars, starts_with, str_eq, string_from, string_of,
    texts, trim, trim_chars,
};

verus! {

/// The profile file of a shell.
pub open spec fn shell_profile(shell: Seq<char>) -> Seq<char> {
    if shell == "zsh"@ {
        "~/.zshrc"@
    } else if shell == "bash"@ {
        "~/.bashrc"@
    } else if shell == "fish"@ {
        "~/.config/fish/config.fish"@
    } else {
        "~/.profile"@
    }
}

/// Get the profile file of a shell
pub fn get_shell_profile(shell: &str) -> (r: String)
    ensures
        r@ == shell_profile(shell@),
{
    if str_eq(shell, "zsh") {
        string_of("~/.zshrc")
    } else if str_eq(shell, "bash") {
        string_of("~/.bashrc")
    } else if str_eq(shell, "fish") {
        string_of("~/.config/fish/config.fish")
    } else {
        string_of("~/.profile")
    }
}

/// A path with the home directory put in for a leading `~`, or else for
/// every `$HOME`; unchanged when the home directory is unknown.
pub open spec fn expanded(path: Seq<char>, home: Option<Seq<char>>) -> Seq<char> {
    match home {
        Some(h) => if path.len() > 0 && path[0] == '~' {
            h + path.skip(1)
        } else if contains_seq(path, "$HOME"@) {
            replace_all(path, "$HOME"@, h)
        } else {
            path
        },
        None => path,
    }
}

/// Expand `~` and `$HOME` in a path, given the home directory.
pub fn expand_path_vars(path: &str, home: Option<&str>) -> (r: String)
    ensures
        r@ == expanded(
            path@,
            match home {
                Some(h) => Some(h@),
                None => None,
            },
        ),
{
    let p = chars_of(path);
    match home {
        Some(h) => {
            if p.len() > 0 && p[0] == '~' {
                let mut v = chars_of(h);
                let rest = slice_chars(p.as_slice(), 1, p.len());
                crate::text::push_chars(&mut v, rest.as_slice());
                string_from(&v)
            } else if contains_str(p.as_slice(), "$HOME") {
                proof {
                    reveal_strlit("$HOME");
                }
                replace_str(path, "$HOME", h)
            } else {
                string_of(path)
            }
        },
        None => string_of(path),
    }
}

/// The name of a shell from its path: what follows the last `/`.
pub open spec fn shell_name(shell_path: Seq<char>) -> Seq<char> {
    match find_last(shell_path, '/') {
        Some(i) => shell_path.skip(i + 1),
        None => shell_path,
    }
}

/// The user's shell, from the value of `SHELL` (or "/bin/sh" without one).
pub fn detect_shell_from(shell_var: Option<&str>) -> (r: String)
    ensures
        r@ == shell_name(
            match shell_var {
                Some(s) => s@,
                None => "/bin/sh"@,
            },
        ),
{
    let s = match shell_var {
        Some(s) => chars_of(s),
        None => chars_of("/bin/sh"),
    };
    match find_last_char(s.as_slice(), '/') {
        Some(i) => string_from(&slice_chars(s.as_slice(), i + 1, s.len())),
        None => string_from(&slice_chars(s.as_slice(), 0, s.len())),
    }
}

/// Where Depot's binaries go: `bin` under `DEPOT_HOME` if it is set, else
/// under the platform's Depot data directory.
pub open spec fn depot_bin_dir(
    depot_home: Option<Seq<char>>,
    local_app_data: Option<Seq<char>>,
    home: Option<Seq<char>>,
    os: Seq<char>,
) -> Option<Seq<char>> {
    match depot_home {
        Some(d) => Some(path_join(d, "bin"@)),
        None => {
            let base = if os == "windows"@ {
                match local_app_data {
                    Some(p) => Some(path_join(p, "depot"@)),
                    None => None,
                }
            } else if os == "macos"@ {
                match home {
                    Some(h) => Some(
                        path_join(path_join(path_join(h, "Library"@), "Application Support"@), "depot"@),
                    ),
                    None => None,
                }
            } else {
                match home {
                    Some(h) => Some(path_join(path_join(path_join(h, ".local"@), "share"@), "depot"@)),
                    None => None,
                }
            };
            match base {
                Some(b) => Some(path_join(b, "bin"@)),
                None => None,
            }
        },
    }
}

/// Where Depot's binaries go, from the values of `DEPOT_HOME`,
/// `LOCALAPPDATA` and `HOME` and the name of the operating system.
pub fn get_depot_bin_dir(
    depot_home: Option<&str>,
    local_app_data: Option<&str>,
    home: Option<&str>,
    os: &str,
) -> (r: Option<String>)
    ensures
        match depot_bin_dir(
            match depot_home {
                Some(s) => Some(s@),
                None => None,
            },
            match local_app_data {
                Some(s) => Some(s@),
                None => None,
            },
            match home {
                Some(s) => Some(s@),
                None => None,
            },
            os@,
        ) {
            Some(p) => r matches Some(s) && s@ == p,
            None => r is None,
        },
{
    match depot_home {
        Some(d) => return Some(join_path(d, "bin")),
        None => {},
    }
    let base: Option<String> = if str_eq(os, "windows") {
        match local_app_data {
            Some(p) => Some(join_path(p, "depot")),
            None => None,
        }
    } else if str_eq(os, "macos") {
        match home {
            Some(h) => {
                let a = join_path(h, "Library");
                let b = join_path(a.as_str(), "Application Support");
                Some(join_path(b.as_str(), "depot"))
            },
            None => None,
        }
    } else {
        match home {
            Some(h) => {
                let a = join_path(h, ".local");
                let b = join_path(a.as_str(), "share");
                Some(join_path(b.as_str(), "depot"))
            },
            None => None,
        }
    };
    match base {
        Some(b) => Some(join_path(b.as_str(), "bin")),
        None => None,
    }
}

fn opt_view(o: Option<&str>) -> (r: Option<String>)
    ensures
        match o {
            Some(s) => r matches Some(t) && t@ == s@,
            None => r is None,
        },
{
    match o {
        Some(s) => Some(string_of(s)),
        None => None,
    }
}

/// The Depot home: `DEPOT_HOME` if it is set, else the platform's Depot
/// data directory; an error naming the variable that is missing.
pub open spec fn depot_home_path(
    depot_home: Option<Seq<char>>,
    local_app_data: Option<Seq<char>>,
    home: Option<Seq<char>>,
    os: Seq<char>,
) -> Result<Seq<char>, Seq<char>> {
    match depot_home {
        Some(d) => Ok(d),
        None => if os == "windows"@ {
            match local_app_data {
                Some(p) => Ok(path_join(p, "depot"@)),
                None => Err("LOCALAPPDATA not set"@),
            }
        } else if os == "macos"@ {
            match home {
                Some(h) => Ok(
                    path_join(path_join(path_join(h, "Library"@), "Application Support"@), "depot"@),
                ),
                None => Err("HOME not set"@),
            }
        } else {
            match home {
                Some(h) => Ok(path_join(path_join(path_join(h, ".local"@), "share"@), "depot"@)),
                None => Err("HOME not set"@),
            }
        },
    }
}

/// The Depot home, from the values of `DEPOT_HOME`, `LOCALAPPDATA` and
/// `HOME` and the name of the operating system.
pub fn get_depot_home(
    depot_home: Option<&str>,
    local_app_data: Option<&str>,
    home: Option<&str>,
    os: &str,
) -> (r: DepotResult<String>)
    ensures
        match depot_home_path(
            match depot_home { Some(s) => Some(s@), None => None },
            match local_app_data { Some(s) => Some(s@), None => None },
            match home { Some(s) => Some(s@), None => None },
            os@,
        ) {
            Ok(p) => r matches Ok(s) && s@ == p,
            Err(m) => r matches Err(DepotError::Path(e)) && e@ == m,
        },
{
    if let Some(d) = depot_home {
        return Ok(string_of(d));
    }
    if str_eq(os, "windows") {
        return match local_app_data {
            Some(p) => Ok(join_path(p, "depot")),
            None => Err(DepotError::Path(string_of("LOCALAPPDATA not set"))),
        };
    }
    let h = match home {
        Some(h) => h,
        None => {
            return Err(DepotError::Path(string_of("HOME not set")));
        },
    };
    if str_eq(os, "macos") {
        let a = join_path(h, "Library");
        let b = join_path(a.as_str(), "Application Support");
        Ok(join_path(b.as_str(), "depot"))
    } else {
        let a = join_path(h, ".local");
        let b = join_path(a.as_str(), "share");
        Ok(join_path(b.as_str(), "depot"))
    }
}

/// The non-empty entries of a list, in order.
pub open spec fn non_empty(parts: Seq<Seq<char>>) -> Seq<Seq<char>>
    decreases parts.len(),
{
    if parts.len() == 0 {
        parts
    } else if parts.last().len() == 0 {
        non_empty(parts.drop_last())
    } else {
        non_empty(parts.drop_last()).push(parts.last())
    }
}

/// The directories of a `PATH` value: its non-empty entries between
/// separators, trimmed, with the home directory put in.
pub open spec fn path_directories(path_env: Seq<char>, separator: char, home: Option<Seq<char>>) -> Seq<
    Seq<char>,
> {
    non_empty(split(path_env, separator)).map_values(|e: Seq<char>| expanded(trim(e), home))
}

/// The directories of a `PATH` value.
pub fn path_entries(path_env: &str, separator: char, home: Option<&str>) -> (r: Vec<String>)
    ensures
        texts(r@) == path_directories(
            path_env@,
            separator,
            match home {
                Some(h) => Some(h@),
                None => None,
            },
        ),
{
    let ghost hv = match home {
        Some(h) => Some(h@),
        None => None::<Seq<char>>,
    };
    let c = chars_of(path_env);
    let parts = split_chars(c.as_slice(), separator);
    let ghost ps = parts.deep_view();
    let mut r: Vec<String> = Vec::new();
    let mut i: usize = 0;
    assert(ps.take(0) =~= Seq::<Seq<char>>::empty());
    while i < parts.len()
        invariant
            i <= parts.len(),
            ps == parts.deep_view(),
            ps == split(path_env@, separator),
            hv == match home {
                Some(h) => Some(h@),
                None => None::<Seq<char>>,
            },
            texts(r@) == non_empty(ps.take(i as int)).map_values(|e: Seq<char>| expanded(trim(e), hv)),
        decreases parts.len() - i,
    {
        assert(ps.take(i as int + 1).drop_last() =~= ps.take(i as int));
        assert(parts@[i as int]@ == ps[i as int]);
        if parts[i].len() > 0 {
            let t = trim_chars(parts[i].as_slice());
            let ts = string_from(&t);
            let e = expand_path_vars(ts.as_str(), home);
            let ghost before = r@;
            r.push(e);
            proof {
                assert(texts(r@) =~= texts(before).push(e@));
                assert(non_empty(ps.take(i as int + 1)) == non_empty(ps.take(i as int)).push(ps[i as int]));
                assert(non_empty(ps.take(i as int + 1)).map_values(|e: Seq<char>| expanded(trim(e), hv))
                    =~= non_empty(ps.take(i as int)).map_values(|e: Seq<char>| expanded(trim(e), hv)).push(expanded(trim(ps[i as int]), hv)));
            }
        }
        i = i + 1;
    }
    assert(ps.take(parts.len() as int) =~= ps);
    r
}

/// `s` without its trailing `/`s.
pub open spec fn without_trailing_slashes(s: Seq<char>) -> Seq<char>
    decreases s.len(),
{
    if s.len() > 0 && s.last() == '/' {
        without_trailing_slashes(s.drop_last())
    } else {
        s
    }
}

/// `s` without its trailing `/`s (how paths are compared).
pub fn trim_trailing_slashes(s: &str) -> (r: String)
    ensures
        r@ == without_trailing_slashes(s@),
{
    let c = chars_of(s);
    let mut n = c.len();
    assert(c@.take(n as int) =~= c@);
    while n > 0 && c[n - 1] == '/'
        invariant
            n <= c.len(),
            without_trailing_slashes(c@.take(n as int)) == without_trailing_slashes(s@),
            c@ == s@,
        decreases n,
    {
        assert(c@.take(n as int).drop_last() =~= c@.take(n as int - 1));
        n = n - 1;
    }
    assert(c@.take(c@.len() as int) =~= c@);
    string_from(&slice_chars(c.as_slice(), 0, n))
}

/// Whether the Depot directory is among the `PATH` directories (both as
/// normalized paths).
pub fn dir_in_path(entries: &Vec<String>, dir: &str) -> (r: bool)
    ensures
        r == exists|i: int| 0 <= i < entries@.len() && (#[trigger] entries@[i])@ == dir@,
{
    let mut i: usize = 0;
    while i < entries.len()
        invariant
            i <= entries.len(),
            forall|j: int| 0 <= j < i ==> (#[trigger] entries@[j])@ != dir@,
        decreases entries.len() - i,
    {
        if str_eq(entries[i].as_str(), dir) {
            return true;
        }
        i = i + 1;
    }
    false
}

/// The new Windows user `PATH` with the Depot bin directory first, or
/// nothing when one of its entries already is that directory.
pub open spec fn windows_path_with(current: Seq<char>, depot_bin: Seq<char>) -> Option<Seq<char>> {
    if exists|i: int| 0 <= i < split(current, ';').len() && trim(#[trigger] split(current, ';')[i]) == depot_bin {
        None
    } else if current.len() == 0 {
        Some(depot_bin)
    } else {
        Some(depot_bin + ";"@ + current)
    }
}

/// The new Windows user `PATH` with the Depot bin directory first, or
/// `None` when it is there already.
pub fn windows_path_update(current: &str, depot_bin: &str) -> (r: Option<String>)
    ensures
        match windows_path_with(current@, depot_bin@) {
            Some(p) => r matches Some(s) && s@ == p,
            None => r is None,
        },
{
    let c = chars_of(current);
    let parts = split_chars(c.as_slice(), ';');
    let b = chars_of(depot_bin);
    let mut i: usize = 0;
    while i < parts.len()
        invariant
            i <= parts.len(),
            parts.deep_view() == split(current@, ';'),
            b@ == depot_bin@,
            forall|j: int| 0 <= j < i ==> trim(#[trigger] split(current@, ';')[j]) != depot_bin@,
        decreases parts.len() - i,
    {
        assert(parts@[i as int]@ == parts.deep_view()[i as int]);
        let t = trim_chars(parts[i].as_slice());
        if crate::text::seq_eq(t.as_slice(), b.as_slice()) {
            return None;
        }
        i = i + 1;
    }
    if c.len() == 0 {
        return Some(string_of(depot_bin));
    }
    let mut v = chars_of(depot_bin);
    push_str(&mut v, ";");
    push_str(&mut v, current);
    Some(string_from(&v))
}

/// Whether a shell profile already sets Depot up: it mentions
/// `DEPOT_HOME` or the Depot bin directory.
pub fn profile_configured(content: &str, depot_bin: &str) -> (r: bool)
    ensures
        r == (contains_seq(content@, "DEPOT_HOME"@) || contains_seq(content@, depot_bin@)),
{
    let c = chars_of(content);
    let b = chars_of(depot_bin);
    contains_str(c.as_slice(), "DEPOT_HOME") || crate::text::contains_chars(c.as_slice(), b.as_slice())
}

/// The path of a shell profile, with every `~` replaced by the home
/// directory.
pub fn profile_path(profile_file: &str, home: &str) -> (r: String)
    ensures
        r@ == replace_all(profile_file@, "~"@, home@),
{
    proof {
        reveal_strlit("~");
    }
    replace_str(profile_file, "~", home)
}

/// The lines added to a shell profile to set Depot up.
pub open spec fn profile_block(depot_home: Seq<char>) -> Seq<char> {
    "\n# Depot environment\nexport DEPOT_HOME=\""@ + depot_home
        + "\"\nexport PATH=\"$DEPOT_HOME/bin:$PATH\"\n"@
}

/// The lines added to a shell profile to set Depot up.
pub fn profile_lines(depot_home: &str) -> (r: String)
    ensures
        r@ == profile_block(depot_home@),
{
    let mut v = chars_of("\n# Depot environment\nexport DEPOT_HOME=\"");
    push_str(&mut v, depot_home);
    push_str(&mut v, "\"\nexport PATH=\"$DEPOT_HOME/bin:$PATH\"\n");
    string_from(&v)
}

/// The file name of the Depot executable on an operating system.
pub fn executable_name(os: &str) -> (r: String)
    ensures
        r@ == if os@ == "windows"@ {
            "depot.exe"@
        } else {
            "depot"@
        },
{
    if str_eq(os, "windows") {
        string_of("depot.exe")
    } else {
        string_of("depot")
    }
}

} // verus!
