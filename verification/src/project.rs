//! Small decisions of the project commands: what `clean` counts, which
//! files `compat` scans and when it fails, the name of a generated
//! rockspec, and what `login` accepts.
use vstd::prelude::*;
use crate::error::{DepotError, DepotResult};
use crate::luarocks_version::{luarocks_text, to_luarocks_version};
use crate::text::{chars_of, push_str, starts_with, str_eq, string_from, string_of, texts, trim, trim_chars};
use crate::version::{Version, parse_version_spec};

verus! {

/// An entry of a directory: its name and whether it is a directory.
#[derive(Debug)]
pub struct DirEntry {
    pub name: String,
    pub is_dir: bool,
}

/// The number of installed packages among the entries of `lua_modules`:
/// its directories other than the `.lpm` metadata directory.
pub open spec fn package_count(entries: Seq<DirEntry>) -> nat
    decreases entries.len(),
{
    if entries.len() == 0 {
        0
    } else {
        let e = entries.last();
        package_count(entries.drop_last()) + if e.is_dir && e.name@ != ".lpm"@ {
            1nat
        } else {
            0nat
        }
    }
}

/// Count the installed packages among the entries of `lua_modules`.
pub fn count_packages(entries: &Vec<DirEntry>) -> (r: usize)
    ensures
        r == package_count(entries@),
{
    let mut count: usize = 0;
    let mut i: usize = 0;
    assert(entries@.take(0) =~= Seq::<DirEntry>::empty());
    while i < entries.len()
        invariant
            i <= entries.len(),
            count == package_count(entries@.take(i as int)),
            count <= i,
        decreases entries.len() - i,
    {
        assert(entries@.take(i as int + 1).drop_last() =~= entries@.take(i as int));
        if entries[i].is_dir && !str_eq(entries[i].name.as_str(), ".lpm") {
            count = count + 1;
        }
        i = i + 1;
    }
    assert(entries@.take(entries@.len() as int) =~= entries@);
    count
}

/// Whether the scan of a project goes into a directory: the project root
/// always; below it, not into hidden directories, `lua_modules` or
/// `node_modules`.
pub open spec fn scans_into(name: Seq<char>, is_dir: bool, depth: nat) -> bool {
    if is_dir && depth > 0 {
        !starts_with(name, "."@) && name != "lua_modules"@ && name != "node_modules"@
    } else {
        true
    }
}

/// Whether the scan of a project goes into an entry.
pub fn scan_enters(name: &str, is_dir: bool, depth: usize) -> (r: bool)
    ensures
        r == scans_into(name@, is_dir, depth as nat),
{
    if is_dir && depth > 0 {
        let c = chars_of(name);
        return !crate::text::starts_with_str(c.as_slice(), ".") && !str_eq(name, "lua_modules")
            && !str_eq(name, "node_modules");
    }
    true
}

/// The outcome of `depot compat`: an error when the configured Lua
/// version is known to be incompatible with the code.
pub fn compat_outcome(config_compatible: Option<bool>, lua_version: &str) -> (r: DepotResult<()>)
    ensures
        if config_compatible == Some(false) {
            r matches Err(DepotError::Package(m)) && m@ == "Configured lua_version \""@ + lua_version@
                + "\" is incompatible with detected code features"@
        } else {
            r is Ok
        },
{
    if let Some(false) = config_compatible {
        let mut v = chars_of("Configured lua_version \"");
        push_str(&mut v, lua_version);
        push_str(&mut v, "\" is incompatible with detected code features");
        return Err(DepotError::Package(string_from(&v)));
    }
    Ok(())
}

/// The file name of the rockspec of a package: its name, `-`, its version
/// in LuaRocks form, and `.rockspec`; an error when the version does not
/// read as one.
pub fn rockspec_file_name(name: &str, version: &str) -> (r: DepotResult<String>)
    ensures
        match parse_version_spec(version@) {
            Some(v) => r matches Ok(f) && f@ == name@ + "-"@ + luarocks_text(v) + ".rockspec"@,
            None => r matches Err(DepotError::Version(m)) && m@ == "Invalid major version: "@ + trim(
                version@,
            ),
        },
{
    let v = match Version::parse(version) {
        Ok(v) => v,
        Err(e) => {
            return Err(e);
        },
    };
    let lr = to_luarocks_version(&v);
    let mut f = chars_of(name);
    push_str(&mut f, "-");
    push_str(&mut f, lr.as_str());
    push_str(&mut f, ".rockspec");
    Ok(string_from(&f))
}

/// A field of `depot login`.
#[derive(Debug, Clone, Copy, PartialEq, Eq, Structural)]
pub enum LoginField {
    Username,
    ApiKey,
}

/// The keychain key under which a login field is stored.
pub open spec fn login_key(f: LoginField) -> Seq<char> {
    match f {
        LoginField::Username => "luarocks_username"@,
        LoginField::ApiKey => "luarocks_api_key"@,
    }
}

/// The keychain key under which a login field is stored.
pub fn login_key_text(f: LoginField) -> (r: String)
    ensures
        r@ == login_key(f),
{
    match f {
        LoginField::Username => string_of("luarocks_username"),
        LoginField::ApiKey => string_of("luarocks_api_key"),
    }
}

/// What `depot login` keeps of a line typed for a field: the line
/// trimmed, which must not be empty.
pub fn login_value(field: LoginField, line: &str) -> (r: DepotResult<String>)
    ensures
        if trim(line@).len() > 0 {
            r matches Ok(v) && v@ == trim(line@)
        } else {
            r matches Err(DepotError::Package(m)) && m@ == match field {
                LoginField::Username => "Username cannot be empty"@,
                LoginField::ApiKey => "API key cannot be empty"@,
            }
        },
{
    let c = chars_of(line);
    let t = trim_chars(c.as_slice());
    if t.len() == 0 {
        return match field {
            LoginField::Username => Err(DepotError::Package(string_of("Username cannot be empty"))),
            LoginField::ApiKey => Err(DepotError::Package(string_of("API key cannot be empty"))),
        };
    }
    Ok(string_from(&t))
}

/// The error of `depot new` when the project directory exists already.
pub fn directory_exists_error(name: &str) -> (r: DepotError)
    ensures
        r matches DepotError::Path(m) && m@ == "Directory '"@ + name@ + "' already exists"@,
{
    let mut v = chars_of("Directory '");
    push_str(&mut v, name);
    push_str(&mut v, "' already exists");
    DepotError::Path(string_from(&v))
}

} // verus!
