//! The database of version-specific Lua features.
use vstd::prelude::*;
use super::{LuaVersionSet, version_set_text};
use crate::text::{chars_of, push_chars, starts_with, starts_with_str, str_eq, string_from};

verus! {

/// A detected feature with its version compatibility information.
#[derive(Debug, Clone, Copy)]
pub struct FeatureInfo {
    /// Human-readable name (e.g., "table.move", "goto")
    pub name: &'static str,
    /// Set of Lua versions where this feature is available
    pub available_in: LuaVersionSet,
    /// Category for reporting
    pub category: FeatureCategory,
}

#[derive(Debug, Clone, Copy, PartialEq, Eq, Structural)]
pub enum FeatureCategory {
    /// Standard library function/constant added in a specific version
    StdlibAdded,
    /// Standard library function removed in a later version
    StdlibRemoved,
    /// Syntax feature (operators, statements)
    Syntax,
    /// LuaJIT-specific extension
    LuaJitExtension,
}

/// The feature a table entry describes: name, version bits and category.
pub open spec fn is_feature(f: FeatureInfo, name: Seq<char>, bits: u8, category: FeatureCategory) -> bool {
    f.name@ == name && f.available_in@ == bits && f.category == category
}

pub fn v51_only() -> (r: LuaVersionSet)
    ensures
        r@ == 1u8,
{
    LuaVersionSet::from_bits(1)
}

pub fn v51_and_jit() -> (r: LuaVersionSet)
    ensures
        r@ == 33u8,
{
    LuaVersionSet::from_bits(33)
}

pub fn v51_and_52() -> (r: LuaVersionSet)
    ensures
        r@ == 3u8,
{
    LuaVersionSet::from_bits(3)
}

pub fn v52_plus() -> (r: LuaVersionSet)
    ensures
        r@ == 30u8,
{
    LuaVersionSet::from_bits(30)
}

pub fn v52_plus_jit() -> (r: LuaVersionSet)
    ensures
        r@ == 62u8,
{
    LuaVersionSet::from_bits(62)
}

pub fn v53_plus() -> (r: LuaVersionSet)
    ensures
        r@ == 28u8,
{
    LuaVersionSet::from_bits(28)
}

pub fn v54_plus() -> (r: LuaVersionSet)
    ensures
        r@ == 24u8,
{
    LuaVersionSet::from_bits(24)
}

pub fn v55_only() -> (r: LuaVersionSet)
    ensures
        r@ == 16u8,
{
    LuaVersionSet::from_bits(16)
}

pub fn jit_only() -> (r: LuaVersionSet)
    ensures
        r@ == 32u8,
{
    LuaVersionSet::from_bits(32)
}

pub fn feature(name: &'static str, available_in: LuaVersionSet, category: FeatureCategory) -> (r: FeatureInfo)
    ensures
        r.name == name,
        r.available_in == available_in,
        r.category == category,
{
    FeatureInfo { name, available_in, category }
}

/// Functions added in Lua 5.2 and 5.3 (first part of the table).
pub open spec fn first_entry(name: Seq<char>) -> Option<(Seq<char>, u8, FeatureCategory)> {
    if name == "table.pack"@ { Some(("table.pack"@, 30u8, FeatureCategory::StdlibAdded)) }
    else if name == "table.unpack"@ { Some(("table.unpack"@, 30u8, FeatureCategory::StdlibAdded)) }
    else if name == "rawlen"@ { Some(("rawlen"@, 30u8, FeatureCategory::StdlibAdded)) }
    else if name == "package.searchpath"@ { Some(("package.searchpath"@, 30u8, FeatureCategory::StdlibAdded)) }
    else if name == "table.move"@ { Some(("table.move"@, 28u8, FeatureCategory::StdlibAdded)) }
    else if name == "string.pack"@ { Some(("string.pack"@, 28u8, FeatureCategory::StdlibAdded)) }
    else if name == "string.unpack"@ { Some(("string.unpack"@, 28u8, FeatureCategory::StdlibAdded)) }
    else if name == "string.packsize"@ { Some(("string.packsize"@, 28u8, FeatureCategory::StdlibAdded)) }
    else if name == "math.tointeger"@ { Some(("math.tointeger"@, 28u8, FeatureCategory::StdlibAdded)) }
    else if name == "math.type"@ { Some(("math.type"@, 28u8, FeatureCategory::StdlibAdded)) }
    else if name == "math.maxinteger"@ { Some(("math.maxinteger"@, 28u8, FeatureCategory::StdlibAdded)) }
    else { None }
}

/// Functions added in Lua 5.3 and later (second part of the table).
pub open spec fn second_entry(name: Seq<char>) -> Option<(Seq<char>, u8, FeatureCategory)> {
    if name == "math.mininteger"@ { Some(("math.mininteger"@, 28u8, FeatureCategory::StdlibAdded)) }
    else if name == "utf8.char"@ { Some(("utf8.char"@, 28u8, FeatureCategory::StdlibAdded)) }
    else if name == "utf8.codepoint"@ { Some(("utf8.codepoint"@, 28u8, FeatureCategory::StdlibAdded)) }
    else if name == "utf8.codes"@ { Some(("utf8.codes"@, 28u8, FeatureCategory::StdlibAdded)) }
    else if name == "utf8.len"@ { Some(("utf8.len"@, 28u8, FeatureCategory::StdlibAdded)) }
    else if name == "utf8.offset"@ { Some(("utf8.offset"@, 28u8, FeatureCategory::StdlibAdded)) }
    else if name == "utf8.charpattern"@ { Some(("utf8.charpattern"@, 28u8, FeatureCategory::StdlibAdded)) }
    else if name == "coroutine.isyieldable"@ { Some(("coroutine.isyieldable"@, 28u8, FeatureCategory::StdlibAdded)) }
    else if name == "warn"@ { Some(("warn"@, 24u8, FeatureCategory::StdlibAdded)) }
    else if name == "coroutine.close"@ { Some(("coroutine.close"@, 24u8, FeatureCategory::StdlibAdded)) }
    else if name == "table.create"@ { Some(("table.create"@, 16u8, FeatureCategory::StdlibAdded)) }
    else { None }
}

/// Functions removed after Lua 5.1.
pub open spec fn third_entry(name: Seq<char>) -> Option<(Seq<char>, u8, FeatureCategory)> {
    if name == "setfenv"@ { Some(("setfenv"@, 1u8, FeatureCategory::StdlibRemoved)) }
    else if name == "getfenv"@ { Some(("getfenv"@, 1u8, FeatureCategory::StdlibRemoved)) }
    else if name == "math.log10"@ { Some(("math.log10"@, 1u8, FeatureCategory::StdlibRemoved)) }
    else if name == "table.maxn"@ { Some(("table.maxn"@, 1u8, FeatureCategory::StdlibRemoved)) }
    else if name == "module"@ { Some(("module"@, 1u8, FeatureCategory::StdlibRemoved)) }
    else if name == "unpack"@ { Some(("unpack"@, 33u8, FeatureCategory::StdlibRemoved)) }
    else if name == "loadstring"@ { Some(("loadstring"@, 33u8, FeatureCategory::StdlibRemoved)) }
    else { None }
}

/// Whole families of functions, matched by their module prefix.
pub open spec fn prefix_entry(name: Seq<char>) -> Option<(Seq<char>, u8, FeatureCategory)> {
    if starts_with(name, "bit32."@) { Some(("bit32.*"@, 3u8, FeatureCategory::StdlibRemoved)) }
    else if starts_with(name, "ffi."@) { Some(("ffi.*"@, 32u8, FeatureCategory::LuaJitExtension)) }
    else if starts_with(name, "bit."@) { Some(("bit.*"@, 32u8, FeatureCategory::LuaJitExtension)) }
    else if starts_with(name, "jit."@) { Some(("jit.*"@, 32u8, FeatureCategory::LuaJitExtension)) }
    else { None }
}

/// The entry of the database for a dotted function or constant name: the
/// feature's name, the versions that have it, and its category.
pub open spec fn function_entry(name: Seq<char>) -> Option<(Seq<char>, u8, FeatureCategory)> {
    if first_entry(name) is Some { first_entry(name) }
    else if second_entry(name) is Some { second_entry(name) }
    else if third_entry(name) is Some { third_entry(name) }
    else { prefix_entry(name) }
}

/// The entry of the database for a module loaded with `require`.
pub open spec fn require_entry(module: Seq<char>) -> Option<(Seq<char>, u8, FeatureCategory)> {
    if module == "ffi"@ { Some(("require(\"ffi\")"@, 32u8, FeatureCategory::LuaJitExtension)) }
    else if module == "bit"@ { Some(("require(\"bit\")"@, 32u8, FeatureCategory::LuaJitExtension)) }
    else if module == "jit"@ { Some(("require(\"jit\")"@, 32u8, FeatureCategory::LuaJitExtension)) }
    else if module == "bit32"@ { Some(("require(\"bit32\")"@, 3u8, FeatureCategory::StdlibRemoved)) }
    else if module == "utf8"@ { Some(("require(\"utf8\")"@, 28u8, FeatureCategory::StdlibAdded)) }
    else { None }
}

/// When the known functions exist, as facts of the Lua releases: the first
/// and the last Lua 5.x minor version that has the function, and whether
/// LuaJIT has it.  `table.pack` and `table.unpack` came with Lua 5.2,
/// `table.move` and the `utf8` library with 5.3, `warn` with 5.4 and
/// `table.create` with 5.5; `setfenv` and its kin were dropped after 5.1,
/// and LuaJIT kept `unpack` and `loadstring`.
pub open spec fn lua_release_facts(name: Seq<char>) -> Option<(int, int, bool)> {
    if name == "table.pack"@ { Some((2int, 5int, false)) }
    else if name == "table.unpack"@ { Some((2int, 5int, false)) }
    else if name == "rawlen"@ { Some((2int, 5int, false)) }
    else if name == "package.searchpath"@ { Some((2int, 5int, false)) }
    else if name == "table.move"@ { Some((3int, 5int, false)) }
    else if name == "string.pack"@ { Some((3int, 5int, false)) }
    else if name == "string.unpack"@ { Some((3int, 5int, false)) }
    else if name == "string.packsize"@ { Some((3int, 5int, false)) }
    else if name == "math.tointeger"@ { Some((3int, 5int, false)) }
    else if name == "math.type"@ { Some((3int, 5int, false)) }
    else if name == "math.maxinteger"@ { Some((3int, 5int, false)) }
    else if name == "math.mininteger"@ { Some((3int, 5int, false)) }
    else if name == "utf8.char"@ { Some((3int, 5int, false)) }
    else if name == "utf8.codepoint"@ { Some((3int, 5int, false)) }
    else if name == "utf8.codes"@ { Some((3int, 5int, false)) }
    else if name == "utf8.len"@ { Some((3int, 5int, false)) }
    else if name == "utf8.offset"@ { Some((3int, 5int, false)) }
    else if name == "utf8.charpattern"@ { Some((3int, 5int, false)) }
    else if name == "coroutine.isyieldable"@ { Some((3int, 5int, false)) }
    else if name == "warn"@ { Some((4int, 5int, false)) }
    else if name == "coroutine.close"@ { Some((4int, 5int, false)) }
    else if name == "table.create"@ { Some((5int, 5int, false)) }
    else if name == "setfenv"@ { Some((1int, 1int, false)) }
    else if name == "getfenv"@ { Some((1int, 1int, false)) }
    else if name == "math.log10"@ { Some((1int, 1int, false)) }
    else if name == "table.maxn"@ { Some((1int, 1int, false)) }
    else if name == "module"@ { Some((1int, 1int, false)) }
    else if name == "unpack"@ { Some((1int, 1int, true)) }
    else if name == "loadstring"@ { Some((1int, 1int, true)) }
    else { None }
}

/// How a feature is filed from the releases that have it: a LuaJIT
/// extension when no standard Lua has it, as added when it came after 5.1,
/// and as removed otherwise (it left before 5.5).
pub open spec fn release_category(first: int, last: int) -> FeatureCategory {
    if first > last {
        FeatureCategory::LuaJitExtension
    } else if first > 1 {
        FeatureCategory::StdlibAdded
    } else {
        FeatureCategory::StdlibRemoved
    }
}

/// The database agrees with the release history: every function with a
/// known history has an entry under its own name whose versions are
/// exactly the Lua releases that have it (and LuaJIT when it has it), filed
/// as added when it came after 5.1 and as removed when it left before 5.5.
pub proof fn lemma_function_entries_follow_releases(name: Seq<char>)
    requires
        lua_release_facts(name) is Some,
    ensures
        ({
            let (first, last, jit) = lua_release_facts(name).unwrap();
            function_entry(name) matches Some((n, bits, category)) && n == name && bits as int
                == super::series_bits(first, last) + (if jit { LuaVersionSet::LUAJIT as int } else { 0 })
                && category == release_category(first, last)
        }),
{
    reveal_with_fuel(super::series_bits, 6);
}

/// The release history of whole module families, by the prefix of their
/// function names: `bit32` was in Lua 5.1 (as an add-on) and 5.2 only, and
/// `ffi`, `bit` and `jit` are LuaJIT's own.
pub open spec fn family_release_facts(family: Seq<char>) -> Option<(int, int, bool)> {
    if family == "bit32."@ { Some((1int, 2int, false)) }
    else if family == "ffi."@ { Some((1int, 0int, true)) }
    else if family == "bit."@ { Some((1int, 0int, true)) }
    else if family == "jit."@ { Some((1int, 0int, true)) }
    else { None }
}

/// Every function of a module family with a known history has the
/// family's entry, `family*`, with exactly the releases that have the
/// family.
pub proof fn lemma_family_entries_follow_releases(family: Seq<char>, rest: Seq<char>)
    requires
        family_release_facts(family) is Some,
    ensures
        ({
            let (first, last, jit) = family_release_facts(family).unwrap();
            function_entry(family + rest) matches Some((n, bits, category)) && n == family + "*"@
                && bits as int == super::series_bits(first, last) + (if jit {
                LuaVersionSet::LUAJIT as int
            } else {
                0
            }) && category == release_category(first, last)
        }),
{
    reveal_with_fuel(super::series_bits, 4);
    reveal_strlit("bit32.");
    reveal_strlit("ffi.");
    reveal_strlit("bit.");
    reveal_strlit("jit.");
    reveal_strlit("bit32.*");
    reveal_strlit("ffi.*");
    reveal_strlit("bit.*");
    reveal_strlit("jit.*");
    reveal_strlit("*");
    reveal_strlit("table.pack");
    reveal_strlit("table.unpack");
    reveal_strlit("rawlen");
    reveal_strlit("package.searchpath");
    reveal_strlit("table.move");
    reveal_strlit("string.pack");
    reveal_strlit("string.unpack");
    reveal_strlit("string.packsize");
    reveal_strlit("math.tointeger");
    reveal_strlit("math.type");
    reveal_strlit("math.maxinteger");
    reveal_strlit("math.mininteger");
    reveal_strlit("utf8.char");
    reveal_strlit("utf8.codepoint");
    reveal_strlit("utf8.codes");
    reveal_strlit("utf8.len");
    reveal_strlit("utf8.offset");
    reveal_strlit("utf8.charpattern");
    reveal_strlit("coroutine.isyieldable");
    reveal_strlit("warn");
    reveal_strlit("coroutine.close");
    reveal_strlit("table.create");
    reveal_strlit("setfenv");
    reveal_strlit("getfenv");
    reveal_strlit("math.log10");
    reveal_strlit("table.maxn");
    reveal_strlit("module");
    reveal_strlit("unpack");
    reveal_strlit("loadstring");
    let name = family + rest;
    assert(name.take(family.len() as int) =~= family);
    assert(name[0] == family[0]);
    assert(family[0] == 'b' || family[0] == 'f' || family[0] == 'j');
    assert(first_entry(name) is None);
    assert(second_entry(name) is None);
    assert(third_entry(name) is None);
    if family == "bit32."@ {
        assert(family + "*"@ =~= "bit32.*"@);
    } else if family == "ffi."@ {
        assert(family + "*"@ =~= "ffi.*"@);
        assert(!starts_with(name, "bit32."@)) by {
            assert(name[0] == 'f');
        }
    } else if family == "bit."@ {
        assert(family + "*"@ =~= "bit.*"@);
        assert(!starts_with(name, "bit32."@)) by {
            assert(name[3] == '.');
        }
        assert(!starts_with(name, "ffi."@)) by {
            assert(name[0] == 'b');
        }
    } else {
        assert(family + "*"@ =~= "jit.*"@);
        assert(!starts_with(name, "bit32."@)) by {
            assert(name[0] == 'j');
        }
        assert(!starts_with(name, "ffi."@)) by {
            assert(name[0] == 'j');
        }
        assert(!starts_with(name, "bit."@)) by {
            assert(name[0] == 'j');
        }
    }
}

/// The release history of the modules loaded with `require` that not
/// every Lua has: LuaJIT's `ffi`, `bit` and `jit`, `bit32` (Lua 5.1 as an
/// add-on and 5.2), and `utf8` (Lua 5.3 on).
pub open spec fn module_release_facts(module: Seq<char>) -> Option<(int, int, bool)> {
    if module == "ffi"@ { Some((1int, 0int, true)) }
    else if module == "bit"@ { Some((1int, 0int, true)) }
    else if module == "jit"@ { Some((1int, 0int, true)) }
    else if module == "bit32"@ { Some((1int, 2int, false)) }
    else if module == "utf8"@ { Some((3int, 5int, false)) }
    else { None }
}

/// Every module with a known history is reported, when required, as
/// `require("module")` with exactly the releases that have it.
pub proof fn lemma_require_entries_follow_releases(module: Seq<char>)
    requires
        module_release_facts(module) is Some,
    ensures
        ({
            let (first, last, jit) = module_release_facts(module).unwrap();
            require_entry(module) matches Some((n, bits, category)) && n == "require(\""@ + module
                + "\")"@ && bits as int == super::series_bits(first, last) + (if jit {
                LuaVersionSet::LUAJIT as int
            } else {
                0
            }) && category == release_category(first, last)
        }),
{
    reveal_with_fuel(super::series_bits, 6);
    reveal_strlit("require(\"");
    reveal_strlit("\")");
    reveal_strlit("ffi");
    reveal_strlit("bit");
    reveal_strlit("jit");
    reveal_strlit("bit32");
    reveal_strlit("utf8");
    reveal_strlit("require(\"ffi\")");
    reveal_strlit("require(\"bit\")");
    reveal_strlit("require(\"jit\")");
    reveal_strlit("require(\"bit32\")");
    reveal_strlit("require(\"utf8\")");
    let n = "require(\""@ + module + "\")"@;
    if module == "ffi"@ {
        assert(n =~= "require(\"ffi\")"@);
    } else if module == "bit"@ {
        assert(n =~= "require(\"bit\")"@);
    } else if module == "jit"@ {
        assert(n =~= "require(\"jit\")"@);
    } else if module == "bit32"@ {
        assert(n =~= "require(\"bit32\")"@);
    } else {
        assert(n =~= "require(\"utf8\")"@);
    }
}

fn lookup_first(name: &str) -> (r: Option<FeatureInfo>)
    ensures
        match first_entry(name@) {
            Some((n, b, c)) => r matches Some(f) && is_feature(f, n, b, c),
            None => r is None,
        },
{
    if str_eq(name, "table.pack") {
        Some(feature("table.pack", v52_plus(), FeatureCategory::StdlibAdded))
    } else if str_eq(name, "table.unpack") {
        Some(feature("table.unpack", v52_plus(), FeatureCategory::StdlibAdded))
    } else if str_eq(name, "rawlen") {
        Some(feature("rawlen", v52_plus(), FeatureCategory::StdlibAdded))
    } else if str_eq(name, "package.searchpath") {
        Some(feature("package.searchpath", v52_plus(), FeatureCategory::StdlibAdded))
    } else if str_eq(name, "table.move") {
        Some(feature("table.move", v53_plus(), FeatureCategory::StdlibAdded))
    } else if str_eq(name, "string.pack") {
        Some(feature("string.pack", v53_plus(), FeatureCategory::StdlibAdded))
    } else if str_eq(name, "string.unpack") {
        Some(feature("string.unpack", v53_plus(), FeatureCategory::StdlibAdded))
    } else if str_eq(name, "string.packsize") {
        Some(feature("string.packsize", v53_plus(), FeatureCategory::StdlibAdded))
    } else if str_eq(name, "math.tointeger") {
        Some(feature("math.tointeger", v53_plus(), FeatureCategory::StdlibAdded))
    } else if str_eq(name, "math.type") {
        Some(feature("math.type", v53_plus(), FeatureCategory::StdlibAdded))
    } else if str_eq(name, "math.maxinteger") {
        Some(feature("math.maxinteger", v53_plus(), FeatureCategory::StdlibAdded))
    } else {
        None
    }
}

fn lookup_second(name: &str) -> (r: Option<FeatureInfo>)
    ensures
        match second_entry(name@) {
            Some((n, b, c)) => r matches Some(f) && is_feature(f, n, b, c),
            None => r is None,
        },
{
    if str_eq(name, "math.mininteger") {
        Some(feature("math.mininteger", v53_plus(), FeatureCategory::StdlibAdded))
    } else if str_eq(name, "utf8.char") {
        Some(feature("utf8.char", v53_plus(), FeatureCategory::StdlibAdded))
    } else if str_eq(name, "utf8.codepoint") {
        Some(feature("utf8.codepoint", v53_plus(), FeatureCategory::StdlibAdded))
    } else if str_eq(name, "utf8.codes") {
        Some(feature("utf8.codes", v53_plus(), FeatureCategory::StdlibAdded))
    } else if str_eq(name, "utf8.len") {
        Some(feature("utf8.len", v53_plus(), FeatureCategory::StdlibAdded))
    } else if str_eq(name, "utf8.offset") {
        Some(feature("utf8.offset", v53_plus(), FeatureCategory::StdlibAdded))
    } else if str_eq(name, "utf8.charpattern") {
        Some(feature("utf8.charpattern", v53_plus(), FeatureCategory::StdlibAdded))
    } else if str_eq(name, "coroutine.isyieldable") {
        Some(feature("coroutine.isyieldable", v53_plus(), FeatureCategory::StdlibAdded))
    } else if str_eq(name, "warn") {
        Some(feature("warn", v54_plus(), FeatureCategory::StdlibAdded))
    } else if str_eq(name, "coroutine.close") {
        Some(feature("coroutine.close", v54_plus(), FeatureCategory::StdlibAdded))
    } else if str_eq(name, "table.create") {
        Some(feature("table.create", v55_only(), FeatureCategory::StdlibAdded))
    } else {
        None
    }
}

fn lookup_third(name: &str) -> (r: Option<FeatureInfo>)
    ensures
        match third_entry(name@) {
            Some((n, b, c)) => r matches Some(f) && is_feature(f, n, b, c),
            None => r is None,
        },
{
    if str_eq(name, "setfenv") {
        Some(feature("setfenv", v51_only(), FeatureCategory::StdlibRemoved))
    } else if str_eq(name, "getfenv") {
        Some(feature("getfenv", v51_only(), FeatureCategory::StdlibRemoved))
    } else if str_eq(name, "math.log10") {
        Some(feature("math.log10", v51_only(), FeatureCategory::StdlibRemoved))
    } else if str_eq(name, "table.maxn") {
        Some(feature("table.maxn", v51_only(), FeatureCategory::StdlibRemoved))
    } else if str_eq(name, "module") {
        Some(feature("module", v51_only(), FeatureCategory::StdlibRemoved))
    } else if str_eq(name, "unpack") {
        Some(feature("unpack", v51_and_jit(), FeatureCategory::StdlibRemoved))
    } else if str_eq(name, "loadstring") {
        Some(feature("loadstring", v51_and_jit(), FeatureCategory::StdlibRemoved))
    } else {
        None
    }
}

fn lookup_prefix(name: &str) -> (r: Option<FeatureInfo>)
    ensures
        match prefix_entry(name@) {
            Some((n, b, c)) => r matches Some(f) && is_feature(f, n, b, c),
            None => r is None,
        },
{
    let v = chars_of(name);
    if starts_with_str(v.as_slice(), "bit32.") {
        Some(feature("bit32.*", v51_and_52(), FeatureCategory::StdlibRemoved))
    } else if starts_with_str(v.as_slice(), "ffi.") {
        Some(feature("ffi.*", jit_only(), FeatureCategory::LuaJitExtension))
    } else if starts_with_str(v.as_slice(), "bit.") {
        Some(feature("bit.*", jit_only(), FeatureCategory::LuaJitExtension))
    } else if starts_with_str(v.as_slice(), "jit.") {
        Some(feature("jit.*", jit_only(), FeatureCategory::LuaJitExtension))
    } else {
        None
    }
}

/// Look up a dotted function/constant name like "table.move" or
/// "math.maxinteger".
///
/// Returns `None` if the name is not a known version-specific feature
/// (i.e., it's available in all versions or is user-defined).
pub fn lookup_function(name: &str) -> (r: Option<FeatureInfo>)
    ensures
        match function_entry(name@) {
            Some((n, b, c)) => r matches Some(f) && is_feature(f, n, b, c),
            None => r is None,
        },
{
    let first = lookup_first(name);
    if first.is_some() {
        return first;
    }
    let second = lookup_second(name);
    if second.is_some() {
        return second;
    }
    let third = lookup_third(name);
    if third.is_some() {
        return third;
    }
    lookup_prefix(name)
}

/// Look up a `require()` module name to detect version-specific
/// dependencies.
pub fn lookup_require(module_name: &str) -> (r: Option<FeatureInfo>)
    ensures
        match require_entry(module_name@) {
            Some((n, b, c)) => r matches Some(f) && is_feature(f, n, b, c),
            None => r is None,
        },
{
    if str_eq(module_name, "ffi") {
        Some(feature("require(\"ffi\")", jit_only(), FeatureCategory::LuaJitExtension))
    } else if str_eq(module_name, "bit") {
        Some(feature("require(\"bit\")", jit_only(), FeatureCategory::LuaJitExtension))
    } else if str_eq(module_name, "jit") {
        Some(feature("require(\"jit\")", jit_only(), FeatureCategory::LuaJitExtension))
    } else if str_eq(module_name, "bit32") {
        Some(feature("require(\"bit32\")", v51_and_52(), FeatureCategory::StdlibRemoved))
    } else if str_eq(module_name, "utf8") {
        Some(feature("require(\"utf8\")", v53_plus(), FeatureCategory::StdlibAdded))
    } else {
        None
    }
}

/// Syntax feature: goto.
#[allow(non_snake_case)]
pub fn SYNTAX_GOTO() -> (r: FeatureInfo)
    ensures
        is_feature(r, "goto"@, 62u8, FeatureCategory::Syntax),
{
    feature("goto", LuaVersionSet::from_bits(62), FeatureCategory::Syntax)
}

/// Syntax feature: ::label::.
#[allow(non_snake_case)]
pub fn SYNTAX_LABEL() -> (r: FeatureInfo)
    ensures
        is_feature(r, "::label::"@, 62u8, FeatureCategory::Syntax),
{
    feature("::label::", LuaVersionSet::from_bits(62), FeatureCategory::Syntax)
}

/// Syntax feature: // (integer division).
#[allow(non_snake_case)]
pub fn SYNTAX_INTEGER_DIVIDE() -> (r: FeatureInfo)
    ensures
        is_feature(r, "// (integer division)"@, 28u8, FeatureCategory::Syntax),
{
    feature("// (integer division)", LuaVersionSet::from_bits(28), FeatureCategory::Syntax)
}

/// Syntax feature: & (bitwise AND).
#[allow(non_snake_case)]
pub fn SYNTAX_BITWISE_AND() -> (r: FeatureInfo)
    ensures
        is_feature(r, "& (bitwise AND)"@, 28u8, FeatureCategory::Syntax),
{
    feature("& (bitwise AND)", LuaVersionSet::from_bits(28), FeatureCategory::Syntax)
}

/// Syntax feature: | (bitwise OR).
#[allow(non_snake_case)]
pub fn SYNTAX_BITWISE_OR() -> (r: FeatureInfo)
    ensures
        is_feature(r, "| (bitwise OR)"@, 28u8, FeatureCategory::Syntax),
{
    feature("| (bitwise OR)", LuaVersionSet::from_bits(28), FeatureCategory::Syntax)
}

/// Syntax feature: ~ (bitwise XOR).
#[allow(non_snake_case)]
pub fn SYNTAX_BITWISE_XOR() -> (r: FeatureInfo)
    ensures
        is_feature(r, "~ (bitwise XOR)"@, 28u8, FeatureCategory::Syntax),
{
    feature("~ (bitwise XOR)", LuaVersionSet::from_bits(28), FeatureCategory::Syntax)
}

/// Syntax feature: ~ (bitwise NOT).
#[allow(non_snake_case)]
pub fn SYNTAX_BITWISE_NOT() -> (r: FeatureInfo)
    ensures
        is_feature(r, "~ (bitwise NOT)"@, 28u8, FeatureCategory::Syntax),
{
    feature("~ (bitwise NOT)", LuaVersionSet::from_bits(28), FeatureCategory::Syntax)
}

/// Syntax feature: << (left shift).
#[allow(non_snake_case)]
pub fn SYNTAX_SHIFT_LEFT() -> (r: FeatureInfo)
    ensures
        is_feature(r, "<< (left shift)"@, 28u8, FeatureCategory::Syntax),
{
    feature("<< (left shift)", LuaVersionSet::from_bits(28), FeatureCategory::Syntax)
}

/// Syntax feature: >> (right shift).
#[allow(non_snake_case)]
pub fn SYNTAX_SHIFT_RIGHT() -> (r: FeatureInfo)
    ensures
        is_feature(r, ">> (right shift)"@, 28u8, FeatureCategory::Syntax),
{
    feature(">> (right shift)", LuaVersionSet::from_bits(28), FeatureCategory::Syntax)
}

/// The compact description of a set of versions.
///
/// Examples: "(5.3+)", "(5.1 only)", "(LuaJIT only)", "(5.2+, LuaJIT)"
pub open spec fn version_hint(b: u8) -> Seq<char> {
    if b == 1u8 { "(5.1 only)"@ }
    else if b == 33u8 { "(5.1, LuaJIT)"@ }
    else if b == 3u8 { "(5.1, 5.2 only)"@ }
    else if b == 32u8 { "(LuaJIT only)"@ }
    else if b == 16u8 { "(5.5 only)"@ }
    else if b == 30u8 { "(5.2+)"@ }
    else if b == 62u8 { "(5.2+, LuaJIT)"@ }
    else if b == 28u8 { "(5.3+)"@ }
    else if b == 24u8 { "(5.4+)"@ }
    else { seq!['('] + version_set_text(b) + seq![')'] }
}

/// Format a FeatureInfo's version availability as a compact description.
pub fn format_version_hint(info: &FeatureInfo) -> (r: String)
    ensures
        r@ == version_hint(info.available_in@),
{
    let versions = info.available_in;
    if versions.same_as(v51_only()) {
        string_from(&chars_of("(5.1 only)"))
    } else if versions.same_as(v51_and_jit()) {
        string_from(&chars_of("(5.1, LuaJIT)"))
    } else if versions.same_as(v51_and_52()) {
        string_from(&chars_of("(5.1, 5.2 only)"))
    } else if versions.same_as(jit_only()) {
        string_from(&chars_of("(LuaJIT only)"))
    } else if versions.same_as(v55_only()) {
        string_from(&chars_of("(5.5 only)"))
    } else if versions.same_as(v52_plus()) {
        string_from(&chars_of("(5.2+)"))
    } else if versions.same_as(v52_plus_jit()) {
        string_from(&chars_of("(5.2+, LuaJIT)"))
    } else if versions.same_as(v53_plus()) {
        string_from(&chars_of("(5.3+)"))
    } else if versions.same_as(v54_plus()) {
        string_from(&chars_of("(5.4+)"))
    } else {
        let mut v: Vec<char> = Vec::new();
        v.push('(');
        let t = chars_of(versions.to_string().as_str());
        push_chars(&mut v, t.as_slice());
        v.push(')');
        string_from(&v)
    }
}

} // verus!
