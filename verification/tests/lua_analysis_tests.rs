use depot::lua_analysis::compat_db::{
    format_version_hint, lookup_function, lookup_require, FeatureCategory, SYNTAX_GOTO,
    SYNTAX_INTEGER_DIVIDE,
};
use depot::lua_analysis::LuaVersionSet;


#[test]
fn test_all_contains_every_version() {
    let all = LuaVersionSet::all();
    assert!(all.contains(LuaVersionSet::LUA_5_1));
    assert!(all.contains(LuaVersionSet::LUA_5_2));
    assert!(all.contains(LuaVersionSet::LUA_5_3));
    assert!(all.contains(LuaVersionSet::LUA_5_4));
    assert!(all.contains(LuaVersionSet::LUA_5_5));
    assert!(all.contains(LuaVersionSet::LUAJIT));
}

#[test]
fn test_empty() {
    let empty = LuaVersionSet::empty();
    assert!(empty.is_empty());
    assert!(!empty.contains(LuaVersionSet::LUA_5_1));
    assert_eq!(empty.version_names(), Vec::<&str>::new());
}

#[test]
fn test_intersect() {
    let a = LuaVersionSet::from_bits(
        LuaVersionSet::LUA_5_3 | LuaVersionSet::LUA_5_4 | LuaVersionSet::LUA_5_5,
    );
    let b = LuaVersionSet::from_bits(
        LuaVersionSet::LUA_5_2 | LuaVersionSet::LUA_5_3 | LuaVersionSet::LUA_5_4,
    );
    let result = a.intersect(b);
    assert_eq!(
        result,
        LuaVersionSet::from_bits(LuaVersionSet::LUA_5_3 | LuaVersionSet::LUA_5_4)
    );
}

#[test]
fn test_union() {
    let a = LuaVersionSet::from_bits(LuaVersionSet::LUA_5_1);
    let b = LuaVersionSet::from_bits(LuaVersionSet::LUAJIT);
    let result = a.union(b);
    assert!(result.contains(LuaVersionSet::LUA_5_1));
    assert!(result.contains(LuaVersionSet::LUAJIT));
    assert!(!result.contains(LuaVersionSet::LUA_5_3));
}

#[test]
fn test_version_names() {
    let set = LuaVersionSet::from_bits(
        LuaVersionSet::LUA_5_1 | LuaVersionSet::LUA_5_4 | LuaVersionSet::LUAJIT,
    );
    assert_eq!(set.version_names(), vec!["5.1", "5.4", "LuaJIT"]);
}

#[test]
fn test_display() {
    let set = LuaVersionSet::from_bits(LuaVersionSet::LUA_5_3 | LuaVersionSet::LUA_5_4);
    assert_eq!(set.to_string(), "5.3, 5.4");

    let empty = LuaVersionSet::empty();
    assert_eq!(empty.to_string(), "(none)");
}

#[test]
fn test_contains_version_str() {
    let set = LuaVersionSet::from_bits(LuaVersionSet::LUA_5_4 | LuaVersionSet::LUA_5_5);
    assert!(set.contains_version_str("5.4"));
    assert!(set.contains_version_str("5.4.8"));
    assert!(set.contains_version_str("5.5"));
    assert!(!set.contains_version_str("5.3"));
    assert!(!set.contains_version_str("5.1"));
}

#[test]
fn test_intersect_narrows_versions() {
    // Simulating: code uses table.move (5.3+) AND goto (5.2+)
    let table_move = LuaVersionSet::from_bits(
        LuaVersionSet::LUA_5_3 | LuaVersionSet::LUA_5_4 | LuaVersionSet::LUA_5_5,
    );
    let goto = LuaVersionSet::from_bits(
        LuaVersionSet::LUA_5_2
            | LuaVersionSet::LUA_5_3
            | LuaVersionSet::LUA_5_4
            | LuaVersionSet::LUA_5_5
            | LuaVersionSet::LUAJIT,
    );

    let mut compat = LuaVersionSet::all();
    compat = compat.intersect(table_move);
    compat = compat.intersect(goto);

    assert_eq!(compat.version_names(), vec!["5.3", "5.4", "5.5"]);
}

#[test]
fn test_contradictory_features_yield_empty() {
    // setfenv (5.1 only) + table.move (5.3+) = impossible
    let setfenv = LuaVersionSet::from_bits(LuaVersionSet::LUA_5_1);
    let table_move = LuaVersionSet::from_bits(
        LuaVersionSet::LUA_5_3 | LuaVersionSet::LUA_5_4 | LuaVersionSet::LUA_5_5,
    );

    let result = setfenv.intersect(table_move);
    assert!(result.is_empty());
}



#[test]
fn test_lookup_added_functions() {
    let info = lookup_function("table.move").unwrap();
    assert_eq!(info.category, FeatureCategory::StdlibAdded);
    assert!(info.available_in.contains(LuaVersionSet::LUA_5_3));
    assert!(info.available_in.contains(LuaVersionSet::LUA_5_4));
    assert!(info.available_in.contains(LuaVersionSet::LUA_5_5));
    assert!(!info.available_in.contains(LuaVersionSet::LUA_5_1));
    assert!(!info.available_in.contains(LuaVersionSet::LUA_5_2));
}

#[test]
fn test_lookup_removed_functions() {
    let info = lookup_function("setfenv").unwrap();
    assert_eq!(info.category, FeatureCategory::StdlibRemoved);
    assert!(info.available_in.contains(LuaVersionSet::LUA_5_1));
    assert!(!info.available_in.contains(LuaVersionSet::LUA_5_2));
}

#[test]
fn test_lookup_luajit_extension() {
    let info = lookup_function("ffi.new").unwrap();
    assert_eq!(info.category, FeatureCategory::LuaJitExtension);
    assert!(info.available_in.contains(LuaVersionSet::LUAJIT));
    assert!(!info.available_in.contains(LuaVersionSet::LUA_5_4));
}

#[test]
fn test_lookup_bit32() {
    let info = lookup_function("bit32.band").unwrap();
    assert_eq!(info.category, FeatureCategory::StdlibRemoved);
    assert!(info.available_in.contains(LuaVersionSet::LUA_5_1));
    assert!(info.available_in.contains(LuaVersionSet::LUA_5_2));
    assert!(!info.available_in.contains(LuaVersionSet::LUA_5_3));
}

#[test]
fn test_lookup_unknown_returns_none() {
    assert!(lookup_function("print").is_none());
    assert!(lookup_function("my_custom_function").is_none());
    assert!(lookup_function("table.insert").is_none());
}

#[test]
fn test_lookup_require() {
    let info = lookup_require("ffi").unwrap();
    assert_eq!(info.category, FeatureCategory::LuaJitExtension);
    assert!(info.available_in.contains(LuaVersionSet::LUAJIT));

    let info = lookup_require("utf8").unwrap();
    assert_eq!(info.category, FeatureCategory::StdlibAdded);
    assert!(info.available_in.contains(LuaVersionSet::LUA_5_3));

    assert!(lookup_require("socket").is_none());
}

#[test]
fn test_format_version_hint() {
    let info = lookup_function("table.move").unwrap();
    assert_eq!(format_version_hint(&info), "(5.3+)");

    let info = lookup_function("setfenv").unwrap();
    assert_eq!(format_version_hint(&info), "(5.1 only)");

    let info = lookup_function("ffi.new").unwrap();
    assert_eq!(format_version_hint(&info), "(LuaJIT only)");

    assert_eq!(format_version_hint(&SYNTAX_GOTO()), "(5.2+, LuaJIT)");
    assert_eq!(format_version_hint(&SYNTAX_INTEGER_DIVIDE()), "(5.3+)");
}

#[test]
fn test_54_functions() {
    let info = lookup_function("warn").unwrap();
    assert_eq!(format_version_hint(&info), "(5.4+)");

    let info = lookup_function("coroutine.close").unwrap();
    assert_eq!(format_version_hint(&info), "(5.4+)");
}

#[test]
fn test_55_functions() {
    let info = lookup_function("table.create").unwrap();
    assert_eq!(format_version_hint(&info), "(5.5 only)");
}
