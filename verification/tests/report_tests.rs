use depot::lua_analysis::compat_db::{feature, FeatureCategory};
use depot::lua_analysis::report::{build_report, format_report, to_json_report};
use depot::lua_analysis::scanner::{file_result, DetectedFeature, FileResult};
use depot::lua_analysis::LuaVersionSet;

fn make_file_result(features: Vec<(&'static str, LuaVersionSet)>) -> FileResult {
    let detected: Vec<DetectedFeature> = features
        .into_iter()
        .enumerate()
        .map(|(i, (name, versions))| DetectedFeature {
            info: feature(name, versions, FeatureCategory::StdlibAdded),
            line: (i + 1) as u32,
            column: 1,
        })
        .collect();
    file_result("test.lua".to_string(), detected)
}

#[test]
fn test_build_report_empty() {
    let report = build_report(vec![], Some("5.4"));
    assert_eq!(report.files_scanned, 0);
    assert_eq!(report.project_compatible_versions, LuaVersionSet::all());
    assert_eq!(report.config_compatible, Some(true));
}

#[test]
fn test_build_report_compatible() {
    let v53_plus = LuaVersionSet::from_bits(
        LuaVersionSet::LUA_5_3 | LuaVersionSet::LUA_5_4 | LuaVersionSet::LUA_5_5,
    );
    let result = make_file_result(vec![("table.move", v53_plus)]);
    let report = build_report(vec![result], Some("5.4"));

    assert_eq!(report.config_compatible, Some(true));
    assert!(report.project_compatible_versions.contains(LuaVersionSet::LUA_5_4));
}

#[test]
fn test_build_report_incompatible() {
    let v51_only = LuaVersionSet::from_bits(LuaVersionSet::LUA_5_1);
    let result = make_file_result(vec![("setfenv", v51_only)]);
    let report = build_report(vec![result], Some("5.4"));

    assert_eq!(report.config_compatible, Some(false));
}

#[test]
fn test_format_report_compatible() {
    let v53_plus = LuaVersionSet::from_bits(
        LuaVersionSet::LUA_5_3 | LuaVersionSet::LUA_5_4 | LuaVersionSet::LUA_5_5,
    );
    let result = make_file_result(vec![("table.move", v53_plus)]);
    let report = build_report(vec![result], Some("5.4"));
    let output = format_report(&report, false);

    assert!(output.contains("Compatible versions: 5.3, 5.4, 5.5"));
    assert!(output.contains("table.move"));
    assert!(output.contains("is compatible"));
}

#[test]
fn test_format_report_incompatible() {
    let v51_only = LuaVersionSet::from_bits(LuaVersionSet::LUA_5_1);
    let result = make_file_result(vec![("setfenv", v51_only)]);
    let report = build_report(vec![result], Some("5.4"));
    let output = format_report(&report, false);

    assert!(output.contains("INCOMPATIBLE"));
}

#[test]
fn test_json_report() {
    let v53_plus = LuaVersionSet::from_bits(
        LuaVersionSet::LUA_5_3 | LuaVersionSet::LUA_5_4 | LuaVersionSet::LUA_5_5,
    );
    let result = make_file_result(vec![("table.move", v53_plus)]);
    let report = build_report(vec![result], Some("5.4"));
    let json = to_json_report(&report);

    assert_eq!(json.features.len(), 1);
    assert_eq!(json.features[0].name, "table.move");
    assert_eq!(json.config_compatible, Some(true));
}

#[test]
fn project_versions_are_those_of_every_file() {
    let a = make_file_result(vec![(
        "table.move",
        LuaVersionSet::from_bits(LuaVersionSet::LUA_5_3 | LuaVersionSet::LUA_5_4 | LuaVersionSet::LUA_5_5),
    )]);
    let b = make_file_result(vec![(
        "goto",
        LuaVersionSet::from_bits(
            LuaVersionSet::LUA_5_2 | LuaVersionSet::LUA_5_3 | LuaVersionSet::LUA_5_4 | LuaVersionSet::LUA_5_5,
        ),
    )]);
    let report = build_report(vec![a, b], None);
    assert_eq!(report.files_scanned, 2);
    assert_eq!(report.config_compatible, None);
    assert_eq!(
        report.project_compatible_versions.version_names(),
        vec!["5.3", "5.4", "5.5"]
    );
}

#[test]
fn format_report_quiet_and_no_features() {
    let report = build_report(vec![make_file_result(vec![])], None);
    let quiet = format_report(&report, true);
    let full = format_report(&report, false);
    assert!(full.contains("No version-specific features detected."));
    assert!(!quiet.contains("No version-specific features detected."));
    assert!(full.contains("5.1, 5.2, 5.3, 5.4, 5.5, LuaJIT"));
}
