use depot::error::DepotError;
use depot::store::Store;
use depot::workspace_run::{package_script, run_heading, run_report, workspace_run_result, PackageScript};

fn scripts(pairs: &[(&str, &str)]) -> Store<String> {
    let mut s = Store::new();
    for (k, v) in pairs {
        s.insert(k.to_string(), v.to_string());
    }
    s
}

#[test]
fn packages_run_or_skip() {
    let s = scripts(&[("test", "lua tests/run.lua"), ("blank", "   ")]);
    match package_script(&s, "test", "pkg1") {
        PackageScript::Run(c) => assert_eq!(c, "lua tests/run.lua"),
        other => panic!("unexpected {:?}", other),
    }
    match package_script(&s, "lint", "pkg1") {
        PackageScript::Skip(m) => assert_eq!(m, "  ⚠️  Script 'lint' not found in pkg1, skipping"),
        other => panic!("unexpected {:?}", other),
    }
    match package_script(&s, "blank", "pkg1") {
        PackageScript::Skip(m) => assert_eq!(m, "  ⚠️  Script 'blank' has no command in pkg1, skipping"),
        other => panic!("unexpected {:?}", other),
    }
}

#[test]
fn reports_of_each_run() {
    assert_eq!(
        run_report("test", "pkg1", &Ok(0)),
        ("  ✓ Script 'test' completed successfully in pkg1\n".to_string(), false)
    );
    assert_eq!(
        run_report("test", "pkg1", &Ok(3)),
        ("  ✗ Script 'test' failed with exit code 3 in pkg1\n".to_string(), true)
    );
    assert_eq!(
        run_report("test", "pkg1", &Err(DepotError::Package("Empty command".to_string()))),
        ("  ✗ Error running script 'test' in pkg1: Package error: Empty command\n".to_string(), true)
    );
}

#[test]
fn heading_lists_packages() {
    assert_eq!(run_heading("test", &vec![]), vec!["No packages match the filter patterns"]);
    let pkgs = vec![
        ("core".to_string(), "packages/core".to_string()),
        ("cli".to_string(), "packages/cli".to_string()),
    ];
    assert_eq!(
        run_heading("build", &pkgs),
        vec![
            "📦 Running script 'build' for 2 workspace package(s):",
            "  - core (packages/core)",
            "  - cli (packages/cli)",
            "",
        ]
    );
}

#[test]
fn overall_result_fails_when_any_run_failed() {
    assert!(workspace_run_result(&vec![]).is_ok());
    assert!(workspace_run_result(&vec![false, false]).is_ok());
    match workspace_run_result(&vec![false, true, false]) {
        Err(DepotError::Package(m)) => assert_eq!(m, "One or more script executions failed"),
        other => panic!("unexpected {:?}", other),
    }
}
