use depot::error::DepotError;
use depot::install::{
    build_version_spec, check_dev_flags, dependencies_to_install, global_metadata_file_name,
    has_dependencies_to_install, install_scope, package_dependencies_to_install,
    parse_package_spec, project_install_mode, split_at_version, with_workspace_dependencies,
    workspace_shared_dependencies, InstallOptions, InstallScope, ProjectInstall,
};
use depot::remove::{not_installed_globally, remove_dependency, removal_location, RemovedFrom};
use depot::store::Store;
use depot::update::{all_dependencies, update_version_spec, workspace_filter_mode};

fn store(pairs: &[(&str, &str)]) -> Store<String> {
    let mut s = Store::new();
    for (k, v) in pairs {
        s.insert(k.to_string(), v.to_string());
    }
    s
}

fn get(s: &Store<String>, k: &str) -> Option<String> {
    s.get(k).cloned()
}

fn options() -> InstallOptions {
    InstallOptions {
        package: None,
        dev: false,
        path: None,
        no_dev: false,
        dev_only: false,
        global: false,
        interactive: false,
        filter: Vec::new(),
        branch: None,
        commit: None,
        release: None,
    }
}

#[test]
fn package_spec_forms() {
    assert_eq!(parse_package_spec("owner/repo").unwrap(), ("owner/repo".to_string(), None));
    assert_eq!(
        parse_package_spec("  owner/repo@1.2.0 ").unwrap(),
        ("owner/repo".to_string(), Some("1.2.0".to_string()))
    );
    assert_eq!(
        parse_package_spec("https://github.com/lunarmodules/luasocket@3.0.0").unwrap(),
        ("lunarmodules/luasocket".to_string(), Some("3.0.0".to_string()))
    );
    assert_eq!(
        parse_package_spec("http://github.com/a/b.git").unwrap(),
        ("a/b".to_string(), None)
    );
    assert_eq!(parse_package_spec("github.com/a/b").unwrap(), ("a/b".to_string(), None));
}

#[test]
fn package_spec_errors() {
    for bad in ["repo", "a/b/c", "/b", "a/", " https://github.com/onlyowner "] {
        match parse_package_spec(bad) {
            Err(DepotError::Config(m)) => assert_eq!(
                m,
                format!(
                    "Invalid repository format '{}'. Expected 'owner/repo' or 'https://github.com/owner/repo'",
                    bad.trim()
                )
            ),
            other => panic!("unexpected {:?} for {}", other, bad),
        }
    }
}

#[test]
fn version_spec_priority() {
    let s = |x: &str| Some(x.to_string());
    assert_eq!(build_version_spec(s("1.0"), s("main"), s("abc"), s("v2")), "abc");
    assert_eq!(build_version_spec(s("1.0"), s("main"), None, s("v2")), "main");
    assert_eq!(build_version_spec(s("1.0"), None, None, s("v2")), "v2");
    assert_eq!(build_version_spec(s("1.0"), None, None, None), "1.0");
    assert_eq!(build_version_spec(None, None, None, None), "*");
}

#[test]
fn install_scope_checks() {
    let mut o = options();
    o.no_dev = true;
    o.dev_only = true;
    assert!(matches!(install_scope(&o), Err(DepotError::Package(m)) if m == "Cannot use both --no-dev and --dev-only flags"));
    let mut o = options();
    o.global = true;
    assert!(matches!(install_scope(&o), Err(DepotError::Package(m)) if m.starts_with("Global installation requires a package name")));
    o.package = Some("a/b".to_string());
    o.path = Some("./x".to_string());
    assert!(matches!(install_scope(&o), Err(DepotError::Package(m)) if m.starts_with("Cannot install from local path globally")));
    o.path = None;
    assert!(matches!(install_scope(&o), Ok(InstallScope::Global(p)) if p == "a/b"));
    assert!(matches!(install_scope(&options()), Ok(InstallScope::Project)));
}

#[test]
fn project_install_checks() {
    assert!(matches!(project_install_mode(true, true, false), Ok(ProjectInstall::Filtered)));
    assert!(matches!(project_install_mode(true, false, false), Err(DepotError::Package(m)) if m == "--filter can only be used in workspace mode"));
    assert!(matches!(project_install_mode(false, false, true), Err(DepotError::NotImplemented(_))));
    assert!(matches!(project_install_mode(false, true, false), Ok(ProjectInstall::Manifest)));
    assert!(check_dev_flags(true, true).is_err());
    assert!(check_dev_flags(true, false).is_ok());
}

#[test]
fn dependencies_selected_by_flags() {
    let deps = store(&[("a", "1"), ("b", "2")]);
    let dev = store(&[("b", "9"), ("c", "3")]);
    let all = dependencies_to_install(&deps, &dev, false, false);
    assert_eq!(all.len(), 3);
    assert_eq!(get(&all, "b"), Some("9".to_string()));
    let prod = dependencies_to_install(&deps, &dev, true, false);
    assert_eq!(prod.len(), 2);
    assert_eq!(get(&prod, "b"), Some("2".to_string()));
    let dev_only = dependencies_to_install(&deps, &dev, false, true);
    assert_eq!(dev_only.len(), 2);
    assert_eq!(get(&dev_only, "a"), None);
    assert_eq!(dependencies_to_install(&deps, &dev, true, true).len(), 0);
    assert_eq!(package_dependencies_to_install(&deps, &dev, true, true).len(), 2);
    assert!(has_dependencies_to_install(&deps, &dev, true, false));
    assert!(!has_dependencies_to_install(&Store::new(), &dev, true, false));
    assert!(has_dependencies_to_install(&Store::new(), &dev, true, true));
}

#[test]
fn workspace_dependencies_fill_gaps() {
    let mut pkg = store(&[("a", "1")]);
    with_workspace_dependencies(&mut pkg, &store(&[("a", "9"), ("z", "5")]));
    assert_eq!(get(&pkg, "a"), Some("1".to_string()));
    assert_eq!(get(&pkg, "z"), Some("5".to_string()));

    let packages = vec![
        (store(&[("x", "1"), ("w", "pkg")]), store(&[("t", "1")])),
        (store(&[("x", "2"), ("y", "3")]), Store::new()),
    ];
    let (shared, shared_dev) =
        workspace_shared_dependencies(&store(&[("w", "ws")]), &store(&[("t", "0")]), &packages, false, false);
    assert_eq!(get(&shared, "w"), Some("ws".to_string()));
    assert_eq!(get(&shared, "x"), Some("1".to_string()));
    assert_eq!(get(&shared, "y"), Some("3".to_string()));
    assert_eq!(get(&shared_dev, "t"), Some("0".to_string()));
    let (none, _) = workspace_shared_dependencies(&store(&[("w", "ws")]), &Store::new(), &packages, false, true);
    assert_eq!(none.len(), 0);
}

#[test]
fn package_spec_split_and_metadata_name() {
    assert_eq!(split_at_version("pkg@1.0@x"), ("pkg".to_string(), Some("1.0@x".to_string())));
    assert_eq!(split_at_version("pkg"), ("pkg".to_string(), None));
    assert_eq!(global_metadata_file_name("owner/repo"), "owner-repo.yaml");
}

#[test]
fn remove_dependency_reports_where() {
    let mut deps = store(&[("pkg", "1"), ("a", "1")]);
    let mut dev = store(&[("pkg", "2")]);
    assert_eq!(remove_dependency(&mut deps, &mut dev, "pkg").unwrap(), RemovedFrom::Both);
    assert_eq!(deps.len(), 1);
    assert_eq!(dev.len(), 0);
    assert_eq!(remove_dependency(&mut deps, &mut dev, "a").unwrap(), RemovedFrom::Dependencies);
    match remove_dependency(&mut deps, &mut dev, "zzz") {
        Err(DepotError::Package(m)) => {
            assert_eq!(m, "Package 'zzz' not found in dependencies or dev_dependencies")
        }
        other => panic!("unexpected {:?}", other),
    }
    assert_eq!(removal_location(false, true).to_string(), "dev_dependencies");
    assert_eq!(RemovedFrom::Both.to_string(), "dependencies and dev_dependencies");
    assert!(matches!(not_installed_globally("x"), DepotError::Package(m) if m == "Package 'x' is not installed globally"));
}

#[test]
fn update_targets() {
    let deps = store(&[("a", "^1")]);
    let dev = store(&[("a", "^2"), ("b", "*")]);
    assert_eq!(update_version_spec(&deps, &dev, "a").unwrap(), "^1");
    assert_eq!(update_version_spec(&deps, &dev, "b").unwrap(), "*");
    assert!(matches!(update_version_spec(&deps, &dev, "c"), Err(DepotError::Package(m)) if m == "Package 'c' not found in dependencies"));
    let all = all_dependencies(&deps, &dev);
    assert_eq!(all.len(), 2);
    assert_eq!(get(&all, "a"), Some("^2".to_string()));
    assert!(matches!(workspace_filter_mode(false, false), Ok(false)));
    assert!(matches!(workspace_filter_mode(true, true), Ok(true)));
    assert!(workspace_filter_mode(true, false).is_err());
}

#[test]
fn store_remove_and_entries() {
    let mut s = store(&[("a", "1"), ("b", "2")]);
    assert_eq!(s.remove("a"), Some("1".to_string()));
    assert_eq!(s.remove("a"), None);
    assert_eq!(s.len(), 1);
    assert_eq!(s.entries().len(), 1);
}

#[test]
fn test_remove_location_determination() {
    let mut deps = store(&[]);
    let mut dev = store(&[]);

    deps.insert("pkg1".to_string(), "1.0.0".to_string());
    let location = remove_dependency(&mut deps, &mut dev, "pkg1").unwrap();
    assert_eq!(location.to_string(), "dependencies");

    dev.insert("pkg2".to_string(), "1.0.0".to_string());
    let location = remove_dependency(&mut deps, &mut dev, "pkg2").unwrap();
    assert_eq!(location.to_string(), "dev_dependencies");
}

#[test]
fn test_remove_location_both() {
    let mut deps = store(&[]);
    let mut dev = store(&[]);
    deps.insert("pkg".to_string(), "1.0.0".to_string());
    dev.insert("pkg".to_string(), "1.0.0".to_string());

    let location = remove_dependency(&mut deps, &mut dev, "pkg").unwrap();
    assert_eq!(location.to_string(), "dependencies and dev_dependencies");
}

#[test]
fn test_remove_global_not_installed() {
    let error = not_installed_globally("nonexistent-global-package-12345");
    assert!(error.to_string().contains("not installed globally"));
}
