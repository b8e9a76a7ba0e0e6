use depot::listing::{
    dependency_line_text, dependency_tree_lines, global_package_line_text, global_package_names,
    package_list_lines, sort_names, ListedDependency, LockedDependency, TreeEntry,
};
use depot::workspace_view::{
    package_order, shared_dependency_text, version_conflict, workspace_info_lines,
    workspace_list_lines, WorkspaceMetadataSummary, WorkspacePackageSummary, WorkspaceSummary,
};

fn dep(name: &str, c: &str, installed: bool, resolved: Option<&str>) -> ListedDependency {
    ListedDependency {
        name: name.to_string(),
        constraint: c.to_string(),
        installed,
        resolved: resolved.map(|s| s.to_string()),
    }
}

fn strings(v: &[&str]) -> Vec<String> {
    v.iter().map(|s| s.to_string()).collect()
}

#[test]
fn flat_list_lines() {
    assert_eq!(package_list_lines(&vec![], &vec![]), strings(&["Dependencies:", "  (none)"]));
    let lines = package_list_lines(
        &vec![dep("a", "^1.0", true, Some("1.2.0")), dep("b", "*", false, None)],
        &vec![dep("t", "^2", false, Some("2.0.0"))],
    );
    assert_eq!(
        lines,
        strings(&[
            "Dependencies:",
            "  ✓ a@1.2.0 (constraint: ^1.0)",
            "  ✗ b (constraint: *)",
            "\nDev Dependencies:",
            "  ✗ t@2.0.0 (constraint: ^2, dev)",
        ])
    );
    assert_eq!(dependency_line_text(&dep("x", "1", true, None), true), "  ✓ x (constraint: 1, dev)");
}

#[test]
fn tree_lines() {
    let entries = vec![
        TreeEntry {
            dependency: dep("a", "^1", true, Some("1.0.0")),
            dev: false,
            locked: vec![
                LockedDependency { name: "x".to_string(), version: "1".to_string(), installed: true },
                LockedDependency { name: "y".to_string(), version: "2".to_string(), installed: false },
            ],
        },
        TreeEntry { dependency: dep("t", "*", false, None), dev: true, locked: vec![] },
    ];
    assert_eq!(
        dependency_tree_lines("", &entries),
        strings(&[
            "├── ✓ a@1.0.0 (constraint: ^1)",
            "│  ├── ✓ x@1",
            "│  └── ✗ y@2",
            "└── ✗ t (constraint: *) (dev)",
        ])
    );
}

#[test]
fn global_packages() {
    assert_eq!(
        global_package_names(strings(&["zeta", ".lpm", "alpha", "Beta"])),
        strings(&["Beta", "alpha", "zeta"])
    );
    assert_eq!(sort_names(strings(&["b", "a", "b", ""])), strings(&["", "a", "b", "b"]));
    assert_eq!(global_package_line_text("pkg", &vec![]), "  pkg");
    assert_eq!(
        global_package_line_text("pkg", &strings(&["a", "b"])),
        "  pkg (executables: a, b)"
    );
}

fn member(name: &str, path: &str, deps: usize, dev: usize) -> WorkspacePackageSummary {
    WorkspacePackageSummary {
        name: name.to_string(),
        path: path.to_string(),
        version: "1.0.0".to_string(),
        dependency_count: deps,
        dev_dependency_count: dev,
    }
}

fn workspace() -> WorkspaceSummary {
    WorkspaceSummary {
        name: "ws".to_string(),
        root: "/w".to_string(),
        package_patterns: strings(&["packages/*"]),
        exclude_patterns: vec![],
        default_members: None,
        dependencies: vec![("penlight".to_string(), "^1.0".to_string())],
        dev_dependencies: vec![],
        package_metadata: Some(WorkspaceMetadataSummary {
            version: Some("2.0.0".to_string()),
            license: None,
            authors: Some(strings(&["A", "B"])),
        }),
        packages: vec![member("zed", "packages/zed", 2, 0), member("abc", "packages/abc", 0, 1)],
    }
}

#[test]
fn workspace_listing() {
    let w = workspace();
    let order = package_order(&w);
    assert_eq!(order, vec![1, 0]);
    assert_eq!(
        workspace_list_lines(&w, &order),
        strings(&[
            "Workspace: ws",
            "Root: /w",
            "\nPackages:",
            "  abc (packages/abc)",
            "  zed (packages/zed)",
            "\nTotal: 2 packages",
        ])
    );
}

#[test]
fn workspace_information() {
    let w = workspace();
    let order = package_order(&w);
    assert_eq!(
        workspace_info_lines(&w, &order),
        strings(&[
            "Workspace: ws",
            "Root: /w",
            "",
            "Package patterns:",
            "  - packages/*",
            "",
            "Workspace dependencies:",
            "  penlight = ^1.0",
            "",
            "Workspace package metadata:",
            "  version: 2.0.0",
            "  authors: A, B",
            "",
            "Packages (2):",
            "  abc",
            "    path: packages/abc",
            "    version: 1.0.0",
            "    dev-dependencies: 1",
            "  zed",
            "    path: packages/zed",
            "    version: 1.0.0",
            "    dependencies: 2",
        ])
    );
}

#[test]
fn shared_dependencies() {
    let same = vec![("a".to_string(), "1.0".to_string()), ("b".to_string(), "1.0".to_string())];
    let differ = vec![("a".to_string(), "1.0".to_string()), ("b".to_string(), "2.0".to_string())];
    assert!(!version_conflict(&same));
    assert!(version_conflict(&differ));
    assert!(!version_conflict(&vec![]));
    assert_eq!(
        shared_dependency_text("lpeg", &differ),
        strings(&["lpeg:", "  a uses 1.0", "  b uses 2.0", "  ⚠️  Version conflict detected!", ""])
    );
    assert_eq!(shared_dependency_text("lpeg", &same).len(), 4);
}
