use depot::error::DepotError;
use depot::paths::{normalize_path, project_markers, project_root_among, project_search_dirs};
use std::path::{Path, PathBuf};

fn std_normalized(p: &str) -> String {
    Path::new(p).components().collect::<PathBuf>().to_string_lossy().to_string()
}

fn std_search_dirs(p: &str) -> Vec<String> {
    let mut dirs = vec![p.to_string()];
    let mut current = PathBuf::from(p);
    while let Some(parent) = current.parent() {
        dirs.push(std_normalized(&parent.to_string_lossy()));
        current = parent.to_path_buf();
    }
    dirs
}

const SAMPLES: [&str; 14] = [
    "", "/", "a", "/a", "a/b", "/a/b/", "a//b", "./a", ".", "./", "a/./b/.", "/../a", "//x///y", "../a/..",
];

#[test]
fn normalize_path_matches_components() {
    for p in SAMPLES {
        assert_eq!(normalize_path(p), std_normalized(p), "path {:?}", p);
    }
}

#[test]
fn test_normalize_path() {
    assert_eq!(normalize_path("/home/user/./project//src/"), "/home/user/project/src");
    assert_eq!(normalize_path("./a/b"), "./a/b");
    assert_eq!(normalize_path("a/../b"), "a/../b");
}

#[test]
fn search_dirs_follow_parents() {
    for p in SAMPLES {
        assert_eq!(project_search_dirs(p), std_search_dirs(p), "path {:?}", p);
    }
    assert_eq!(project_search_dirs("/work/app/src"), vec!["/work/app/src", "/work/app", "/work", "/"]);
    assert_eq!(project_search_dirs("proj/sub"), vec!["proj/sub", "proj", ""]);
}

#[test]
fn markers_of_a_directory() {
    assert_eq!(project_markers("/p"), vec!["/p/workspace.yaml", "/p/package.yaml"]);
    assert_eq!(project_markers(""), vec!["workspace.yaml", "package.yaml"]);
}

#[test]
fn test_find_project_root() {
    // project/package.yaml exists; the search starts in project/subdir.
    let dirs = project_search_dirs("/tmp/project/subdir");
    let marked: Vec<bool> = dirs.iter().map(|d| d == "/tmp/project").collect();
    assert_eq!(project_root_among(&dirs, &marked).unwrap(), "/tmp/project");
}

#[test]
fn nearest_marked_directory_wins() {
    let dirs = project_search_dirs("/w/pkgs/a");
    let marked = vec![false, true, true, false];
    assert_eq!(project_root_among(&dirs, &marked).unwrap(), "/w/pkgs");
}

#[test]
fn no_marked_directory_is_an_error() {
    let dirs = project_search_dirs("/x/y");
    let r = project_root_among(&dirs, &vec![false, false]);
    match r {
        Err(DepotError::Path(m)) => assert_eq!(
            m,
            "Could not find package.yaml or workspace.yaml in current directory or parents"
        ),
        _ => panic!("expected a path error"),
    }
}
