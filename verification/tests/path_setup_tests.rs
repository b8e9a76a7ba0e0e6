use depot::path_setup::{detect_shell_from, expand_path_vars, get_depot_bin_dir, get_shell_profile};
use depot::path_setup::{
    dir_in_path, executable_name, get_depot_home, path_entries, profile_configured, profile_lines,
    profile_path, trim_trailing_slashes, windows_path_update,
};

#[test]
fn test_get_depot_bin_dir() {
    let depot_bin = get_depot_bin_dir(None, None, Some("/home/user"), "linux");
    if let Some(bin_dir) = depot_bin {
        assert!(bin_dir.contains("bin"));
    }
}

#[test]
fn test_detect_shell() {
    let shell = detect_shell_from(Some("/usr/bin/zsh"));
    assert!(!shell.is_empty());
}

#[test]
fn test_get_shell_profile() {
    let profile = get_shell_profile("zsh");
    assert!(profile.contains("zshrc"));

    let profile = get_shell_profile("bash");
    assert!(profile.contains("bashrc"));
}

#[test]
fn test_get_shell_profile_fish() {
    let profile = get_shell_profile("fish");
    assert!(profile.contains("fish"));
}

#[test]
fn test_get_shell_profile_default() {
    let profile = get_shell_profile("unknown");
    assert!(profile.contains("profile"));
}

#[test]
fn test_expand_path_vars_no_expansion() {
    let path = "/usr/bin";
    let expanded = expand_path_vars(path, Some("/home/user"));
    assert_eq!(expanded, path);
}

#[test]
fn test_get_depot_bin_dir_structure() {
    let depot_bin = get_depot_bin_dir(None, None, Some("/home/user"), "linux");
    if let Some(bin_dir) = depot_bin {
        assert!(bin_dir.contains("depot"));
        assert!(bin_dir.contains("bin"));
    }
}

#[test]
fn test_expand_path_vars_multiple_home() {
    let path = "/regular/path";
    let expanded = expand_path_vars(path, Some("/home/user"));
    assert_eq!(expanded, path);
}

#[test]
fn test_expand_path_vars_tilde_in_middle() {
    let path = "/some/~/path";
    let expanded = expand_path_vars(path, Some("/home/user"));
    assert_eq!(expanded, path);
}

#[test]
fn test_get_shell_profile_sh() {
    let profile = get_shell_profile("sh");
    assert!(profile.contains("profile"));
}

#[test]
fn test_get_shell_profile_ksh() {
    let profile = get_shell_profile("ksh");
    assert!(profile.contains("profile"));
}

#[test]
fn test_detect_shell_returns_valid_shell() {
    let shell = detect_shell_from(Some("/usr/bin/fish"));
    assert!(!shell.contains('/'));
}

#[test]
fn test_expand_path_vars_empty_string() {
    let expanded = expand_path_vars("", Some("/home/user"));
    assert_eq!(expanded, "");
}

#[test]
fn test_expand_path_vars_tilde() {
    let expanded = expand_path_vars("~/test", Some("/home/user"));
    assert_eq!(expanded, "/home/user/test");
}

#[test]
fn test_expand_path_vars_home_var() {
    let expanded = expand_path_vars("$HOME/test", Some("/home/user"));
    assert_eq!(expanded, "/home/user/test");
}

#[test]
fn test_expand_path_vars_just_tilde() {
    let expanded = expand_path_vars("~", Some("/home/user"));
    assert_eq!(expanded, "/home/user");
}

#[test]
fn expand_replaces_every_home_variable() {
    let expanded = expand_path_vars("$HOME/a:$HOME/b", Some("/h"));
    assert_eq!(expanded, "/h/a:/h/b");
}

#[test]
fn expand_without_home_keeps_path() {
    assert_eq!(expand_path_vars("~/x", None), "~/x");
}

#[test]
fn detect_shell_defaults_to_sh() {
    assert_eq!(detect_shell_from(None), "sh");
    assert_eq!(detect_shell_from(Some("/usr/local/bin/zsh")), "zsh");
}

#[test]
fn depot_bin_dir_by_platform() {
    assert_eq!(
        get_depot_bin_dir(Some("/opt/depot"), None, Some("/home/u"), "linux"),
        Some("/opt/depot/bin".to_string())
    );
    assert_eq!(
        get_depot_bin_dir(None, None, Some("/home/u"), "linux"),
        Some("/home/u/.local/share/depot/bin".to_string())
    );
    assert_eq!(
        get_depot_bin_dir(None, None, Some("/Users/u"), "macos"),
        Some("/Users/u/Library/Application Support/depot/bin".to_string())
    );
    assert_eq!(
        get_depot_bin_dir(None, Some("C:/Local"), None, "windows"),
        Some("C:/Local/depot/bin".to_string())
    );
    assert_eq!(get_depot_bin_dir(None, None, None, "linux"), None);
}

#[test]
fn depot_home_by_platform() {
    assert_eq!(get_depot_home(Some("/opt/depot"), None, None, "linux").unwrap(), "/opt/depot");
    assert_eq!(get_depot_home(None, None, Some("/home/u"), "linux").unwrap(), "/home/u/.local/share/depot");
    assert_eq!(
        get_depot_home(None, None, Some("/Users/u"), "macos").unwrap(),
        "/Users/u/Library/Application Support/depot"
    );
    assert_eq!(get_depot_home(None, Some("C:\\Data"), None, "windows").unwrap(), "C:\\Data/depot");
    assert!(matches!(get_depot_home(None, None, None, "windows"), Err(depot::error::DepotError::Path(m)) if m == "LOCALAPPDATA not set"));
    assert!(matches!(get_depot_home(None, None, None, "linux"), Err(depot::error::DepotError::Path(m)) if m == "HOME not set"));
}

#[test]
fn path_variable_entries() {
    let entries = path_entries("/usr/bin::~/bin: $HOME/.local/bin /", ':', Some("/home/u"));
    assert_eq!(entries, vec!["/usr/bin".to_string(), "/home/u/bin".to_string(), "/home/u/.local/bin /".to_string()]);
    assert_eq!(trim_trailing_slashes("/a/b//"), "/a/b");
    assert_eq!(trim_trailing_slashes("/"), "");
    assert!(dir_in_path(&entries, "/home/u/bin"));
    assert!(!dir_in_path(&entries, "/home/u"));
}

#[test]
fn windows_and_unix_profile_setup() {
    assert_eq!(windows_path_update("C:\\a; C:\\depot\\bin ;C:\\b", "C:\\depot\\bin"), None);
    assert_eq!(windows_path_update("", "C:\\d"), Some("C:\\d".to_string()));
    assert_eq!(windows_path_update("C:\\a", "C:\\d"), Some("C:\\d;C:\\a".to_string()));
    assert!(profile_configured("export DEPOT_HOME=x", "/nowhere"));
    assert!(profile_configured("PATH=/d/bin:$PATH", "/d/bin"));
    assert!(!profile_configured("alias ll='ls -l'", "/d/bin"));
    assert_eq!(profile_path("~/.bashrc", "/home/u"), "/home/u/.bashrc");
    assert_eq!(
        profile_lines("/home/u/.local/share/depot"),
        "\n# Depot environment\nexport DEPOT_HOME=\"/home/u/.local/share/depot\"\nexport PATH=\"$DEPOT_HOME/bin:$PATH\"\n"
    );
    assert_eq!(executable_name("windows"), "depot.exe");
    assert_eq!(executable_name("linux"), "depot");
}
