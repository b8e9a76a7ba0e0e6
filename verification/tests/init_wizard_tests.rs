use depot::init_wizard::{
    chosen_license, default_project_name, license_options, lua_version_choices, main_lua_content,
    script_options, selected_scripts, template_menu, template_variables, validate_project_name,
};
use depot::templates::{TemplateInfo, TemplateSource};

fn strings(v: &[&str]) -> Vec<String> {
    v.iter().map(|s| s.to_string()).collect()
}

#[test]
fn project_names_are_checked() {
    assert!(validate_project_name("my-project_2").is_ok());
    assert_eq!(validate_project_name(""), Err("Project name cannot be empty"));
    assert_eq!(
        validate_project_name("bad name"),
        Err("Project name can only contain alphanumeric characters, hyphens, and underscores")
    );
    assert!(validate_project_name("café").is_ok());
}

#[test]
fn test_default_project_name_from_directory() {
    let dir_name = default_project_name("/tmp/.tmpAbC123");
    assert!(!dir_name.is_empty());
    assert_eq!(dir_name, ".tmpAbC123");
    assert_eq!(default_project_name("/home/me/cool-app/"), "cool-app");
    assert_eq!(default_project_name("/"), "my-project");
}

#[test]
fn licenses_offered() {
    assert_eq!(
        license_options(),
        vec!["MIT", "Apache-2.0", "BSD-3-Clause", "GPL-3.0", "LGPL-3.0", "ISC", "Unlicense", "None"]
    );
    assert_eq!(chosen_license("MIT"), Some("MIT".to_string()));
    assert_eq!(chosen_license("None"), None);
}

#[test]
fn lua_versions_offered() {
    let (choices, selected) = lua_version_choices(&vec![]);
    assert_eq!(choices, strings(&["5.1", "5.3", "5.4", "latest"]));
    assert_eq!(selected, 2);

    let (choices, selected) = lua_version_choices(&strings(&["5.3.6", "5.1"]));
    assert_eq!(choices, strings(&["5.3.6", "5.1", "5.3", "5.4", "latest"]));
    assert_eq!(selected, 3);

    let (choices, selected) = lua_version_choices(&strings(&["5.4"]));
    assert_eq!(choices, strings(&["5.4", "5.1", "5.3", "latest"]));
    assert_eq!(selected, 0);
}

#[test]
fn scripts_offered_and_selected() {
    assert_eq!(
        script_options(),
        strings(&[
            "dev - Development server/watch mode",
            "test - Run tests",
            "build - Build project",
            "start - Start application",
        ])
    );
    assert_eq!(
        selected_scripts(&vec![3, 7, 1]),
        vec![
            ("start".to_string(), "lua src/main.lua".to_string()),
            ("test".to_string(), "lua tests/run.lua".to_string()),
        ]
    );
    assert!(selected_scripts(&vec![]).is_empty());
}

#[test]
fn template_menu_lines() {
    let templates = vec![TemplateInfo {
        name: "cli".to_string(),
        description: "Command line tool".to_string(),
        path: "/t/cli".to_string(),
        source: TemplateSource::Builtin,
    }];
    assert_eq!(template_menu(&templates), strings(&["None (empty project)", "cli - Command line tool"]));
    assert_eq!(template_menu(&vec![]), strings(&["None (empty project)"]));
}

#[test]
fn starter_files_and_variables() {
    assert_eq!(
        main_lua_content("demo", "0.1.0"),
        "-- demo\n-- Version: 0.1.0\n\nprint(\"Hello from demo\")\n"
    );
    assert_eq!(
        template_variables("demo", "0.1.0", "5.4"),
        vec![
            ("project_name".to_string(), "demo".to_string()),
            ("project_version".to_string(), "0.1.0".to_string()),
            ("lua_version".to_string(), "5.4".to_string()),
        ]
    );
}
