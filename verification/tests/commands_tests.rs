use depot::commands::{exec_command_line, join_command, resolve_script, split_words};
use depot::runner::{LuaRunner, RunOptions};
use depot::store::Store;

#[test]
fn test_script_command_parsing() {
    let script_command = "lua src/main.lua";
    let parts = split_words(script_command);
    assert_eq!(parts.len(), 2);
    assert_eq!(parts[0], "lua");
    assert_eq!(parts[1], "src/main.lua");
}

#[test]
fn test_script_parsing_multiple_args() {
    let script_command = "luajit -e 'print(1)' arg1";
    let parts = split_words(script_command);
    assert!(parts.len() >= 2);
    assert_eq!(parts[0], "luajit");
}

#[test]
fn test_script_parsing_empty() {
    let script_command = "";
    let parts = split_words(script_command);
    assert!(parts.is_empty());
}

#[test]
fn test_script_parsing_single_word() {
    let script_command = "lua";
    let parts = split_words(script_command);
    assert_eq!(parts.len(), 1);
    assert_eq!(parts[0], "lua");
}

#[test]
fn test_script_command_with_quotes() {
    let script_command = "lua -e 'print(\"hello world\")'";
    let parts = split_words(script_command);
    assert!(parts.len() >= 2);
}

#[test]
fn test_script_command_with_path() {
    let script_command = "lua /absolute/path/to/script.lua";
    let parts = split_words(script_command);
    assert_eq!(parts.len(), 2);
    assert_eq!(parts[0], "lua");
    assert!(parts[1].contains("script.lua"));
}

#[test]
fn test_exec_command_joining() {
    let command = ["lua".to_string(), "-e".to_string(), "print('hello')".to_string()];
    let command_str = join_command(&command);
    assert_eq!(command_str, "lua -e print('hello')");
}

#[test]
fn test_exec_with_empty_command() {
    let command: Vec<String> = vec![];
    let result = exec_command_line(&command);
    assert!(result.is_err());
    assert!(result.unwrap_err().to_string().contains("No command provided"));
}

#[test]
fn split_words_collapses_whitespace() {
    let parts = split_words("  a\t\tb \n c  ");
    assert_eq!(parts, vec!["a", "b", "c"]);
    assert!(split_words(" \t\n ").is_empty());
}

#[test]
fn resolve_script_outcomes() {
    let mut scripts = Store::new();
    scripts.insert("test".to_string(), "lua tests/run.lua".to_string());
    scripts.insert("blank".to_string(), "   ".to_string());
    assert_eq!(resolve_script(&scripts, "test").unwrap(), "lua tests/run.lua");
    let e = resolve_script(&scripts, "blank").unwrap_err();
    assert!(e.to_string().contains("Script 'blank' has no command"));
    let e = resolve_script(&scripts, "dev").unwrap_err();
    assert!(e.to_string().contains("Script 'dev' not found in package.yaml"));
}

#[test]
fn exec_plan_for_lua_and_other_programs() {
    let options = RunOptions::default();
    let plan = LuaRunner::exec_command_plan("lua main.lua x", &options, "/p", "linux").unwrap();
    assert_eq!(plan.program, "lua");
    assert_eq!(plan.args, vec!["main.lua", "x"]);
    assert_eq!(plan.cwd, "/p");
    assert_eq!(
        plan.env,
        vec![
            (
                "LUA_PATH".to_string(),
                "/p/lua_modules/?.lua;/p/lua_modules/?/init.lua;/p/lua_modules/?/?.lua;".to_string()
            ),
            ("LUA_CPATH".to_string(), "/p/lua_modules/?.so;/p/lua_modules/?/init.so;".to_string()),
        ]
    );
    let plan = LuaRunner::exec_command_plan("make all", &options, "/p", "linux").unwrap();
    assert!(plan.env.is_empty());
    assert!(LuaRunner::exec_command_plan("  ", &options, "/p", "linux").is_err());
}

#[test]
fn script_plan_sets_up_loader() {
    let options = RunOptions {
        cwd: Some("/work".to_string()),
        lua_args: vec!["--flag".to_string()],
        env: vec![("A".to_string(), "1".to_string())],
    };
    let plan = LuaRunner::script_plan("/p/main.lua", &options, "/p");
    assert_eq!(plan.program, "lua");
    assert_eq!(
        plan.args,
        vec![
            "-e",
            "package.path = '/p/lua_modules/lpm' .. '/?.lua;' .. package.path; require('lpm.loader')",
            "/p/main.lua",
            "--flag"
        ]
    );
    assert_eq!(plan.cwd, "/work");
    assert_eq!(plan.env[0], ("A".to_string(), "1".to_string()));
    assert_eq!(plan.env[1].0, "LUA_PATH");
}
