//! Running Lua scripts and commands with the project's modules on Lua's
//! search paths: which program runs, with which arguments, in which
//! directory and with which environment.
use vstd::prelude::*;
use crate::commands::{split_words, words};
use crate::error::{DepotError, DepotResult};
use crate::paths::{join_path, lua_modules_dir, path_join};
use crate::text::{chars_of, ends_with, ends_with_str, push_str, str_eq, string_from, string_of, texts};

verus! {

/// Options for running Lua scripts
#[derive(Debug, Clone)]
pub struct RunOptions {
    /// Working directory (defaults to project root)
    pub cwd: Option<String>,
    /// Additional Lua arguments
    pub lua_args: Vec<String>,
    /// Environment variables
    pub env: Vec<(String, String)>,
}

impl Default for RunOptions {
    fn default() -> (r: Self)
        ensures
            r.cwd is None,
            r.lua_args@.len() == 0,
            r.env@.len() == 0,
    {
        RunOptions { cwd: None, lua_args: Vec::new(), env: Vec::new() }
    }
}

/// Runs Lua scripts with correct package.path setup
#[derive(Debug)]
pub struct LuaRunner;

/// A process to start: program, arguments, working directory and
/// environment variables (later ones win).
#[derive(Debug)]
pub struct CommandPlan {
    pub program: String,
    pub args: Vec<String>,
    pub cwd: String,
    pub env: Vec<(String, String)>,
}

/// The views of a list of variable settings.
pub open spec fn pairs(v: Seq<(String, String)>) -> Seq<(Seq<char>, Seq<char>)> {
    v.map_values(|p: (String, String)| (p.0@, p.1@))
}

/// A program that gets the Lua search paths.
pub open spec fn is_lua_program(p: Seq<char>) -> bool {
    p == "lua"@ || p == "luajit"@ || ends_with(p, "lua"@) || ends_with(p, "luajit"@)
}

/// The extension of native modules on an operating system.
pub open spec fn native_extension(os: Seq<char>) -> Seq<char> {
    if os == "windows"@ {
        "dll"@
    } else if os == "macos"@ {
        "dylib"@
    } else {
        "so"@
    }
}

/// `LUA_PATH` for commands: the module directory's `?.lua`, `?/init.lua`
/// and `?/?.lua`.
pub open spec fn command_lua_path(m: Seq<char>) -> Seq<char> {
    m + "/?.lua;"@ + m + "/?/init.lua;"@ + m + "/?/?.lua;"@
}

/// `LUA_CPATH` for commands: the module directory's native modules.
pub open spec fn command_lua_cpath(m: Seq<char>, ext: Seq<char>) -> Seq<char> {
    m + "/?."@ + ext + ";"@ + m + "/?/init."@ + ext + ";"@
}

/// `LUA_PATH` for scripts and code: the module directory's `?.lua` and
/// `?/init.lua`.
pub open spec fn script_lua_path(m: Seq<char>) -> Seq<char> {
    m + "/?.lua;"@ + m + "/?/init.lua;"@
}

/// The Lua code that puts the loader on the search path and loads it.
pub open spec fn loader_code(m: Seq<char>) -> Seq<char> {
    "package.path = '"@ + path_join(m, "lpm"@) + "' .. '/?.lua;' .. package.path; require('lpm.loader')"@
}

/// The working directory: the one asked for, or the project root.
pub open spec fn working_dir(o: RunOptions, project_root: Seq<char>) -> Seq<char> {
    match o.cwd {
        Some(c) => c@,
        None => project_root,
    }
}

fn copy_pairs(v: &Vec<(String, String)>) -> (r: Vec<(String, String)>)
    ensures
        pairs(r@) == pairs(v@),
{
    let mut r: Vec<(String, String)> = Vec::new();
    let mut i: usize = 0;
    while i < v.len()
        invariant
            i <= v.len(),
            pairs(r@) == pairs(v@).take(i as int),
        decreases v.len() - i,
    {
        let ghost before = r@;
        r.push((v[i].0.clone(), v[i].1.clone()));
        assert(pairs(r@) =~= pairs(before).push((v@[i as int].0@, v@[i as int].1@)));
        assert(pairs(v@).take(i as int + 1) =~= pairs(v@).take(i as int).push((v@[i as int].0@, v@[i as int].1@)));
        i = i + 1;
    }
    assert(pairs(v@).take(v.len() as int) =~= pairs(v@));
    r
}

fn append_strings(r: &mut Vec<String>, v: &Vec<String>)
    ensures
        texts(final(r)@) == texts(old(r)@) + texts(v@),
{
    let ghost start = texts(r@);
    let mut i: usize = 0;
    while i < v.len()
        invariant
            i <= v.len(),
            texts(r@) == start + texts(v@).take(i as int),
        decreases v.len() - i,
    {
        let ghost before = r@;
        r.push(v[i].clone());
        assert(texts(r@) =~= texts(before).push(v@[i as int]@));
        assert(texts(v@).take(i as int + 1) =~= texts(v@).take(i as int).push(v@[i as int]@));
        i = i + 1;
    }
    assert(texts(v@).take(v.len() as int) =~= texts(v@));
}

fn working_dir_of(options: &RunOptions, project_root: &str) -> (r: String)
    ensures
        r@ == working_dir(*options, project_root@),
{
    match &options.cwd {
        Some(c) => c.clone(),
        None => string_of(project_root),
    }
}

fn loader_code_text(m: &str) -> (r: Vec<char>)
    ensures
        r@ == loader_code(m@),
{
    let lpm = join_path(m, "lpm");
    let mut v = chars_of("package.path = '");
    push_str(&mut v, lpm.as_str());
    push_str(&mut v, "' .. '/?.lua;' .. package.path; require('lpm.loader')");
    v
}

fn script_lua_path_text(m: &str) -> (r: String)
    ensures
        r@ == script_lua_path(m@),
{
    let mut v = chars_of(m);
    push_str(&mut v, "/?.lua;");
    push_str(&mut v, m);
    push_str(&mut v, "/?/init.lua;");
    string_from(&v)
}

impl LuaRunner {
    /// What running a command line starts: its first word as the program
    /// with the rest as arguments, in the requested directory or the
    /// project root; a Lua program also gets `LUA_PATH` and `LUA_CPATH` for
    /// the project's modules (on the operating system `os`), before the
    /// requested variables.
    pub fn exec_command_plan(command_str: &str, options: &RunOptions, project_root: &str, os: &str) -> (r:
        DepotResult<CommandPlan>)
        ensures
            words(command_str@).len() == 0 ==> (r matches Err(DepotError::Package(m)) && m@
                == "Empty command"@),
            words(command_str@).len() > 0 ==> (r matches Ok(p) && {
                let ws = words(command_str@);
                let m = path_join(project_root@, "lua_modules"@);
                &&& p.program@ == ws[0]
                &&& texts(p.args@) == ws.skip(1)
                &&& p.cwd@ == working_dir(*options, project_root@)
                &&& pairs(p.env@) == (if is_lua_program(ws[0]) {
                    seq![
                        ("LUA_PATH"@, command_lua_path(m)),
                        ("LUA_CPATH"@, command_lua_cpath(m, native_extension(os@))),
                    ]
                } else {
                    Seq::empty()
                }) + pairs(options.env@)
            }),
    {
        let parts = split_words(command_str);
        if parts.len() == 0 {
            return Err(DepotError::Package(string_of("Empty command")));
        }
        let program = parts[0].clone();
        let mut args: Vec<String> = Vec::new();
        let mut i: usize = 1;
        while i < parts.len()
            invariant
                1 <= i <= parts.len(),
                texts(args@) == texts(parts@).subrange(1, i as int),
            decreases parts.len() - i,
        {
            let ghost before = args@;
            args.push(parts[i].clone());
            assert(texts(args@) =~= texts(before).push(parts@[i as int]@));
            assert(texts(parts@).subrange(1, i as int + 1) =~= texts(parts@).subrange(1, i as int).push(parts@[i as int]@));
            i = i + 1;
        }
        assert(texts(parts@).subrange(1, parts.len() as int) =~= texts(parts@).skip(1));
        let m = lua_modules_dir(project_root);
        let p = chars_of(program.as_str());
        let lua = str_eq(program.as_str(), "lua") || str_eq(program.as_str(), "luajit")
            || ends_with_str(p.as_slice(), "lua") || ends_with_str(p.as_slice(), "luajit");
        let mut env: Vec<(String, String)> = Vec::new();
        if lua {
            let mut lp = chars_of(m.as_str());
            push_str(&mut lp, "/?.lua;");
            push_str(&mut lp, m.as_str());
            push_str(&mut lp, "/?/init.lua;");
            push_str(&mut lp, m.as_str());
            push_str(&mut lp, "/?/?.lua;");
            let ext = if str_eq(os, "windows") {
                "dll"
            } else if str_eq(os, "macos") {
                "dylib"
            } else {
                "so"
            };
            let mut cp = chars_of(m.as_str());
            push_str(&mut cp, "/?.");
            push_str(&mut cp, ext);
            push_str(&mut cp, ";");
            push_str(&mut cp, m.as_str());
            push_str(&mut cp, "/?/init.");
            push_str(&mut cp, ext);
            push_str(&mut cp, ";");
            env.push((string_of("LUA_PATH"), string_from(&lp)));
            env.push((string_of("LUA_CPATH"), string_from(&cp)));
            proof {
                reveal_strlit("dll");
                reveal_strlit("dylib");
                reveal_strlit("so");
            }
        }
        let ghost head = pairs(env@);
        let extra = copy_pairs(&options.env);
        let mut j: usize = 0;
        while j < extra.len()
            invariant
                j <= extra.len(),
                pairs(env@) == head + pairs(extra@).take(j as int),
            decreases extra.len() - j,
        {
            let ghost before = env@;
            env.push((extra[j].0.clone(), extra[j].1.clone()));
            assert(pairs(env@) =~= pairs(before).push((extra@[j as int].0@, extra@[j as int].1@)));
            assert(pairs(extra@).take(j as int + 1) =~= pairs(extra@).take(j as int).push((extra@[j as int].0@, extra@[j as int].1@)));
            j = j + 1;
        }
        assert(pairs(extra@).take(extra.len() as int) =~= pairs(extra@));
        let cwd = working_dir_of(options, project_root);
        Ok(CommandPlan { program, args, cwd, env })
    }

    /// What running a script starts: `lua` with the loader set up, the
    /// script, and the extra Lua arguments; the requested variables and then
    /// `LUA_PATH` for the project's modules.
    pub fn script_plan(script_path: &str, options: &RunOptions, project_root: &str) -> (r: CommandPlan)
        ensures
            ({
                let m = path_join(project_root@, "lua_modules"@);
                &&& r.program@ == "lua"@
                &&& texts(r.args@) == seq!["-e"@, loader_code(m), script_path@] + texts(
                    options.lua_args@,
                )
                &&& r.cwd@ == working_dir(*options, project_root@)
                &&& pairs(r.env@) == pairs(options.env@) + seq![("LUA_PATH"@, script_lua_path(m))]
            }),
    {
        let m = lua_modules_dir(project_root);
        let code = loader_code_text(m.as_str());
        let mut args: Vec<String> = vec![string_of("-e"), string_from(&code), string_of(script_path)];
        assert(texts(args@) =~= seq!["-e"@, loader_code(m@), script_path@]);
        append_strings(&mut args, &options.lua_args);
        let mut env = copy_pairs(&options.env);
        let ghost before = env@;
        env.push((string_of("LUA_PATH"), script_lua_path_text(m.as_str())));
        assert(pairs(env@) =~= pairs(before).push(("LUA_PATH"@, script_lua_path(m@))));
        CommandPlan { program: string_of("lua"), args, cwd: working_dir_of(options, project_root), env }
    }

    /// What running Lua code starts: `lua` running the loader and then the
    /// code; the requested variables and then `LUA_PATH` for the project's
    /// modules.
    pub fn lua_code_plan(lua_code: &str, options: &RunOptions, project_root: &str) -> (r: CommandPlan)
        ensures
            ({
                let m = path_join(project_root@, "lua_modules"@);
                &&& r.program@ == "lua"@
                &&& texts(r.args@) == seq!["-e"@, loader_code(m) + "; "@ + lua_code@]
                &&& r.cwd@ == working_dir(*options, project_root@)
                &&& pairs(r.env@) == pairs(options.env@) + seq![("LUA_PATH"@, script_lua_path(m))]
            }),
    {
        let m = lua_modules_dir(project_root);
        let mut code = loader_code_text(m.as_str());
        push_str(&mut code, "; ");
        push_str(&mut code, lua_code);
        let args: Vec<String> = vec![string_of("-e"), string_from(&code)];
        assert(texts(args@) =~= seq!["-e"@, loader_code(m@) + "; "@ + lua_code@]);
        let mut env = copy_pairs(&options.env);
        let ghost before = env@;
        env.push((string_of("LUA_PATH"), script_lua_path_text(m.as_str())));
        assert(pairs(env@) =~= pairs(before).push(("LUA_PATH"@, script_lua_path(m@))));
        CommandPlan { program: string_of("lua"), args, cwd: working_dir_of(options, project_root), env }
    }
}

} // verus!
