//! Sandboxed cargo builds: what a cargo command runs with, and what its
//! exit status means.
use vstd::prelude::*;
use crate::error::{signed_decimal, signed_decimal_chars, DepotError, DepotResult};
use crate::paths::{join_path, path_join};
use crate::runner::{pairs, CommandPlan};
use crate::text::{push_chars, string_from, string_of, texts, chars_of};

verus! {

/// Manages sandboxed Rust builds
#[derive(Debug)]
pub struct BuildSandbox;

/// The variables that confine cargo to the project: its home inside the
/// project, with network access left on.
pub open spec fn sandbox_env(project_root: Seq<char>) -> Seq<(Seq<char>, Seq<char>)> {
    seq![("CARGO_HOME"@, path_join(project_root, ".cargo"@)), ("CARGO_NET_OFFLINE"@, "false"@)]
}

fn copy_strings(v: &[String]) -> (r: Vec<String>)
    ensures
        r@ == v@,
{
    let mut r: Vec<String> = Vec::new();
    let mut i: usize = 0;
    while i < v.len()
        invariant
            i <= v.len(),
            r@ == v@.take(i as int),
        decreases v.len() - i,
    {
        r.push(v[i].clone());
        assert(r@ =~= v@.take(i as int + 1));
        i = i + 1;
    }
    assert(v@.take(v.len() as int) =~= v@);
    r
}

fn copy_pairs(v: &[(String, String)]) -> (r: Vec<(String, String)>)
    ensures
        pairs(r@) == pairs(v@),
{
    let mut r: Vec<(String, String)> = Vec::new();
    let mut i: usize = 0;
    while i < v.len()
        invariant
            i <= v.len(),
            pairs(r@) == pairs(v@.take(i as int)),
        decreases v.len() - i,
    {
        let ghost before = r@;
        r.push((v[i].0.clone(), v[i].1.clone()));
        assert(pairs(r@) =~= pairs(before).push((v@[i as int].0@, v@[i as int].1@)));
        assert(pairs(v@.take(i as int + 1)) =~= pairs(v@.take(i as int)).push((v@[i as int].0@, v@[i as int].1@)));
        i = i + 1;
    }
    assert(v@.take(v.len() as int) =~= v@);
    r
}

impl BuildSandbox {
    /// What a sandboxed cargo command runs: `cargo` with `args`, in the
    /// project root, with `env_vars` and then the sandbox variables.
    pub fn cargo_plan(project_root: &str, args: &[String], env_vars: &[(String, String)]) -> (r: CommandPlan)
        ensures
            r.program@ == "cargo"@,
            texts(r.args@) == texts(args@),
            r.cwd@ == project_root@,
            pairs(r.env@) == pairs(env_vars@) + sandbox_env(project_root@),
    {
        let mut env = copy_pairs(env_vars);
        let ghost before = env@;
        let home = join_path(project_root, ".cargo");
        env.push((string_of("CARGO_HOME"), home));
        env.push((string_of("CARGO_NET_OFFLINE"), string_of("false")));
        assert(pairs(env@) =~= pairs(before) + sandbox_env(project_root@));
        let a = copy_strings(args);
        CommandPlan { program: string_of("cargo"), args: a, cwd: string_of(project_root), env }
    }

    /// What a cargo command's exit means: success, or a failure naming its
    /// exit code (1 when it has none).
    pub fn cargo_outcome(success: bool, code: Option<i32>) -> (r: DepotResult<()>)
        ensures
            success ==> r is Ok,
            !success ==> (r matches Err(DepotError::Package(m)) && m@ == "Cargo build failed with exit code: "@
                + signed_decimal(
                match code {
                    Some(c) => c,
                    None => 1i32,
                },
            )),
    {
        if success {
            return Ok(());
        }
        let c: i32 = match code {
            Some(c) => c,
            None => 1,
        };
        let mut v = chars_of("Cargo build failed with exit code: ");
        let d = signed_decimal_chars(c);
        push_chars(&mut v, d.as_slice());
        Err(DepotError::Package(string_from(&v)))
    }
}

} // verus!
