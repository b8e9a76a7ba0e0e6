//! Running a script in the filtered packages of a workspace: which
//! packages run it, what is reported for each, and the overall outcome.
use vstd::prelude::*;
use crate::commands::{split_words, words};
use crate::error::{error_text, signed_decimal, signed_decimal_chars, DepotError, DepotResult};
use crate::store::Store;
use crate::text::{chars_of, decimal, decimal_chars, push_chars, push_str, string_from, string_of};

verus! {

/// What is done for one package: run the script's command, or skip the
/// package with a notice.
#[derive(Debug)]
pub enum PackageScript {
    Run(String),
    Skip(String),
}

/// The notice of a package that has no such script.
pub open spec fn missing_script_notice(script: Seq<char>, package: Seq<char>) -> Seq<char> {
    "  ⚠️  Script '"@ + script + "' not found in "@ + package + ", skipping"@
}

/// The notice of a package whose script has no command.
pub open spec fn empty_script_notice(script: Seq<char>, package: Seq<char>) -> Seq<char> {
    "  ⚠️  Script '"@ + script + "' has no command in "@ + package + ", skipping"@
}

/// What to do for the package `package` with the scripts `scripts`: run
/// the script's command when it has one, else skip the package.
pub fn package_script(scripts: &Store<String>, script_name: &str, package: &str) -> (r: PackageScript)
    ensures
        !scripts@.contains_key(script_name@) ==> (r matches PackageScript::Skip(m) && m@
            == missing_script_notice(script_name@, package@)),
        scripts@.contains_key(script_name@) && words(scripts@[script_name@]).len() == 0 ==> (
        r matches PackageScript::Skip(m) && m@ == empty_script_notice(script_name@, package@)),
        scripts@.contains_key(script_name@) && words(scripts@[script_name@]).len() > 0 ==> (
        r matches PackageScript::Run(c) && c@ == scripts@[script_name@]),
{
    match scripts.get(script_name) {
        None => {
            let mut m = chars_of("  ⚠️  Script '");
            push_str(&mut m, script_name);
            push_str(&mut m, "' not found in ");
            push_str(&mut m, package);
            push_str(&mut m, ", skipping");
            PackageScript::Skip(string_from(&m))
        },
        Some(command) => {
            if split_words(command.as_str()).len() == 0 {
                let mut m = chars_of("  ⚠️  Script '");
                push_str(&mut m, script_name);
                push_str(&mut m, "' has no command in ");
                push_str(&mut m, package);
                push_str(&mut m, ", skipping");
                PackageScript::Skip(string_from(&m))
            } else {
                PackageScript::Run(command.clone())
            }
        },
    }
}

/// Whether running a script failed: it could not run, or it exited with a
/// code other than 0.
pub open spec fn run_failed(outcome: Result<i32, DepotError>) -> bool {
    match outcome {
        Ok(code) => code != 0,
        Err(_) => true,
    }
}

/// The report on running the script in a package.
pub open spec fn run_report_text(script: Seq<char>, package: Seq<char>, outcome: Result<i32, DepotError>) -> Seq<char> {
    match outcome {
        Ok(code) => if code == 0 {
            "  ✓ Script '"@ + script + "' completed successfully in "@ + package + "\n"@
        } else {
            "  ✗ Script '"@ + script + "' failed with exit code "@ + signed_decimal(code) + " in "@
                + package + "\n"@
        },
        Err(e) => "  ✗ Error running script '"@ + script + "' in "@ + package + ": "@ + error_text(e)
            + "\n"@,
    }
}

/// The report on running the script in a package, and whether it failed.
pub fn run_report(script_name: &str, package: &str, outcome: &Result<i32, DepotError>) -> (r: (String, bool))
    ensures
        r.0@ == run_report_text(script_name@, package@, *outcome),
        r.1 == run_failed(*outcome),
{
    match outcome {
        Ok(code) => {
            if *code == 0 {
                let mut v = chars_of("  ✓ Script '");
                push_str(&mut v, script_name);
                push_str(&mut v, "' completed successfully in ");
                push_str(&mut v, package);
                push_str(&mut v, "\n");
                (string_from(&v), false)
            } else {
                let mut v = chars_of("  ✗ Script '");
                push_str(&mut v, script_name);
                push_str(&mut v, "' failed with exit code ");
                let d = signed_decimal_chars(*code);
                push_chars(&mut v, d.as_slice());
                push_str(&mut v, " in ");
                push_str(&mut v, package);
                push_str(&mut v, "\n");
                (string_from(&v), true)
            }
        },
        Err(e) => {
            let mut v = chars_of("  ✗ Error running script '");
            push_str(&mut v, script_name);
            push_str(&mut v, "' in ");
            push_str(&mut v, package);
            push_str(&mut v, ": ");
            let t = e.to_string();
            push_str(&mut v, t.as_str());
            push_str(&mut v, "\n");
            (string_from(&v), true)
        },
    }
}

/// The lines that announce a run over the filtered packages, given as
/// (name, path): a notice when there are none, else a heading, one line
/// per package and an empty line.
pub fn run_heading(script_name: &str, packages: &Vec<(String, String)>) -> (r: Vec<String>)
    ensures
        packages@.len() == 0 ==> r@.len() == 1 && r@[0]@ == "No packages match the filter patterns"@,
        packages@.len() > 0 ==> {
            &&& r@.len() == packages@.len() + 2
            &&& r@[0]@ == "📦 Running script '"@ + script_name@ + "' for "@ + decimal(
                packages@.len() as nat,
            ) + " workspace package(s):"@
            &&& forall|i: int|
                0 <= i < packages@.len() ==> (#[trigger] r@[i + 1])@ == "  - "@ + packages@[i].0@
                    + " ("@ + packages@[i].1@ + ")"@
            &&& r@[packages@.len() as int + 1]@ == Seq::<char>::empty()
        },
{
    let mut r: Vec<String> = Vec::new();
    if packages.len() == 0 {
        r.push(string_of("No packages match the filter patterns"));
        return r;
    }
    let mut h = chars_of("📦 Running script '");
    push_str(&mut h, script_name);
    push_str(&mut h, "' for ");
    let d = decimal_chars(packages.len() as u64);
    push_chars(&mut h, d.as_slice());
    push_str(&mut h, " workspace package(s):");
    r.push(string_from(&h));
    let mut i: usize = 0;
    while i < packages.len()
        invariant
            i <= packages.len(),
            r@.len() == i + 1,
            r@[0]@ == "📦 Running script '"@ + script_name@ + "' for "@ + decimal(
                packages@.len() as nat,
            ) + " workspace package(s):"@,
            forall|k: int|
                0 <= k < i ==> (#[trigger] r@[k + 1])@ == "  - "@ + packages@[k].0@ + " ("@
                    + packages@[k].1@ + ")"@,
        decreases packages.len() - i,
    {
        let mut v = chars_of("  - ");
        push_str(&mut v, packages[i].0.as_str());
        push_str(&mut v, " (");
        push_str(&mut v, packages[i].1.as_str());
        push_str(&mut v, ")");
        r.push(string_from(&v));
        i = i + 1;
    }
    r.push(String::new());
    r
}

/// The outcome of the whole run: an error when the script failed in some
/// package.
pub fn workspace_run_result(failed: &Vec<bool>) -> (r: DepotResult<()>)
    ensures
        (exists|i: int| 0 <= i < failed@.len() && failed@[i]) ==> (r matches Err(DepotError::Package(m))
            && m@ == "One or more script executions failed"@),
        (forall|i: int| 0 <= i < failed@.len() ==> !failed@[i]) ==> r is Ok,
{
    let mut i: usize = 0;
    while i < failed.len()
        invariant
            i <= failed.len(),
            forall|k: int| 0 <= k < i ==> !failed@[k],
        decreases failed.len() - i,
    {
        if failed[i] {
            return Err(DepotError::Package(string_of("One or more script executions failed")));
        }
        i = i + 1;
    }
    Ok(())
}

} // verus!
