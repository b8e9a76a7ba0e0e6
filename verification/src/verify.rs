//! The outcome of `depot verify` and `depot audit`: what they report and
//! when they fail.
use vstd::prelude::*;
use crate::error::{DepotError, DepotResult};
use crate::text::{chars_of, decimal, decimal_chars, push_chars, push_str, string_from, string_of, texts};

verus! {

/// The name of the lockfile.
pub const LOCKFILE_NAME: &'static str = "depot.lock";

/// The error when a project has no lockfile to verify.
pub fn no_lockfile_error() -> (r: DepotError)
    ensures
        r matches DepotError::Package(m) && m@
            == "No depot.lock found. Run 'depot install' first to generate a lockfile."@,
{
    DepotError::Package(
        string_of("No depot.lock found. Run 'depot install' first to generate a lockfile."),
    )
}

/// The result of verifying the installed packages against the lockfile.
#[derive(Debug)]
pub struct VerificationResult {
    /// The packages that verified.
    pub successful: Vec<String>,
    /// The packages that did not, each with what went wrong.
    pub failed: Vec<(String, String)>,
}

impl VerificationResult {
    /// Whether every package verified.
    pub fn is_success(&self) -> (r: bool)
        ensures
            r == (self.failed@.len() == 0),
    {
        self.failed.len() == 0
    }
}

/// `n package(s) <what>`, indented.
pub open spec fn count_line(n: nat, what: Seq<char>) -> Seq<char> {
    "  "@ + decimal(n) + " package(s) "@ + what
}

/// The line of a package that failed.
pub open spec fn failure_line(f: (String, String)) -> Seq<char> {
    "  ❌ "@ + f.0@ + ": "@ + f.1@
}

/// The report of a verification: success, or failure with the counts and
/// each failure.
pub open spec fn verification_report(r: VerificationResult) -> Seq<Seq<char>> {
    if r.failed@.len() == 0 {
        seq!["✓ All packages verified successfully"@, count_line(r.successful@.len(), "verified"@)]
    } else {
        seq![
            "❌ Verification failed"@,
            count_line(r.successful@.len(), "verified"@),
            count_line(r.failed@.len(), "failed"@),
        ] + r.failed@.map_values(|f: (String, String)| failure_line(f))
    }
}

fn count_line_text(n: usize, what: &str) -> (r: String)
    ensures
        r@ == count_line(n as nat, what@),
{
    let mut v = chars_of("  ");
    let d = decimal_chars(n as u64);
    push_chars(&mut v, d.as_slice());
    push_str(&mut v, " package(s) ");
    push_str(&mut v, what);
    string_from(&v)
}

/// The lines that report a verification.
pub fn verification_report_lines(r: &VerificationResult) -> (out: Vec<String>)
    ensures
        texts(out@) == verification_report(*r),
{
    let mut out: Vec<String> = Vec::new();
    if r.is_success() {
        out.push(string_of("✓ All packages verified successfully"));
        out.push(count_line_text(r.successful.len(), "verified"));
        assert(texts(out@) =~= verification_report(*r));
        return out;
    }
    out.push(string_of("❌ Verification failed"));
    out.push(count_line_text(r.successful.len(), "verified"));
    out.push(count_line_text(r.failed.len(), "failed"));
    let ghost head = texts(out@);
    let mut i: usize = 0;
    while i < r.failed.len()
        invariant
            i <= r.failed.len(),
            texts(out@) == head + r.failed@.take(i as int).map_values(|f: (String, String)| failure_line(f)),
        decreases r.failed.len() - i,
    {
        let mut v = chars_of("  ❌ ");
        push_str(&mut v, r.failed[i].0.as_str());
        push_str(&mut v, ": ");
        push_str(&mut v, r.failed[i].1.as_str());
        let ghost before = out@;
        out.push(string_from(&v));
        proof {
            assert(texts(out@) =~= texts(before).push(failure_line(r.failed@[i as int])));
            assert(r.failed@.take(i as int + 1).map_values(|f: (String, String)| failure_line(f))
                =~= r.failed@.take(i as int).map_values(|f: (String, String)| failure_line(f)).push(failure_line(r.failed@[i as int])));
        }
        i = i + 1;
    }
    assert(r.failed@.take(r.failed@.len() as int) =~= r.failed@);
    out
}

/// The outcome of a verification: an error naming how many packages
/// failed, if any did.
pub fn verification_outcome(r: &VerificationResult) -> (out: DepotResult<()>)
    ensures
        if r.failed@.len() == 0 {
            out is Ok
        } else {
            out matches Err(DepotError::Package(m)) && m@ == "Verification failed for "@ + decimal(
                r.failed@.len(),
            ) + " package(s)"@
        },
{
    if r.is_success() {
        return Ok(());
    }
    let mut v = chars_of("Verification failed for ");
    let d = decimal_chars(r.failed.len() as u64);
    push_chars(&mut v, d.as_slice());
    push_str(&mut v, " package(s)");
    Err(DepotError::Package(string_from(&v)))
}

/// The outcome of a security audit: an error when it found a critical or
/// a high severity vulnerability, naming the worst.
pub fn audit_outcome(has_critical: bool, has_high: bool) -> (r: DepotResult<()>)
    ensures
        if has_critical {
            r matches Err(DepotError::AuditFailed(m)) && m@ == "Found critical severity vulnerabilities"@
        } else if has_high {
            r matches Err(DepotError::AuditFailed(m)) && m@ == "Found high severity vulnerabilities"@
        } else {
            r is Ok
        },
{
    if has_critical {
        return Err(DepotError::AuditFailed(string_of("Found critical severity vulnerabilities")));
    }
    if has_high {
        return Err(DepotError::AuditFailed(string_of("Found high severity vulnerabilities")));
    }
    Ok(())
}

} // verus!
