//! The error type of the library.
use vstd::prelude::*;
use crate::text::{chars_of, decimal, decimal_chars, push_chars, push_str, string_from};

verus! {

/// The kind of a failure of the operating system.
#[derive(Debug, Clone, Copy, PartialEq, Eq, Structural)]
pub enum IoKind {
    NotFound,
    PermissionDenied,
    /// Any other kind.
    Other,
}

/// Errors of the package manager.  The variants that stand for a failure of
/// the operating system or of a network or format library carry that
/// failure's message (and, for the operating system, its kind).
#[derive(Debug)]
pub enum DepotError {
    Io { kind: IoKind, message: String },
    Yaml(String),
    Http(String),
    Path(String),
    Config(String),
    Package(String),
    Version(String),
    Cache(String),
    NotImplemented(String),
    Lua(String),
    WalkDir(String),
    /// A subprocess exited with a non-zero status code.
    SubprocessExit(i32),
    /// A security audit found critical or high severity vulnerabilities.
    AuditFailed(String),
}

pub type DepotResult<T> = Result<T, DepotError>;

/// The decimal notation of a signed number.
pub open spec fn signed_decimal(n: i32) -> Seq<char> {
    if n < 0 {
        seq!['-'] + decimal((-(n as int)) as nat)
    } else {
        decimal(n as nat)
    }
}

/// The message of an error, as it is shown to the user.
pub open spec fn error_text(e: DepotError) -> Seq<char> {
    match e {
        DepotError::Io { message, .. } => "IO error: "@ + message@,
        DepotError::Yaml(m) => "YAML parsing error: "@ + m@,
        DepotError::Http(m) => "HTTP error: "@ + m@,
        DepotError::Path(m) => "Path error: "@ + m@,
        DepotError::Config(m) => "Configuration error: "@ + m@,
        DepotError::Package(m) => "Package error: "@ + m@,
        DepotError::Version(m) => "Version error: "@ + m@,
        DepotError::Cache(m) => "Cache error: "@ + m@,
        DepotError::NotImplemented(m) => "Not implemented: "@ + m@,
        DepotError::Lua(m) => "Lua error: "@ + m@,
        DepotError::WalkDir(m) => "WalkDir error: "@ + m@,
        DepotError::SubprocessExit(c) => "Command exited with code "@ + signed_decimal(c),
        DepotError::AuditFailed(m) => "Security audit failed: "@ + m@,
    }
}

/// The decimal notation of a signed number.
pub fn signed_decimal_chars(n: i32) -> (r: Vec<char>)
    ensures
        r@ == signed_decimal(n),
{
    if n < 0 {
        let mag: u64 = if n == i32::MIN { 2147483648u64 } else { (-n) as u64 };
        let mut v: Vec<char> = Vec::new();
        v.push('-');
        let d = decimal_chars(mag);
        push_chars(&mut v, d.as_slice());
        v
    } else {
        decimal_chars(n as u64)
    }
}

fn prefixed(prefix: &str, m: &String) -> (r: String)
    ensures
        r@ == prefix@ + m@,
{
    let mut v = chars_of(prefix);
    push_str(&mut v, m.as_str());
    string_from(&v)
}

impl DepotError {
    /// The message of the error, as it is shown to the user.
    pub fn to_string(&self) -> (r: String)
        ensures
            r@ == error_text(*self),
    {
        match self {
            DepotError::Io { message, .. } => prefixed("IO error: ", message),
            DepotError::Yaml(m) => prefixed("YAML parsing error: ", m),
            DepotError::Http(m) => prefixed("HTTP error: ", m),
            DepotError::Path(m) => prefixed("Path error: ", m),
            DepotError::Config(m) => prefixed("Configuration error: ", m),
            DepotError::Package(m) => prefixed("Package error: ", m),
            DepotError::Version(m) => prefixed("Version error: ", m),
            DepotError::Cache(m) => prefixed("Cache error: ", m),
            DepotError::NotImplemented(m) => prefixed("Not implemented: ", m),
            DepotError::Lua(m) => prefixed("Lua error: ", m),
            DepotError::WalkDir(m) => prefixed("WalkDir error: ", m),
            DepotError::SubprocessExit(c) => {
                let mut v = chars_of("Command exited with code ");
                let d = signed_decimal_chars(*c);
                push_chars(&mut v, d.as_slice());
                string_from(&v)
            },
            DepotError::AuditFailed(m) => prefixed("Security audit failed: ", m),
        }
    }
}

/// A message built from a fixed text and a piece of input.
pub fn message(prefix: &str, detail: &[char]) -> (r: String)
    ensures
        r@ == prefix@ + detail@,
{
    let mut v = chars_of(prefix);
    push_chars(&mut v, detail);
    string_from(&v)
}

} // verus!
