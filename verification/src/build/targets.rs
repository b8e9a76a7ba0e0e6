//! Cross-compilation targets.
use vstd::prelude::*;
use crate::error::{DepotError, DepotResult};
use crate::text::{chars_of, contains_seq, contains_str, push_str, str_eq, string_from, string_of};

verus! {

/// Supported cross-compilation targets
pub const SUPPORTED_TARGETS: [&'static str; 6] = [
    "x86_64-unknown-linux-gnu",
    "x86_64-unknown-linux-musl",
    "aarch64-unknown-linux-gnu",
    "x86_64-pc-windows-gnu",
    "x86_64-apple-darwin",
    "aarch64-apple-darwin",
];

/// The supported target triples, in order.
pub open spec fn supported_triples() -> Seq<Seq<char>> {
    seq![
        "x86_64-unknown-linux-gnu"@,
        "x86_64-unknown-linux-musl"@,
        "aarch64-unknown-linux-gnu"@,
        "x86_64-pc-windows-gnu"@,
        "x86_64-apple-darwin"@,
        "aarch64-apple-darwin"@,
    ]
}

/// The error message for an unsupported target.
pub open spec fn unsupported_message(triple: Seq<char>) -> Seq<char> {
    "Unsupported target '"@ + triple
        + "'. Supported targets: x86_64-unknown-linux-gnu, x86_64-unknown-linux-musl, aarch64-unknown-linux-gnu, x86_64-pc-windows-gnu, x86_64-apple-darwin, aarch64-apple-darwin"@
}

/// The extension of native modules for a target triple.
pub open spec fn extension_for(triple: Seq<char>) -> Seq<char> {
    if contains_seq(triple, "windows"@) {
        ".dll"@
    } else if contains_seq(triple, "darwin"@) {
        ".dylib"@
    } else {
        ".so"@
    }
}

/// The default target of a platform, by operating system and architecture
/// names as std reports them.
pub open spec fn default_triple(os: Seq<char>, arch: Seq<char>) -> Seq<char> {
    if os == "linux"@ && arch == "aarch64"@ {
        "aarch64-unknown-linux-gnu"@
    } else if os == "macos"@ && arch == "x86_64"@ {
        "x86_64-apple-darwin"@
    } else if os == "macos"@ && arch == "aarch64"@ {
        "aarch64-apple-darwin"@
    } else if os == "windows"@ {
        "x86_64-pc-windows-gnu"@
    } else {
        "x86_64-unknown-linux-gnu"@
    }
}

/// Represents a build target
#[derive(Debug, Clone, PartialEq, Eq)]
pub struct Target {
    pub triple: String,
}

impl Target {
    /// A target for a supported triple.
    pub fn new(triple: &str) -> (r: DepotResult<Self>)
        ensures
            supported_triples().contains(triple@) ==> (r matches Ok(t) && t.triple@ == triple@),
            !supported_triples().contains(triple@) ==> (r matches Err(DepotError::Package(m))
                && m@ == unsupported_message(triple@)),
    {
        let mut i: usize = 0;
        let ghost ts = supported_triples();
        assert(SUPPORTED_TARGETS@.map_values(|t: &str| t@) =~= ts);
        while i < 6
            invariant
                i <= 6,
                ts == supported_triples(),
                SUPPORTED_TARGETS@.map_values(|t: &str| t@) == ts,
                forall|j: int| 0 <= j < i ==> ts[j] != triple@,
            decreases 6 - i,
        {
            if str_eq(SUPPORTED_TARGETS[i], triple) {
                assert(ts[i as int] == triple@);
                return Ok(Target { triple: string_of(triple) });
            }
            i = i + 1;
        }
        assert(!ts.contains(triple@)) by {
            if ts.contains(triple@) {
                let j = choose|j: int| 0 <= j < ts.len() && ts[j] == triple@;
                assert(ts[j] != triple@);
            }
        }
        let mut v = chars_of("Unsupported target '");
        push_str(&mut v, triple);
        push_str(
            &mut v,
            "'. Supported targets: x86_64-unknown-linux-gnu, x86_64-unknown-linux-musl, aarch64-unknown-linux-gnu, x86_64-pc-windows-gnu, x86_64-apple-darwin, aarch64-apple-darwin",
        );
        Err(DepotError::Package(string_from(&v)))
    }

    /// The default target of a platform, given the names of its operating
    /// system and architecture (as `std::env::consts` gives them).
    pub fn default_target(os: &str, arch: &str) -> (r: Self)
        ensures
            r.triple@ == default_triple(os@, arch@),
    {
        let triple = if str_eq(os, "linux") && str_eq(arch, "aarch64") {
            "aarch64-unknown-linux-gnu"
        } else if str_eq(os, "macos") && str_eq(arch, "x86_64") {
            "x86_64-apple-darwin"
        } else if str_eq(os, "macos") && str_eq(arch, "aarch64") {
            "aarch64-apple-darwin"
        } else if str_eq(os, "windows") {
            "x86_64-pc-windows-gnu"
        } else {
            "x86_64-unknown-linux-gnu"
        };
        Target { triple: string_of(triple) }
    }

    /// Get the file extension for native modules on this target
    pub fn module_extension(&self) -> (r: &'static str)
        ensures
            r@ == extension_for(self.triple@),
    {
        let t = chars_of(self.triple.as_str());
        if contains_str(t.as_slice(), "windows") {
            ".dll"
        } else if contains_str(t.as_slice(), "darwin") {
            ".dylib"
        } else {
            ".so"
        }
    }
}

} // verus!
