//! The `lua` and `luac` wrappers that pick the Lua version of a project:
//! where they go, what they are called, and what is said about them.
use vstd::prelude::*;
use crate::error::DepotError;
use crate::paths::{join_path, path_join};
use crate::text::{chars_of, push_str, string_from};

verus! {

/// Generates the `lua` and `luac` wrapper executables.
#[derive(Debug)]
pub struct WrapperGenerator {
    bin_dir: String,
}

impl WrapperGenerator {
    /// The directory that the wrappers go into.
    pub closed spec fn bin_path(&self) -> Seq<char> {
        self.bin_dir@
    }

    /// A generator for the Depot home `lpm_home`: its wrappers go into
    /// its `bin` directory.
    pub fn new(lpm_home: &str) -> (r: Self)
        ensures
            r.bin_path() == path_join(lpm_home@, "bin"@),
    {
        WrapperGenerator { bin_dir: join_path(lpm_home, "bin") }
    }

    /// The directory that the wrappers go into.
    pub fn bin_dir(&self) -> (r: &str)
        ensures
            r@ == self.bin_path(),
    {
        self.bin_dir.as_str()
    }

    /// Where the source of a wrapper is written before it is compiled.
    pub fn source_path(&self, binary: &str) -> (r: String)
        ensures
            r@ == path_join(self.bin_path(), binary@ + "_wrapper.rs"@),
    {
        let mut f = chars_of(binary);
        push_str(&mut f, "_wrapper.rs");
        let name = string_from(&f);
        join_path(self.bin_dir.as_str(), name.as_str())
    }

    /// Where a compiled wrapper goes on the operating system `os`: the
    /// binary's name, with `.exe` on Windows.
    pub fn output_path(&self, binary: &str, os: &str) -> (r: String)
        ensures
            r@ == path_join(
                self.bin_path(),
                if os@ == "windows"@ {
                    binary@ + ".exe"@
                } else {
                    binary@
                },
            ),
    {
        let mut f = chars_of(binary);
        if crate::text::str_eq(os, "windows") {
            push_str(&mut f, ".exe");
        }
        let name = string_from(&f);
        join_path(self.bin_dir.as_str(), name.as_str())
    }

    /// The lines that tell the user how to put the wrappers on `PATH`, on
    /// the operating system `os`.
    pub fn setup_instructions(&self, os: &str) -> (r: Vec<String>)
        ensures
            r@.len() == 6,
            r@[0]@ == Seq::<char>::empty(),
            r@[1]@ == "To use Depot-managed Lua versions, add this to your PATH:"@,
            r@[2]@ == "  "@ + self.bin_path(),
            r@[3]@ == Seq::<char>::empty(),
            r@[4]@ == if os@ == "windows"@ {
                "On Windows, you can add it permanently with:"@
            } else {
                "On Unix/macOS, add to your shell profile:"@
            },
            r@[5]@ == if os@ == "windows"@ {
                "  setx PATH \"%PATH%;"@ + self.bin_path() + "\""@
            } else {
                "  export PATH=\""@ + self.bin_path() + "$PATH\""@
            },
    {
        let mut dir_line = chars_of("  ");
        push_str(&mut dir_line, self.bin_dir.as_str());
        let windows = crate::text::str_eq(os, "windows");
        let (how, mut cmd) = if windows {
            (
                chars_of("On Windows, you can add it permanently with:"),
                chars_of("  setx PATH \"%PATH%;"),
            )
        } else {
            (chars_of("On Unix/macOS, add to your shell profile:"), chars_of("  export PATH=\""))
        };
        push_str(&mut cmd, self.bin_dir.as_str());
        if windows {
            push_str(&mut cmd, "\"");
        } else {
            push_str(&mut cmd, "$PATH\"");
        }
        vec![
            String::new(),
            crate::text::string_of("To use Depot-managed Lua versions, add this to your PATH:"),
            string_from(&dir_line),
            String::new(),
            string_from(&how),
            string_from(&cmd),
        ]
    }
}

/// The error when a wrapper does not compile.
pub fn compile_failure(binary: &str) -> (e: DepotError)
    ensures
        e matches DepotError::Package(m) && m@ == "Failed to compile "@ + binary@
            + " wrapper. Make sure rustc is available."@,
{
    let mut v = chars_of("Failed to compile ");
    push_str(&mut v, binary);
    push_str(&mut v, " wrapper. Make sure rustc is available.");
    DepotError::Package(string_from(&v))
}

} // verus!
