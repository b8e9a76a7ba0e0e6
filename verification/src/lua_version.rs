//! Lua version numbers.
use vstd::prelude::*;
use crate::text::{decimal, decimal_chars, push_chars, string_from};

verus! {

/// A Lua version: major, minor and patch numbers.
#[derive(Debug, Clone, Copy, PartialEq, Eq, Structural)]
pub struct LuaVersion {
    pub major: u32,
    pub minor: u32,
    pub patch: u32,
}

impl LuaVersion {
    pub fn new(major: u32, minor: u32, patch: u32) -> (r: Self)
        ensures
            r.major == major,
            r.minor == minor,
            r.patch == patch,
    {
        LuaVersion { major, minor, patch }
    }

    /// The version as "major.minor", as in "5.4".
    pub fn major_minor(&self) -> (r: String)
        ensures
            r@ == decimal(self.major as nat) + seq!['.'] + decimal(self.minor as nat),
    {
        let mut v = decimal_chars(self.major as u64);
        v.push('.');
        let m = decimal_chars(self.minor as u64);
        push_chars(&mut v, m.as_slice());
        string_from(&v)
    }
}

} // verus!
