//! Building native modules: targets, pre-built binaries and sandboxed
//! cargo builds.
pub mod targets;
pub mod prebuilt;
pub mod sandbox;
