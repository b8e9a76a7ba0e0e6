use depot::lua_wrappers::{compile_failure, WrapperGenerator};
use std::path::Path;

const HOME: &str = "/tmp/depot-wrapper-test-home";

#[test]
fn test_wrapper_generator_new() {
    let generator = WrapperGenerator::new(HOME);
    assert!(Path::new(generator.bin_dir()).ends_with("bin"));
}

#[test]
fn test_wrapper_generator_bin_dir_path() {
    let generator = WrapperGenerator::new(HOME);
    let expected = Path::new(HOME).join("bin");
    assert_eq!(Path::new(generator.bin_dir()), expected.as_path());
}

#[test]
fn test_print_setup_instructions() {
    let generator = WrapperGenerator::new(HOME);
    let lines = generator.setup_instructions("linux");
    assert_eq!(lines.len(), 6);
    assert_eq!(lines[2], format!("  {}/bin", HOME));
    assert_eq!(lines[5], format!("  export PATH=\"{}/bin$PATH\"", HOME));
    let lines = generator.setup_instructions("windows");
    assert_eq!(lines[4], "On Windows, you can add it permanently with:");
    assert_eq!(lines[5], format!("  setx PATH \"%PATH%;{}/bin\"", HOME));
}

#[test]
fn test_generate_creates_bin_dir() {
    let generator = WrapperGenerator::new(HOME);
    assert!(!Path::new(generator.bin_dir()).exists());
    assert!(Path::new(generator.bin_dir()).ends_with("bin"));
}

#[test]
fn test_wrapper_generator_bin_dir_is_absolute() {
    let generator = WrapperGenerator::new(HOME);
    if Path::new(HOME).is_absolute() {
        assert!(Path::new(generator.bin_dir()).is_absolute());
    }
}

#[test]
fn wrapper_paths_and_failure() {
    let generator = WrapperGenerator::new("/h");
    assert_eq!(generator.source_path("lua"), "/h/bin/lua_wrapper.rs");
    assert_eq!(generator.output_path("luac", "linux"), "/h/bin/luac");
    assert_eq!(generator.output_path("lua", "windows"), "/h/bin/lua.exe");
    assert_eq!(
        compile_failure("lua").to_string(),
        "Package error: Failed to compile lua wrapper. Make sure rustc is available."
    );
}
