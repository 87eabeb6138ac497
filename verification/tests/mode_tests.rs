use bootuefi::boot_dir_components;
use bootuefi::boot_file_name;
use bootuefi::is_test;
use bootuefi::str_eq;

#[test]
fn executable_under_deps_is_a_test() {
    assert!(is_test("target/debug/deps/demo-1a2b3c"));
    assert!(is_test("deps/demo"));
    assert!(is_test("/deps/demo"));
}

#[test]
fn executable_elsewhere_is_a_run() {
    assert!(!is_test("target/debug/demo"));
    assert!(!is_test("demo"));
    assert!(!is_test("a/deps"));
    assert!(!is_test("target/mydeps/demo"));
    assert!(!is_test(""));
}

#[test]
fn esp_layout_is_fixed() {
    let dirs = boot_dir_components();
    assert_eq!(dirs, vec!["EFI".to_string(), "BOOT".to_string()]);
    assert_eq!(boot_file_name(), "BOOTX64.EFI");
}

#[test]
fn str_eq_compares_characters() {
    assert!(str_eq("", ""));
    assert!(str_eq("deps", "deps"));
    assert!(!str_eq("deps", "dep"));
    assert!(!str_eq("deps", "dEps"));
}
