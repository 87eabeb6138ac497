use bootuefi::Config;
use bootuefi::ConfigError;
use bootuefi::InvalidReason;
use bootuefi::MetaValue;

#[test]
fn full_manifest_is_read() {
    let manifest = r#"
[package]
name = "demo"
version = "0.1.0"

[package.metadata.bootuefi]
qemu = "qemu-system-aarch64"
bios = "firmware.fd"
default-args = false
run-args = ["-serial", "stdio"]
test-args = ["-display", "none"]
test-success-exit-code = 42
test-timeout = 120
"#;
    let c = Config::from_manifest_str(manifest).unwrap();
    assert_eq!(c.qemu.as_deref(), Some("qemu-system-aarch64"));
    assert_eq!(c.bios.as_deref(), Some("firmware.fd"));
    assert_eq!(c.default_args, Some(false));
    assert_eq!(c.run_args, Some(vec!["-serial".to_string(), "stdio".to_string()]));
    assert_eq!(c.test_args, Some(vec!["-display".to_string(), "none".to_string()]));
    assert_eq!(c.test_success_exit_code, Some(42));
    assert_eq!(c.test_timeout, Some(120));
}

#[test]
fn manifest_without_metadata_table_gives_unset_config() {
    let manifest = r#"
[package]
name = "demo"
version = "0.1.0"
"#;
    let c = Config::from_manifest_str(manifest).unwrap();
    assert_eq!(c.qemu, None);
    assert_eq!(c.bios, None);
    assert_eq!(c.run_args, None);
    assert_eq!(c.test_args, None);
    assert_eq!(c.default_args, None);
    assert_eq!(c.test_success_exit_code, None);
    assert_eq!(c.test_timeout, None);
}

#[test]
fn malformed_manifest_is_refused() {
    let r = Config::from_manifest_str("this ][ is not toml");
    assert_eq!(r.unwrap_err(), ConfigError::ManifestMalformed);
}

#[test]
fn negative_timeout_is_refused() {
    let manifest = r#"
[package.metadata.bootuefi]
test-timeout = -1
"#;
    let r = Config::from_manifest_str(manifest);
    assert_eq!(
        r.unwrap_err(),
        ConfigError::InvalidConfig {
            key: "test-timeout".to_string(),
            reason: InvalidReason::NegativeTimeout,
        }
    );
}

#[test]
fn unknown_key_is_refused() {
    let manifest = r#"
[package.metadata.bootuefi]
frobnicate = 1
"#;
    let r = Config::from_manifest_str(manifest);
    assert_eq!(
        r.unwrap_err(),
        ConfigError::InvalidConfig {
            key: "frobnicate".to_string(),
            reason: InvalidReason::Unexpected,
        }
    );
}

#[test]
fn wrongly_typed_value_is_refused() {
    let manifest = r#"
[package.metadata.bootuefi]
qemu = 7
"#;
    let r = Config::from_manifest_str(manifest);
    assert_eq!(
        r.unwrap_err(),
        ConfigError::InvalidConfig { key: "qemu".to_string(), reason: InvalidReason::Unexpected }
    );
}

#[test]
fn non_string_argument_element_is_refused() {
    let manifest = r#"
[package.metadata.bootuefi]
run-args = ["-serial", 3]
"#;
    let r = Config::from_manifest_str(manifest);
    assert_eq!(
        r.unwrap_err(),
        ConfigError::InvalidConfig {
            key: "run-args".to_string(),
            reason: InvalidReason::NonStringElement,
        }
    );
}

#[test]
fn metadata_entry_that_is_not_a_table_is_refused() {
    let manifest = r#"
[package.metadata]
bootuefi = 3
"#;
    let r = Config::from_manifest_str(manifest);
    assert_eq!(
        r.unwrap_err(),
        ConfigError::InvalidConfig {
            key: "package.metadata.bootuefi".to_string(),
            reason: InvalidReason::NotATable,
        }
    );
}

#[test]
fn timeout_above_range_is_refused() {
    let manifest = r#"
[package.metadata.bootuefi]
test-timeout = 4294967296
"#;
    let r = Config::from_manifest_str(manifest);
    assert_eq!(
        r.unwrap_err(),
        ConfigError::InvalidConfig {
            key: "test-timeout".to_string(),
            reason: InvalidReason::OutOfRange,
        }
    );
}

#[test]
fn timeout_at_range_limit_is_kept() {
    let manifest = r#"
[package.metadata.bootuefi]
test-timeout = 4294967295
"#;
    let c = Config::from_manifest_str(manifest).unwrap();
    assert_eq!(c.test_timeout, Some(u32::MAX));
}

#[test]
fn success_exit_code_out_of_range_is_refused() {
    let too_large = vec![(
        "test-success-exit-code".to_string(),
        MetaValue::Int(2147483648),
    )];
    let r = Config::from_metadata(&too_large);
    assert_eq!(
        r.unwrap_err(),
        ConfigError::InvalidConfig {
            key: "test-success-exit-code".to_string(),
            reason: InvalidReason::OutOfRange,
        }
    );

    let too_small = vec![(
        "test-success-exit-code".to_string(),
        MetaValue::Int(-2147483649),
    )];
    let r = Config::from_metadata(&too_small);
    assert_eq!(
        r.unwrap_err(),
        ConfigError::InvalidConfig {
            key: "test-success-exit-code".to_string(),
            reason: InvalidReason::OutOfRange,
        }
    );
}

#[test]
fn success_exit_code_at_range_limits_is_kept() {
    let entries = vec![(
        "test-success-exit-code".to_string(),
        MetaValue::Int(-2147483648),
    )];
    let c = Config::from_metadata(&entries).unwrap();
    assert_eq!(c.test_success_exit_code, Some(i32::MIN));
}

#[test]
fn negative_success_exit_code_is_kept() {
    let manifest = r#"
[package.metadata.bootuefi]
test-success-exit-code = -5
"#;
    let c = Config::from_manifest_str(manifest).unwrap();
    assert_eq!(c.test_success_exit_code, Some(-5));
}

#[test]
fn from_metadata_reads_entries_directly() {
    let entries = vec![
        ("qemu".to_string(), MetaValue::Str("q".to_string())),
        ("test-timeout".to_string(), MetaValue::Int(9)),
    ];
    let c = Config::from_metadata(&entries).unwrap();
    assert_eq!(c.qemu.as_deref(), Some("q"));
    assert_eq!(c.test_timeout, Some(9));
    assert_eq!(c.bios, None);
}

#[test]
fn from_metadata_later_entry_wins() {
    let entries = vec![
        ("qemu".to_string(), MetaValue::Str("first".to_string())),
        ("qemu".to_string(), MetaValue::Str("second".to_string())),
    ];
    let c = Config::from_metadata(&entries).unwrap();
    assert_eq!(c.qemu.as_deref(), Some("second"));
}

#[test]
fn from_metadata_stops_at_first_refused_entry() {
    let entries = vec![
        ("frobnicate".to_string(), MetaValue::Bool(true)),
        ("test-timeout".to_string(), MetaValue::Int(-1)),
    ];
    let r = Config::from_metadata(&entries);
    assert_eq!(
        r.unwrap_err(),
        ConfigError::InvalidConfig {
            key: "frobnicate".to_string(),
            reason: InvalidReason::Unexpected,
        }
    );
}

#[test]
fn array_values_in_arrays_are_not_strings() {
    let entries = vec![(
        "test-args".to_string(),
        MetaValue::Arr(vec![MetaValue::Arr(vec![MetaValue::Str("x".to_string())])]),
    )];
    let r = Config::from_metadata(&entries);
    assert_eq!(
        r.unwrap_err(),
        ConfigError::InvalidConfig {
            key: "test-args".to_string(),
            reason: InvalidReason::NonStringElement,
        }
    );
}
