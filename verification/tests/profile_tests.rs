use bootuefi::Config;

fn unset() -> Config {
    Config::default()
}

#[test]
fn unset_config_resolves_to_defaults() {
    let p = unset().build_profile(false, "ESP");
    assert_eq!(p.qemu, "qemu-system-x86_64");
    assert_eq!(p.test_success_exit_code, 0);
    assert_eq!(p.test_timeout, 300);
    assert_eq!(
        p.args,
        vec![
            "-nodefaults".to_string(),
            "-machine".to_string(),
            "q35,accel=kvm:tcg".to_string(),
            "-vga".to_string(),
            "std".to_string(),
            "-bios".to_string(),
            "OVMF.fd".to_string(),
            "-drive".to_string(),
            "format=raw,file=fat:rw:ESP".to_string(),
        ]
    );
}

#[test]
fn baseline_is_omitted_when_default_args_is_false() {
    let mut c = unset();
    c.default_args = Some(false);
    c.run_args = Some(vec!["-x".to_string()]);
    let p = c.build_profile(false, "/tmp/esp");
    assert_eq!(
        p.args,
        vec![
            "-x".to_string(),
            "-bios".to_string(),
            "OVMF.fd".to_string(),
            "-drive".to_string(),
            "format=raw,file=fat:rw:/tmp/esp".to_string(),
        ]
    );
}

#[test]
fn test_mode_takes_test_args_not_run_args() {
    let mut c = unset();
    c.run_args = Some(vec!["-foo".to_string()]);
    c.test_args = Some(vec!["-t".to_string()]);
    c.default_args = Some(false);
    let p = c.build_profile(true, "e");
    assert_eq!(p.args[0], "-t");
    assert!(!p.args.contains(&"-foo".to_string()));
}

#[test]
fn configured_bios_and_qemu_are_used() {
    let mut c = unset();
    c.qemu = Some("qemu-system-aarch64".to_string());
    c.bios = Some("fw.fd".to_string());
    c.default_args = Some(false);
    let p = c.build_profile(false, "e");
    assert_eq!(p.qemu, "qemu-system-aarch64");
    assert_eq!(p.args, vec![
        "-bios".to_string(),
        "fw.fd".to_string(),
        "-drive".to_string(),
        "format=raw,file=fat:rw:e".to_string(),
    ]);
}

#[test]
fn configured_timeout_and_success_code_are_kept() {
    let mut c = unset();
    c.test_timeout = Some(7);
    c.test_success_exit_code = Some(33);
    let p = c.build_profile(true, "e");
    assert_eq!(p.test_timeout, 7);
    assert_eq!(p.test_success_exit_code, 33);
}
