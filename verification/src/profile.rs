//! Resolving a configuration into a launch profile.
//!
//! A profile is fully determined: every optional field of the
//! configuration has been replaced by its value or its default, and the
//! final argument list has been assembled in its fixed order — the
//! mode-specific arguments, then (unless switched off) the baseline
//! argument set, then the firmware flag and the drive flag, last.
//!
//! The baseline argument set disables the emulator's default virtual
//! devices, selects a modern machine type with hardware acceleration when
//! available, and selects a standard graphics adapter.  It deliberately
//! holds no serial-console redirection flag: serial output stays where the
//! emulator puts it by default.

use vstd::prelude::*;
use crate::config::Config;
use crate::config::ConfigV;
use crate::config::views_of;

verus! {

/// Fully resolved execution parameters for one emulator invocation.
#[derive(Debug)]
pub struct Profile {
    /// Emulator executable.
    pub qemu: String,
    /// The final argument list.
    pub args: Vec<String>,
    /// The emulator exit code that counts as a passing test.
    pub test_success_exit_code: i32,
    /// Test timeout in seconds.
    pub test_timeout: u32,
}

/// The mathematical content of a [`Profile`].
pub ghost struct ProfileV {
    pub qemu: Seq<char>,
    pub args: Seq<Seq<char>>,
    pub test_success_exit_code: i32,
    pub test_timeout: u32,
}

impl View for Profile {
    type V = ProfileV;

    open spec fn view(&self) -> ProfileV {
        ProfileV {
            qemu: self.qemu@,
            args: views_of(self.args@),
            test_success_exit_code: self.test_success_exit_code,
            test_timeout: self.test_timeout,
        }
    }
}

/// The emulator executable used when none is configured.
pub open spec fn default_qemu() -> Seq<char> {
    "qemu-system-x86_64"@
}

/// The firmware image used when none is configured.
pub open spec fn default_bios() -> Seq<char> {
    "OVMF.fd"@
}

/// The timeout, in seconds, used when none is configured.
pub open spec fn default_timeout() -> u32 {
    300
}

/// The baseline argument set appended unless `default-args` is `false`.
pub open spec fn baseline_args() -> Seq<Seq<char>> {
    seq!["-nodefaults"@, "-machine"@, "q35,accel=kvm:tcg"@, "-vga"@, "std"@]
}

/// The drive flag's value: a raw-format virtual disk backed by the ESP
/// directory as a FAT filesystem.
pub open spec fn drive_value(esp: Seq<char>) -> Seq<char> {
    "format=raw,file=fat:rw:"@ + esp
}

/// An optional argument list, or empty.
pub open spec fn or_empty(o: Option<Seq<Seq<char>>>) -> Seq<Seq<char>> {
    match o {
        Some(s) => s,
        None => Seq::empty(),
    }
}

/// The final argument list: the mode-specific arguments, then the baseline
/// set unless `default-args` is `false`, then the firmware flag and the
/// drive flag.
pub open spec fn resolved_args(c: ConfigV, is_test: bool, esp: Seq<char>) -> Seq<Seq<char>> {
    let base = if is_test {
        or_empty(c.test_args)
    } else {
        or_empty(c.run_args)
    };
    let with_defaults = if c.default_args != Some(false) {
        base + baseline_args()
    } else {
        base
    };
    with_defaults + seq![
        "-bios"@,
        match c.bios {
            Some(b) => b,
            None => default_bios(),
        },
        "-drive"@,
        drive_value(esp),
    ]
}

/// The profile a configuration resolves to for the given mode and ESP
/// directory path.
pub open spec fn resolved_profile(c: ConfigV, is_test: bool, esp: Seq<char>) -> ProfileV {
    ProfileV {
        qemu: match c.qemu {
            Some(q) => q,
            None => default_qemu(),
        },
        args: resolved_args(c, is_test, esp),
        test_success_exit_code: match c.test_success_exit_code {
            Some(code) => code,
            None => 0,
        },
        test_timeout: match c.test_timeout {
            Some(t) => t,
            None => default_timeout(),
        },
    }
}

/// Law: a configuration with no `test-timeout` resolves to a timeout of
/// 300 seconds.
pub proof fn lemma_unset_timeout_resolves_to_300(c: ConfigV, is_test: bool, esp: Seq<char>)
    requires
        c.test_timeout is None,
    ensures
        resolved_profile(c, is_test, esp).test_timeout == 300,
{
}

/// Law: when `default-args` is unset or `true`, the resolved argument list
/// is the mode-specific arguments, then the fixed baseline set, then the
/// firmware flag and the drive flag, last, in that order.
pub proof fn lemma_baseline_then_firmware_then_drive(c: ConfigV, is_test: bool, esp: Seq<char>)
    requires
        c.default_args is None || c.default_args == Some(true),
    ensures
        resolved_args(c, is_test, esp) == (if is_test {
            or_empty(c.test_args)
        } else {
            or_empty(c.run_args)
        }) + baseline_args() + seq![
            "-bios"@,
            match c.bios {
                Some(b) => b,
                None => default_bios(),
            },
            "-drive"@,
            drive_value(esp),
        ],
{
}

impl Config {
    /// Resolve this configuration into a launch profile for the given mode
    /// and ESP directory path.  Every field of the result is pinned by
    /// [`resolved_profile`]; in particular an absent `test-timeout`
    /// resolves to 300 seconds and an absent `test-success-exit-code` to 0.
    pub fn build_profile(self, is_test: bool, esp: &str) -> (p: Profile)
        ensures
            p@ == resolved_profile(self@, is_test, esp@),
    {
        let ghost cv = self@;
        let qemu = match self.qemu {
            Some(q) => q,
            None => String::from_str("qemu-system-x86_64"),
        };
        let bios = match self.bios {
            Some(b) => b,
            None => String::from_str("OVMF.fd"),
        };
        let mut args: Vec<String> = if is_test {
            match self.test_args {
                Some(a) => a,
                None => Vec::new(),
            }
        } else {
            match self.run_args {
                Some(a) => a,
                None => Vec::new(),
            }
        };
        let ghost base = views_of(args@);
        proof {
            assert(base =~= (if is_test {
                or_empty(cv.test_args)
            } else {
                or_empty(cv.run_args)
            }));
        }
        let use_defaults = match self.default_args {
            Some(b) => b,
            None => true,
        };
        if use_defaults {
            args.push(String::from_str("-nodefaults"));
            args.push(String::from_str("-machine"));
            args.push(String::from_str("q35,accel=kvm:tcg"));
            args.push(String::from_str("-vga"));
            args.push(String::from_str("std"));
            proof {
                assert(views_of(args@) =~= base + baseline_args());
            }
        }
        args.push(String::from_str("-bios"));
        args.push(bios);
        args.push(String::from_str("-drive"));
        args.push(String::from_str("format=raw,file=fat:rw:").concat(esp));
        let p = Profile {
            qemu,
            args,
            test_success_exit_code: match self.test_success_exit_code {
                Some(code) => code,
                None => 0,
            },
            test_timeout: match self.test_timeout {
                Some(t) => t,
                None => 300,
            },
        };
        proof {
            assert(p@.args =~= resolved_args(cv, is_test, esp@));
        }
        p
    }
}

} // verus!
