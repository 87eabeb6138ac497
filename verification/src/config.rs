//! Reading the tool's configuration out of a parsed manifest.
//!
//! The configuration lives in the `package.metadata.bootuefi` table of the
//! project manifest.  Every key is optional; a manifest without the table
//! yields a configuration with every field unset.  An unknown key, a known
//! key with a value of the wrong type, a `test-timeout` that is negative,
//! an integer that does not fit its field's range, or a non-string element
//! of `run-args`/`test-args` is refused.

use vstd::prelude::*;
use crate::meta::MetaValue;
use crate::meta::lookup;
use crate::meta::lookup_entry;
use crate::text::str_eq;

verus! {

/// The optional overrides read from the manifest.  Absent fields are
/// resolved to defaults when a profile is built.
#[derive(Debug)]
pub struct Config {
    /// Emulator executable name.
    pub qemu: Option<String>,
    /// Firmware image path.
    pub bios: Option<String>,
    /// Extra arguments for interactive runs.
    pub run_args: Option<Vec<String>>,
    /// Extra arguments for test runs.
    pub test_args: Option<Vec<String>>,
    /// Whether the baseline argument set is appended.
    pub default_args: Option<bool>,
    /// The emulator exit code that counts as a passing test.
    pub test_success_exit_code: Option<i32>,
    /// Test timeout in seconds.
    pub test_timeout: Option<u32>,
}

/// The character sequences of a sequence of strings.
pub open spec fn views_of(v: Seq<String>) -> Seq<Seq<char>> {
    v.map_values(|s: String| s@)
}

/// The mathematical content of a [`Config`]: each string as its character
/// sequence.
pub ghost struct ConfigV {
    pub qemu: Option<Seq<char>>,
    pub bios: Option<Seq<char>>,
    pub run_args: Option<Seq<Seq<char>>>,
    pub test_args: Option<Seq<Seq<char>>>,
    pub default_args: Option<bool>,
    pub test_success_exit_code: Option<i32>,
    pub test_timeout: Option<u32>,
}

impl View for Config {
    type V = ConfigV;

    open spec fn view(&self) -> ConfigV {
        ConfigV {
            qemu: match self.qemu {
                Some(s) => Some(s@),
                None => None,
            },
            bios: match self.bios {
                Some(s) => Some(s@),
                None => None,
            },
            run_args: match self.run_args {
                Some(v) => Some(views_of(v@)),
                None => None,
            },
            test_args: match self.test_args {
                Some(v) => Some(views_of(v@)),
                None => None,
            },
            default_args: self.default_args,
            test_success_exit_code: self.test_success_exit_code,
            test_timeout: self.test_timeout,
        }
    }
}

/// Why a configuration entry was refused.
#[derive(Clone, Copy, Debug, PartialEq, Eq, Structural)]
pub enum InvalidReason {
    /// The key is not a configuration key, or its value has the wrong type.
    Unexpected,
    /// `test-timeout` was negative.
    NegativeTimeout,
    /// `run-args` or `test-args` held an element that is not a string.
    NonStringElement,
    /// `test-timeout` or `test-success-exit-code` does not fit its
    /// field's range.
    OutOfRange,
    /// The tool's metadata entry is present but is not a table.
    NotATable,
}

/// Why no configuration could be read.
#[derive(Debug, PartialEq, Eq)]
pub enum ConfigError {
    /// No project manifest was found.
    ManifestNotFound,
    /// The project manifest exists but could not be opened or read.
    ManifestUnreadable,
    /// The project manifest is not well-formed TOML.
    ManifestMalformed,
    /// The configuration table holds an entry that is refused; `key` names
    /// the offending entry.
    InvalidConfig { key: String, reason: InvalidReason },
}

/// The mathematical content of a [`ConfigError`].
pub ghost enum ConfigErrorV {
    ManifestNotFound,
    ManifestUnreadable,
    ManifestMalformed,
    InvalidConfig { key: Seq<char>, reason: InvalidReason },
}

impl View for ConfigError {
    type V = ConfigErrorV;

    open spec fn view(&self) -> ConfigErrorV {
        match self {
            ConfigError::ManifestNotFound => ConfigErrorV::ManifestNotFound,
            ConfigError::ManifestUnreadable => ConfigErrorV::ManifestUnreadable,
            ConfigError::ManifestMalformed => ConfigErrorV::ManifestMalformed,
            ConfigError::InvalidConfig { key, reason } => ConfigErrorV::InvalidConfig {
                key: key@,
                reason: *reason,
            },
        }
    }
}

/// The configuration with every field unset.
pub open spec fn unset_config() -> ConfigV {
    ConfigV {
        qemu: None,
        bios: None,
        run_args: None,
        test_args: None,
        default_args: None,
        test_success_exit_code: None,
        test_timeout: None,
    }
}

impl Default for Config {
    /// The configuration with every field unset.
    fn default() -> (c: Config)
        ensures
            c@ == unset_config(),
    {
        Config {
            qemu: None,
            bios: None,
            run_args: None,
            test_args: None,
            default_args: None,
            test_success_exit_code: None,
            test_timeout: None,
        }
    }
}

/// Every element is a string.
pub open spec fn all_strings(items: Seq<MetaValue>) -> bool {
    forall|i: int| 0 <= i < items.len() ==> items[i] is Str
}

/// The character sequences of a sequence of string values.
pub open spec fn string_views(items: Seq<MetaValue>) -> Seq<Seq<char>> {
    items.map_values(|m: MetaValue| m->Str_0@)
}

/// The entry `key = value` refused with this reason.
pub open spec fn invalid(key: String, reason: InvalidReason) -> Result<ConfigV, ConfigErrorV> {
    Err(ConfigErrorV::InvalidConfig { key: key@, reason })
}

/// What one entry of the configuration table does to the configuration
/// read so far: sets the named field, or is refused.
pub open spec fn apply_entry(c: ConfigV, key: String, v: MetaValue) -> Result<
    ConfigV,
    ConfigErrorV,
> {
    if key@ == "qemu"@ {
        match v {
            MetaValue::Str(s) => Ok(ConfigV { qemu: Some(s@), ..c }),
            _ => invalid(key, InvalidReason::Unexpected),
        }
    } else if key@ == "bios"@ {
        match v {
            MetaValue::Str(s) => Ok(ConfigV { bios: Some(s@), ..c }),
            _ => invalid(key, InvalidReason::Unexpected),
        }
    } else if key@ == "default-args"@ {
        match v {
            MetaValue::Bool(b) => Ok(ConfigV { default_args: Some(b), ..c }),
            _ => invalid(key, InvalidReason::Unexpected),
        }
    } else if key@ == "test-success-exit-code"@ {
        match v {
            MetaValue::Int(i) => if i < -2147483648 || i > 2147483647 {
                invalid(key, InvalidReason::OutOfRange)
            } else {
                Ok(ConfigV { test_success_exit_code: Some(i as i32), ..c })
            },
            _ => invalid(key, InvalidReason::Unexpected),
        }
    } else if key@ == "test-timeout"@ {
        match v {
            MetaValue::Int(i) => if i < 0 {
                invalid(key, InvalidReason::NegativeTimeout)
            } else if i > 4294967295 {
                invalid(key, InvalidReason::OutOfRange)
            } else {
                Ok(ConfigV { test_timeout: Some(i as u32), ..c })
            },
            _ => invalid(key, InvalidReason::Unexpected),
        }
    } else if key@ == "run-args"@ {
        match v {
            MetaValue::Arr(items) => if all_strings(items@) {
                Ok(ConfigV { run_args: Some(string_views(items@)), ..c })
            } else {
                invalid(key, InvalidReason::NonStringElement)
            },
            _ => invalid(key, InvalidReason::Unexpected),
        }
    } else if key@ == "test-args"@ {
        match v {
            MetaValue::Arr(items) => if all_strings(items@) {
                Ok(ConfigV { test_args: Some(string_views(items@)), ..c })
            } else {
                invalid(key, InvalidReason::NonStringElement)
            },
            _ => invalid(key, InvalidReason::Unexpected),
        }
    } else {
        invalid(key, InvalidReason::Unexpected)
    }
}

/// The configuration table applied entry by entry, first refusal wins.
pub open spec fn read_entries(c: ConfigV, entries: Seq<(String, MetaValue)>) -> Result<
    ConfigV,
    ConfigErrorV,
>
    decreases entries.len(),
{
    if entries.len() == 0 {
        Ok(c)
    } else {
        match apply_entry(c, entries[0].0, entries[0].1) {
            Ok(c2) => read_entries(c2, entries.drop_first()),
            Err(e) => Err(e),
        }
    }
}

/// The configuration read from the entries of the tool's metadata table.
pub open spec fn config_of_table(entries: Seq<(String, MetaValue)>) -> Result<
    ConfigV,
    ConfigErrorV,
> {
    read_entries(unset_config(), entries)
}

/// The tool's metadata entry of a parsed manifest:
/// `package.metadata.bootuefi`, if the path to it runs through tables.
pub open spec fn metadata_of_document(doc: MetaValue) -> Option<MetaValue> {
    match doc {
        MetaValue::Table(top) => match lookup(top@, "package"@) {
            Some(MetaValue::Table(pkg)) => match lookup(pkg@, "metadata"@) {
                Some(MetaValue::Table(md)) => lookup(md@, "bootuefi"@),
                _ => None,
            },
            _ => None,
        },
        _ => None,
    }
}

/// The configuration read from a whole parsed manifest: every field unset
/// when the tool's metadata entry is absent, refused when that entry is not
/// a table, and otherwise read from the table's entries.
pub open spec fn config_of_document(doc: MetaValue) -> Result<ConfigV, ConfigErrorV> {
    match metadata_of_document(doc) {
        None => Ok(unset_config()),
        Some(md) => match md {
            MetaValue::Table(entries) => config_of_table(entries@),
            _ => Err(
                ConfigErrorV::InvalidConfig {
                    key: "package.metadata.bootuefi"@,
                    reason: InvalidReason::NotATable,
                },
            ),
        },
    }
}

/// A read result as its mathematical content.
pub open spec fn result_view(r: Result<Config, ConfigError>) -> Result<ConfigV, ConfigErrorV> {
    match r {
        Ok(c) => Ok(c@),
        Err(e) => Err(e@),
    }
}

/// Collect the strings of an array entry's elements; refused when an
/// element is not a string.
fn string_elements(key: &String, items: &Vec<MetaValue>) -> (r: Result<Vec<String>, ConfigError>)
    ensures
        match r {
            Ok(out) => all_strings(items@) && views_of(out@) == string_views(
                items@,
            ),
            Err(e) => !all_strings(items@) && e@ == (ConfigErrorV::InvalidConfig {
                key: key@,
                reason: InvalidReason::NonStringElement,
            }),
        },
{
    let n = items.len();
    let mut out: Vec<String> = Vec::new();
    let mut i: usize = 0;
    while i < n
        invariant
            n == items@.len(),
            0 <= i <= n,
            out@.len() == i,
            forall|k: int| 0 <= k < i ==> items@[k] is Str,
            forall|k: int| 0 <= k < i ==> out@[k]@ == items@[k]->Str_0@,
        decreases n - i,
    {
        match &items[i] {
            MetaValue::Str(s) => {
                out.push(s.clone());
            },
            _ => {
                return Err(
                    ConfigError::InvalidConfig {
                        key: key.clone(),
                        reason: InvalidReason::NonStringElement,
                    },
                );
            },
        }
        i += 1;
    }
    proof {
        assert(views_of(out@) =~= string_views(items@));
    }
    Ok(out)
}

impl Config {
    /// Read the configuration from the entries of the tool's metadata
    /// table: each entry sets the field its key names, and the first entry
    /// with an unknown key, a wrongly typed value, a negative
    /// `test-timeout` or a non-string argument element is refused.
    pub fn from_metadata(entries: &Vec<(String, MetaValue)>) -> (r: Result<Config, ConfigError>)
        ensures
            result_view(r) == config_of_table(entries@),
    {
        let n = entries.len();
        let mut c: Config = Default::default();
        let mut i: usize = 0;
        proof {
            assert(entries@.skip(0) =~= entries@);
        }
        while i < n
            invariant
                n == entries@.len(),
                0 <= i <= n,
                read_entries(c@, entries@.skip(i as int)) == config_of_table(entries@),
            decreases n - i,
        {
            let pair = &entries[i];
            proof {
                assert(entries@.skip(i as int)[0] == entries@[i as int]);
                assert(entries@.skip(i as int).drop_first() =~= entries@.skip(i as int + 1));
            }
            let key = &pair.0;
            if str_eq(key.as_str(), "qemu") {
                match &pair.1 {
                    MetaValue::Str(s) => {
                        c.qemu = Some(s.clone());
                    },
                    _ => {
                        return Err(
                            ConfigError::InvalidConfig {
                                key: key.clone(),
                                reason: InvalidReason::Unexpected,
                            },
                        );
                    },
                }
            } else if str_eq(key.as_str(), "bios") {
                match &pair.1 {
                    MetaValue::Str(s) => {
                        c.bios = Some(s.clone());
                    },
                    _ => {
                        return Err(
                            ConfigError::InvalidConfig {
                                key: key.clone(),
                                reason: InvalidReason::Unexpected,
                            },
                        );
                    },
                }
            } else if str_eq(key.as_str(), "default-args") {
                match &pair.1 {
                    MetaValue::Bool(b) => {
                        c.default_args = Some(*b);
                    },
                    _ => {
                        return Err(
                            ConfigError::InvalidConfig {
                                key: key.clone(),
                                reason: InvalidReason::Unexpected,
                            },
                        );
                    },
                }
            } else if str_eq(key.as_str(), "test-success-exit-code") {
                match &pair.1 {
                    MetaValue::Int(v) => {
                        if *v < -2147483648 || *v > 2147483647 {
                            return Err(
                                ConfigError::InvalidConfig {
                                    key: key.clone(),
                                    reason: InvalidReason::OutOfRange,
                                },
                            );
                        }
                        c.test_success_exit_code = Some(*v as i32);
                    },
                    _ => {
                        return Err(
                            ConfigError::InvalidConfig {
                                key: key.clone(),
                                reason: InvalidReason::Unexpected,
                            },
                        );
                    },
                }
            } else if str_eq(key.as_str(), "test-timeout") {
                match &pair.1 {
                    MetaValue::Int(v) => {
                        if *v < 0 {
                            return Err(
                                ConfigError::InvalidConfig {
                                    key: key.clone(),
                                    reason: InvalidReason::NegativeTimeout,
                                },
                            );
                        }
                        if *v > 4294967295 {
                            return Err(
                                ConfigError::InvalidConfig {
                                    key: key.clone(),
                                    reason: InvalidReason::OutOfRange,
                                },
                            );
                        }
                        c.test_timeout = Some(*v as u32);
                    },
                    _ => {
                        return Err(
                            ConfigError::InvalidConfig {
                                key: key.clone(),
                                reason: InvalidReason::Unexpected,
                            },
                        );
                    },
                }
            } else if str_eq(key.as_str(), "run-args") {
                match &pair.1 {
                    MetaValue::Arr(items) => {
                        match string_elements(key, items) {
                            Ok(out) => {
                                c.run_args = Some(out);
                            },
                            Err(e) => {
                                return Err(e);
                            },
                        }
                    },
                    _ => {
                        return Err(
                            ConfigError::InvalidConfig {
                                key: key.clone(),
                                reason: InvalidReason::Unexpected,
                            },
                        );
                    },
                }
            } else if str_eq(key.as_str(), "test-args") {
                match &pair.1 {
                    MetaValue::Arr(items) => {
                        match string_elements(key, items) {
                            Ok(out) => {
                                c.test_args = Some(out);
                            },
                            Err(e) => {
                                return Err(e);
                            },
                        }
                    },
                    _ => {
                        return Err(
                            ConfigError::InvalidConfig {
                                key: key.clone(),
                                reason: InvalidReason::Unexpected,
                            },
                        );
                    },
                }
            } else {
                return Err(
                    ConfigError::InvalidConfig {
                        key: key.clone(),
                        reason: InvalidReason::Unexpected,
                    },
                );
            }
            i += 1;
        }
        Ok(c)
    }

    /// Read the configuration from a whole parsed manifest.
    pub fn of_document(doc: &MetaValue) -> (r: Result<Config, ConfigError>)
        ensures
            result_view(r) == config_of_document(*doc),
    {
        let md: Option<&MetaValue> = match doc {
            MetaValue::Table(top) => match lookup_entry(top, "package") {
                Some(pkg) => match pkg {
                    MetaValue::Table(pkg_entries) => match lookup_entry(pkg_entries, "metadata") {
                        Some(md) => match md {
                            MetaValue::Table(md_entries) => lookup_entry(md_entries, "bootuefi"),
                            _ => None,
                        },
                        None => None,
                    },
                    _ => None,
                },
                None => None,
            },
            _ => None,
        };
        match md {
            None => Ok(Default::default()),
            Some(m) => match m {
                MetaValue::Table(entries) => Self::from_metadata(entries),
                _ => Err(
                    ConfigError::InvalidConfig {
                        key: String::from_str("package.metadata.bootuefi"),
                        reason: InvalidReason::NotATable,
                    },
                ),
            },
        }
    }
}

} // verus!
