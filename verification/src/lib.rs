//! Boot a UEFI executable in an emulator, either interactively or under a
//! bounded-time test harness that maps the emulator's exit status to a verdict.
//!
//! The crate holds the decision logic of the tool: reading the tool's
//! configuration out of a parsed manifest, resolving it into a fully
//! determined launch profile, classifying an invocation as a run or a test,
//! and driving the emulator invocation as a state machine whose transitions
//! are specified exactly. File and process I/O stay with the caller.

mod text;
mod meta;
mod config;
mod manifest;
mod profile;
mod esp;
mod mode;
mod runner;

pub use config::Config;
pub use config::ConfigError;
pub use config::ConfigErrorV;
pub use config::ConfigV;
pub use config::InvalidReason;
pub use config::all_strings;
pub use config::apply_entry;
pub use config::config_of_document;
pub use config::config_of_table;
pub use config::metadata_of_document;
pub use config::read_entries;
pub use config::result_view;
pub use config::string_views;
pub use config::unset_config;
pub use config::views_of;
pub use esp::boot_dir_components;
pub use esp::boot_file_name;
pub use manifest::lemma_document_errors_are_invalid;
pub use manifest::lemma_table_errors_are_invalid;
pub use manifest::toml_doc_of;
pub use meta::MetaValue;
pub use meta::lookup;
pub use meta::lookup_entry;
pub use mode::is_test;
pub use mode::is_test_path;
pub use mode::last_component;
pub use mode::last_slash_at;
pub use profile::Profile;
pub use profile::ProfileV;
pub use profile::baseline_args;
pub use profile::default_bios;
pub use profile::default_qemu;
pub use profile::default_timeout;
pub use profile::drive_value;
pub use profile::lemma_baseline_then_firmware_then_drive;
pub use profile::lemma_unset_timeout_resolves_to_300;
pub use profile::or_empty;
pub use profile::resolved_args;
pub use profile::resolved_profile;
pub use runner::EmuAction;
pub use runner::EmuEvent;
pub use runner::EmuSession;
pub use runner::EmuStatus;
pub use runner::RunError;
pub use runner::action_of;
pub use runner::has_kill_then_reap;
pub use runner::lemma_timeout_failure_saw_kill_and_reap;
pub use runner::lemma_run_mode_passes_code_through;
pub use runner::lemma_signal_fails;
pub use runner::lemma_success_code_passes;
pub use runner::lemma_timeout_kills_and_reaps;
pub use runner::lemma_wrong_code_fails;
pub use runner::run_steps;
pub use runner::step;
pub use text::str_eq;
