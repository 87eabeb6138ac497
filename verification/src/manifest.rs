//! The bridge to the TOML parser.
//!
//! The manifest text is handed to the `toml` crate, and what comes back is
//! copied, variant by variant, into the crate's own [`MetaValue`] model;
//! everything after that point is verified.  Only the two `external_body`
//! functions below are taken on trust: [`toml_doc_of`] names what parsing
//! a given text yields, so that callers' contracts can be exact about it.

use vstd::prelude::*;
use crate::config::Config;
use crate::config::ConfigError;
use crate::config::ConfigErrorV;
use crate::config::config_of_document;
use crate::config::read_entries;
use crate::config::result_view;
use crate::config::ConfigV;
use crate::meta::MetaValue;

verus! {

#[verifier::external_type_specification]
#[verifier::external_body]
pub struct ExTomlValue(toml::Value);

/// What a manifest text parses to: the parsed document's top-level table,
/// carried over into [`MetaValue`], or `None` when the text is not
/// well-formed TOML.  Parsing is a function of the text alone; this name
/// stands for its result.
pub uninterp spec fn toml_doc_of(s: Seq<char>) -> Option<MetaValue>;

/// Relies on toml's document parser,
/// `<toml::Table as core::str::FromStr>::from_str`, which returns the
/// document's top-level table exactly when the text is well-formed TOML,
/// and on `toml::map::Map::iter` to hand that table's entries over, in the
/// map's key order; [`meta_of_value`] carries each value into the crate's
/// own model.
#[verifier::external_body]
fn parse_manifest(s: &str) -> (r: Option<MetaValue>)
    ensures
        r == toml_doc_of(s@),
{
    match s.parse::<toml::Table>() {
        Ok(t) => Some(MetaValue::Table(
            t.iter().map(|(k, v)| (k.clone(), meta_of_value(v))).collect(),
        )),
        Err(_) => None,
    }
}

/// Relies on matching `toml::Value` itself: each variant's payload is
/// copied into the crate's own model, one arm per variant.  Floats and
/// datetimes, whose payloads the configuration never accepts, are
/// collapsed to [`MetaValue::Other`].
#[verifier::external_body]
fn meta_of_value(v: &toml::Value) -> MetaValue {
    match v {
        toml::Value::String(s) => MetaValue::Str(s.clone()),
        toml::Value::Integer(i) => MetaValue::Int(*i),
        toml::Value::Float(_) => MetaValue::Other,
        toml::Value::Boolean(b) => MetaValue::Bool(*b),
        toml::Value::Datetime(_) => MetaValue::Other,
        toml::Value::Array(a) => MetaValue::Arr(a.iter().map(meta_of_value).collect()),
        toml::Value::Table(t) => MetaValue::Table(
            t.iter().map(|(k, x)| (k.clone(), meta_of_value(x))).collect(),
        ),
    }
}

/// Whichever entries a configuration table holds, reading them is refused
/// only with an `InvalidConfig` error.
pub proof fn lemma_table_errors_are_invalid(c: ConfigV, entries: Seq<(String, MetaValue)>)
    ensures
        read_entries(c, entries) matches Err(e) ==> e is InvalidConfig,
    decreases entries.len(),
{
    if entries.len() > 0 {
        match crate::config::apply_entry(c, entries[0].0, entries[0].1) {
            Ok(c2) => {
                lemma_table_errors_are_invalid(c2, entries.drop_first());
            },
            Err(_) => {},
        }
    }
}

/// Whichever document the manifest parses to, reading its configuration is
/// refused only with an `InvalidConfig` error.
pub proof fn lemma_document_errors_are_invalid(doc: MetaValue)
    ensures
        config_of_document(doc) matches Err(e) ==> e is InvalidConfig,
{
    match crate::config::metadata_of_document(doc) {
        Some(md) => match md {
            MetaValue::Table(entries) => {
                lemma_table_errors_are_invalid(crate::config::unset_config(), entries@);
            },
            _ => {},
        },
        None => {},
    }
}

impl Config {
    /// Read the configuration from the text of a project manifest: refused
    /// as malformed exactly when the text is not well-formed TOML, and
    /// otherwise read from the parsed document exactly as
    /// [`config_of_document`] says.
    pub fn from_manifest_str(manifest: &str) -> (r: Result<Config, ConfigError>)
        ensures
            result_view(r) == (match toml_doc_of(manifest@) {
                None => Err::<ConfigV, ConfigErrorV>(ConfigErrorV::ManifestMalformed),
                Some(doc) => config_of_document(doc),
            }),
            r matches Err(e) ==> e@ is ManifestMalformed || e@ is InvalidConfig,
    {
        match parse_manifest(manifest) {
            None => Err(ConfigError::ManifestMalformed),
            Some(doc) => {
                let r = Self::of_document(&doc);
                proof {
                    lemma_document_errors_are_invalid(doc);
                }
                r
            },
        }
    }
}

} // verus!
