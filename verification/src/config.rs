//! Configuration loading: the text of a configuration document is parsed
//! into a table, or the load fails with an error the coordinator can report
//! and recover from. The document's structure is opaque to the rest of the
//! system: nothing here inspects the parsed table.

use vstd::prelude::*;

verus! {

/// Whether `s` is a well-formed configuration document, exactly as the
/// parser decides it; the outcome depends on the text alone.
pub uninterp spec fn toml_parses(s: Seq<char>) -> bool;

#[verifier::external_type_specification]
#[verifier::external_body]
#[verifier::reject_recursive_types(K)]
#[verifier::reject_recursive_types(V)]
pub struct ExTomlMap<K, V>(toml::map::Map<K, V>);

#[verifier::external_type_specification]
#[verifier::external_body]
pub struct ExTomlValue(toml::Value);

#[verifier::external_type_specification]
#[verifier::external_body]
pub struct ExTomlDeError(toml::de::Error);

/// Relies on toml::from_str for toml::Table: it returns the parsed table
/// exactly when the document is well-formed TOML, and that verdict is a
/// function of the text alone.
#[verifier::external_body]
fn parse_table(s: &str) -> (r: Result<toml::Table, toml::de::Error>)
    ensures
        r is Ok <==> toml_parses(s@),
{
    toml::from_str(s)
}

/// A loaded configuration. Its contents are opaque: the mini-system keeps
/// the table only to hand it on, never to inspect it.
pub struct Config {
    table: toml::Table,
}

/// Why a configuration failed to load.
#[derive(Debug, Clone, Copy, PartialEq, Eq, Structural)]
pub enum ConfigError {
    /// No configuration text was available (for instance, no file).
    Missing,
    /// The text was present but is not a well-formed document.
    Invalid,
}

/// Loads a configuration from the document text, if any was available.
/// Fails with `Missing` when there is no text and with `Invalid` exactly
/// when the text does not parse.
pub fn load_config(text: Option<&str>) -> (r: Result<Config, ConfigError>)
    ensures
        r is Ok <==> (text matches Some(s) && toml_parses(s@)),
        text is None ==> (r matches Err(e) && e == ConfigError::Missing),
        (text matches Some(s) && !toml_parses(s@)) ==> (r matches Err(e) && e
            == ConfigError::Invalid),
{
    match text {
        None => Err(ConfigError::Missing),
        Some(s) => match parse_table(s) {
            Ok(table) => Ok(Config { table }),
            Err(_) => Err(ConfigError::Invalid),
        },
    }
}

} // verus!
