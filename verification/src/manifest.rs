//! The build-manifest collaborator: the one thing the configuration needs
//! from the payload's manifest is the project name, and reading it is
//! delegated to the manifest parser of the `toml` crate.

use vstd::prelude::*;

use crate::errors::{ConfigError, Error, SpecError};

verus! {

/// The `name` string under the `[package]` table of manifest text, when
/// the text parses as a manifest that carries one. What this is for any
/// given text is fixed by the manifest grammar, which the library does not
/// restate; it relies only on the result being a function of the text.
pub uninterp spec fn manifest_package_name(text: Seq<char>) -> Option<Seq<char>>;

/// Relies on `toml::Table`'s `FromStr` impl together with `Map::get` and
/// the `toml::Value` variants: parsing manifest text and extracting the
/// `name` string under its `[package]` table depends on the text alone.
#[verifier::external_body]
fn read_package_name(text: &str) -> (r: Option<String>)
    ensures
        r is Some <==> manifest_package_name(text@) is Some,
        r matches Some(n) ==> manifest_package_name(text@) == Some(n@),
{
    let table = match <toml::Table as core::str::FromStr>::from_str(text) {
        Ok(t) => t,
        Err(_) => return None,
    };
    match table.get("package") {
        Some(toml::Value::Table(package)) => match package.get("name") {
            Some(toml::Value::String(name)) => Some(name.clone()),
            _ => None,
        },
        _ => None,
    }
}

/// The project name carried by the manifest text; text that yields no name
/// is a fatal configuration error.
pub fn manifest_project_name(text: &str) -> (r: Result<String, Error>)
    ensures
        match r {
            Ok(n) => manifest_package_name(text@) == Some(n@),
            Err(e) => manifest_package_name(text@) is None && e@ == SpecError::Config(
                ConfigError::NoProjectName,
            ),
        },
{
    match read_package_name(text) {
        Some(n) => Ok(n),
        None => Err(Error::Config(ConfigError::NoProjectName)),
    }
}

} // verus!
