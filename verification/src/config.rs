//! User-configurable application settings.
use vstd::prelude::*;
use crate::text::owned;

verus! {

/// User-configurable application settings. The application version comes
/// from the package and is not written into the configuration file.
#[derive(Debug, Clone)]
pub struct Config {
    pub company_name: String,
    pub database_file: String,
    pub version: String,
}

impl Config {
    /// The settings used when no configuration file exists yet, for the
    /// application version `version`.
    pub fn with_version(version: String) -> (c: Config)
        ensures
            c.company_name@ == "The Core Storage"@,
            c.database_file@ == "StorageManager.db"@,
            c.version == version,
    {
        Config {
            company_name: owned("The Core Storage"),
            database_file: owned("StorageManager.db"),
            version,
        }
    }
}

} // verus!
