//! Database connection handling.

use vstd::prelude::*;

verus! {

/// Where and how to reach the database.
#[derive(Debug, PartialEq)]
pub struct DatabaseConfig {
    /// Host name of the database server.
    pub host: String,
    /// Port of the database server.
    pub port: u16,
    /// User to connect as.
    pub username: String,
    /// Password to connect with.
    pub password: String,
    /// Name of the database to open.
    pub database_name: String,
}

/// A handle on one database connection.
pub struct DatabaseConnection {
    config: DatabaseConfig,
}

impl DatabaseConnection {
    /// The configuration the connection was made with.
    pub closed spec fn spec_config(&self) -> &DatabaseConfig {
        &self.config
    }

    /// A connection handle for the given configuration.
    pub fn new(config: DatabaseConfig) -> (r: Self)
        ensures
            *r.spec_config() == config,
    {
        DatabaseConnection { config }
    }

    /// Open the connection.
    pub fn connect(&self) {
    }

    /// Close the connection.
    pub fn disconnect(&self) {
    }
}

} // verus!
