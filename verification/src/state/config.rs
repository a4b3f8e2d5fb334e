//! The settings in their flat form: one value for each variable of the
//! environment, none of them optional.

use vstd::prelude::*;

verus! {

/// What the process needs to listen and to reach its database.
#[derive(Debug, Clone)]
pub struct Config {
    pub server_port: u16,
    pub postgres_user: String,
    pub postgres_password: String,
    pub postgres_host: String,
    pub postgres_port: u16,
    pub postgres_database: String,
    pub postgres_ssl_mode: String,
}

} // verus!
