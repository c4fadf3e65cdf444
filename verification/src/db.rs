//! The parameters of a connection to the server.

use vstd::prelude::*;
use vstd::string::*;

verus! {

/// Whether the connection must be encrypted.
#[derive(Clone, Copy, Debug, PartialEq, Eq, Structural)]
pub enum SslMode {
    Disable,
    Require,
}

/// All that is needed to open a connection.
#[derive(Clone, Debug, PartialEq, Eq)]
pub struct ConnectionSettings {
    pub host: String,
    pub port: u16,
    pub user: String,
    pub password: String,
    pub dbname: String,
    pub ssl_mode: SslMode,
    pub allow_invalid_cert: bool,
}

/// Encryption is required exactly where TLS was asked for.
pub open spec fn ssl_mode_for(use_tls: bool) -> SslMode {
    if use_tls {
        SslMode::Require
    } else {
        SslMode::Disable
    }
}

/// Prepares a connection to the server: puts its parameters together, and
/// decides from `use_tls` whether it must be encrypted. Opening it is left
/// to the caller.
pub fn connect_to_db(
    host: &str,
    port: u16,
    user: &str,
    password: &str,
    dbname: &str,
    use_tls: bool,
    allow_invalid_cert: bool,
) -> (r: ConnectionSettings)
    ensures
        r.host@ == host@,
        r.port == port,
        r.user@ == user@,
        r.password@ == password@,
        r.dbname@ == dbname@,
        r.ssl_mode == ssl_mode_for(use_tls),
        r.allow_invalid_cert == allow_invalid_cert,
{
    ConnectionSettings {
        host: String::from_str(host),
        port,
        user: String::from_str(user),
        password: String::from_str(password),
        dbname: String::from_str(dbname),
        ssl_mode: if use_tls {
            SslMode::Require
        } else {
            SslMode::Disable
        },
        allow_invalid_cert,
    }
}

} // verus!
