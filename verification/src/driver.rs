//! What the store takes from tokio_postgres without talking to a server:
//! the connection settings, and the SQLSTATE of an error.

use crate::record::optional_text;
use vstd::prelude::*;

verus! {

/// `tokio_postgres::Config`, opaque: the store makes one and hands it on.
#[verifier::external_type_specification]
#[verifier::external_body]
pub struct ExConfig(tokio_postgres::Config);

/// `tokio_postgres::Error`, opaque: the store reads only its SQLSTATE.
#[verifier::external_type_specification]
#[verifier::external_body]
pub struct ExError(tokio_postgres::Error);

/// How the transport of a connection is secured.
#[derive(Clone, Copy, Debug, PartialEq, Eq, Structural)]
pub enum TransportSecurity {
    /// No TLS.
    Off,
    /// TLS where the server offers it, none where it does not.
    Preferred,
    /// TLS, or no connection.
    Required,
}

/// The `tokio_postgres::Config` that `Config::new` and its setters `host`,
/// `port`, `user`, `password`, `dbname` and `ssl_mode` make of a host, a
/// port, a user, a password, the name of a database and the mode of
/// transport security: one host, one port, and the crate's defaults for
/// the rest.
pub uninterp spec fn settings_for(
    host: Seq<char>,
    port: u16,
    user: Seq<char>,
    password: Seq<char>,
    db_name: Seq<char>,
    security: TransportSecurity,
) -> tokio_postgres::Config;

/// The text of the SQLSTATE that `tokio_postgres::Error::code` finds in an
/// error, or `None` where the error did not come from the database.
pub uninterp spec fn sql_state_of(error: tokio_postgres::Error) -> Option<Seq<char>>;

/// Builds a `tokio_postgres::Config` with `Config::new` and its setters
/// `host`, `port`, `user`, `password`, `dbname` and `ssl_mode`, the last
/// with `SslMode::Disable`, `Prefer` or `Require` for `Off`, `Preferred`
/// or `Required`.
///
/// Trusted: the settings are a function of the six arguments alone. What
/// they hold is opaque to Verus.
#[verifier::external_body]
pub(crate) fn connection_settings(
    host: &str,
    port: u16,
    user: &str,
    password: &str,
    db_name: &str,
    security: TransportSecurity,
) -> (r: tokio_postgres::Config)
    ensures
        r == settings_for(host@, port, user@, password@, db_name@, security),
{
    let mode = match security {
        TransportSecurity::Off => tokio_postgres::config::SslMode::Disable,
        TransportSecurity::Preferred => tokio_postgres::config::SslMode::Prefer,
        TransportSecurity::Required => tokio_postgres::config::SslMode::Require,
    };
    let mut settings = tokio_postgres::Config::new();
    settings.host(host).port(port).user(user).password(password).dbname(db_name).ssl_mode(mode);
    settings
}

/// Calls `tokio_postgres::Error::code` and gives the code's text
/// (`SqlState::code`), or `None` where the error did not come from the
/// database.
///
/// Trusted: the result depends on the error alone.
#[verifier::external_body]
pub(crate) fn sql_state(error: &tokio_postgres::Error) -> (r: Option<String>)
    ensures
        optional_text(r) == sql_state_of(*error),
{
    error.code().map(|state| state.code().to_string())
}

} // verus!
