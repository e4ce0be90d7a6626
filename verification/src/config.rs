//! Server configuration: where the TLS certificate and key files are found,
//! and the database client configuration read from a connection string.

use vstd::prelude::*;

verus! {

/// File `f` inside directory `d`: a `/` is put between them unless `d`
/// already ends with one.
pub open spec fn path_join(d: Seq<char>, f: Seq<char>) -> Seq<char> {
    if d.len() > 0 && d.last() == '/' {
        d + f
    } else {
        d + seq!['/'] + f
    }
}

/// Whether `s` ends with a `/`.
fn ends_with_slash(s: &str) -> (r: bool)
    ensures
        r == (s@.len() > 0 && s@.last() == '/'),
{
    let n: usize = s.unicode_len();
    n > 0 && s.get_char(n - 1) == '/'
}

/// The paths of the certificate and of the private key, in that order:
/// the files `cert_name` and `key_name` inside the certificate folder
/// `cert_folder`, which lies under the project directory `manifest_dir`.
pub fn get_key_cert(manifest_dir: &str, cert_folder: &str, cert_name: &str, key_name: &str) -> (r: (
    String,
    String,
))
    ensures
        r.0@ == path_join(manifest_dir@ + cert_folder@, cert_name@),
        r.1@ == path_join(manifest_dir@ + cert_folder@, key_name@),
{
    let mut dir = String::from_str(manifest_dir);
    dir.append(cert_folder);
    if !ends_with_slash(dir.as_str()) {
        proof {
            reveal_strlit("/");
        }
        dir.append("/");
    }
    let mut cert = dir.clone();
    cert.append(cert_name);
    let mut key = dir;
    key.append(key_name);
    (cert, key)
}

/// The database client configuration (`tokio_postgres::Config`).
#[verifier::external_type_specification]
#[verifier::external_body]
pub struct ExTokioPgConfig(tokio_postgres::Config);

/// The error of the database client (`tokio_postgres::Error`).
#[verifier::external_type_specification]
#[verifier::external_body]
pub struct ExTokioPgError(tokio_postgres::Error);

/// Whether `s` is a connection string that `tokio_postgres::Config`
/// accepts, either a `postgres://` URL or `key=value` pairs.
pub uninterp spec fn spec_pg_connection_string_valid(s: Seq<char>) -> bool;

/// `<tokio_postgres::Config as FromStr>::from_str`: the client configuration
/// that connection string `s` describes. Claimed of it: it succeeds exactly
/// on the strings named valid, a property of the string alone; the
/// configuration's contents and the error's message are left unsaid, as the
/// library cannot see inside either type.
#[verifier::external_body]
fn parse_pg_config(s: &str) -> (r: Result<tokio_postgres::Config, tokio_postgres::Error>)
    ensures
        r is Ok <==> spec_pg_connection_string_valid(s@),
{
    <tokio_postgres::Config as std::str::FromStr>::from_str(s)
}

/// Whether a database connection uses TLS.
#[derive(Debug, Clone, Copy, PartialEq, Eq, Structural)]
pub enum TlsMode {
    /// Never.
    Disable,
    /// When the server offers it.
    Prefer,
    /// Always; a server without TLS is refused.
    Require,
}

/// The TLS mode a client configuration holds (what
/// `tokio_postgres::Config::get_ssl_mode` reads).
pub uninterp spec fn spec_tls_mode(c: tokio_postgres::Config) -> TlsMode;

/// `tokio_postgres::Config::ssl_mode`: sets the configuration's TLS mode.
/// Claimed of it: afterwards the configuration holds the mode set, as the
/// setter stores it in the field its getter reads; what it does to the other
/// settings is left unsaid, as the library cannot see inside the type.
#[verifier::external_body]
fn set_ssl_mode(c: &mut tokio_postgres::Config, mode: TlsMode)
    ensures
        spec_tls_mode(*final(c)) == mode,
{
    c.ssl_mode(
        match mode {
            TlsMode::Disable => tokio_postgres::config::SslMode::Disable,
            TlsMode::Prefer => tokio_postgres::config::SslMode::Prefer,
            TlsMode::Require => tokio_postgres::config::SslMode::Require,
        },
    );
}

/// The client configuration that connection string `connection_string`
/// describes, with TLS required; the parser's error when the string is not
/// a valid connection string.
pub fn configure_tokio_postgres(connection_string: &str) -> (r: Result<
    tokio_postgres::Config,
    tokio_postgres::Error,
>)
    ensures
        r is Ok <==> spec_pg_connection_string_valid(connection_string@),
        r matches Ok(c) ==> spec_tls_mode(c) == TlsMode::Require,
{
    match parse_pg_config(connection_string) {
        Ok(mut config) => {
            set_ssl_mode(&mut config, TlsMode::Require);
            Ok(config)
        },
        Err(e) => Err(e),
    }
}

} // verus!
