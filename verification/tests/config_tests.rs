use axum_crud_lib::config::configure_tokio_postgres;
use tokio_postgres::config::{Host, SslMode};

#[test]
fn connection_string_with_pairs_requires_tls() {
    let c = configure_tokio_postgres("host=localhost user=postgres dbname=cities").unwrap();
    assert_eq!(c.get_dbname(), Some("cities"));
    assert_eq!(c.get_user(), Some("postgres"));
    assert!(matches!(c.get_ssl_mode(), SslMode::Require));
}

#[test]
fn connection_url_requires_tls() {
    let c = configure_tokio_postgres("postgresql://app@db.example:5433/cities?sslmode=disable").unwrap();
    assert_eq!(c.get_dbname(), Some("cities"));
    assert_eq!(c.get_ports(), &[5433]);
    assert!(matches!(c.get_ssl_mode(), SslMode::Require));
}

#[test]
fn malformed_connection_string_is_refused() {
    assert!(configure_tokio_postgres("host").is_err());
    assert!(configure_tokio_postgres("port=notaport").is_err());
}

#[test]
fn configuration_keeps_parsed_settings() {
    let c = configure_tokio_postgres("host=localhost port=5432 user=pg dbname=test").unwrap();
    assert_eq!(c.get_hosts(), &[Host::Tcp("localhost".to_string())]);
    assert_eq!(c.get_ports(), &[5432]);
    assert_eq!(c.get_user(), Some("pg"));
    assert_eq!(c.get_dbname(), Some("test"));
    assert!(matches!(c.get_ssl_mode(), SslMode::Require));
}
