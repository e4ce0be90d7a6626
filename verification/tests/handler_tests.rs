use axum_crud_lib::config::get_key_cert;
use axum_crud_lib::handlers::{get_reply, query_val, rejected_reply, write_reply, Fetched, GetReply, WriteReply};
use axum_crud_lib::queries::CityRow;
use axum_crud_lib::{QueryBuilderError, QueryParams};

#[test]
fn query_value_defaults_to_none() {
    assert_eq!(query_val(None), None);
    assert_eq!(query_val(Some(QueryParams { id: None })), None);
    assert_eq!(query_val(Some(QueryParams { id: Some(4) })), Some(4));
}

#[test]
fn lookup_replies() {
    let r = get_reply(Fetched::BuildFailed);
    assert_eq!(r.status(), 500);
    let row = CityRow { id: 1, name: "Rome".to_string(), country: "Italia".to_string(), population: 3, area: 4 };
    let r = get_reply(Fetched::Row(row));
    assert_eq!(r.status(), 200);
    match r {
        GetReply::Found(c) => {
            assert_eq!(c.noname, "Rome");
            assert_eq!(c.country, b"Italia".to_vec());
        }
        _ => panic!("expected a city"),
    }
    let r = get_reply(Fetched::BadRow("bad column".to_string()));
    assert_eq!(r.status(), 400);
    assert!(matches!(r, GetReply::RowError(ref m) if m == "bad column"));
}

#[test]
fn write_replies() {
    let r = write_reply(Err(QueryBuilderError::MethodUnsupported));
    assert_eq!(r.status(), 500);
    assert!(matches!(r, WriteReply::BuildFailed(QueryBuilderError::MethodUnsupported)));
    let r = write_reply(Ok(vec!["Oslo".to_string()]));
    assert_eq!(r.status(), 204);
    assert!(matches!(r, WriteReply::Written));
    let r = write_reply(Ok(vec![]));
    assert_eq!(r.status(), 400);
    assert!(matches!(r, WriteReply::NotWritten(ref m) if m == "No results"));
}

#[test]
fn rejected_body_reply() {
    let r = rejected_reply("missing field");
    assert_eq!(r.status(), 400);
    assert!(matches!(r, WriteReply::Rejected(ref m) if m == "err : missing field"));
}

#[test]
fn key_and_cert_paths() {
    let (cert, key) = get_key_cert("/srv/app", "/certs/", "cert.pem", "key.pem");
    assert_eq!(cert, "/srv/app/certs/cert.pem");
    assert_eq!(key, "/srv/app/certs/key.pem");
}

#[test]
fn key_and_cert_paths_in_folder_without_trailing_slash() {
    let (cert, key) = get_key_cert("/proj", "/src/mykeyshere", "cert.pem", "key.pem");
    assert_eq!(cert, "/proj/src/mykeyshere/cert.pem");
    assert_eq!(key, "/proj/src/mykeyshere/key.pem");
}

#[test]
fn key_and_cert_paths_with_empty_folder() {
    let (cert, key) = get_key_cert("", "", "c", "k");
    assert_eq!(cert, "/c");
    assert_eq!(key, "/k");
}
