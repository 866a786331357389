use js_runtime::validators::{is_email, is_json};
use rusqlite::functions::FunctionFlags;

fn connect_sqlite() -> rusqlite::Connection {
    let conn = rusqlite::Connection::open_in_memory().unwrap();
    let flags = FunctionFlags::SQLITE_UTF8 | FunctionFlags::SQLITE_DETERMINISTIC;
    conn.create_scalar_function("is_email", 1, flags, |context| {
        Ok(is_email(context.get_raw(0).as_str_or_null()?))
    })
    .unwrap();
    conn.create_scalar_function("is_json", 1, flags, |context| {
        Ok(is_json(context.get_raw(0).as_str_or_null()?))
    })
    .unwrap();
    conn
}

#[test]
fn test_is_email() {
    let conn = connect_sqlite();
    let create_table = r#"
        CREATE TABLE test (
          email                  TEXT CHECK(is_email(email))
        ) STRICT;
      "#;
    conn.execute(create_table, ()).unwrap();

    const QUERY: &str = "INSERT INTO test (email) VALUES ($1) RETURNING *";
    assert_eq!(
        conn.query_row(QUERY, ["test@test.com"], |row| Ok(row.get::<_, String>(0)?))
            .unwrap(),
        "test@test.com"
    );

    conn.query_row(QUERY, [rusqlite::types::Value::Null], |_row| Ok(()))
        .unwrap();

    assert!(conn.execute(QUERY, ["not an email"]).is_err());
}

#[test]
fn test_is_json() {
    let conn = connect_sqlite();
    let create_table = r#"
        CREATE TABLE test (
          json                   TEXT CHECK(is_json(json))
        ) STRICT;
      "#;
    conn.execute(create_table, ()).unwrap();

    const QUERY: &str = "INSERT INTO test (json) VALUES ($1)";
    conn.execute(QUERY, ["{}"]).unwrap();
    conn.execute(QUERY, ["{\"foo\": 42, \"bar\": {}, \"baz\": []}"])
        .unwrap();
    assert!(conn.execute(QUERY, [""]).is_err());
}

#[test]
fn null_passes_both_checks() {
    assert!(is_json(None));
    assert!(is_email(None));
}

#[test]
fn json_check_on_texts() {
    assert!(is_json(Some("[1, 2, 3]")));
    assert!(is_json(Some("42")));
    assert!(is_json(Some("\"text\"")));
    assert!(!is_json(Some("")));
    assert!(!is_json(Some("{")));
    assert!(!is_json(Some("{} {}")));
}

#[test]
fn email_check_on_texts() {
    assert!(is_email(Some("admin@localhost")));
    assert!(is_email(Some("foo@bar.baz")));
    assert!(!is_email(Some("")));
    assert!(!is_email(Some("no-at-sign.example.com")));
    assert!(!is_email(Some("a b@example.com")));
}
