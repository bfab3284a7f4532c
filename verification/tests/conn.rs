use libpq::{ListenAction, PgConn};

fn open() -> PgConn {
    PgConn::connect_db_env_vars().expect("Failed to create PGconn from connection string.")
}

#[test]
fn the_environment_stands_for_the_empty_connection_string() {
    let conn = open();
    assert_eq!(conn.conninfo().as_bytes(), b"");
    assert_eq!(conn.conninfo().as_bytes_with_nul(), b"\0");
}

#[test]
fn any_connection_string_without_nul_gives_a_connection() {
    for s in ["", "host=localhost port=5432", "postgresql://u:p@h/db?sslmode=require", "not a conninfo at all", "dbname=тест"] {
        let conn = PgConn::connect_db(s).expect("Failed to create PGconn from connection string.");
        assert_eq!(conn.conninfo().as_bytes(), s.as_bytes());
    }
}

#[test]
fn a_connection_string_with_nul_is_a_marshal_error() {
    let e = PgConn::connect_db("host=local\0host").expect_err("zero byte");
    assert_eq!(e.nul_position(), 10);
    assert_eq!(e.into_vec(), b"host=local\0host".to_vec());
}

#[test]
fn a_query_goes_out_as_it_is() {
    let conn = open();
    let c = conn.exec("LISTEN TBL2").expect("Failed to execute LISTEN.");
    assert_eq!(c.as_bytes_with_nul(), b"LISTEN TBL2\0");
    let c = conn.exec("").expect("no zero byte");
    assert_eq!(c.as_bytes_with_nul(), b"\0");
}

#[test]
fn a_query_with_nul_is_a_marshal_error() {
    let conn = open();
    let e = conn.exec("select 1;\0 drop").expect_err("zero byte");
    assert_eq!(e.nul_position(), 9);
}

#[test]
fn listen_builds_the_listen_command() {
    let mut conn = open();
    let c = conn.listen("TBL3").expect("Failed to execute LISTEN.");
    assert_eq!(c.as_bytes_with_nul(), b"LISTEN TBL3;\0");
    let c = conn.listen("").expect("no zero byte");
    assert_eq!(c.as_bytes(), b"LISTEN ;");
}

#[test]
fn notify_builds_the_notify_command() {
    let mut conn = open();
    let c = conn.notify("TBL3", None).expect("Failed to execute NOTIFY.");
    assert_eq!(c.as_bytes_with_nul(), b"NOTIFY TBL3;\0");
    let c = conn.notify("TBL3", Some("hello")).expect("Failed to execute NOTIFY.");
    assert_eq!(c.as_bytes_with_nul(), b"NOTIFY TBL3, 'hello';\0");
    let c = conn.notify("ch", Some("")).expect("no zero byte");
    assert_eq!(c.as_bytes(), b"NOTIFY ch, '';");
}

#[test]
fn a_nul_in_channel_or_payload_is_a_marshal_error() {
    let mut conn = open();
    let e = conn.listen("a\0b").expect_err("zero byte");
    assert_eq!(e.nul_position(), 8);
    assert_eq!(e.into_vec(), b"LISTEN a\0b;".to_vec());
    let e = conn.notify("a\0b", None).expect_err("zero byte");
    assert_eq!(e.nul_position(), 8);
    let e = conn.notify("ab", Some("x\0")).expect_err("zero byte");
    assert_eq!(e.nul_position(), 13);
    assert_eq!(e.into_vec(), b"NOTIFY ab, 'x\0';".to_vec());
}

#[test]
fn tracing_goes_to_a_file_opened_for_writing() {
    let mut conn = open();
    let t = conn.trace("./test-out/trace.log").expect("no zero byte");
    assert_eq!(t.path.as_bytes_with_nul(), b"./test-out/trace.log\0");
    assert_eq!(t.mode.as_bytes_with_nul(), b"w\0");
    assert_eq!(conn.trace("\0").expect_err("zero byte").nul_position(), 0);
}

#[test]
fn consumed_input_is_success_on_any_return_but_zero() {
    let mut conn = open();
    assert_eq!(conn.consume_input(1, None), Ok(()));
    assert_eq!(conn.consume_input(1, Some(&b"stale message"[..])), Ok(()));
    assert_eq!(conn.consume_input(-1, None), Ok(()));
}

#[test]
fn input_that_was_not_consumed_reports_the_connections_message() {
    let mut conn = open();
    assert_eq!(
        conn.consume_input(0, Some(&b"server closed the connection unexpectedly\n"[..])),
        Err("server closed the connection unexpectedly\n".to_string())
    );
    assert_eq!(conn.consume_input(0, None), Err(String::new()));
    assert_eq!(conn.consume_input(0, Some(&[0xff][..])), Err("\u{fffd}".to_string()));
}

#[test]
fn a_listen_loop_starts_by_waiting() {
    let mut conn = open();
    let machine = conn.listen_loop::<String>(Some(1_000_000));
    assert_eq!(
        machine.pending(),
        ListenAction::Poll { read: true, write: false, timeout_usec: Some(1_000_000) }
    );
    let machine = conn.listen_loop::<u8>(None);
    assert_eq!(
        machine.pending(),
        ListenAction::Poll { read: true, write: false, timeout_usec: None }
    );
}
