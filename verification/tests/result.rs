use libpq::status::{PG_DIAG_MESSAGE_PRIMARY, PG_DIAG_SEVERITY, PG_DIAG_SQLSTATE};
use libpq::{ExecStatus, PgConn, PgResult};

fn field(s: &str) -> Option<Vec<u8>> {
    Some(s.as_bytes().to_vec())
}

fn select_one_two() -> PgResult {
    PgResult::new(
        ExecStatus::TuplesOk,
        field("SELECT 1"),
        field(""),
        Vec::new(),
        vec![vec![field("1"), field("2")]],
    )
}

fn one_row(fields: Vec<Option<Vec<u8>>>) -> PgResult {
    PgResult::new(ExecStatus::TuplesOk, field("SELECT 1"), field(""), Vec::new(), vec![fields])
}

fn failed() -> PgResult {
    PgResult::new(
        ExecStatus::FatalError,
        field(""),
        field("ERROR:  relation \"nope\" does not exist\n"),
        vec![
            (PG_DIAG_SEVERITY, b"ERROR".to_vec()),
            (PG_DIAG_SQLSTATE, b"42P01".to_vec()),
            (PG_DIAG_SEVERITY, b"shadowed".to_vec()),
        ],
        Vec::new(),
    )
}

#[test]
fn select_one_as_one_two_as_two() {
    let conn = PgConn::connect_db_env_vars().expect("Failed to create PGconn from connection string.");
    let command = conn.exec("select 1 as one, 2 as two;").expect("Failed to execute query.");
    assert_eq!(command.as_bytes_with_nul(), b"select 1 as one, 2 as two;\0");
    let mut res = select_one_two();
    assert_eq!(res.status(), ExecStatus::TuplesOk);
    assert_eq!(res.cmd_status(), "SELECT 1");
    assert_eq!(res.get_value_raw(0, 0), "1");
    assert_eq!(res.get_value_raw(0, 1), "2");
    assert_eq!(res.get_value::<i32>(0, 0), Some(1));
    assert_eq!(res.get_value::<i32>(0, 1), Some(2));
}

#[test]
fn catch_notices() {
    let mut conn =
        PgConn::connect_db_env_vars().expect("Failed to create PGconn from connection string.");
    let trace = conn.trace("./test-out/trace.log").expect("no zero byte");
    assert_eq!(trace.path.as_bytes(), b"./test-out/trace.log");

    let query = "do $$ begin raise notice 'Hello,'; raise notice 'world!'; end $$; select 1 as one, 2 as two;";
    let command = conn.exec(query).expect("Failed to execute query.");
    assert_eq!(command.as_bytes(), query.as_bytes());

    let mut res = select_one_two();
    let printed = res
        .print("./test-out/res.out", true, true, "|", true, false, false, false)
        .expect("no zero byte");
    let rendered = res.display_request("/tmp/pg-res-abc.json").expect("no zero byte");
    assert_eq!(printed.options.header, rendered.options.header);
    assert_eq!(printed.options.align, rendered.options.align);
    assert_eq!(printed.options.standard, rendered.options.standard);
    assert_eq!(printed.options.html3, rendered.options.html3);
    assert_eq!(printed.options.expanded, rendered.options.expanded);
    assert_eq!(printed.options.pager, rendered.options.pager);
    assert_eq!(printed.options.field_sep.as_bytes(), rendered.options.field_sep.as_bytes());

    assert_eq!(res.status(), ExecStatus::TuplesOk);
    assert_eq!(res.error_message(), "");
    assert!(res.error_field(PG_DIAG_SEVERITY).is_none());
    assert_eq!(res.cmd_status(), "SELECT 1");

    let w: Vec<String> = [&b"NOTICE:  Hello,\n"[..], &b"NOTICE:  world!\n"[..]]
        .iter()
        .map(|raw| libpq::marshal::text(raw))
        .collect();
    assert_eq!(w.len(), 2);
    assert_eq!(w[0], "NOTICE:  Hello,\n");
    assert_eq!(w[1], "NOTICE:  world!\n");
}

#[test]
fn a_field_of_one_reads_as_text_and_as_number() {
    let res = one_row(vec![field("1")]);
    assert_eq!(res.get_value_raw(0, 0), "1");
    assert_eq!(res.get_value::<i32>(0, 0), Some(1));
    assert_eq!(res.get_value::<String>(0, 0), Some("1".to_string()));
    assert_eq!(res.get_value::<u64>(0, 0), Some(1));
}

#[test]
fn a_null_field_reads_as_empty_and_as_absent() {
    let res = one_row(vec![None, field("x")]);
    assert_eq!(res.get_value_raw(0, 0), "");
    assert_eq!(res.get_value::<i32>(0, 0), None);
    assert_eq!(res.get_value::<String>(0, 0), None);
}

#[test]
fn text_that_does_not_parse_reads_as_absent() {
    let res = one_row(vec![field("abc"), field(""), field("1.5"), field("99999999999")]);
    assert_eq!(res.get_value::<i32>(0, 0), None);
    assert_eq!(res.get_value::<i32>(0, 1), None);
    assert_eq!(res.get_value::<i32>(0, 2), None);
    assert_eq!(res.get_value::<i32>(0, 3), None);
    assert_eq!(res.get_value::<i64>(0, 3), Some(99_999_999_999));
    assert_eq!(res.get_value_raw(0, 0), "abc");
    assert_eq!(res.get_value::<String>(0, 1), Some(String::new()));
}

#[test]
fn a_place_outside_the_grid_reads_as_a_null_field() {
    let res = select_one_two();
    assert_eq!(res.get_value_raw(1, 0), "");
    assert_eq!(res.get_value_raw(0, 2), "");
    assert_eq!(res.get_value_raw(-1, 0), "");
    assert_eq!(res.get_value_raw(0, -1), "");
    assert_eq!(res.get_value_raw(i32::MAX, i32::MAX), "");
    assert_eq!(res.get_value::<i32>(1, 0), None);
    assert_eq!(res.get_value::<i32>(0, -1), None);
}

#[test]
fn fields_are_found_by_row_and_column() {
    let res = PgResult::new(
        ExecStatus::TuplesOk,
        field("SELECT 2"),
        None,
        Vec::new(),
        vec![vec![field("a"), field("b"), None], vec![field("c"), None, field("d")]],
    );
    assert_eq!(res.get_value_raw(0, 0), "a");
    assert_eq!(res.get_value_raw(0, 1), "b");
    assert_eq!(res.get_value_raw(0, 2), "");
    assert_eq!(res.get_value_raw(1, 0), "c");
    assert_eq!(res.get_value_raw(1, 1), "");
    assert_eq!(res.get_value_raw(1, 2), "d");
}

#[test]
fn a_value_is_read_by_the_parser_that_is_given() {
    let res = one_row(vec![field("0x1f"), None]);
    let hex = |s: &str| i64::from_str_radix(s.trim_start_matches("0x"), 16).ok();
    assert_eq!(res.get_value_with(0, 0, hex), Some(31));
    assert_eq!(res.get_value_with(0, 1, hex), None);
    assert_eq!(res.get_value_with(0, 0, |s: &str| Some(s.len())), Some(4));
    assert_eq!(res.get_value_with(0, 0, |_s: &str| None::<u8>), None);
}

#[test]
fn a_field_that_is_not_utf8_is_replaced() {
    let res = one_row(vec![Some(vec![0x31, 0xfe])]);
    assert_eq!(res.get_value_raw(0, 0), "1\u{fffd}");
    assert_eq!(res.get_value::<i32>(0, 0), None);
}

#[test]
fn an_error_result_reports_message_and_fields() {
    let mut res = failed();
    assert_eq!(res.status(), ExecStatus::FatalError);
    assert_eq!(res.error_message(), "ERROR:  relation \"nope\" does not exist\n");
    assert_eq!(res.error_field(PG_DIAG_SEVERITY), Some("ERROR".to_string()));
    assert_eq!(res.error_field(PG_DIAG_SQLSTATE), Some("42P01".to_string()));
    assert_eq!(res.error_field(PG_DIAG_MESSAGE_PRIMARY), None);
    assert_eq!(res.cmd_status(), "");
}

#[test]
fn null_messages_read_as_empty() {
    let mut res = PgResult::new(ExecStatus::CommandOk, None, None, Vec::new(), Vec::new());
    assert_eq!(res.status(), ExecStatus::CommandOk);
    assert_eq!(res.cmd_status(), "");
    assert_eq!(res.error_message(), "");
    assert_eq!(res.error_field(PG_DIAG_SEVERITY), None);
    assert_eq!(res.get_value_raw(0, 0), "");
}

#[test]
fn the_status_of_a_result_is_always_a_named_one() {
    for code in 0u32..=12 {
        let status = ExecStatus::from_code(code).expect("a named status");
        let res = PgResult::new(status, None, None, Vec::new(), Vec::new());
        assert_eq!(ExecStatus::from_code(res.status().code()), Some(status));
    }
}

#[test]
fn print_takes_flags_as_ones_and_zeros() {
    let res = select_one_two();
    let r = res.print("out.txt", true, false, ",", false, true, false, true).expect("no zero byte");
    assert_eq!(r.target.path.as_bytes_with_nul(), b"out.txt\0");
    assert_eq!(r.target.mode.as_bytes_with_nul(), b"w\0");
    assert_eq!(r.options.header, 1);
    assert_eq!(r.options.align, 0);
    assert_eq!(r.options.standard, 0);
    assert_eq!(r.options.html3, 1);
    assert_eq!(r.options.expanded, 0);
    assert_eq!(r.options.pager, 1);
    assert_eq!(r.options.field_sep.as_bytes_with_nul(), b",\0");
    let r = res.print("out.txt", false, true, "", true, false, true, false).expect("no zero byte");
    assert_eq!(r.options.header, 0);
    assert_eq!(r.options.align, 1);
    assert_eq!(r.options.standard, 1);
    assert_eq!(r.options.html3, 0);
    assert_eq!(r.options.expanded, 1);
    assert_eq!(r.options.pager, 0);
    assert_eq!(r.options.field_sep.as_bytes_with_nul(), b"\0");
}

#[test]
fn print_refuses_a_nul_in_the_separator_first() {
    let res = select_one_two();
    let e = res
        .print("a\0b", true, true, "||\0", true, false, false, false)
        .expect_err("zero bytes");
    assert_eq!(e.nul_position(), 2);
    assert_eq!(e.into_vec(), b"||\0".to_vec());
}

#[test]
fn print_refuses_a_nul_in_the_file_name() {
    let res = select_one_two();
    let e = res
        .print("a\0b", true, true, "|", true, false, false, false)
        .expect_err("zero byte");
    assert_eq!(e.nul_position(), 1);
    assert_eq!(e.into_vec(), b"a\0b".to_vec());
}

#[test]
fn the_rendering_prints_with_header_alignment_and_bars() {
    let res = select_one_two();
    let r = res.display_request("/tmp/pg-res-x1y2z3.json").expect("no zero byte");
    assert_eq!(r.target.path.as_bytes(), b"/tmp/pg-res-x1y2z3.json");
    assert_eq!(r.target.mode.as_bytes(), b"w");
    assert_eq!(r.options.header, 1);
    assert_eq!(r.options.align, 1);
    assert_eq!(r.options.standard, 1);
    assert_eq!(r.options.html3, 0);
    assert_eq!(r.options.expanded, 0);
    assert_eq!(r.options.pager, 0);
    assert_eq!(r.options.field_sep.as_bytes(), b"|");
}

#[test]
fn the_rendering_refuses_a_nul_in_the_path() {
    let res = select_one_two();
    let e = res.display_request("/tmp/\0").expect_err("zero byte");
    assert_eq!(e.nul_position(), 5);
}
