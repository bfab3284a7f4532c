use libpq::PgNotify;

#[test]
fn a_notification_reports_channel_pid_and_payload() {
    let n = PgNotify::new(Some(b"tbl2".to_vec()), 31337, Some(b"hello".to_vec()));
    assert_eq!(n.relname(), "tbl2");
    assert_eq!(n.be_pid(), 31337);
    assert_eq!(n.extra(), "hello");
}

#[test]
fn a_notification_without_payload_has_an_empty_one() {
    let n = PgNotify::new(Some(b"tbl2".to_vec()), 1, Some(Vec::new()));
    assert_eq!(n.relname(), "tbl2");
    assert_eq!(n.extra(), "");
}

#[test]
fn null_texts_of_a_notification_read_as_empty() {
    let n = PgNotify::new(None, -5, None);
    assert_eq!(n.relname(), "");
    assert_eq!(n.be_pid(), -5);
    assert_eq!(n.extra(), "");
}

#[test]
fn a_payload_that_is_not_utf8_is_replaced() {
    let n = PgNotify::new(Some(b"ch".to_vec()), 2, Some(vec![0x80, 0x41]));
    assert_eq!(n.extra(), "\u{fffd}A");
}

#[test]
fn listen_notify() {
    let queue: Vec<PgNotify> =
        (0..5).map(|_| PgNotify::new(Some(b"tbl2".to_vec()), 77, Some(Vec::new()))).collect();
    let mut recvs = Vec::new();
    for notify in queue {
        assert_eq!(notify.relname(), "tbl2");
        assert_eq!(notify.extra(), "");
        recvs.push(notify.relname());
    }
    assert_eq!(recvs.len(), 5);
    assert_eq!(recvs, vec!["tbl2", "tbl2", "tbl2", "tbl2", "tbl2"]);
}
