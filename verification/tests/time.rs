use noot::utils::time::{local_to_sqlstr, sqlstr_to_local, try_sqlstr_to_local};

#[test]
fn instants_are_written_in_utc() {
    assert_eq!(local_to_sqlstr(0).unwrap(), "1970-01-01 00:00:00");
    assert_eq!(local_to_sqlstr(1_709_210_096).unwrap(), "2024-02-29 12:34:56");
    assert!(local_to_sqlstr(i64::MAX).is_none());
}

#[test]
fn stored_text_reads_back() {
    assert_eq!(sqlstr_to_local("2024-02-29 12:34:56"), 1_709_210_096);
    assert_eq!(try_sqlstr_to_local("2024-02-29T12:34:56"), None);
    let t = 1_234_567_890;
    assert_eq!(sqlstr_to_local(&local_to_sqlstr(t).unwrap()), t);
}
