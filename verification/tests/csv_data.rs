use domo::csvtext::csv_records;

#[test]
fn csv_two_rows() {
    let rows = csv_records("a,b\n1,2\n").unwrap();
    assert_eq!(rows.len(), 2);
    assert_eq!(rows[0], vec!["a".to_string(), "b".to_string()]);
    assert_eq!(rows[1], vec!["1".to_string(), "2".to_string()]);
}

#[test]
fn csv_without_trailing_newline() {
    let rows = csv_records("a,b\n1,2").unwrap();
    assert_eq!(rows.len(), 2);
    assert_eq!(rows[1], vec!["1".to_string(), "2".to_string()]);
}

#[test]
fn csv_crlf_terminators() {
    let rows = csv_records("a,b\r\n1,2\r\n").unwrap();
    assert_eq!(rows.len(), 2);
    assert_eq!(rows[0], vec!["a".to_string(), "b".to_string()]);
}

#[test]
fn csv_quoted_fields() {
    let rows = csv_records("\"x,y\",\"he said \"\"hi\"\"\"\nplain,2\n").unwrap();
    assert_eq!(rows.len(), 2);
    assert_eq!(rows[0][0], "x,y");
    assert_eq!(rows[0][1], "he said \"hi\"");
    assert_eq!(rows[1][0], "plain");
}

#[test]
fn csv_empty_lines_are_skipped() {
    let rows = csv_records("a\n\nb\n").unwrap();
    assert_eq!(rows.len(), 2);
    assert_eq!(rows[0], vec!["a".to_string()]);
    assert_eq!(rows[1], vec!["b".to_string()]);
}

#[test]
fn csv_empty_fields_kept() {
    let rows = csv_records("a,,c\n").unwrap();
    assert_eq!(rows[0], vec!["a".to_string(), "".to_string(), "c".to_string()]);
}

#[test]
fn csv_unterminated_quote_fails() {
    assert!(csv_records("\"open\n").is_none());
}

#[test]
fn csv_empty_text() {
    let rows = csv_records("").unwrap();
    assert_eq!(rows.len(), 0);
}
