use sos21_use_case::csv_output::write_table;

fn table(rows: &[&[&str]]) -> Vec<Vec<String>> {
    rows.iter().map(|r| r.iter().map(|f| f.to_string()).collect()).collect()
}

#[test]
fn test_write_table_plain_fields() {
    let out = write_table(&table(&[&["a", "b"], &["c", "d"]])).unwrap();
    assert_eq!(out, b"a,b\r\nc,d\r\n".to_vec());
}

#[test]
fn test_write_table_quotes_special_fields() {
    let out = write_table(&table(&[&["x,y", "say \"hi\"", "line\nbreak", "cr\rhere", "plain"]])).unwrap();
    assert_eq!(
        String::from_utf8(out).unwrap(),
        "\"x,y\",\"say \"\"hi\"\"\",\"line\nbreak\",\"cr\rhere\",plain\r\n"
    );
}

#[test]
fn test_write_table_empty_records() {
    let out = write_table(&table(&[&[], &[]])).unwrap();
    assert_eq!(out, b"\"\"\r\n\"\"\r\n".to_vec());
}

#[test]
fn test_write_table_single_empty_field() {
    let out = write_table(&table(&[&[""]])).unwrap();
    assert_eq!(out, b"\"\"\r\n".to_vec());
}

#[test]
fn test_write_table_no_records() {
    let out = write_table(&vec![]).unwrap();
    assert!(out.is_empty());
}

#[test]
fn test_write_table_refuses_uneven_records() {
    assert!(write_table(&table(&[&["a", "b"], &["c"]])).is_err());
    assert!(write_table(&table(&[&["a"], &["b"], &["c", "d"]])).is_err());
}

#[test]
fn test_write_table_utf8() {
    let out = write_table(&table(&[&["名前", "よみ"]])).unwrap();
    assert_eq!(String::from_utf8(out).unwrap(), "名前,よみ\r\n");
}
