use addresspack::meta::insert_statement;
use addresspack::store::TableInfo;
use addresspack::text::{decimal, ends_with, same_text, starts_with};
use addresspack::{Cache, PackError, Record};

fn some(text: &str) -> Option<String> {
    Some(text.to_string())
}

#[test]
fn table_id_reads_first_field() {
    let record = Record::new(vec![some("21"), some("I"), None]);
    assert!(matches!(record.table_id(), Ok(21)));
    let plus = Record::new(vec![some("+7")]);
    assert!(matches!(plus.table_id(), Ok(7)));
    let zeros = Record::new(vec![some("0099")]);
    assert!(matches!(zeros.table_id(), Ok(99)));
    let top = Record::new(vec![some("4294967295")]);
    assert!(matches!(top.table_id(), Ok(4294967295)));
}

#[test]
fn table_id_rejects_non_numbers() {
    for text in ["abc", "", "-1", "1 ", " 1", "1_0", "4294967296", "+", "1.5"] {
        let record = Record::new(vec![some(text), some("x")]);
        assert!(
            matches!(record.table_id(), Err(PackError::ParseInt(_))),
            "{:?} should not parse",
            text
        );
    }
}

#[test]
fn table_id_of_missing_field_is_bad_input() {
    let empty = Record::new(vec![]);
    match empty.table_id() {
        Err(PackError::BadInput(text)) => assert_eq!(text, "The record is empty."),
        _ => panic!("expected a BadInput"),
    }
    let absent = Record::new(vec![None, some("21")]);
    assert!(matches!(absent.table_id(), Err(PackError::BadInput(_))));
}

#[test]
fn as_slice_gives_the_fields_back() {
    let fields = vec![some("10"), None, some(""), some("x y")];
    let record = Record::new(fields.clone());
    assert_eq!(record.as_slice(), fields.as_slice());
    assert_eq!(record, Record::new(fields));
}

#[test]
fn read_all_decodes_rows_of_any_length() {
    let data = b"10,a,,\"b,c\"\n99,1\n\"21\",\"x\"\"y\",\n";
    let (records, failure) = Record::read_all(data);
    assert!(failure.is_none());
    assert_eq!(records.len(), 3);
    assert_eq!(
        records[0].as_slice(),
        &[some("10"), some("a"), None, some("b,c")][..]
    );
    assert_eq!(records[1].as_slice(), &[some("99"), some("1")][..]);
    assert_eq!(records[2].as_slice(), &[some("21"), some("x\"y"), None][..]);
}

#[test]
fn read_all_has_no_header_row() {
    let (records, failure) = Record::read_all(b"10,a\n");
    assert!(failure.is_none());
    assert_eq!(records.len(), 1);
    assert!(matches!(records[0].table_id(), Ok(10)));
    let (none, failure) = Record::read_all(b"");
    assert!(failure.is_none());
    assert_eq!(none.len(), 0);
}

#[test]
fn read_all_rejects_invalid_utf8() {
    let data = [b'1', b'0', b',', 0xff, 0xfe, b'\n'];
    let (records, failure) = Record::read_all(&data);
    assert!(records.is_empty());
    assert!(matches!(failure, Some(PackError::Csv(_))));
}

#[test]
fn insert_statement_has_one_placeholder_per_column() {
    assert_eq!(insert_statement("trailer", 5), "INSERT INTO trailer VALUES (?, ?, ?, ?, ?);");
    assert_eq!(insert_statement("t", 1), "INSERT INTO t VALUES (?);");
    assert_eq!(insert_statement("t", 2), "INSERT INTO t VALUES (?, ?);");
    assert_eq!(insert_statement("t", 0), "INSERT INTO t VALUES ();");
}

#[test]
fn cache_get_finds_statements() {
    let cache = Cache::from_tables(vec![
        TableInfo { id: 10, name: "header".to_string(), columns: 3 },
        TableInfo { id: 99, name: "trailer".to_string(), columns: 2 },
    ]);
    assert_eq!(cache.get(10).expect("header"), "INSERT INTO header VALUES (?, ?, ?);");
    assert_eq!(cache.get(99).expect("trailer"), "INSERT INTO trailer VALUES (?, ?);");
}

#[test]
fn cache_get_miss_names_the_table() {
    let cache = Cache::from_tables(vec![TableInfo {
        id: 10,
        name: "header".to_string(),
        columns: 3,
    }]);
    match cache.get(99) {
        Err(PackError::CacheError(text)) => {
            assert_eq!(text, "Expected a cached sql statement for 99")
        }
        _ => panic!("expected a CacheError"),
    }
    let empty = Cache::from_tables(vec![]);
    assert!(matches!(empty.get(0), Err(PackError::CacheError(_))));
}

#[test]
fn cache_later_line_stands() {
    let cache = Cache::from_tables(vec![
        TableInfo { id: 10, name: "old".to_string(), columns: 1 },
        TableInfo { id: 10, name: "new".to_string(), columns: 2 },
    ]);
    assert_eq!(cache.get(10).expect("entry"), "INSERT INTO new VALUES (?, ?);");
}

#[test]
fn decimal_writes_numbers() {
    assert_eq!(decimal(0), "0");
    assert_eq!(decimal(7), "7");
    assert_eq!(decimal(10), "10");
    assert_eq!(decimal(99), "99");
    assert_eq!(decimal(1203), "1203");
    assert_eq!(decimal(4294967295), "4294967295");
}

#[test]
fn prefix_suffix_and_equality() {
    assert!(starts_with("no such table: x", "no such table"));
    assert!(starts_with("abc", ""));
    assert!(!starts_with("no such", "no such table"));
    assert!(!starts_with("No such table", "no such table"));
    assert!(ends_with("a.csv", ".csv"));
    assert!(!ends_with("a.csv.gz", ".csv"));
    assert!(!ends_with("sv", ".csv"));
    assert!(same_text("wal", "wal"));
    assert!(!same_text("wal", "wall"));
    assert!(!same_text("wal", "wax"));
    assert!(same_text("", ""));
}

#[test]
fn read_all_keeps_the_rows_before_the_one_that_fails() {
    let mut data = b"10,a\n99,b,\n".to_vec();
    data.extend_from_slice(&[b'2', b'1', b',', 0xff, b'\n']);
    data.extend_from_slice(b"10,later\n");
    let (records, failure) = Record::read_all(&data);
    assert!(matches!(failure, Some(PackError::Csv(_))));
    assert_eq!(records.len(), 2);
    assert_eq!(records[0].as_slice(), &[some("10"), some("a")][..]);
    assert_eq!(records[1].as_slice(), &[some("99"), some("b"), None][..]);
}
