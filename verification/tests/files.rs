use addresspack::cli::load::Cmd;
use addresspack::files::{check_directory, has_csv_extension, keep_csv};
use addresspack::pragma::{Journal, Synchronous};
use addresspack::setup::settle_journal;
use addresspack::{connect, pending_files, Achievement, Options, PackError};

fn names(list: &[&str]) -> Vec<String> {
    list.iter().map(|s| s.to_string()).collect()
}

#[test]
fn csv_extension() {
    assert!(has_csv_extension("a.csv"));
    assert!(has_csv_extension("data/AddressBasePremium_FULL_2020-06-06_001.csv"));
    assert!(has_csv_extension("..csv"));
    assert!(has_csv_extension("a.b.csv"));
    assert!(!has_csv_extension(".csv"));
    assert!(!has_csv_extension("data/.csv"));
    assert!(!has_csv_extension("a.CSV"));
    assert!(!has_csv_extension("a.csv.zip"));
    assert!(!has_csv_extension("acsv"));
    assert!(!has_csv_extension("csv"));
    assert!(!has_csv_extension(""));
}

#[test]
fn keep_csv_keeps_the_order() {
    let listing = names(&["b.csv", "readme.txt", "a.csv", ".csv", "c.csv.bak", "a.csv"]);
    assert_eq!(keep_csv(&listing), names(&["b.csv", "a.csv", "a.csv"]));
}

#[test]
fn pending_files_sorts_and_skips() {
    let listing = names(&["A_003.csv", "notes.txt", "A_001.csv", "A_010.csv", "A_002.csv"]);
    assert_eq!(
        pending_files(&listing, Some(1)),
        names(&["A_001.csv", "A_002.csv", "A_003.csv", "A_010.csv"])
    );
    assert_eq!(pending_files(&listing, Some(3)), names(&["A_003.csv", "A_010.csv"]));
    assert_eq!(pending_files(&listing, Some(4)), names(&["A_010.csv"]));
}

#[test]
fn pending_files_orders_by_characters() {
    let listing = names(&["b.csv", "B.csv", "a10.csv", "a2.csv", "a.csv", "ab.csv"]);
    assert_eq!(
        pending_files(&listing, Some(1)),
        names(&["B.csv", "a.csv", "a10.csv", "a2.csv", "ab.csv", "b.csv"])
    );
}

#[test]
fn nothing_pending_when_all_are_processed() {
    let listing = names(&["A_001.csv", "A_002.csv", "A_003.csv"]);
    assert!(pending_files(&listing, Some(4)).is_empty());
    assert!(pending_files(&listing, Some(5)).is_empty());
    assert!(pending_files(&listing, Some(u32::MAX)).is_empty());
    assert!(pending_files(&listing, Some(0)).is_empty());
    assert!(pending_files(&listing, None).is_empty());
    assert!(pending_files(&names(&[]), Some(1)).is_empty());
    assert!(pending_files(&names(&["x.txt"]), Some(1)).is_empty());
}

#[test]
fn check_directory_rejects_other_paths() {
    assert!(check_directory("./data/", true).is_ok());
    match check_directory("./data.txt", false) {
        Err(PackError::BadInput(text)) => assert_eq!(text, "./data.txt"),
        _ => panic!("expected a BadInput"),
    }
}

#[test]
fn achievement_messages() {
    assert_eq!(Achievement::Noop.message(), "There are no pending records to process.");
    assert_eq!(Achievement::Done.message(), "Finished processing all given records.");
}

#[test]
fn synchronous_words() {
    let all = [
        (Synchronous::Off, "off"),
        (Synchronous::Normal, "normal"),
        (Synchronous::Full, "full"),
        (Synchronous::Extra, "extra"),
    ];
    for (mode, word) in all {
        assert_eq!(mode.to_string(), word);
        assert!(matches!(Synchronous::from_str(word), Ok(found) if found == mode));
    }
    match Synchronous::from_str("wal") {
        Err(PackError::Pragma(text)) => assert_eq!(text, "wal"),
        _ => panic!("expected a Pragma error"),
    }
    assert!(matches!(Synchronous::from_str("OFF"), Err(PackError::Pragma(_))));
    assert!(matches!(Synchronous::from_str(""), Err(PackError::Pragma(_))));
}

#[test]
fn journal_words() {
    let all = [
        (Journal::Off, "off"),
        (Journal::Delete, "delete"),
        (Journal::Truncate, "truncate"),
        (Journal::Persist, "persist"),
        (Journal::Memory, "memory"),
        (Journal::Wal, "wal"),
    ];
    for (mode, word) in all {
        assert_eq!(mode.to_string(), word);
        assert!(matches!(Journal::from_str(word), Ok(found) if found == mode));
    }
    match Journal::from_str("normal") {
        Err(PackError::Pragma(text)) => assert_eq!(text, "normal"),
        _ => panic!("expected a Pragma error"),
    }
}

#[test]
fn connect_sets_the_pragmas() {
    let opts = Options { synchronous: Synchronous::Full, journal: Journal::Memory };
    let conn = connect(":memory:", opts).expect("connect");
    let sync: u32 = conn.query_row("PRAGMA synchronous", (), |row| row.get(0)).expect("pragma");
    assert_eq!(sync, 2);
    let journal: String =
        conn.query_row("PRAGMA journal_mode", (), |row| row.get(0)).expect("pragma");
    assert_eq!(journal, "memory");
    let keys: u32 = conn.query_row("PRAGMA foreign_keys", (), |row| row.get(0)).expect("pragma");
    assert_eq!(keys, 0);
    settle_journal(&conn, Journal::Memory).expect("settle");
    let after: String =
        conn.query_row("PRAGMA journal_mode", (), |row| row.get(0)).expect("pragma");
    assert_eq!(after, "memory");
}

#[test]
fn command_defaults() {
    let cmd = Cmd::new();
    assert_eq!(cmd.db_path, "./addresspack.sqlite");
    assert_eq!(cmd.data_path, "./data/");
    assert_eq!(cmd.sync, Synchronous::Normal);
    assert_eq!(cmd.journal, Journal::Wal);
    assert_eq!(cmd.files_per_transaction, 10);
    let opts = cmd.options();
    assert_eq!(opts.synchronous, Synchronous::Normal);
    assert_eq!(opts.journal, Journal::Wal);
}

#[test]
fn command_opens_a_bootstrapped_store() {
    let mut cmd = Cmd::new();
    cmd.db_path = ":memory:".to_string();
    cmd.journal = Journal::Memory;
    cmd.sync = Synchronous::Off;
    let conn = cmd.open().expect("open");
    assert_eq!(addresspack::next_index(&conn).expect("cursor"), Some(1));
    cmd.close(&conn).expect("close");
}
