//! The import pipeline on concrete archives, and the replies it builds.

use robot9000::engine::{handle_dedup, DedupAction};
use robot9000::import::{
    check_import_size, default_max_import_size, import_messages, import_success_reply,
    parse_failure_reply, ImportMessage, ImportText, ImportTextChunk,
};
use robot9000::store::{Recorded, Store};
use robot9000::text::decimal_string;
use size_format::SizeFormatterBinary;

fn message(text: &str) -> ImportMessage {
    ImportMessage { kind: "message".to_string(), text: ImportText::Simple(text.to_string()) }
}

#[test]
fn import_counts_distinct_new_texts() {
    let mut store = Store::open_temporary().unwrap();
    // One text was already seen live before the import.
    assert_eq!(store.record_if_new(4, "live").unwrap(), Recorded::New);
    let records = vec![
        message("a"),
        message("b"),
        message("a"),
        message("live"),
        message("c"),
        message("b"),
    ];
    // Six message records, four distinct texts, one of them seen before.
    assert_eq!(import_messages(&mut store, 4, &records).unwrap(), 3);
    // Importing the same archive again records nothing further.
    assert_eq!(import_messages(&mut store, 4, &records).unwrap(), 0);
}

#[test]
fn non_message_records_are_skipped() {
    let mut store = Store::open_temporary().unwrap();
    let records = vec![
        ImportMessage { kind: "service".to_string(), text: ImportText::Simple("x".to_string()) },
        message("x"),
        ImportMessage { kind: "service".to_string(), text: ImportText::Simple("y".to_string()) },
    ];
    assert_eq!(import_messages(&mut store, 4, &records).unwrap(), 1);
    // The skipped record did not mark its text: "y" is still new.
    assert_eq!(store.record_if_new(4, "y").unwrap(), Recorded::New);
}

#[test]
fn imported_text_blocks_later_live_text() {
    let mut store = Store::open_temporary().unwrap();
    let records = vec![message("from the archive")];
    assert_eq!(import_messages(&mut store, 4, &records).unwrap(), 1);
    assert_eq!(handle_dedup(&mut store, 4, "from the archive").unwrap(), DedupAction::Delete);
}

#[test]
fn chunked_text_is_concatenated_in_order() {
    let chunked = ImportText::Chunked(vec![
        ImportTextChunk::Simple("he".to_string()),
        ImportTextChunk::Typed { text: "llo ".to_string() },
        ImportTextChunk::Simple("there".to_string()),
    ]);
    assert_eq!(chunked.moo(), "hello there");
}

#[test]
fn chunk_annotation_is_ignored() {
    let simple = ImportTextChunk::Simple("abc".to_string());
    let typed = ImportTextChunk::Typed { text: "abc".to_string() };
    assert_eq!(simple.as_str(), "abc");
    assert_eq!(typed.as_str(), "abc");
}

#[test]
fn chunked_and_plain_text_share_a_fingerprint() {
    let mut store = Store::open_temporary().unwrap();
    let records = vec![ImportMessage {
        kind: "message".to_string(),
        text: ImportText::Chunked(vec![
            ImportTextChunk::Simple("hel".to_string()),
            ImportTextChunk::Typed { text: "lo".to_string() },
        ]),
    }];
    assert_eq!(import_messages(&mut store, 4, &records).unwrap(), 1);
    assert_eq!(store.record_if_new(4, "hello").unwrap(), Recorded::RepeatSeen);
}

#[test]
fn empty_archive_imports_nothing() {
    let mut store = Store::open_temporary().unwrap();
    let records: Vec<ImportMessage> = vec![];
    assert_eq!(import_messages(&mut store, 4, &records).unwrap(), 0);
}

#[test]
fn oversized_archive_is_turned_away_with_both_sizes() {
    let max = default_max_import_size();
    let declared = max + 1;
    let reply = check_import_size(declared, max).unwrap();
    let expected = format!(
        "Come on, there's no way I'll import a {}B file (my limit is {}B)",
        SizeFormatterBinary::new(declared as u64),
        SizeFormatterBinary::new(max as u64),
    );
    assert_eq!(reply, expected);
}

#[test]
fn archive_within_the_limit_passes_the_size_gate() {
    let max = default_max_import_size();
    assert!(check_import_size(max, max).is_none());
    assert!(check_import_size(0, max).is_none());
    assert!(check_import_size(max, 0).is_some());
}

#[test]
fn default_size_limit_is_fifty_mebibytes() {
    assert_eq!(default_max_import_size(), 50 * 1024 * 1024);
}

#[test]
fn import_reply_names_the_count() {
    assert_eq!(
        import_success_reply(3),
        "Sucessfully imported 3 messages (excluding duplicates)"
    );
    assert_eq!(
        import_success_reply(0),
        "Sucessfully imported 0 messages (excluding duplicates)"
    );
}

#[test]
fn parse_failure_reply_carries_the_error() {
    assert_eq!(
        parse_failure_reply("expected value at line 1 column 2"),
        "Failed to parse your import, sorry :(\nError: expected value at line 1 column 2"
    );
}

#[test]
fn decimal_rendering_is_exact() {
    assert_eq!(decimal_string(0), "0");
    assert_eq!(decimal_string(9), "9");
    assert_eq!(decimal_string(10), "10");
    assert_eq!(decimal_string(42), "42");
    assert_eq!(decimal_string(1234567890), "1234567890");
    assert_eq!(decimal_string(u64::MAX), "18446744073709551615");
}
