use neuro_kar_manager::error::{EngineError, ErrorKind};
use neuro_kar_manager::logs::{capture_path, has_delete_marker, LogManager, INVALID_LINE};

const DELETED_A: &str =
    "2024/05/17 10:22:03 NOTICE: docs/a.txt: Skipped delete as --dry-run is set (size 12)\n";
const DELETED_B: &str =
    "2024/05/17 10:22:04 INFO: music/b c.mp3: Skipped delete as --dry-run is set\n";
const COPIED: &str = "2024/05/17 10:22:05 INFO: docs/new.txt: Copied (new)\n";

fn paths(log: &str, offset: u64) -> Vec<String> {
    LogManager::parse_deleted_files(Some(log.as_bytes()), offset).unwrap()
}

#[test]
fn absent_log_has_no_events() {
    assert_eq!(LogManager::parse_deleted_files(None, 0), Ok(vec![]));
    assert_eq!(LogManager::parse_deleted_files(None, 77), Ok(vec![]));
    assert_eq!(LogManager::get_current_offset(None), 0);
}

#[test]
fn current_offset_is_file_size() {
    assert_eq!(LogManager::get_current_offset(Some(0)), 0);
    assert_eq!(LogManager::get_current_offset(Some(4096)), 4096);
}

#[test]
fn well_formed_line_yields_path_between_level_and_next_colon() {
    assert_eq!(
        LogManager::extract_deleted_file_path(DELETED_A.trim_end()),
        Some("docs/a.txt".to_string())
    );
    assert_eq!(
        LogManager::extract_deleted_file_path(
            "2024/05/17 10:22:04 ERROR: \t  dir/with space.bin  : Skipped delete as --dry-run is set"
        ),
        Some("dir/with space.bin".to_string())
    );
}

#[test]
fn path_that_is_only_whitespace_is_empty() {
    assert_eq!(
        LogManager::extract_deleted_file_path("2024/05/17 10:22:04 INFO:   : rest"),
        Some(String::new())
    );
}

#[test]
fn malformed_lines_have_no_path() {
    for line in [
        "",
        "Skipped delete as --dry-run is set",
        "2024/05/17 10:22:04 DEBUG: a.txt: Skipped delete as --dry-run is set",
        "2024/5/17 10:22:04 INFO: a.txt: Skipped delete as --dry-run is set",
        "2024/05/17 10:22:04 INFO:a.txt: Skipped delete as --dry-run is set",
        "2024/05/17 10:22:04 INFO: a.txt Skipped delete as --dry-run is set",
        " 2024/05/17 10:22:04 INFO: a.txt: Skipped delete as --dry-run is set",
    ] {
        assert_eq!(LogManager::extract_deleted_file_path(line), None, "{}", line);
    }
}

#[test]
fn capture_path_trims_the_group() {
    assert_eq!(capture_path(None), None);
    assert_eq!(capture_path(Some("  a b \t".to_string())), Some("a b".to_string()));
    assert_eq!(capture_path(Some("\u{3000}x\u{2003}".to_string())), Some("x".to_string()));
    assert_eq!(capture_path(Some(" \n ".to_string())), Some(String::new()));
    assert_eq!(capture_path(Some("\u{200b}x".to_string())), Some("\u{200b}x".to_string()));
}

#[test]
fn marker_is_found_anywhere_in_the_line() {
    assert!(has_delete_marker(DELETED_A));
    assert!(has_delete_marker("Skipped delete as --dry-run is set"));
    assert!(!has_delete_marker(COPIED));
    assert!(!has_delete_marker("Skipped delete as --dry-run is se"));
    assert!(!has_delete_marker(""));
}

#[test]
fn only_marker_lines_are_events() {
    let log = format!("{}{}{}", DELETED_A, COPIED, DELETED_B);
    assert_eq!(paths(&log, 0), vec!["docs/a.txt".to_string(), "music/b c.mp3".to_string()]);
}

#[test]
fn malformed_marker_line_is_dropped_and_reading_goes_on() {
    let log = format!(
        "{}garbage Skipped delete as --dry-run is set\n{}",
        DELETED_A, DELETED_B
    );
    assert_eq!(paths(&log, 0), vec!["docs/a.txt".to_string(), "music/b c.mp3".to_string()]);
}

#[test]
fn line_matching_the_shape_without_marker_is_no_event() {
    assert_eq!(paths(COPIED, 0), Vec::<String>::new());
}

#[test]
fn carriage_return_and_missing_final_newline() {
    let log = "2024/05/17 10:22:03 NOTICE: a: Skipped delete as --dry-run is set\r\n\
               2024/05/17 10:22:04 NOTICE: b: Skipped delete as --dry-run is set";
    assert_eq!(paths(log, 0), vec!["a".to_string(), "b".to_string()]);
}

#[test]
fn same_offset_twice_gives_same_events() {
    let log = format!("{}{}{}", DELETED_A, COPIED, DELETED_B);
    let offset = DELETED_A.len() as u64;
    let first = paths(&log, offset);
    let second = paths(&log, offset);
    assert_eq!(first, second);
    assert_eq!(first, vec!["music/b c.mp3".to_string()]);
}

#[test]
fn read_after_append_sees_only_new_events() {
    let before = format!("{}{}", DELETED_A, COPIED);
    let offset = LogManager::get_current_offset(Some(before.len() as u64));
    assert_eq!(paths(&before, offset), Vec::<String>::new());
    let after = format!("{}{}", before, DELETED_B);
    assert_eq!(paths(&after, offset), vec!["music/b c.mp3".to_string()]);
    assert_eq!(paths(&after, offset), paths(DELETED_B, 0));
}

#[test]
fn offset_beyond_end_reads_nothing() {
    assert_eq!(paths(DELETED_A, DELETED_A.len() as u64), Vec::<String>::new());
    assert_eq!(paths(DELETED_A, u64::MAX), Vec::<String>::new());
}

#[test]
fn offset_inside_a_line_reads_the_rest_of_it() {
    let log = format!("{}{}", DELETED_A, DELETED_B);
    assert_eq!(paths(&log, 5), vec!["music/b c.mp3".to_string()]);
}

#[test]
fn line_that_is_not_utf8_fails_the_read() {
    let mut log = DELETED_A.as_bytes().to_vec();
    log.extend_from_slice(&[0xff, 0xfe, b'\n']);
    log.extend_from_slice(DELETED_B.as_bytes());
    assert_eq!(
        LogManager::parse_deleted_files(Some(&log), 0),
        Err(EngineError { kind: ErrorKind::Parse, detail: INVALID_LINE.to_string() })
    );
    let offset = (DELETED_A.len() + 3) as u64;
    assert_eq!(
        LogManager::parse_deleted_files(Some(&log), offset),
        Ok(vec!["music/b c.mp3".to_string()])
    );
}

#[test]
fn offset_inside_a_character_fails_the_read() {
    let log = "é: Skipped delete as --dry-run is set\n";
    assert!(LogManager::parse_deleted_files(Some(log.as_bytes()), 1).is_err());
}

#[test]
fn non_ascii_path_is_kept() {
    let log = "2024/05/17 10:22:03 NOTICE: фото/пляж.jpg: Skipped delete as --dry-run is set\n";
    assert_eq!(paths(log, 0), vec!["фото/пляж.jpg".to_string()]);
}
