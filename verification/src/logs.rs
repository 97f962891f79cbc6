//! Tailing of the engine's log: reading from a byte offset, line by line, and
//! collecting the paths whose deletion a dry run held back.

use crate::error::{failure, EngineError, ErrorKind};
use crate::install::{path_from, path_result, text_result, DirPath, DirPathView};
use crate::text::{contains_text, find_text, slice_text, to_chars, trim_bounds, trimmed};
use vstd::prelude::*;
use vstd::slice::slice_subrange;
use vstd::string::StringSliceAdditionalSpecFns;
use vstd::utf8::{decode_utf8, encode_utf8_decode_utf8, valid_utf8};

verus! {

/// Name of the engine's log file in the application's data directory.
pub const LOG_FILE_NAME: &'static str = "rclone.log";

/// Phrase by which the engine reports a deletion that a dry run held back.
pub const DELETE_MARKER: &'static str = "Skipped delete as --dry-run is set";

/// Shape of a log line: date, time and level, then the path up to the next
/// colon, which the first group captures.
pub const DELETE_PATTERN: &'static str =
    "^\\d{4}/\\d{2}/\\d{2} \\d{2}:\\d{2}:\\d{2} (?:NOTICE|INFO|ERROR):\\s+([^:]+):";

/// Detail of the failure on a log line that is not UTF-8.
pub const INVALID_LINE: &'static str =
    "Failed to read log line: stream did not contain valid UTF-8";

/// What is put before the cause where the data directory cannot be told.
pub const NO_DATA_DIR: &'static str = "Failed to get app data dir: ";

/// What group `index` of `pattern` holds at the leftmost match of `pattern` in
/// `haystack`: `None` where `pattern` is no regular expression, where it does
/// not match, or where the group took no part in the match.
pub uninterp spec fn regex_group(pattern: Seq<char>, haystack: Seq<char>, index: nat) -> Option<
    Seq<char>,
>;

/// The path that `line` reports: what the first group of the line pattern
/// captures, trimmed.
pub open spec fn deleted_path(line: Seq<char>) -> Option<Seq<char>> {
    capture_path_text(regex_group(DELETE_PATTERN@, line, 1))
}

/// The path that a captured group stands for: the group trimmed.
pub open spec fn capture_path_text(capture: Option<Seq<char>>) -> Option<Seq<char>> {
    match capture {
        Some(group) => Some(trimmed(group)),
        None => None,
    }
}

/// The events of one line: the reported path where the line holds the marker
/// phrase and has the shape of a log line, nothing otherwise.
pub open spec fn line_events(line: Seq<char>) -> Seq<Seq<char>> {
    if contains_text(line, DELETE_MARKER@) {
        match deleted_path(line) {
            Some(path) => seq![path],
            None => seq![],
        }
    } else {
        seq![]
    }
}

/// Number of bytes of `tail` before its first line feed; all of them where it
/// has none.
pub open spec fn line_break(tail: Seq<u8>) -> nat
    decreases tail.len(),
{
    if tail.len() == 0 || tail[0] == 10 {
        0
    } else {
        1 + line_break(tail.drop_first())
    }
}

/// The first line of `tail` without its terminator: a line feed, or a carriage
/// return and a line feed.
pub open spec fn first_line(tail: Seq<u8>) -> Seq<u8> {
    let n = line_break(tail) as int;
    if 0 < n < tail.len() && tail[n - 1] == 13 {
        tail.take(n - 1)
    } else {
        tail.take(n)
    }
}

/// What follows the first line of `tail` and its terminator.
pub open spec fn after_first_line(tail: Seq<u8>) -> Seq<u8> {
    let n = line_break(tail) as int;
    if n < tail.len() {
        tail.skip(n + 1)
    } else {
        seq![]
    }
}

/// The events of the lines of `tail`, in order; `None` where one of the lines
/// is not UTF-8.
pub open spec fn tail_events(tail: Seq<u8>) -> Option<Seq<Seq<char>>>
    decreases tail.len(),
{
    if tail.len() == 0 {
        Some(seq![])
    } else if !valid_utf8(first_line(tail)) {
        None
    } else {
        match tail_events(after_first_line(tail)) {
            Some(rest) => Some(line_events(decode_utf8(first_line(tail))) + rest),
            None => None,
        }
    }
}

/// The bytes of `log` from `offset` on; none where `offset` lies at or beyond
/// its end.
pub open spec fn log_tail(log: Seq<u8>, offset: nat) -> Seq<u8> {
    if offset < log.len() {
        log.skip(offset as int)
    } else {
        seq![]
    }
}

/// The events that a read of `log` from `offset` yields. An absent log has no
/// events.
pub open spec fn deleted_files(log: Option<Seq<u8>>, offset: nat) -> Option<Seq<Seq<char>>> {
    match log {
        Some(bytes) => tail_events(log_tail(bytes, offset)),
        None => Some(seq![]),
    }
}

/// The path of the log file: in the data directory, where that is known.
pub open spec fn log_path(data_dir: Result<Seq<char>, Seq<char>>) -> Result<
    DirPathView,
    Seq<char>,
> {
    match data_dir {
        Ok(dir) => Ok(path_from(dir, seq![LOG_FILE_NAME@])),
        Err(cause) => Err(NO_DATA_DIR@ + cause),
    }
}

/// The offset from which a later read sees only what was written after now:
/// the size of the log, 0 where there is none.
pub open spec fn current_offset(size: Option<u64>) -> u64 {
    match size {
        Some(n) => n,
        None => 0,
    }
}

/// `line_break` counts the bytes before the first line feed.
pub proof fn lemma_line_break(tail: Seq<u8>)
    ensures
        line_break(tail) <= tail.len(),
        forall|j: int| 0 <= j < line_break(tail) ==> tail[j] != 10,
        line_break(tail) < tail.len() ==> tail[line_break(tail) as int] == 10,
    decreases tail.len(),
{
    if tail.len() > 0 && tail[0] != 10 {
        let rest = tail.drop_first();
        lemma_line_break(rest);
        assert forall|j: int| 0 <= j < line_break(tail) implies tail[j] != 10 by {
            if j > 0 {
                assert(tail[j] == rest[j - 1]);
            }
        }
    }
}

/// A count of bytes before which there is no line feed, and at which there is
/// one unless it is the length of `tail`, is `line_break`.
pub proof fn lemma_line_break_is(tail: Seq<u8>, n: int)
    requires
        0 <= n <= tail.len(),
        forall|j: int| 0 <= j < n ==> tail[j] != 10,
        n < tail.len() ==> tail[n] == 10,
    ensures
        line_break(tail) == n,
{
    lemma_line_break(tail);
}

/// The events of two reads, one after the other; `None` where one of them
/// failed.
pub open spec fn both_reads(
    first: Option<Seq<Seq<char>>>,
    second: Option<Seq<Seq<char>>>,
) -> Option<Seq<Seq<char>>> {
    match (first, second) {
        (Some(a), Some(b)) => Some(a + b),
        _ => None,
    }
}

/// A log that is read in two parts, the first of which ends with the end of a
/// line, yields what it yields when it is read at once: nothing is lost and
/// nothing is reported twice.
pub proof fn lemma_reads_compose(log: Seq<u8>, at: int)
    requires
        0 <= at <= log.len(),
        at > 0 ==> log[at - 1] == 10,
    ensures
        tail_events(log) == both_reads(tail_events(log.take(at)), tail_events(log.skip(at))),
    decreases log.len(),
{
    if at == 0 {
        assert(log.take(0).len() == 0);
        assert(log.skip(0) =~= log);
        let all = tail_events(log);
        if all is Some {
            assert(Seq::<Seq<char>>::empty() + all->0 =~= all->0);
        }
    } else {
        let head = log.take(at);
        lemma_line_break(log);
        let n = line_break(log) as int;
        assert(n < at) by {
            if n >= at {
                assert(log[at - 1] != 10);
            }
        }
        assert(line_break(head) == n) by {
            assert forall|j: int| 0 <= j < n implies head[j] != 10 by {
                assert(head[j] == log[j]);
            }
            assert(head[n] == log[n]);
            lemma_line_break_is(head, n);
        }
        assert(first_line(head) =~= first_line(log));
        let rest = log.skip(n + 1);
        let cut = at - n - 1;
        assert(after_first_line(log) == rest);
        assert(after_first_line(head) =~= rest.take(cut));
        assert(rest.skip(cut) =~= log.skip(at));
        if cut > 0 {
            assert(rest[cut - 1] == log[at - 1]);
        }
        lemma_reads_compose(rest, cut);
        if valid_utf8(first_line(log)) {
            let here = line_events(decode_utf8(first_line(log)));
            let early = tail_events(rest.take(cut));
            let late = tail_events(rest.skip(cut));
            if early is Some && late is Some {
                assert(here + (early->0 + late->0) =~= (here + early->0) + late->0);
            }
        }
    }
}

/// Where there is no log, as after it was cleared, there is nothing to read
/// and the offset to remember is 0.
pub proof fn lemma_cleared_log_starts_over(offset: nat)
    ensures
        current_offset(None) == 0,
        deleted_files(None, offset) == Some(Seq::<Seq<char>>::empty()),
{
}

/// A line that holds the marker phrase but has not the shape of a log line
/// yields no event, and the lines after it are read as if it were not there.
pub proof fn lemma_malformed_line_is_dropped(tail: Seq<u8>)
    requires
        tail.len() > 0,
        valid_utf8(first_line(tail)),
        deleted_path(decode_utf8(first_line(tail))) is None,
    ensures
        line_events(decode_utf8(first_line(tail))) == Seq::<Seq<char>>::empty(),
        tail_events(tail) == tail_events(after_first_line(tail)),
{
    let rest = tail_events(after_first_line(tail));
    if rest is Some {
        assert(Seq::<Seq<char>>::empty() + rest->0 =~= rest->0);
    }
}

/// Two reads of the same log from the same offset yield the same events.
pub proof fn lemma_read_is_repeatable(
    log: Option<Seq<u8>>,
    offset: nat,
    first: Option<Seq<Seq<char>>>,
    second: Option<Seq<Seq<char>>>,
)
    requires
        first == deleted_files(log, offset),
        second == deleted_files(log, offset),
    ensures
        first == second,
{
}

/// A read from the size that the log had before an append yields the events
/// of the appended bytes alone.
pub proof fn lemma_read_after_append(log: Seq<u8>, appended: Seq<u8>)
    requires
        log.len() <= u64::MAX,
    ensures
        deleted_files(
            Some(log + appended),
            current_offset(Some(log.len() as u64)) as nat,
        ) == deleted_files(Some(appended), 0),
        deleted_files(Some(log), current_offset(Some(log.len() as u64)) as nat) == Some(
            Seq::<Seq<char>>::empty(),
        ),
        (log + appended).len() <= u64::MAX ==> current_offset(Some(log.len() as u64))
            <= current_offset(Some((log + appended).len() as u64)),
{
    let whole = log + appended;
    if appended.len() > 0 {
        assert(whole.skip(log.len() as int) =~= appended);
        assert(appended.skip(0) =~= appended);
    }
}

/// `regex::Regex::new`, `Regex::captures`, `Captures::get` and
/// `Match::as_str`: the text of group `index` at the leftmost match of
/// `pattern` in `haystack`. The result is the one that `regex_group` names;
/// nothing is claimed of what it holds.
#[verifier::external_body]
fn captured_group(pattern: &str, haystack: &str, index: usize) -> (group: Option<String>)
    ensures
        group.deep_view() == regex_group(pattern@, haystack@, index as nat),
{
    let re = match regex::Regex::new(pattern) {
        Ok(re) => re,
        Err(_) => return None,
    };
    let captures = re.captures(haystack)?;
    Some(captures.get(index)?.as_str().to_string())
}

/// `std::str::from_utf8`: the bytes as text, where they are UTF-8. The text
/// then encodes to the same bytes.
#[verifier::external_body]
fn utf8_text(bytes: &[u8]) -> (text: Option<&str>)
    ensures
        text is Some <==> valid_utf8(bytes@),
        text matches Some(s) ==> s.spec_bytes() == bytes@,
{
    std::str::from_utf8(bytes).ok()
}

/// The path that a captured group stands for.
pub fn capture_path(capture: Option<String>) -> (path: Option<String>)
    ensures
        path.deep_view() == capture_path_text(capture.deep_view()),
{
    match capture {
        Some(group) => {
            let chars = to_chars(group.as_str());
            let (start, end) = trim_bounds(&chars, 0, chars.len());
            assert(chars@.subrange(0, chars@.len() as int) == chars@);
            Some(slice_text(group.as_str(), start, end))
        },
        None => None,
    }
}

/// Decides whether `line` holds the marker phrase.
pub fn has_delete_marker(line: &str) -> (b: bool)
    ensures
        b == contains_text(line@, DELETE_MARKER@),
{
    let chars = to_chars(line);
    let marker = to_chars(DELETE_MARKER);
    find_text(&chars, &marker).is_some()
}

/// The log of the engine.
pub struct LogManager;

impl LogManager {
    /// The path of the log file. `data_dir` is the application's local data
    /// directory, or the cause for which it cannot be told.
    pub fn get_log_path(data_dir: Result<String, String>) -> (r: Result<DirPath, String>)
        ensures
            path_result(r) == log_path(text_result(data_dir)),
    {
        match data_dir {
            Ok(dir) => Ok(DirPath::new(dir).join(LOG_FILE_NAME)),
            Err(cause) => {
                let mut detail = NO_DATA_DIR.to_owned();
                detail.append(cause.as_str());
                Err(detail)
            },
        }
    }

    /// The offset to remember for the next read: the size of the log file, 0
    /// where there is none.
    pub fn get_current_offset(size: Option<u64>) -> (offset: u64)
        ensures
            offset == current_offset(size),
    {
        match size {
            Some(n) => n,
            None => 0,
        }
    }

    /// Reads the path off a line that reports a held-back deletion.
    pub fn extract_deleted_file_path(line: &str) -> (path: Option<String>)
        ensures
            path.deep_view() == deleted_path(line@),
    {
        capture_path(captured_group(DELETE_PATTERN, line, 1))
    }

    /// Reads the log from `start_offset` on, line by line, and collects the
    /// paths whose deletion a dry run held back. `log` is the content of the
    /// log file, `None` where the file does not exist.
    pub fn parse_deleted_files(log: Option<&[u8]>, start_offset: u64) -> (r: Result<
        Vec<String>,
        EngineError,
    >)
        ensures
            match r {
                Ok(paths) => deleted_files(log.deep_view(), start_offset as nat) == Some(
                    paths.deep_view(),
                ),
                Err(e) => deleted_files(log.deep_view(), start_offset as nat) is None && e@
                    == failure(ErrorKind::Parse, INVALID_LINE@),
            },
    {
        let mut paths: Vec<String> = Vec::new();
        let bytes = match log {
            Some(bytes) => bytes,
            None => {
                assert(paths.deep_view() =~= Seq::<Seq<char>>::empty());
                return Ok(paths);
            },
        };
        assert(log.deep_view() == Some(bytes@)) by {
            assert(bytes.deep_view() =~= bytes@);
        }
        if start_offset >= bytes.len() as u64 {
            assert(paths.deep_view() =~= Seq::<Seq<char>>::empty());
            return Ok(paths);
        }
        let start: usize = start_offset as usize;
        let mut pos: usize = start;
        while pos < bytes.len()
            invariant
                start <= pos <= bytes.len(),
                deleted_files(log.deep_view(), start_offset as nat) == tail_events(
                    bytes@.skip(start as int),
                ),
                tail_events(bytes@.skip(start as int)) == both_reads(
                    Some(paths.deep_view()),
                    tail_events(bytes@.skip(pos as int)),
                ),
            decreases bytes.len() - pos,
        {
            let ghost tail = bytes@.skip(pos as int);
            let ghost before = paths.deep_view();
            let mut end: usize = pos;
            while end < bytes.len() && bytes[end] != 10
                invariant
                    pos <= end <= bytes.len(),
                    tail == bytes@.skip(pos as int),
                    forall|j: int| 0 <= j < end - pos ==> tail[j] != 10,
                decreases bytes.len() - end,
            {
                end = end + 1;
            }
            proof {
                lemma_line_break(tail);
                assert(tail.len() == bytes.len() - pos);
                if end < bytes.len() {
                    assert(tail[end - pos] == bytes@[end as int]);
                }
                assert(line_break(tail) == end - pos);
            }
            let next: usize = if end < bytes.len() {
                end + 1
            } else {
                end
            };
            let stop: usize = if end < bytes.len() && end > pos && bytes[end - 1] == 13 {
                end - 1
            } else {
                end
            };
            let raw = slice_subrange(bytes, pos, stop);
            proof {
                assert(raw@ =~= first_line(tail));
                assert(bytes@.skip(next as int) =~= after_first_line(tail));
            }
            match utf8_text(raw) {
                Some(line) => {
                    proof {
                        encode_utf8_decode_utf8(line@);
                    }
                    if has_delete_marker(line) {
                        if let Some(path) = Self::extract_deleted_file_path(line) {
                            paths.push(path);
                        }
                    }
                    proof {
                        let after = tail_events(bytes@.skip(next as int));
                        assert(paths.deep_view() =~= before + line_events(line@));
                        if after is Some {
                            assert(before + (line_events(line@) + after->0) =~= paths.deep_view()
                                + after->0);
                        }
                    }
                },
                None => {
                    return Err(EngineError::new(ErrorKind::Parse, INVALID_LINE));
                },
            }
            pos = next;
        }
        proof {
            assert(paths.deep_view() + Seq::<Seq<char>>::empty() =~= paths.deep_view());
        }
        Ok(paths)
    }
}

} // verus!
