//! What the authorization subprocess writes: the link to open, and the token
//! from which the parameters of a remote are made.

use crate::error::{failure, EngineError, ErrorKind};
use crate::remotes::DRIVE_TYPE;
use crate::text::{
    find_either, find_last, find_text, first_index, first_occurrence, last_index,
    lemma_first_index_either, lemma_last_index, slice_text, to_chars,
    trim_bounds, trimmed,
};
use vstd::prelude::*;

verus! {

/// Phrase after which the authorization subprocess prints the link that the
/// user has to open.
pub const AUTH_URL_MARKER: &'static str = "Please go to the following link: ";

/// Name of the member that holds the token in the parameters of a remote.
pub const TOKEN_FIELD: &'static str = "token";

/// Detail of the failure on an authorization output without a token.
pub const TOKEN_MISSING: &'static str = "Failed to extract token from auth output";

/// The compact JSON text of the object whose one member, called `key`, holds
/// the text `value`.
pub uninterp spec fn json_member_text(key: Seq<char>, value: Seq<char>) -> Seq<char>;

/// The parameters of a remote that is authorized by `token`.
pub open spec fn token_parameters_text(token: Seq<char>) -> Seq<char> {
    json_member_text(TOKEN_FIELD@, token)
}

/// The parameters of the remote that the output of the authorization
/// subprocess authorizes; `None` where the output holds no token.
pub open spec fn remote_parameters_text(output: Seq<char>) -> Option<Seq<char>> {
    match json_span(output) {
        Some(token) => Some(token_parameters_text(token)),
        None => None,
    }
}

/// The arguments of the authorization subprocess. Where the browser is not to
/// be opened, the subprocess is told so and prints the link only.
pub open spec fn authorize_arguments_text(open_browser: bool) -> Seq<Seq<char>> {
    if open_browser {
        seq!["authorize"@, DRIVE_TYPE@]
    } else {
        seq!["authorize"@, DRIVE_TYPE@, "--auth-no-open-browser"@]
    }
}

/// The part of `text` from its first `{` to its last `}`, both included, where
/// the first `{` does not come after the last `}`.
pub open spec fn json_span(text: Seq<char>) -> Option<Seq<char>> {
    let start = first_index(text, '{');
    let end = last_index(text, '}');
    if start < text.len() && start <= end {
        Some(text.subrange(start, end + 1))
    } else {
        None
    }
}

/// The link that `line` announces: what follows the first marker phrase,
/// trimmed.
pub open spec fn auth_url(line: Seq<char>) -> Option<Seq<char>> {
    let at = first_occurrence(line, AUTH_URL_MARKER@);
    if at >= 0 {
        Some(trimmed(line.skip(at + AUTH_URL_MARKER@.len())))
    } else {
        None
    }
}

/// `json_span` is `None` exactly where `text` lacks a `{`, lacks a `}`, or has
/// its last `}` before its first `{`. Otherwise it runs from the first `{`,
/// which no `{` precedes, to the last `}`, which no `}` follows.
pub proof fn lemma_json_span(text: Seq<char>)
    ensures
        json_span(text) is None <==> (!text.contains('{') || !text.contains('}') || last_index(
            text,
            '}',
        ) < first_index(text, '{')),
        json_span(text) matches Some(span) ==> {
            let start = first_index(text, '{');
            let end = last_index(text, '}');
            &&& 0 <= start <= end < text.len()
            &&& span == text.subrange(start, end + 1)
            &&& span.len() == end - start + 1
            &&& span.first() == '{'
            &&& span.last() == '}'
            &&& forall|i: int| 0 <= i < start ==> text[i] != '{'
            &&& forall|i: int| end < i < text.len() ==> text[i] != '}'
        },
{
    lemma_first_index_either(text, '{', '{');
    lemma_last_index(text, '}');
    let start = first_index(text, '{');
    let end = last_index(text, '}');
    if start < text.len() {
        assert(text.contains('{'));
    }
    if end >= 0 {
        assert(text.contains('}'));
    }
}

/// `serde_json::Map::insert` and the `Display` of `serde_json::Value`: the
/// compact JSON text of the object with the one member `key`, a string whose
/// value is `value`. The result is the one that `json_member_text` names;
/// nothing is claimed of what it holds.
#[verifier::external_body]
fn json_member(key: &str, value: &str) -> (text: String)
    ensures
        text@ == json_member_text(key@, value@),
{
    let mut members = serde_json::Map::new();
    members.insert(key.to_string(), serde_json::Value::String(value.to_string()));
    serde_json::Value::Object(members).to_string()
}

/// Cuts the embedded JSON object out of the output of the authorization
/// subprocess.
pub fn extract_json(text: &str) -> (r: Option<String>)
    ensures
        r.deep_view() == json_span(text@),
{
    let chars = to_chars(text);
    let start = find_either(&chars, 0, '{', '{');
    assert(chars@.skip(0) == chars@);
    match find_last(&chars, '}') {
        Some(end) => {
            if start <= end {
                Some(slice_text(text, start, end + 1))
            } else {
                None
            }
        },
        None => None,
    }
}

/// Reads the authorization link off one line of the subprocess's error
/// stream.
pub fn extract_auth_url(line: &str) -> (r: Option<String>)
    ensures
        r.deep_view() == auth_url(line@),
{
    let chars = to_chars(line);
    let marker = to_chars(AUTH_URL_MARKER);
    match find_text(&chars, &marker) {
        Some(at) => {
            let from = at + marker.len();
            let (start, end) = trim_bounds(&chars, from, chars.len());
            assert(chars@.subrange(from as int, chars@.len() as int) == chars@.skip(from as int));
            Some(slice_text(line, start, end))
        },
        None => None,
    }
}

/// Writes the arguments of the authorization subprocess.
pub fn authorize_arguments(open_browser: bool) -> (arguments: Vec<String>)
    ensures
        arguments.deep_view() == authorize_arguments_text(open_browser),
{
    let mut arguments: Vec<String> = Vec::new();
    arguments.push("authorize".to_owned());
    arguments.push(DRIVE_TYPE.to_owned());
    if !open_browser {
        arguments.push("--auth-no-open-browser".to_owned());
    }
    assert(arguments.deep_view() =~= authorize_arguments_text(open_browser));
    arguments
}

/// Writes the parameters of a remote that is authorized by `token`.
pub fn token_parameters(token: &str) -> (parameters: String)
    ensures
        parameters@ == token_parameters_text(token@),
{
    json_member(TOKEN_FIELD, token)
}

/// Turns the output of the authorization subprocess into the parameters of
/// the remote to create. Fails where the output holds no token.
pub fn remote_parameters(output: &str) -> (r: Result<String, EngineError>)
    ensures
        match r {
            Ok(parameters) => remote_parameters_text(output@) == Some(parameters@),
            Err(e) => remote_parameters_text(output@) is None && e@ == failure(
                ErrorKind::Parse,
                TOKEN_MISSING@,
            ),
        },
{
    match extract_json(output) {
        Some(token) => Ok(token_parameters(token.as_str())),
        None => Err(EngineError::new(ErrorKind::Parse, TOKEN_MISSING)),
    }
}

} // verus!
