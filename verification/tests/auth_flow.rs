use neuro_kar_manager::auth::{extract_auth_url, extract_json};

#[test]
fn extract_json_returns_inclusive_span() {
    let out = "Paste the following:\n{\"access_token\":\"abc\",\"nested\":{\"a\":1}}\n<---End paste";
    assert_eq!(
        extract_json(out),
        Some("{\"access_token\":\"abc\",\"nested\":{\"a\":1}}".to_string())
    );
}

#[test]
fn extract_json_without_braces_is_none() {
    assert_eq!(extract_json(""), None);
    assert_eq!(extract_json("no json here"), None);
    assert_eq!(extract_json("only { open"), None);
    assert_eq!(extract_json("only } close"), None);
}

#[test]
fn extract_json_last_close_before_first_open_is_none() {
    assert_eq!(extract_json("} then {"), None);
}

#[test]
fn extract_json_does_not_balance_braces() {
    assert_eq!(extract_json("a{b}c}d"), Some("{b}c}".to_string()));
    assert_eq!(extract_json("{"), None);
    assert_eq!(extract_json("{}"), Some("{}".to_string()));
}

#[test]
fn extract_json_counts_characters_not_bytes() {
    assert_eq!(extract_json("é{\"k\":\"ü\"}ß"), Some("{\"k\":\"ü\"}".to_string()));
}

#[test]
fn extract_auth_url_trims_remainder() {
    let line = "2024/01/01 NOTICE: Please go to the following link: http://127.0.0.1:53682/auth?state=xyz  ";
    assert_eq!(
        extract_auth_url(line),
        Some("http://127.0.0.1:53682/auth?state=xyz".to_string())
    );
}

#[test]
fn extract_auth_url_without_marker_is_none() {
    assert_eq!(extract_auth_url("Waiting for code..."), None);
    assert_eq!(extract_auth_url("Please go to the following link:"), None);
}

#[test]
fn extract_auth_url_uses_first_marker() {
    let line = "Please go to the following link: a Please go to the following link: b";
    assert_eq!(
        extract_auth_url(line),
        Some("a Please go to the following link: b".to_string())
    );
}

#[test]
fn extract_auth_url_empty_remainder() {
    assert_eq!(extract_auth_url("Please go to the following link: "), Some(String::new()));
    assert_eq!(
        extract_auth_url("Please go to the following link: \u{a0}\t "),
        Some(String::new())
    );
}
