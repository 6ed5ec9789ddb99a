use claudometer::redact::{find_ascii_case_insensitive, redact_secrets, redact_session_key};

#[test]
fn redact_secrets_redacts_cookie_header_line() {
    let input = "Cookie: sessionKey=abc123;\nOther: ok\n";
    let out = redact_secrets(input);
    assert!(out.contains("Cookie: REDACTED\n"));
    assert!(out.contains("Other: ok\n"));
    assert!(!out.contains("abc123"));
}

#[test]
fn redact_secrets_redacts_bearer_header_line() {
    let input = "Authorization: Bearer sk-live-xyz\n";
    let out = redact_secrets(input);
    assert_eq!(out, "Authorization: Bearer REDACTED\n");
    assert!(!out.contains("sk-live-xyz"));
}

#[test]
fn redact_session_key_redacts_both_casings_and_token_prefix() {
    let out = redact_session_key("sessionKey=aaa; sessionkey=bbb sk-ant-sid01-t0k_en-x rest");
    assert_eq!(
        out,
        "sessionKey=REDACTED; sessionkey=REDACTED sk-ant-sid01-REDACTED rest"
    );
    assert!(!out.contains("aaa"));
    assert!(!out.contains("bbb"));
    assert!(!out.contains("t0k_en"));
}

#[test]
fn redact_session_key_leaves_plain_text_alone() {
    let input = "nothing secret here";
    assert_eq!(redact_session_key(input), input);
}

#[test]
fn redact_secrets_is_case_insensitive_for_headers() {
    let out = redact_secrets("COOKIE: top=secret\nAuthorization: bearer zzz\n");
    assert!(out.contains("COOKIE: REDACTED\n"));
    // The header name keeps its original casing; the value goes.
    assert!(out.contains("Authorization: bearer REDACTED\n"));
    assert!(!out.contains("zzz"));
}

#[test]
fn find_ascii_case_insensitive_reports_first_match() {
    assert_eq!(find_ascii_case_insensitive("xxCooKIE:yy", "cookie:"), Some(2));
    assert_eq!(find_ascii_case_insensitive("abc", "zzz"), None);
    assert_eq!(find_ascii_case_insensitive("abc", ""), Some(0));
}
