use tender_triage::summary::AIService;

#[test]
fn json_reply_already_clean() {
    assert_eq!(AIService::extract_json_from_response("  {\"a\": 1}\n"), "{\"a\": 1}");
}

#[test]
fn json_in_fenced_block() {
    let reply = "Here it is:\n```json\n  {\"x\": 2}\n```\nThanks";
    assert_eq!(AIService::extract_json_from_response(reply), "{\"x\": 2}");
}

#[test]
fn json_in_balanced_braces() {
    let reply = "Result: {\"a\": {\"b\": 1}} and more }";
    assert_eq!(AIService::extract_json_from_response(reply), "{\"a\": {\"b\": 1}}");
}

#[test]
fn json_unclosed_fence_falls_back_to_braces() {
    let reply = "```json {\"k\": 3} no closing fence";
    assert_eq!(AIService::extract_json_from_response(reply), "{\"k\": 3}");
}

#[test]
fn json_absent_returns_reply() {
    assert_eq!(AIService::extract_json_from_response("no json { here"), "no json { here");
    assert_eq!(AIService::extract_json_from_response("plain"), "plain");
}

#[test]
fn truncate_keeps_short_text() {
    assert_eq!(AIService::safe_truncate("hello", 10), "hello");
    assert_eq!(AIService::safe_truncate("hello", 5), "hello");
}

#[test]
fn truncate_cuts_at_char_boundary() {
    assert_eq!(AIService::safe_truncate("hello world", 5), "hello...");
    assert_eq!(AIService::safe_truncate("h\u{e9}llo", 2), "h...");
    assert_eq!(AIService::safe_truncate("\u{e9}t\u{e9}", 1), "...");
}
