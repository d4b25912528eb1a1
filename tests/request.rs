use commit_suggest::{endpoint_url, frame_request_body, request_body, status_is_failure};

#[test]
fn url_carries_key_as_query_parameter() {
    assert_eq!(
        endpoint_url("abc123"),
        "https://generativelanguage.googleapis.com/v1beta/models/gemini-2.5-flash:generateContent?key=abc123"
    );
}

#[test]
fn body_holds_one_part_with_the_prompt() {
    assert_eq!(
        request_body("hello"),
        "{\"contents\":[{\"parts\":[{\"text\":\"hello\"}]}]}"
    );
}

#[test]
fn body_escapes_the_prompt() {
    let body = request_body("a \"quoted\"\nline\\");
    assert_eq!(
        body,
        "{\"contents\":[{\"parts\":[{\"text\":\"a \\\"quoted\\\"\\nline\\\\\"}]}]}"
    );
    let v: serde_json::Value = serde_json::from_str(&body).unwrap();
    assert_eq!(v["contents"][0]["parts"][0]["text"], "a \"quoted\"\nline\\");
}

#[test]
fn framing_takes_a_json_literal() {
    assert_eq!(frame_request_body("\"x\""), "{\"contents\":[{\"parts\":[{\"text\":\"x\"}]}]}");
}

#[test]
fn failure_statuses() {
    for s in [400u16, 401, 404, 429, 499, 500, 503, 599] {
        assert!(status_is_failure(s), "{}", s);
    }
    for s in [100u16, 200, 204, 301, 304, 399, 600] {
        assert!(!status_is_failure(s), "{}", s);
    }
}
