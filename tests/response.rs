use commit_suggest::{
    extract_commit_message, feedback_line, Candidate, Content, GenerationResponse, Part, NO_FEEDBACK,
    UNKNOWN_REASON,
};

fn answer(texts: Vec<&str>) -> GenerationResponse {
    let parts = texts.into_iter().map(|t| Part { text: t.to_string() }).collect();
    GenerationResponse {
        candidates: vec![Candidate {
            content: Some(Content { parts }),
            finish_reason: Some("STOP".to_string()),
            safety_ratings: None,
        }],
        prompt_feedback: None,
    }
}

#[test]
fn message_is_trimmed_first_part() {
    let r = extract_commit_message(&answer(vec!["  feat: add login  ", "ignored"]));
    assert_eq!(r.unwrap(), "feat: add login");
}

#[test]
fn trimming_keeps_interior_and_drops_unicode_space() {
    let r = extract_commit_message(&answer(vec!["\u{3000}\t fix:  a\n\nbody \u{a0}\n"]));
    assert_eq!(r.unwrap(), "fix:  a\n\nbody");
}

#[test]
fn blank_text_gives_empty_message() {
    let r = extract_commit_message(&answer(vec![" \n\t "]));
    assert_eq!(r.unwrap(), "");
}

#[test]
fn no_candidates_gives_placeholders() {
    let resp = GenerationResponse { candidates: vec![], prompt_feedback: None };
    let e = extract_commit_message(&resp).unwrap_err();
    assert_eq!(e.finish_reason, UNKNOWN_REASON);
    assert_eq!(e.feedback, NO_FEEDBACK);
    let text = e.describe();
    assert!(text.contains("unknown"));
    assert!(text.contains("No Prompt Feedback"));
    assert_eq!(
        text,
        "The model returned no usable text.\nreason: finish_reason='unknown (no candidates, or an unexpected structure)'\ndetail: No Prompt Feedback"
    );
}

#[test]
fn missing_content_reports_finish_reason() {
    let resp = GenerationResponse {
        candidates: vec![Candidate {
            content: None,
            finish_reason: Some("SAFETY".to_string()),
            safety_ratings: None,
        }],
        prompt_feedback: Some(serde_json::Value::String("blocked".to_string())),
    };
    let e = extract_commit_message(&resp).unwrap_err();
    assert_eq!(e.finish_reason, "SAFETY");
    assert_eq!(e.feedback, "Prompt Feedback: String(\"blocked\")");
}

#[test]
fn empty_parts_fail_with_placeholder_reason() {
    let resp = GenerationResponse {
        candidates: vec![Candidate {
            content: Some(Content { parts: vec![] }),
            finish_reason: None,
            safety_ratings: None,
        }],
        prompt_feedback: None,
    };
    let e = extract_commit_message(&resp).unwrap_err();
    assert_eq!(e.finish_reason, UNKNOWN_REASON);
    assert_eq!(e.feedback, NO_FEEDBACK);
}

#[test]
fn feedback_line_forms() {
    assert_eq!(feedback_line(None), "No Prompt Feedback");
    assert_eq!(feedback_line(Some("x".to_string())), "Prompt Feedback: x");
}
