//! Suggests a commit message for staged changes: builds the prompt from a
//! diff, frames the request to the text-generation endpoint, extracts the
//! message from its answer and decides each step of a run.

mod flow;
mod prompt;
mod request;
mod response;
mod text;

pub use prompt::{
    COMMIT_MESSAGE_GUIDELINE, DIFF_OPENING, DIFF_CLOSING, create_prompt, prompt_of, guideline,
    lemma_prompt_holds_diff, lemma_prompt_deterministic,
};
pub use response::{
    Candidate, Content, GenerationResponse, NoMessage, Part, extract_commit_message, feedback_line,
    first_text, reason_of, feedback_line_of, no_message_text, UNKNOWN_REASON, NO_FEEDBACK,
    FEEDBACK_PREFIX, NO_MESSAGE_HEAD, NO_MESSAGE_DETAIL, lemma_no_candidates,
};
pub use text::{is_white_space, trim_start, trim_end, trimmed};
pub use request::{
    endpoint_url, frame_request_body, request_body, status_is_failure, json_string_of, endpoint_of,
    body_of, request_body_of, is_failure_status, ENDPOINT, BODY_HEAD, BODY_TAIL,
};
pub use flow::{
    Action, Notice, Reply, Step, after_body, after_clipboard, after_diff, after_reply, resolve_api_key,
};
