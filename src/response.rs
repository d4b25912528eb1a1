use vstd::prelude::*;
use crate::text::{trim_white_space, trimmed};

verus! {

#[verifier::external_type_specification]
#[verifier::external_body]
pub struct ExValue(serde_json::Value);

/// One piece of generated text.
#[derive(Debug)]
pub struct Part {
    pub text: String,
}

/// What a candidate generated: a list of text parts.
#[derive(Debug)]
pub struct Content {
    pub parts: Vec<Part>,
}

/// One alternative answer of the model.
#[derive(Debug)]
pub struct Candidate {
    pub content: Option<Content>,
    pub finish_reason: Option<String>,
    pub safety_ratings: Option<serde_json::Value>,
}

/// The endpoint's answer to a generation request.
#[derive(Debug)]
pub struct GenerationResponse {
    pub candidates: Vec<Candidate>,
    pub prompt_feedback: Option<serde_json::Value>,
}

/// Stands for the finish reason where the first candidate gives none.
pub const UNKNOWN_REASON: &'static str = "unknown (no candidates, or an unexpected structure)";

/// Stands for the prompt feedback where the answer has none.
pub const NO_FEEDBACK: &'static str = "No Prompt Feedback";

/// Comes before the rendering of the prompt feedback.
pub const FEEDBACK_PREFIX: &'static str = "Prompt Feedback: ";

/// Opens the description of an answer that holds no message.
pub const NO_MESSAGE_HEAD: &'static str = "The model returned no usable text.\nreason: finish_reason='";

/// Stands between the finish reason and the feedback in that description.
pub const NO_MESSAGE_DETAIL: &'static str = "'\ndetail: ";

/// The text of the first part of the first candidate's content, where there is one.
pub open spec fn first_text(resp: GenerationResponse) -> Option<Seq<char>> {
    if resp.candidates@.len() > 0 {
        match resp.candidates@[0].content {
            Some(c) => if c.parts@.len() > 0 {
                Some(c.parts@[0].text@)
            } else {
                None
            },
            None => None,
        }
    } else {
        None
    }
}

/// The first candidate's finish reason, or the placeholder where it has none.
pub open spec fn reason_of(resp: GenerationResponse) -> Seq<char> {
    if resp.candidates@.len() > 0 && resp.candidates@[0].finish_reason is Some {
        resp.candidates@[0].finish_reason->Some_0@
    } else {
        UNKNOWN_REASON@
    }
}

/// The feedback line for a rendering of the prompt feedback, or for its absence.
pub open spec fn feedback_line_of(rendering: Option<Seq<char>>) -> Seq<char> {
    match rendering {
        Some(t) => FEEDBACK_PREFIX@ + t,
        None => NO_FEEDBACK@,
    }
}

/// The description of an answer without a message.
pub open spec fn no_message_text(reason: Seq<char>, feedback: Seq<char>) -> Seq<char> {
    NO_MESSAGE_HEAD@ + reason + NO_MESSAGE_DETAIL@ + feedback
}

/// An answer without candidates holds no message, and the reason given for
/// that is the placeholder.
pub proof fn lemma_no_candidates(resp: GenerationResponse)
    requires
        resp.candidates@.len() == 0,
    ensures
        first_text(resp) is None,
        reason_of(resp) == UNKNOWN_REASON@,
{
}

/// Why no message could be taken from an answer.
#[derive(Debug)]
pub struct NoMessage {
    /// The first candidate's finish reason, or [`UNKNOWN_REASON`].
    pub finish_reason: String,
    /// The rendered prompt feedback, or [`NO_FEEDBACK`].
    pub feedback: String,
}

impl NoMessage {
    /// The diagnostic shown to the user.
    pub fn describe(&self) -> (r: String)
        ensures
            r@ == no_message_text(self.finish_reason@, self.feedback@),
    {
        let mut r = String::from_str(NO_MESSAGE_HEAD);
        r.append(self.finish_reason.as_str());
        r.append(NO_MESSAGE_DETAIL);
        r.append(self.feedback.as_str());
        r
    }
}

/// Relies on the `Debug` impl of `serde_json::Value` to render the prompt feedback.
#[verifier::external_body]
fn render_value(v: &serde_json::Value) -> String {
    format!("{:?}", v)
}

/// The feedback line for a rendering of the prompt feedback, or for its absence.
pub fn feedback_line(rendering: Option<String>) -> (r: String)
    ensures
        r@ == feedback_line_of(
            match rendering {
                Some(t) => Some(t@),
                None => None,
            },
        ),
{
    match rendering {
        Some(t) => {
            let mut r = String::from_str(FEEDBACK_PREFIX);
            r.append(t.as_str());
            r
        },
        None => String::from_str(NO_FEEDBACK),
    }
}

/// Takes the commit message out of an answer: the first part of the first
/// candidate's content with white space trimmed from both ends. Where there is
/// no such part, says why, from the first candidate's finish reason and the
/// prompt feedback.
pub fn extract_commit_message(resp: &GenerationResponse) -> (r: Result<String, NoMessage>)
    ensures
        first_text(*resp) is Some ==> r is Ok && r->Ok_0@ == trimmed(first_text(*resp)->Some_0),
        first_text(*resp) is None ==> r is Err,
        r is Err ==> r->Err_0.finish_reason@ == reason_of(*resp),
        r is Err && resp.prompt_feedback is None ==> r->Err_0.feedback@ == NO_FEEDBACK@,
        r is Err && resp.prompt_feedback is Some ==> exists|t: Seq<char>|
            r->Err_0.feedback@ == #[trigger] feedback_line_of(Some(t)),
{
    if resp.candidates.len() > 0 {
        let first = &resp.candidates[0];
        if let Some(content) = &first.content {
            if content.parts.len() > 0 {
                let text = trim_white_space(content.parts[0].text.as_str());
                return Ok(String::from_str(text));
            }
        }
    }
    let finish_reason = if resp.candidates.len() > 0 {
        match &resp.candidates[0].finish_reason {
            Some(reason) => reason.clone(),
            None => String::from_str(UNKNOWN_REASON),
        }
    } else {
        String::from_str(UNKNOWN_REASON)
    };
    let rendering = match &resp.prompt_feedback {
        Some(v) => Some(render_value(v)),
        None => None,
    };
    let feedback = feedback_line(rendering);
    Err(NoMessage { finish_reason, feedback })
}

} // verus!
