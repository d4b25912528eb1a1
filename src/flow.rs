use vstd::prelude::*;
use crate::prompt::{create_prompt, prompt_of};
use crate::request::{endpoint_url, request_body, status_is_failure, endpoint_of, request_body_of, is_failure_status};
use crate::response::{
    GenerationResponse, extract_commit_message, feedback_line_of, first_text, no_message_text, reason_of,
    NO_FEEDBACK,
};
use crate::text::trimmed;

verus! {

/// What the user is told at a step of the run.
#[derive(Debug, PartialEq, Eq)]
pub enum Notice {
    /// The staged diff could not be read; holds the reason.
    DiffUnreadable(String),
    /// There are no staged changes.
    NothingToCommit,
    /// No credential was given; holds why the environment had none.
    MissingCredential(String),
    /// The endpoint answered with a failure status.
    RejectedStatus(u16),
    /// Generating the message failed; holds the reason.
    GenerationFailed(String),
    /// The suggested commit message.
    Message(String),
    /// The message is on the clipboard.
    Copied,
    /// The clipboard could not take the message; holds the reason.
    CopyFailed(String),
}

/// What the run does next.
#[derive(Debug, PartialEq, Eq)]
pub enum Action {
    /// Send `body` as JSON by POST to `url`, then report the status.
    Generate { url: String, body: String },
    /// Read the answer's body as a generation response, then report it.
    ReadBody,
    /// Put `message` on the clipboard, then report how that went.
    CopyToClipboard { message: String },
    /// End the run, reporting success or failure.
    Exit { success: bool },
}

/// One step of the run: what to tell the user, then what to do.
#[derive(Debug, PartialEq, Eq)]
pub struct Step {
    pub notice: Option<Notice>,
    pub action: Action,
}

/// How the request went, before its body is read.
#[derive(Debug, PartialEq, Eq)]
pub enum Reply {
    /// The request could not be sent or no answer came; holds the reason.
    Unreachable(String),
    /// The endpoint answered with this HTTP status.
    Status(u16),
}

/// The credential to use: the first command-line argument after the program's
/// name where there is one, else what the environment gave.
pub fn resolve_api_key(args: &Vec<String>, env_key: Result<String, String>) -> (r: Result<String, String>)
    ensures
        args@.len() > 1 ==> r is Ok && r->Ok_0@ == args@[1]@,
        args@.len() <= 1 ==> r == env_key,
{
    if args.len() > 1 {
        Ok(args[1].clone())
    } else {
        env_key
    }
}

/// The step after the staged diff was read, given the credential: stop where
/// the diff could not be read, where it is empty, or where there is no
/// credential; else ask the endpoint for a message.
pub fn after_diff(diff: Result<String, String>, api_key: Result<String, String>) -> (r: Step)
    ensures
        diff is Err ==> r.notice == Some(Notice::DiffUnreadable(diff->Err_0))
            && r.action == (Action::Exit { success: false }),
        diff is Ok && diff->Ok_0@.len() == 0 ==> r.notice == Some(Notice::NothingToCommit)
            && r.action == (Action::Exit { success: true }),
        diff is Ok && diff->Ok_0@.len() > 0 && api_key is Err ==> r.notice == Some(
            Notice::MissingCredential(api_key->Err_0),
        ) && r.action == (Action::Exit { success: true }),
        diff is Ok && diff->Ok_0@.len() > 0 && api_key is Ok ==> ({
            &&& r.notice is None
            &&& r.action matches Action::Generate { url, body }
            &&& url@ == endpoint_of(api_key->Ok_0@)
            &&& body@ == request_body_of(prompt_of(diff->Ok_0@))
        }),
{
    match diff {
        Err(e) => Step { notice: Some(Notice::DiffUnreadable(e)), action: Action::Exit { success: false } },
        Ok(d) => {
            if d.as_str().is_empty() {
                Step { notice: Some(Notice::NothingToCommit), action: Action::Exit { success: true } }
            } else {
                match api_key {
                    Err(e) => Step {
                        notice: Some(Notice::MissingCredential(e)),
                        action: Action::Exit { success: true },
                    },
                    Ok(key) => {
                        let prompt = create_prompt(d.as_str());
                        let url = endpoint_url(key.as_str());
                        let body = request_body(prompt.as_str());
                        Step { notice: None, action: Action::Generate { url, body } }
                    },
                }
            }
        },
    }
}

/// The step after the request: a failure status or no answer ends the run
/// unsuccessfully, and the body is read only after any other status.
pub fn after_reply(reply: Reply) -> (r: Step)
    ensures
        reply is Unreachable ==> r.notice == Some(Notice::GenerationFailed(reply->Unreachable_0))
            && r.action == (Action::Exit { success: false }),
        reply is Status && is_failure_status(reply->Status_0) ==> r.notice == Some(
            Notice::RejectedStatus(reply->Status_0),
        ) && r.action == (Action::Exit { success: false }),
        reply is Status && !is_failure_status(reply->Status_0) ==> r.notice is None
            && r.action == Action::ReadBody,
{
    match reply {
        Reply::Unreachable(e) => Step {
            notice: Some(Notice::GenerationFailed(e)),
            action: Action::Exit { success: false },
        },
        Reply::Status(s) => {
            if status_is_failure(s) {
                Step { notice: Some(Notice::RejectedStatus(s)), action: Action::Exit { success: false } }
            } else {
                Step { notice: None, action: Action::ReadBody }
            }
        },
    }
}

/// The step after the body was read: show the message and copy it, or end the
/// run unsuccessfully with the reason there is none.
pub fn after_body(parsed: Result<GenerationResponse, String>) -> (r: Step)
    ensures
        parsed is Err ==> r.notice == Some(Notice::GenerationFailed(parsed->Err_0))
            && r.action == (Action::Exit { success: false }),
        parsed is Ok && first_text(parsed->Ok_0) is Some ==> ({
            let m = trimmed(first_text(parsed->Ok_0)->Some_0);
            &&& r.notice matches Some(Notice::Message(n)) && n@ == m
            &&& r.action matches Action::CopyToClipboard { message } && message@ == m
        }),
        parsed is Ok && first_text(parsed->Ok_0) is None ==> ({
            &&& r.action == (Action::Exit { success: false })
            &&& r.notice matches Some(Notice::GenerationFailed(t))
            &&& parsed->Ok_0.prompt_feedback is None ==> t@ == no_message_text(
                reason_of(parsed->Ok_0),
                NO_FEEDBACK@,
            )
            &&& parsed->Ok_0.prompt_feedback is Some ==> exists|rendering: Seq<char>|
                t@ == #[trigger] no_message_text(
                    reason_of(parsed->Ok_0),
                    feedback_line_of(Some(rendering)),
                )
        }),
{
    match parsed {
        Err(e) => Step {
            notice: Some(Notice::GenerationFailed(e)),
            action: Action::Exit { success: false },
        },
        Ok(resp) => match extract_commit_message(&resp) {
            Ok(m) => {
                let shown = m.clone();
                Step { notice: Some(Notice::Message(shown)), action: Action::CopyToClipboard { message: m } }
            },
            Err(nm) => {
                let t = nm.describe();
                Step { notice: Some(Notice::GenerationFailed(t)), action: Action::Exit { success: false } }
            },
        },
    }
}

/// The step after the clipboard write: the run succeeds whether or not the
/// clipboard took the message; only the notice differs.
pub fn after_clipboard(copied: Result<(), String>) -> (r: Step)
    ensures
        r.action == (Action::Exit { success: true }),
        copied is Ok ==> r.notice == Some(Notice::Copied),
        copied is Err ==> r.notice == Some(Notice::CopyFailed(copied->Err_0)),
{
    match copied {
        Ok(()) => Step { notice: Some(Notice::Copied), action: Action::Exit { success: true } },
        Err(e) => Step { notice: Some(Notice::CopyFailed(e)), action: Action::Exit { success: true } },
    }
}

} // verus!
