use vstd::prelude::*;

verus! {

#[verifier::external_type_specification]
#[verifier::external_body]
pub struct ExJsonError(serde_json::Error);

/// The generation endpoint; the credential follows as the `key` query parameter.
pub const ENDPOINT: &'static str =
    "https://generativelanguage.googleapis.com/v1beta/models/gemini-2.5-flash:generateContent?key=";

/// Opens the request body, up to the prompt's JSON string.
pub const BODY_HEAD: &'static str = "{\"contents\":[{\"parts\":[{\"text\":";

/// Closes the request body after the prompt's JSON string.
pub const BODY_TAIL: &'static str = "}]}]}";

/// The JSON string literal that `serde_json` writes for a string.
pub uninterp spec fn json_string_of(s: Seq<char>) -> Seq<char>;

/// The request URL for a credential.
pub open spec fn endpoint_of(api_key: Seq<char>) -> Seq<char> {
    ENDPOINT@ + api_key
}

/// The request body around the JSON string literal of the prompt: one content
/// entry holding one text part.
pub open spec fn body_of(quoted: Seq<char>) -> Seq<char> {
    BODY_HEAD@ + quoted + BODY_TAIL@
}

/// The request body for a prompt.
pub open spec fn request_body_of(prompt: Seq<char>) -> Seq<char> {
    body_of(json_string_of(prompt))
}

/// Statuses with which the endpoint refuses a request: client and server errors.
pub open spec fn is_failure_status(status: u16) -> bool {
    400 <= status && status <= 599
}

/// Relies on `serde_json::to_string`: a string serializes to its JSON string
/// literal; it fails only through the writer or on a map with non-string keys,
/// neither of which can happen for a `str` written to memory.
#[verifier::external_body]
fn json_string(s: &str) -> (r: Result<String, serde_json::Error>)
    ensures
        r is Ok,
        r is Ok ==> r->Ok_0@ == json_string_of(s@),
{
    serde_json::to_string(s)
}

/// The request URL for a credential.
pub fn endpoint_url(api_key: &str) -> (r: String)
    ensures
        r@ == endpoint_of(api_key@),
{
    let mut r = String::from_str(ENDPOINT);
    r.append(api_key);
    r
}

/// The request body around a prompt already written as a JSON string literal.
pub fn frame_request_body(quoted: &str) -> (r: String)
    ensures
        r@ == body_of(quoted@),
{
    let mut r = String::from_str(BODY_HEAD);
    r.append(quoted);
    r.append(BODY_TAIL);
    r
}

/// The JSON request body that asks for a completion of `prompt`.
pub fn request_body(prompt: &str) -> (r: String)
    ensures
        r@ == request_body_of(prompt@),
{
    match json_string(prompt) {
        Ok(quoted) => frame_request_body(quoted.as_str()),
        // A string always serializes; this arm is never taken.
        Err(_) => String::new(),
    }
}

/// Whether the endpoint refused the request with this status; its body is then not read.
pub fn status_is_failure(status: u16) -> (r: bool)
    ensures
        r == is_failure_status(status),
{
    400 <= status && status <= 599
}

} // verus!
