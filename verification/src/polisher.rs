use vstd::prelude::*;

use crate::prompt::{PROMPT_SYSTEM_PROMPT, SYSTEM_PROMPT, TRANSFORM_SYSTEM_PROMPT};
use crate::text::{decimal, decimal_string, trim, trimmed, view_result, views};

verus! {

/// The chat completions endpoint every request goes to.
pub const ENDPOINT: &'static str = "https://openrouter.ai/api/v1/chat/completions";

/// The model every request names.
pub const MODEL: &'static str = "openai/gpt-4o-mini";

/// The completion length every request asks for at most.
pub const MAX_TOKENS: u32 = 2048;

/// One chat message.
#[derive(PartialEq, Eq, Debug)]
pub struct Message {
    pub role: String,
    pub content: String,
}

/// What a request is for; it decides the sampling temperature of the request.
#[derive(PartialEq, Eq, Structural, Clone, Copy, Debug)]
pub enum Purpose {
    Polish,
    Transform,
    Prompt,
}

/// A chat completion request, ready to be serialised and sent to `ENDPOINT`.
#[derive(PartialEq, Eq, Debug)]
pub struct ChatRequest {
    pub model: String,
    pub messages: Vec<Message>,
    pub max_tokens: u32,
    pub purpose: Purpose,
    /// The value of the `Authorization` header.
    pub authorization: String,
}

/// The `Authorization` header value for `api_key`.
pub open spec fn spec_bearer(api_key: Seq<char>) -> Seq<char> {
    "Bearer "@ + api_key
}

/// The user message of a custom-instruction request.
pub open spec fn spec_instruction_content(instruction: Seq<char>, text: Seq<char>) -> Seq<char> {
    "Instruction: "@ + instruction + "\n\nText:\n"@ + text
}

/// `r` is a request with the given purpose, system prompt, user message and key.
pub open spec fn is_request(
    r: ChatRequest,
    purpose: Purpose,
    system: Seq<char>,
    user: Seq<char>,
    api_key: Seq<char>,
) -> bool {
    &&& r.model@ == MODEL@
    &&& r.max_tokens == MAX_TOKENS
    &&& r.purpose == purpose
    &&& r.authorization@ == spec_bearer(api_key)
    &&& r.messages@.len() == 2
    &&& r.messages@[0].role@ == "system"@
    &&& r.messages@[0].content@ == system
    &&& r.messages@[1].role@ == "user"@
    &&& r.messages@[1].content@ == user
}

/// The `Authorization` header value for `api_key`.
pub fn bearer(api_key: &str) -> (r: String)
    ensures
        r@ == spec_bearer(api_key@),
{
    let mut r = String::from_str("Bearer ");
    r.append(api_key);
    r
}

fn request(purpose: Purpose, system: &str, user: String, api_key: &str) -> (r: ChatRequest)
    ensures
        is_request(r, purpose, system@, user@, api_key@),
{
    let mut messages: Vec<Message> = Vec::new();
    messages.push(Message { role: String::from_str("system"), content: String::from_str(system) });
    messages.push(Message { role: String::from_str("user"), content: user });
    ChatRequest {
        model: String::from_str(MODEL),
        messages,
        max_tokens: MAX_TOKENS,
        purpose,
        authorization: bearer(api_key),
    }
}

/// The request that asks for `text` to be polished.
pub fn polish_text(text: &str, api_key: &str) -> (r: ChatRequest)
    ensures
        is_request(r, Purpose::Polish, SYSTEM_PROMPT@, text@, api_key@),
{
    request(Purpose::Polish, SYSTEM_PROMPT, String::from_str(text), api_key)
}

/// The user message that carries an instruction and the text it applies to.
pub fn instruction_content(instruction: &str, text: &str) -> (r: String)
    ensures
        r@ == spec_instruction_content(instruction@, text@),
{
    let mut r = String::from_str("Instruction: ");
    r.append(instruction);
    r.append("\n\nText:\n");
    r.append(text);
    r
}

/// The request that asks for `instruction` to be applied to `text`.
pub fn transform_text(text: &str, instruction: &str, api_key: &str) -> (r: ChatRequest)
    ensures
        is_request(
            r,
            Purpose::Transform,
            TRANSFORM_SYSTEM_PROMPT@,
            spec_instruction_content(instruction@, text@),
            api_key@,
        ),
{
    request(Purpose::Transform, TRANSFORM_SYSTEM_PROMPT, instruction_content(instruction, text), api_key)
}

/// The request that asks for the rough prompt `text` to be rewritten, following `instruction`.
pub fn optimize_prompt(text: &str, instruction: &str, api_key: &str) -> (r: ChatRequest)
    ensures
        is_request(
            r,
            Purpose::Prompt,
            PROMPT_SYSTEM_PROMPT@,
            spec_instruction_content(instruction@, text@),
            api_key@,
        ),
{
    request(Purpose::Prompt, PROMPT_SYSTEM_PROMPT, instruction_content(instruction, text), api_key)
}

/// Whether an HTTP status is a success (2xx).
pub open spec fn spec_is_success(status: u16) -> bool {
    200 <= status <= 299
}

/// Whether an HTTP status is a success (2xx).
pub fn is_success(status: u16) -> (b: bool)
    ensures
        b == spec_is_success(status),
{
    200 <= status && status <= 299
}

/// The error text for a response with a failing status.
pub open spec fn spec_api_error(status: u16, body: Seq<char>) -> Seq<char> {
    "API "@ + decimal(status as nat) + ": "@ + body
}

/// The error text for a response with a failing status and the given body.
pub fn api_error(status: u16, body: &str) -> (r: String)
    ensures
        r@ == spec_api_error(status, body@),
{
    let mut r = String::from_str("API ");
    let d = decimal_string(status);
    r.append(d.as_str());
    r.append(": ");
    r.append(body);
    r
}

/// What a successful response yields, given the contents of its choices in order.
pub open spec fn spec_first_choice(contents: Seq<Seq<char>>) -> Result<Seq<char>, Seq<char>> {
    if contents.len() == 0 {
        Err("Empty response from API"@)
    } else {
        Ok(trimmed(contents[0]))
    }
}

/// The text of the first choice, trimmed, or the error for a response without choices.
pub fn first_choice(contents: &Vec<String>) -> (r: Result<String, String>)
    ensures
        view_result(r) == spec_first_choice(views(contents@)),
{
    if contents.len() == 0 {
        Err(String::from_str("Empty response from API"))
    } else {
        Ok(trim(contents[0].as_str()))
    }
}

/// What a completion call yields, from whether it was sent (the status of the response, or
/// the transport error), the body of a response with a failing status, and the choices
/// decoded from a response with a successful status (or the decoding error).
pub open spec fn spec_completion(
    sent: Result<u16, Seq<char>>,
    failure_body: Seq<char>,
    decoded: Result<Seq<Seq<char>>, Seq<char>>,
) -> Result<Seq<char>, Seq<char>> {
    match sent {
        Err(e) => Err(e),
        Ok(status) => if !spec_is_success(status) {
            Err(spec_api_error(status, failure_body))
        } else {
            match decoded {
                Err(e) => Err(e),
                Ok(contents) => spec_first_choice(contents),
            }
        },
    }
}

/// What a completion call yields. `sent` is the status of the response, or the error of a
/// request that got none; `failure_body` is the body of a response with a failing status
/// (empty where it could not be read); `decoded` holds the contents of the choices of a
/// response with a successful status, or the error of decoding it.
pub fn completion(sent: Result<u16, String>, failure_body: &str, decoded: Result<Vec<String>, String>) -> (r: Result<String, String>)
    ensures
        view_result(r) == spec_completion(
            match sent {
                Ok(s) => Ok(s),
                Err(e) => Err(e@),
            },
            failure_body@,
            match decoded {
                Ok(c) => Ok(views(c@)),
                Err(e) => Err(e@),
            },
        ),
{
    match sent {
        Err(e) => Err(e),
        Ok(status) => if !is_success(status) {
            Err(api_error(status, failure_body))
        } else {
            match decoded {
                Err(e) => Err(e),
                Ok(contents) => first_choice(&contents),
            }
        },
    }
}

/// How a completion call ends: an error of the transport comes back unchanged; a status
/// outside 200..=299 gives an error that starts with `API `, names the status and ends with
/// the body; a successful status gives back the decoding error, or the first choice with
/// the white space at its ends trimmed, or `Empty response from API` where there is no
/// choice. A first choice that begins and ends with printable ASCII other than the space
/// comes back exactly as the model wrote it.
pub proof fn lemma_completion_outcomes(
    sent: Result<u16, Seq<char>>,
    failure_body: Seq<char>,
    decoded: Result<Seq<Seq<char>>, Seq<char>>,
)
    ensures
        ({
            let r = spec_completion(sent, failure_body, decoded);
            &&& sent is Err ==> r == Err::<Seq<char>, Seq<char>>(sent->Err_0)
            &&& sent is Ok && (sent->Ok_0 < 200 || sent->Ok_0 > 299) ==> r is Err
                && r->Err_0 == "API "@ + decimal(sent->Ok_0 as nat) + ": "@ + failure_body
            &&& sent is Ok && 200 <= sent->Ok_0 <= 299 && decoded is Err
                ==> r == Err::<Seq<char>, Seq<char>>(decoded->Err_0)
            &&& sent is Ok && 200 <= sent->Ok_0 <= 299 && decoded is Ok && decoded->Ok_0.len() == 0
                ==> r == Err::<Seq<char>, Seq<char>>("Empty response from API"@)
            &&& sent is Ok && 200 <= sent->Ok_0 <= 299 && decoded is Ok && decoded->Ok_0.len() > 0
                ==> r == Ok::<Seq<char>, Seq<char>>(trimmed(decoded->Ok_0[0]))
            &&& sent is Ok && 200 <= sent->Ok_0 <= 299 && decoded is Ok && decoded->Ok_0.len() > 0
                && decoded->Ok_0[0].len() > 0
                && 0x21 <= decoded->Ok_0[0][0] as u32 <= 0x7E
                && 0x21 <= decoded->Ok_0[0].last() as u32 <= 0x7E
                ==> r == Ok::<Seq<char>, Seq<char>>(decoded->Ok_0[0])
        }),
{
    if sent is Ok && 200 <= sent->Ok_0 <= 299 && decoded is Ok && decoded->Ok_0.len() > 0
        && decoded->Ok_0[0].len() > 0
        && 0x21 <= decoded->Ok_0[0][0] as u32 <= 0x7E
        && 0x21 <= decoded->Ok_0[0].last() as u32 <= 0x7E {
        crate::text::lemma_trim_keeps_printable_ends(decoded->Ok_0[0]);
    }
}

/// A successful answer is always trimmed: trimming it again changes nothing.
pub proof fn lemma_answer_is_trimmed(
    sent: Result<u16, Seq<char>>,
    failure_body: Seq<char>,
    decoded: Result<Seq<Seq<char>>, Seq<char>>,
)
    ensures
        spec_completion(sent, failure_body, decoded) matches Ok(t) ==> trimmed(t) == t,
{
    if let Ok(t) = spec_completion(sent, failure_body, decoded) {
        let c = decoded->Ok_0[0];
        crate::text::lemma_trimmed_idempotent(c);
    }
}

} // verus!
