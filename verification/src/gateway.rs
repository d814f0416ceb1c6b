//! The model gateway: what is sent upstream for a prompt, and what the
//! upstream answer means. The request itself is made by the caller; nothing
//! here holds state between calls.

use vstd::prelude::*;
use vstd::string::*;
use crate::escape::{escape_into, escape_spec, law_escape_round_trip, unescape_spec};
use crate::json::{json_of, parse, parsed, Json};
use crate::response::{find_in_response, response_found, Found, FoundView, CANDIDATES};
use crate::wording::PLACEHOLDER;

verus! {

/// The model asked when none is named.
pub const DEFAULT_MODEL: &'static str = "gemini-2.0-flash";

/// What stands before the model's name in the provider's endpoint.
pub const ENDPOINT_BASE: &'static str = "https://generativelanguage.googleapis.com/v1beta/models/";

/// What stands after the model's name in the provider's endpoint.
pub const ENDPOINT_METHOD: &'static str = ":generateContent";

/// Joins the endpoint and the credential in the request address.
pub const KEY_PARAMETER: &'static str = "?key=";

/// The request body up to the prompt.
pub const BODY_OPEN: &'static str = "{\"contents\":[{\"parts\":[{\"text\":\"";

/// The request body after the prompt.
pub const BODY_CLOSE: &'static str = "\"}]}]}";

/// Why a call to the model produced no answer.
#[derive(Clone, Copy, Debug, PartialEq, Eq)]
pub enum LlmFailure {
    /// The request never completed.
    Transport,
    /// The endpoint answered with this status, which is not a success.
    UpstreamStatus(u16),
    /// The endpoint's answer could not be understood.
    MalformedResponse,
    /// No credential was configured.
    Unauthenticated,
}

/// How one HTTP exchange with the endpoint ended.
#[derive(Debug, PartialEq, Eq)]
pub enum Exchange {
    /// No response arrived.
    Unreachable,
    /// A response arrived, with this status and body.
    Answered { status: u16, body: String },
}

/// The mathematical value of the outcome of a model call.
pub open spec fn outcome_view(outcome: Result<String, LlmFailure>) -> Result<
    Seq<char>,
    LlmFailure,
> {
    match outcome {
        Ok(reply) => Ok(reply@),
        Err(failure) => Err(failure),
    }
}

/// The provider's endpoint for a model.
pub open spec fn endpoint_spec(model: Seq<char>) -> Seq<char> {
    ENDPOINT_BASE@ + model + ENDPOINT_METHOD@
}

/// The address a request is posted to.
pub open spec fn request_url_spec(endpoint: Seq<char>, api_key: Seq<char>) -> Seq<char> {
    endpoint + KEY_PARAMETER@ + api_key
}

/// The request body for a prompt: the prompt, escaped, as the only text of
/// the only part of the only content.
pub open spec fn request_body_spec(prompt: Seq<u8>) -> Seq<u8> {
    BODY_OPEN.spec_bytes() + escape_spec(prompt) + BODY_CLOSE.spec_bytes()
}

/// Reads the prompt back out of a request body.
pub open spec fn prompt_in_body_spec(body: Seq<u8>) -> Option<Seq<u8>> {
    let open = BODY_OPEN.spec_bytes();
    let close = BODY_CLOSE.spec_bytes();
    if body.len() >= open.len() + close.len() && body.subrange(0, open.len() as int) == open
        && body.subrange(body.len() - close.len(), body.len() as int) == close {
        unescape_spec(body.subrange(open.len() as int, body.len() - close.len()))
    } else {
        None
    }
}

/// Whether a status reports success.
pub open spec fn is_success_spec(status: u16) -> bool {
    200 <= status < 300
}

/// What a well-formed JSON document means as an answer: the text it holds,
/// the placeholder where it holds none, a failure where it is not a
/// response at all.
pub open spec fn reply_spec(doc: Json) -> Result<Seq<char>, LlmFailure> {
    match response_found(doc) {
        FoundView::Misfit => Err(LlmFailure::MalformedResponse),
        FoundView::Nothing => Ok(PLACEHOLDER@),
        FoundView::Text(answer) => Ok(answer),
    }
}

/// What a response body that was read means as an answer.
pub open spec fn body_reply_spec(read: Option<Json>) -> Result<Seq<char>, LlmFailure> {
    match read {
        Some(doc) => reply_spec(doc),
        None => Err(LlmFailure::MalformedResponse),
    }
}

/// What an upstream response means: a status other than success is
/// reported with its code and the body is not looked at; otherwise the body
/// decides.
pub open spec fn interpret_spec(status: u16, body: Seq<char>) -> Result<Seq<char>, LlmFailure> {
    if !is_success_spec(status) {
        Err(LlmFailure::UpstreamStatus(status))
    } else {
        body_reply_spec(parsed(body))
    }
}

/// The immutable configuration of the gateway, fixed at startup.
pub struct GatewayConfig {
    endpoint: String,
    api_key: String,
    model: String,
}

impl GatewayConfig {
    /// A configuration always holds a credential.
    #[verifier::type_invariant]
    spec fn holds_a_credential(self) -> bool {
        self.api_key@.len() > 0
    }

    /// The address of the endpoint, without the credential.
    pub closed spec fn spec_endpoint(&self) -> Seq<char> {
        self.endpoint@
    }

    /// The credential; never empty.
    pub closed spec fn spec_api_key(&self) -> Seq<char> {
        self.api_key@
    }

    /// The name of the model asked.
    pub closed spec fn spec_model(&self) -> Seq<char> {
        self.model@
    }

    /// A configuration for the given endpoint. An empty credential is
    /// refused: a process without one must not start serving.
    pub fn new(endpoint: String, api_key: String, model: String) -> (made: Result<
        GatewayConfig,
        LlmFailure,
    >)
        ensures
            made is Ok <==> api_key@.len() > 0,
            made matches Ok(config) ==> config.spec_endpoint() == endpoint@
                && config.spec_api_key() == api_key@ && config.spec_model() == model@,
            made matches Err(failure) ==> failure == LlmFailure::Unauthenticated,
    {
        if api_key.as_str().is_empty() {
            Err(LlmFailure::Unauthenticated)
        } else {
            Ok(GatewayConfig { endpoint, api_key, model })
        }
    }

    /// A configuration for the provider's own endpoint of a model.
    pub fn for_model(api_key: String, model: String) -> (made: Result<GatewayConfig, LlmFailure>)
        ensures
            made is Ok <==> api_key@.len() > 0,
            made matches Ok(config) ==> config.spec_endpoint() == endpoint_spec(model@)
                && config.spec_api_key() == api_key@ && config.spec_model() == model@,
            made matches Err(failure) ==> failure == LlmFailure::Unauthenticated,
    {
        let endpoint = ENDPOINT_BASE.to_owned().concat(model.as_str()).concat(ENDPOINT_METHOD);
        GatewayConfig::new(endpoint, api_key, model)
    }

    /// The address of the endpoint, without the credential.
    pub fn endpoint(&self) -> (endpoint: &str)
        ensures
            endpoint@ == self.spec_endpoint(),
    {
        self.endpoint.as_str()
    }

    /// The credential; never empty.
    pub fn api_key(&self) -> (api_key: &str)
        ensures
            api_key@ == self.spec_api_key(),
            api_key@.len() > 0,
    {
        proof {
            use_type_invariant(self);
        }
        self.api_key.as_str()
    }

    /// The name of the model asked.
    pub fn model(&self) -> (model: &str)
        ensures
            model@ == self.spec_model(),
    {
        self.model.as_str()
    }

    /// The address a request is posted to: the endpoint, with the
    /// credential as its `key` parameter.
    pub fn request_url(&self) -> (url: String)
        ensures
            url@ == request_url_spec(self.spec_endpoint(), self.spec_api_key()),
    {
        self.endpoint.clone().concat(KEY_PARAMETER).concat(self.api_key.as_str())
    }
}

/// Builds the request body for a prompt.
pub fn request_body(prompt: &str) -> (body: Vec<u8>)
    ensures
        body@ == request_body_spec(prompt.spec_bytes()),
{
    let mut body: Vec<u8> = Vec::new();
    body.extend_from_slice(BODY_OPEN.as_bytes());
    escape_into(&mut body, prompt.as_bytes());
    body.extend_from_slice(BODY_CLOSE.as_bytes());
    assert(body@ =~= request_body_spec(prompt.spec_bytes()));
    body
}

/// Whether a status reports success.
pub fn is_success(status: u16) -> (success: bool)
    ensures
        success == is_success_spec(status),
{
    200 <= status && status < 300
}

/// Reads the answer out of a response that was read as JSON.
pub fn reply_from(doc: &serde_json::Value) -> (outcome: Result<String, LlmFailure>)
    ensures
        outcome_view(outcome) == reply_spec(json_of(*doc)),
{
    match find_in_response(doc) {
        Found::Misfit => Err(LlmFailure::MalformedResponse),
        Found::Nothing => Ok(PLACEHOLDER.to_owned()),
        Found::Text(answer) => Ok(answer),
    }
}

/// Reads the answer out of what reading a response body gave.
pub fn reply_from_read(read: Result<serde_json::Value, serde_json::Error>) -> (outcome: Result<
    String,
    LlmFailure,
>)
    ensures
        outcome_view(outcome) == match read {
            Ok(doc) => reply_spec(json_of(doc)),
            Err(_) => Err(LlmFailure::MalformedResponse),
        },
{
    match read {
        Ok(doc) => reply_from(&doc),
        Err(_) => Err(LlmFailure::MalformedResponse),
    }
}

/// Says what an upstream response means.
pub fn interpret(status: u16, body: &str) -> (outcome: Result<String, LlmFailure>)
    ensures
        outcome_view(outcome) == interpret_spec(status, body@),
{
    if !is_success(status) {
        Err(LlmFailure::UpstreamStatus(status))
    } else {
        reply_from_read(parse(body))
    }
}

/// Says what an exchange with the endpoint means.
pub fn conclude(exchange: &Exchange) -> (outcome: Result<String, LlmFailure>)
    ensures
        outcome_view(outcome) == match *exchange {
            Exchange::Unreachable => Err(LlmFailure::Transport),
            Exchange::Answered { status, body } => interpret_spec(status, body@),
        },
{
    match exchange {
        Exchange::Unreachable => Err(LlmFailure::Transport),
        Exchange::Answered { status, body } => interpret(*status, body.as_str()),
    }
}

/// Whatever the prompt holds, quotes and line breaks included, it can be
/// read back from the request body byte for byte.
pub proof fn law_prompt_survives_the_body(prompt: Seq<u8>)
    ensures
        prompt_in_body_spec(request_body_spec(prompt)) == Some(prompt),
{
    let open = BODY_OPEN.spec_bytes();
    let close = BODY_CLOSE.spec_bytes();
    let body = request_body_spec(prompt);
    law_escape_round_trip(prompt);
    assert(body.subrange(0, open.len() as int) =~= open);
    assert(body.subrange(body.len() - close.len(), body.len() as int) =~= close);
    assert(body.subrange(open.len() as int, body.len() - close.len()) =~= escape_spec(prompt));
}

/// A status other than success is reported with its code, whatever the body
/// holds.
pub proof fn law_status_comes_first(status: u16, body: Seq<char>)
    requires
        !is_success_spec(status),
    ensures
        interpret_spec(status, body) == Err::<Seq<char>, LlmFailure>(
            LlmFailure::UpstreamStatus(status),
        ),
{
}

/// A successful response always gives an answer or `MalformedResponse`,
/// never another failure; and where the body is a JSON object without
/// candidates, the answer is the placeholder.
pub proof fn law_success_degrades_gracefully(status: u16, body: Seq<char>)
    requires
        is_success_spec(status),
    ensures
        interpret_spec(status, body) is Err ==> interpret_spec(status, body)
            == Err::<Seq<char>, LlmFailure>(LlmFailure::MalformedResponse),
        parsed(body) is None ==> interpret_spec(status, body) == Err::<Seq<char>, LlmFailure>(
            LlmFailure::MalformedResponse,
        ),
        parsed(body) matches Some(Json::Object(members)) && !members.contains_key(CANDIDATES@)
            ==> interpret_spec(status, body) == Ok::<Seq<char>, LlmFailure>(PLACEHOLDER@),
{
}

} // verus!
