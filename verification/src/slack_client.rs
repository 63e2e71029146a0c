//! The API client: what is sent for a call, and what a reply means.
//!
//! A call is one HTTP POST of a JSON body. A reply is a status and a body;
//! it is good where the body is JSON, the status is in the success range and
//! the body's member `ok` is `true`. The client neither sends nor retries:
//! [`SlackClient::post`] gives the request, the embedding program performs
//! it, and [`SlackClient::receive`] judges what came back.

use crate::config::{credential, ConfigError};
use crate::json;
use crate::json::{json_of, parsed, text_of, Json};
use crate::status::{canonical_reason, is_success, status_line, status_text, succeeded};
use crate::text::{decimal, lemma_occurs_in_middle, occurs_in};
use vstd::prelude::*;
use vstd::string::*;

verus! {

/// Holds the bearer credential for the Slack Web API.
pub struct SlackClient {
    token: String,
}

/// An HTTP POST, ready to be sent.
#[derive(Debug)]
pub struct HttpRequest {
    /// Where to send it.
    pub url: String,
    /// The value of the `Authorization` header.
    pub authorization: String,
    /// The value of the `Content-Type` header.
    pub content_type: String,
    /// The request body: JSON text.
    pub body: String,
}

/// Why a call did not give a result.
#[derive(Debug)]
pub enum ClientError {
    /// The request did not get through, or what came back was not JSON.
    Transport { cause: String },
    /// The reply's status is outside the success range.
    Http { status: u16, body: serde_json::Value },
    /// The API answered, and the answer is a refusal.
    Api { method: String, error: String, body: serde_json::Value },
}

/// The mathematical model of a [`ClientError`].
pub enum ClientErrorView {
    Transport { cause: Seq<char> },
    Http { status: u16, body: serde_json::Value },
    Api { method: Seq<char>, error: Seq<char>, body: serde_json::Value },
}

impl View for ClientError {
    type V = ClientErrorView;

    open spec fn view(&self) -> ClientErrorView {
        match self {
            ClientError::Transport { cause } => ClientErrorView::Transport { cause: cause@ },
            ClientError::Http { status, body } => ClientErrorView::Http {
                status: *status,
                body: *body,
            },
            ClientError::Api { method, error, body } => ClientErrorView::Api {
                method: method@,
                error: error@,
                body: *body,
            },
        }
    }
}

impl ClientErrorView {
    /// The text of the error. A transport error is its cause; an HTTP error
    /// names the status and the body; an API error names the method, the
    /// error code and the body.
    pub open spec fn message(self) -> Seq<char> {
        match self {
            ClientErrorView::Transport { cause } => cause,
            ClientErrorView::Http { status, body } => "Slack API HTTP error "@ + status_line(
                status,
            ) + ": "@ + text_of(body),
            ClientErrorView::Api { method, error, body } => "Slack API error in "@ + method + ": "@
                + error + " ("@ + text_of(body) + ")"@,
        }
    }
}

impl ClientError {
    /// The text of the error.
    pub fn message(&self) -> (s: String)
        ensures
            s@ == self@.message(),
    {
        match self {
            ClientError::Transport { cause } => cause.clone(),
            ClientError::Http { status, body } => {
                let code = status_text(*status);
                let text = json::write(body);
                String::from_str("Slack API HTTP error ").concat(code.as_str()).concat(": ").concat(
                    text.as_str(),
                )
            },
            ClientError::Api { method, error, body } => {
                let text = json::write(body);
                String::from_str("Slack API error in ").concat(method.as_str()).concat(
                    ": ",
                ).concat(error.as_str()).concat(" (").concat(text.as_str()).concat(")")
            },
        }
    }
}

/// The address of a method of the API.
pub open spec fn endpoint(method: Seq<char>) -> Seq<char> {
    "https://slack.com/api"@ + "/"@ + method
}

/// Whether a body acknowledges the call: it is an object whose member `ok`
/// is the boolean `true`, literally.
pub open spec fn acknowledged(body: Json) -> bool {
    body.has("ok"@) && body.member("ok"@) == Json::Bool(true)
}

/// The error code of a body: its member `error` where that is a string,
/// `unknown` otherwise.
pub open spec fn error_code(body: Json) -> Seq<char> {
    if body.has("error"@) && body.member("error"@) is Text {
        body.member("error"@)->Text_0
    } else {
        "unknown"@
    }
}

/// What a reply with JSON in its body means for the call of `method`. The
/// status is looked at first, then the body.
pub open spec fn judged(method: Seq<char>, status: u16, body: serde_json::Value) -> Result<
    serde_json::Value,
    ClientErrorView,
> {
    if !is_success(status) {
        Err(ClientErrorView::Http { status, body })
    } else if !acknowledged(json_of(body)) {
        Err(ClientErrorView::Api { method, error: error_code(json_of(body)), body })
    } else {
        Ok(body)
    }
}

/// What a reply means for the call of `method`. A body that is not JSON is
/// a transport error, whatever the status.
pub open spec fn judged_reply(method: Seq<char>, status: u16, bytes: Seq<u8>) -> Result<
    serde_json::Value,
    ClientErrorView,
> {
    match parsed(bytes) {
        Some(body) => judged(method, status, body),
        None => Err(ClientErrorView::Transport { cause: "error decoding response body"@ }),
    }
}

/// Whether a function's outcome is the one that the model gives.
pub open spec fn agrees(
    outcome: Result<serde_json::Value, ClientError>,
    model: Result<serde_json::Value, ClientErrorView>,
) -> bool {
    match outcome {
        Ok(body) => model == Ok::<serde_json::Value, ClientErrorView>(body),
        Err(e) => model == Err::<serde_json::Value, ClientErrorView>(e@),
    }
}

impl SlackClient {
    /// The credential that the client holds.
    pub closed spec fn token(&self) -> Seq<char> {
        self.token@
    }

    /// A client with the given credential.
    pub fn new(token: String) -> (client: SlackClient)
        ensures
            client.token() == token@,
    {
        SlackClient { token }
    }

    /// A client from the environment: `bot_token` is the value of
    /// `SLACK_BOT_TOKEN`, `token` that of its alias `SLACK_TOKEN`, each as
    /// the caller found it. There is a client exactly where one of them is
    /// set.
    pub fn from_env(bot_token: Option<String>, token: Option<String>) -> (outcome: Result<
        SlackClient,
        ConfigError,
    >)
        ensures
            match outcome {
                Ok(client) => crate::config::chosen_credential(bot_token, token) == Some(
                    client.token(),
                ),
                Err(e) => crate::config::chosen_credential(bot_token, token) is None && e
                    == ConfigError::MissingToken,
            },
    {
        match credential(bot_token, token) {
            Ok(t) => Ok(SlackClient::new(t)),
            Err(e) => Err(e),
        }
    }

    /// The request that calls `method` with `body`: a POST to the method's
    /// address, with the credential as bearer and the body as compact JSON.
    pub fn post(&self, method: &str, body: &serde_json::Value) -> (request: HttpRequest)
        ensures
            request.url@ == endpoint(method@),
            request.authorization@ == "Bearer "@ + self.token(),
            request.content_type@ == "application/json; charset=utf-8"@,
            request.body@ == text_of(*body),
    {
        HttpRequest {
            url: String::from_str("https://slack.com/api").concat("/").concat(method),
            authorization: String::from_str("Bearer ").concat(self.token.as_str()),
            content_type: String::from_str("application/json; charset=utf-8"),
            body: json::write(body),
        }
    }

    /// Judges a reply whose body has been parsed: an HTTP error where the
    /// status is outside the success range; else an API error where the body
    /// does not acknowledge the call; else the body, unchanged.
    pub fn judge(method: &str, status: u16, body: serde_json::Value) -> (outcome: Result<
        serde_json::Value,
        ClientError,
    >)
        ensures
            agrees(outcome, judged(method@, status, body)),
    {
        if !succeeded(status) {
            return Err(ClientError::Http { status, body });
        }
        let ok = match json::get(&body, "ok") {
            Some(flag) => match json::as_bool(flag) {
                Some(b) => b,
                None => false,
            },
            None => false,
        };
        if !ok {
            let error = match json::get(&body, "error") {
                Some(code) => match json::as_str(code) {
                    Some(s) => String::from_str(s),
                    None => String::from_str("unknown"),
                },
                None => String::from_str("unknown"),
            };
            return Err(ClientError::Api { method: String::from_str(method), error, body });
        }
        Ok(body)
    }

    /// Judges a reply as it came: parses the body, then judges as
    /// [`SlackClient::judge`] does.
    pub fn receive(method: &str, status: u16, bytes: &[u8]) -> (outcome: Result<
        serde_json::Value,
        ClientError,
    >)
        ensures
            agrees(outcome, judged_reply(method@, status, bytes@)),
    {
        match json::parse(bytes) {
            Ok(body) => SlackClient::judge(method, status, body),
            Err(_) => Err(
                ClientError::Transport { cause: String::from_str("error decoding response body") },
            ),
        }
    }
}

/// A reply whose status is outside the success range is an HTTP error,
/// whatever its body says, and the error's text holds the status.
pub proof fn lemma_status_is_judged_first(method: Seq<char>, status: u16, body: serde_json::Value)
    requires
        !is_success(status),
    ensures
        judged(method, status, body) == Err::<serde_json::Value, ClientErrorView>(
            ClientErrorView::Http { status, body },
        ),
        occurs_in(decimal(status as nat), judged(method, status, body)->Err_0.message()),
{
    let phrase = match canonical_reason(status) {
        Some(phrase) => phrase,
        None => "<unknown status code>"@,
    };
    let tail = " "@ + phrase + ": "@ + text_of(body);
    lemma_occurs_in_middle("Slack API HTTP error "@, decimal(status as nat), tail);
    assert("Slack API HTTP error "@ + decimal(status as nat) + tail
        =~= "Slack API HTTP error "@ + status_line(status) + ": "@ + text_of(body));
}

/// The text of an HTTP error is never the text of an API error: the two
/// part ways after `Slack API `.
pub proof fn lemma_status_error_differs_from_refusal(
    status: u16,
    body: serde_json::Value,
    method: Seq<char>,
    error: Seq<char>,
    refusal: serde_json::Value,
)
    ensures
        (ClientErrorView::Http { status, body }).message() != (ClientErrorView::Api {
            method,
            error,
            body: refusal,
        }).message(),
{
    reveal_strlit("Slack API HTTP error ");
    reveal_strlit("Slack API error in ");
    let by_status = (ClientErrorView::Http { status, body }).message();
    let by_api = (ClientErrorView::Api { method, error, body: refusal }).message();
    assert("Slack API HTTP error "@.len() == 21 && "Slack API error in "@.len() == 19);
    assert(by_status[10] == "Slack API HTTP error "@[10]);
    assert(by_api[10] == "Slack API error in "@[10]);
    assert(by_status[10] == 'H' && by_api[10] == 'e');
}

/// A reply in the success range whose body does not acknowledge the call is
/// an API error, and the error's text holds the method and the error code.
pub proof fn lemma_refusal_names_method_and_code(
    method: Seq<char>,
    status: u16,
    body: serde_json::Value,
)
    requires
        is_success(status),
        !acknowledged(json_of(body)),
    ensures
        judged(method, status, body) == Err::<serde_json::Value, ClientErrorView>(
            ClientErrorView::Api { method, error: error_code(json_of(body)), body },
        ),
        occurs_in(method, judged(method, status, body)->Err_0.message()),
        occurs_in(error_code(json_of(body)), judged(method, status, body)->Err_0.message()),
{
    let error = error_code(json_of(body));
    let message = judged(method, status, body)->Err_0.message();
    let tail = " ("@ + text_of(body) + ")"@;
    lemma_occurs_in_middle("Slack API error in "@, method, ": "@ + error + tail);
    assert("Slack API error in "@ + method + (": "@ + error + tail) =~= message);
    lemma_occurs_in_middle("Slack API error in "@ + method + ": "@, error, tail);
    assert("Slack API error in "@ + method + ": "@ + error + tail =~= message);
}

} // verus!
