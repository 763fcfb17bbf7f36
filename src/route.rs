use vstd::prelude::*;
use vstd::string::*;
use crate::classify::{
    classify, classify_spec, IncomingRequest, InnerEvent, PayloadError, RequestView, EventView,
};
use crate::json::Json;
use crate::template::{render, render_message};

verus! {

/// What `serde_json::to_string` writes for the string `s`: one JSON string
/// literal, quoted and escaped.
pub uninterp spec fn json_string_of(s: Seq<char>) -> Seq<char>;

/// Relies on `serde_json::to_string` applied to a `str`: it writes the text
/// as a quoted, escaped JSON string. Its serializer writes into a `Vec`,
/// which never fails, so the call always returns `Ok`.
#[verifier::external_body]
fn json_string(s: &str) -> (r: Option<String>)
    ensures
        r is Some,
        r matches Some(t) ==> t@ == json_string_of(s@),
{
    serde_json::to_string(s).ok()
}

/// The two settings that the endpoint reads from its host.
#[derive(Debug, Clone, PartialEq, Eq)]
pub struct Config {
    /// Where relayed messages are posted.
    pub webhook_url: String,
    /// The message template; `@{id}` stands for the joining user's id.
    pub message: String,
}

/// What a `Config` holds, as mathematical values.
pub struct ConfigView {
    pub webhook_url: Seq<char>,
    pub message: Seq<char>,
}

impl View for Config {
    type V = ConfigView;

    open spec fn view(&self) -> ConfigView {
        ConfigView { webhook_url: self.webhook_url@, message: self.message@ }
    }
}

/// A setting that the host did not provide.
#[derive(Debug, Clone, Copy, PartialEq, Eq)]
pub enum ConfigError {
    MissingWebhookUrl,
    MissingMessage,
}

impl Config {
    /// Builds the configuration from the host's values, the relay target
    /// being looked at first.
    pub fn from_vars(webhook_url: Option<String>, message: Option<String>) -> (r: Result<
        Config,
        ConfigError,
    >)
        ensures
            webhook_url is None ==> r == Err::<Config, ConfigError>(ConfigError::MissingWebhookUrl),
            webhook_url is Some && message is None ==> r == Err::<Config, ConfigError>(
                ConfigError::MissingMessage,
            ),
            webhook_url is Some && message is Some ==> (r matches Ok(c) && c.webhook_url@
                == webhook_url->0@ && c.message@ == message->0@),
    {
        match (webhook_url, message) {
            (None, _) => Err(ConfigError::MissingWebhookUrl),
            (Some(_), None) => Err(ConfigError::MissingMessage),
            (Some(webhook_url), Some(message)) => Ok(Config { webhook_url, message }),
        }
    }
}

/// What the endpoint does with a request it has classified.
#[derive(Debug, Clone, PartialEq, Eq)]
pub enum Action {
    /// Answer the caller directly. `plain_text` marks a `text/plain` body.
    Reply { status: u16, plain_text: bool, body: String },
    /// POST the JSON `body` to `url`; the caller gets the relay's response.
    Relay { url: String, body: String },
}

/// What an `Action` holds, as mathematical values.
pub enum ActionView {
    Reply { status: u16, plain_text: bool, body: Seq<char> },
    Relay { url: Seq<char>, body: Seq<char> },
}

impl View for Action {
    type V = ActionView;

    open spec fn view(&self) -> ActionView {
        match self {
            Action::Reply { status, plain_text, body } => ActionView::Reply {
                status: *status,
                plain_text: *plain_text,
                body: body@,
            },
            Action::Relay { url, body } => ActionView::Relay { url: url@, body: body@ },
        }
    }
}

/// The JSON object `{"text":...}` that carries `text` to the relay.
pub open spec fn relay_body(text: Seq<char>) -> Seq<char> {
    "{\"text\":"@ + json_string_of(text) + "}"@
}

/// The response to a request, given the configuration: the challenge is
/// echoed; a human's join is relayed with the filled template; a join by a
/// bot or an app user gets an empty success.
pub open spec fn route_spec(q: RequestView, config: ConfigView) -> ActionView {
    match q {
        RequestView::Verification { challenge } => ActionView::Reply {
            status: 200,
            plain_text: true,
            body: challenge,
        },
        RequestView::EventCallback { event: EventView::Join { user } } => {
            if !user.is_bot && !user.is_app_user {
                ActionView::Relay {
                    url: config.webhook_url,
                    body: relay_body(render(config.message, user.id)),
                }
            } else {
                ActionView::Reply { status: 200, plain_text: false, body: Seq::empty() }
            }
        },
    }
}

/// The response to a payload: its classification, then its route.
pub open spec fn handle_spec(config: ConfigView, payload: Json) -> Result<ActionView, PayloadError> {
    match classify_spec(payload) {
        Ok(q) => Ok(route_spec(q, config)),
        Err(e) => Err(e),
    }
}

/// The JSON body `{"text":...}` for the relay.
pub fn relay_body_for(text: &str) -> (r: String)
    ensures
        r@ == relay_body(text@),
{
    let quoted = json_string(text).unwrap();
    let mut body = String::from_str("{\"text\":");
    body.append(quoted.as_str());
    body.append("}");
    body
}

/// Decides what to do with a classified request.
pub fn route(request: &IncomingRequest, config: &Config) -> (r: Action)
    ensures
        r@ == route_spec(request@, config@),
{
    match request {
        IncomingRequest::Verification { challenge } => Action::Reply {
            status: 200,
            plain_text: true,
            body: challenge.clone(),
        },
        IncomingRequest::EventCallback { event: InnerEvent::Join { user } } => {
            if !user.is_bot && !user.is_app_user {
                let text = render_message(config.message.as_str(), user.id.as_str());
                Action::Relay {
                    url: config.webhook_url.clone(),
                    body: relay_body_for(text.as_str()),
                }
            } else {
                Action::Reply { status: 200, plain_text: false, body: String::new() }
            }
        },
    }
}

/// Handles one webhook payload: classifies it, then routes it. Holds no
/// state, so the same configuration and payload always give the same result.
pub fn handle(config: &Config, payload: &Json) -> (r: Result<Action, PayloadError>)
    ensures
        match r {
            Ok(a) => handle_spec(config@, *payload) == Ok::<ActionView, PayloadError>(a@),
            Err(e) => handle_spec(config@, *payload) == Err::<ActionView, PayloadError>(e),
        },
{
    match classify(payload) {
        Ok(q) => Ok(route(&q, config)),
        Err(e) => Err(e),
    }
}

} // verus!
