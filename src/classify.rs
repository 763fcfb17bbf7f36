use vstd::prelude::*;
use crate::json::{bool_member, member_of, string_member, Json};

verus! {

/// What a `User` holds, as mathematical values.
pub struct UserView {
    pub id: Seq<char>,
    pub is_bot: bool,
    pub is_app_user: bool,
}

/// What an `InnerEvent` holds, as mathematical values.
pub enum EventView {
    Join { user: UserView },
}

/// What an `IncomingRequest` holds, as mathematical values.
pub enum RequestView {
    Verification { challenge: Seq<char> },
    EventCallback { event: EventView },
}

/// The account that a join event is about.
#[derive(Debug, Clone, PartialEq, Eq)]
pub struct User {
    pub id: String,
    pub is_bot: bool,
    pub is_app_user: bool,
}

/// The event nested in an event callback; joins are the one kind modelled.
#[derive(Debug, Clone, PartialEq, Eq)]
pub enum InnerEvent {
    Join { user: User },
}

/// A request that the platform sends to the endpoint.
#[derive(Debug, Clone, PartialEq, Eq)]
pub enum IncomingRequest {
    /// The handshake by which the platform confirms that it owns the endpoint.
    Verification { challenge: String },
    /// A notification of something that happened on the platform.
    EventCallback { event: InnerEvent },
}

/// Why a payload is not a request that the endpoint knows.
#[derive(Debug, Clone, Copy, PartialEq, Eq)]
pub enum PayloadError {
    /// The outer `type` is missing, not a string, or names no known request.
    UnknownRequestType,
    /// A known request lacks its `challenge` or `event`, or holds it with the wrong type.
    MalformedRequest,
    /// The event's own `type` is missing, not a string, or names no known event.
    UnknownEventType,
    /// A join event lacks its `user`, or a field of the user is missing or of the wrong type.
    MalformedEvent,
}

impl View for User {
    type V = UserView;

    open spec fn view(&self) -> UserView {
        UserView { id: self.id@, is_bot: self.is_bot, is_app_user: self.is_app_user }
    }
}

impl View for InnerEvent {
    type V = EventView;

    open spec fn view(&self) -> EventView {
        match self {
            InnerEvent::Join { user } => EventView::Join { user: user@ },
        }
    }
}

impl View for IncomingRequest {
    type V = RequestView;

    open spec fn view(&self) -> RequestView {
        match self {
            IncomingRequest::Verification { challenge } => RequestView::Verification {
                challenge: challenge@,
            },
            IncomingRequest::EventCallback { event } => RequestView::EventCallback {
                event: event@,
            },
        }
    }
}

/// The user that the object `j` describes: `id` a string, `is_bot` and
/// `is_app_user` booleans; other members are ignored.
pub open spec fn user_spec(j: Json) -> Option<UserView> {
    match (
        string_member(j, "id"@),
        bool_member(j, "is_bot"@),
        bool_member(j, "is_app_user"@),
    ) {
        (Some(id), Some(is_bot), Some(is_app_user)) => Some(
            UserView { id, is_bot, is_app_user },
        ),
        _ => None,
    }
}

/// The event that the object `j` describes, tagged by its `type` member.
pub open spec fn event_spec(j: Json) -> Result<EventView, PayloadError> {
    if string_member(j, "type"@) == Some("team_join"@) {
        match member_of(j, "user"@) {
            Some(u) => match user_spec(u) {
                Some(user) => Ok(EventView::Join { user }),
                None => Err(PayloadError::MalformedEvent),
            },
            None => Err(PayloadError::MalformedEvent),
        }
    } else {
        Err(PayloadError::UnknownEventType)
    }
}

/// The request that the payload `j` describes, tagged by its `type` member.
pub open spec fn classify_spec(j: Json) -> Result<RequestView, PayloadError> {
    let tag = string_member(j, "type"@);
    if tag == Some("url_verification"@) {
        match string_member(j, "challenge"@) {
            Some(challenge) => Ok(RequestView::Verification { challenge }),
            None => Err(PayloadError::MalformedRequest),
        }
    } else if tag == Some("event_callback"@) {
        match member_of(j, "event"@) {
            Some(e) => if e is Object {
                match event_spec(e) {
                    Ok(event) => Ok(RequestView::EventCallback { event }),
                    Err(err) => Err(err),
                }
            } else {
                Err(PayloadError::MalformedRequest)
            },
            None => Err(PayloadError::MalformedRequest),
        }
    } else {
        Err(PayloadError::UnknownRequestType)
    }
}

/// True when `s` holds exactly the text of `lit`.
fn text_is(s: &String, lit: &str) -> (r: bool)
    ensures
        r == (s@ == lit@),
{
    let want = lit.to_owned();
    *s == want
}

fn classify_user(j: &Json) -> (r: Option<User>)
    ensures
        match r {
            Some(u) => user_spec(*j) == Some(u@),
            None => user_spec(*j) is None,
        },
{
    let id = j.string_member("id");
    let is_bot = j.bool_member("is_bot");
    let is_app_user = j.bool_member("is_app_user");
    match (id, is_bot, is_app_user) {
        (Some(id), Some(is_bot), Some(is_app_user)) => Some(
            User { id: id.clone(), is_bot, is_app_user },
        ),
        _ => None,
    }
}

fn classify_event(j: &Json) -> (r: Result<InnerEvent, PayloadError>)
    ensures
        match r {
            Ok(e) => event_spec(*j) == Ok::<EventView, PayloadError>(e@),
            Err(err) => event_spec(*j) == Err::<EventView, PayloadError>(err),
        },
{
    let is_join = match j.string_member("type") {
        Some(tag) => text_is(tag, "team_join"),
        None => false,
    };
    if !is_join {
        return Err(PayloadError::UnknownEventType);
    }
    match j.member("user") {
        Some(u) => match classify_user(u) {
            Some(user) => Ok(InnerEvent::Join { user }),
            None => Err(PayloadError::MalformedEvent),
        },
        None => Err(PayloadError::MalformedEvent),
    }
}

/// Classifies a webhook payload as one of the requests the endpoint knows.
/// Members that the model does not name are ignored; a missing or mistyped
/// member that it names, or an unknown tag, rejects the whole payload.
pub fn classify(payload: &Json) -> (r: Result<IncomingRequest, PayloadError>)
    ensures
        match r {
            Ok(q) => classify_spec(*payload) == Ok::<RequestView, PayloadError>(q@),
            Err(e) => classify_spec(*payload) == Err::<RequestView, PayloadError>(e),
        },
{
    let (is_verification, is_callback) = match payload.string_member("type") {
        Some(tag) => (text_is(tag, "url_verification"), text_is(tag, "event_callback")),
        None => (false, false),
    };
    if is_verification {
        match payload.string_member("challenge") {
            Some(c) => Ok(IncomingRequest::Verification { challenge: c.clone() }),
            None => Err(PayloadError::MalformedRequest),
        }
    } else if is_callback {
        match payload.member("event") {
            Some(e) => match e {
                Json::Object(_) => match classify_event(e) {
                    Ok(event) => Ok(IncomingRequest::EventCallback { event }),
                    Err(err) => Err(err),
                },
                _ => Err(PayloadError::MalformedRequest),
            },
            None => Err(PayloadError::MalformedRequest),
        }
    } else {
        Err(PayloadError::UnknownRequestType)
    }
}

} // verus!
