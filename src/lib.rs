//! Decision logic of a chat-platform webhook endpoint: it classifies the
//! inbound JSON payload, answers the ownership handshake, and relays a
//! templated greeting when a human user joins.

mod classify;
mod json;
pub mod laws;
mod route;
mod template;

pub use classify::{
    classify, classify_spec, event_spec, user_spec, EventView, IncomingRequest, InnerEvent,
    PayloadError, RequestView, User, UserView,
};
pub use json::{bool_member, find_member, member_of, string_member, Json};
pub use route::{
    handle, handle_spec, json_string_of, relay_body, relay_body_for, route, route_spec, Action, ActionView,
    Config, ConfigError, ConfigView,
};
pub use template::{id_token, render, render_message, token_at};
