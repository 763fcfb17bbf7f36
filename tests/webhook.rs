use webhook_relay::{
    classify, handle, relay_body_for, render_message, route, Action, Config, ConfigError,
    IncomingRequest, InnerEvent, Json, PayloadError, User,
};

fn text(s: &str) -> Json {
    Json::Str(s.to_string())
}

fn object(members: Vec<(&str, Json)>) -> Json {
    Json::Object(members.into_iter().map(|(k, v)| (k.to_string(), v)).collect())
}

fn user_json(id: &str, is_bot: bool, is_app_user: bool) -> Json {
    object(vec![
        ("id", text(id)),
        ("is_bot", Json::Bool(is_bot)),
        ("is_app_user", Json::Bool(is_app_user)),
    ])
}

fn join_payload(id: &str, is_bot: bool, is_app_user: bool) -> Json {
    object(vec![
        ("token", text("XXYYZZ")),
        ("team_id", text("T123")),
        ("type", text("event_callback")),
        (
            "event",
            object(vec![
                ("type", text("team_join")),
                ("user", user_json(id, is_bot, is_app_user)),
            ]),
        ),
        ("event_time", Json::Number("1700000000".to_string())),
    ])
}

fn verification_payload(challenge: &str) -> Json {
    object(vec![
        ("token", text("Jhj5dZrVaK7ZwHHjRyZWjbDl")),
        ("challenge", text(challenge)),
        ("type", text("url_verification")),
    ])
}

fn config(template: &str) -> Config {
    Config {
        webhook_url: "https://hooks.example.com/relay".to_string(),
        message: template.to_string(),
    }
}

fn empty_reply() -> Action {
    Action::Reply { status: 200, plain_text: false, body: String::new() }
}

#[test]
fn verification_echoes_challenge() {
    let c = "3eZbrw1aBm2rZgRNFdxV2595E9CY3gmdALWMmHkvFXO7tYXAYM8P";
    let r = handle(&config("hi"), &verification_payload(c)).unwrap();
    assert_eq!(r, Action::Reply { status: 200, plain_text: true, body: c.to_string() });
}

#[test]
fn verification_echoes_unusual_text_verbatim() {
    let c = " a\"b\\c\n é😀 @{id} ";
    let r = handle(&config("hi"), &verification_payload(c)).unwrap();
    assert_eq!(r, Action::Reply { status: 200, plain_text: true, body: c.to_string() });
}

#[test]
fn verification_repeated_gives_same_response() {
    let payload = verification_payload("abc");
    let first = handle(&config("one"), &payload);
    let second = handle(&config("one"), &payload);
    let other_config = handle(&config("two @{id}"), &payload);
    assert_eq!(first, second);
    assert_eq!(first, other_config);
}

#[test]
fn verification_with_empty_challenge() {
    let r = handle(&config("hi"), &verification_payload("")).unwrap();
    assert_eq!(r, Action::Reply { status: 200, plain_text: true, body: String::new() });
}

#[test]
fn unknown_outer_type_is_rejected() {
    let payload = object(vec![("type", text("app_rate_limited")), ("challenge", text("x"))]);
    assert_eq!(classify(&payload), Err(PayloadError::UnknownRequestType));
}

#[test]
fn missing_outer_type_is_rejected() {
    let payload = object(vec![("challenge", text("x"))]);
    assert_eq!(classify(&payload), Err(PayloadError::UnknownRequestType));
}

#[test]
fn non_string_outer_type_is_rejected() {
    let payload = object(vec![("type", Json::Bool(true)), ("challenge", text("x"))]);
    assert_eq!(classify(&payload), Err(PayloadError::UnknownRequestType));
}

#[test]
fn non_object_payload_is_rejected() {
    assert_eq!(classify(&Json::Null), Err(PayloadError::UnknownRequestType));
    assert_eq!(classify(&text("url_verification")), Err(PayloadError::UnknownRequestType));
    assert_eq!(classify(&Json::Array(vec![])), Err(PayloadError::UnknownRequestType));
}

#[test]
fn tag_case_matters() {
    let payload = object(vec![("type", text("URL_VERIFICATION")), ("challenge", text("x"))]);
    assert_eq!(classify(&payload), Err(PayloadError::UnknownRequestType));
}

#[test]
fn verification_without_challenge_is_malformed() {
    let payload = object(vec![("type", text("url_verification"))]);
    assert_eq!(classify(&payload), Err(PayloadError::MalformedRequest));
}

#[test]
fn verification_with_numeric_challenge_is_malformed() {
    let payload = object(vec![
        ("type", text("url_verification")),
        ("challenge", Json::Number("12".to_string())),
    ]);
    assert_eq!(classify(&payload), Err(PayloadError::MalformedRequest));
}

#[test]
fn callback_without_event_is_malformed() {
    let payload = object(vec![("type", text("event_callback"))]);
    assert_eq!(classify(&payload), Err(PayloadError::MalformedRequest));
}

#[test]
fn callback_with_non_object_event_is_malformed() {
    let payload = object(vec![("type", text("event_callback")), ("event", text("team_join"))]);
    assert_eq!(classify(&payload), Err(PayloadError::MalformedRequest));
}

#[test]
fn other_event_type_is_rejected() {
    let payload = object(vec![
        ("type", text("event_callback")),
        ("event", object(vec![("type", text("message")), ("text", text("hello"))])),
    ]);
    assert_eq!(classify(&payload), Err(PayloadError::UnknownEventType));
    assert_eq!(handle(&config("x"), &payload), Err(PayloadError::UnknownEventType));
}

#[test]
fn event_without_type_is_rejected() {
    let payload = object(vec![
        ("type", text("event_callback")),
        ("event", object(vec![("user", user_json("U1", false, false))])),
    ]);
    assert_eq!(classify(&payload), Err(PayloadError::UnknownEventType));
}

#[test]
fn join_without_user_is_malformed() {
    let payload = object(vec![
        ("type", text("event_callback")),
        ("event", object(vec![("type", text("team_join"))])),
    ]);
    assert_eq!(classify(&payload), Err(PayloadError::MalformedEvent));
}

#[test]
fn join_with_missing_flag_is_malformed() {
    let payload = object(vec![
        ("type", text("event_callback")),
        (
            "event",
            object(vec![
                ("type", text("team_join")),
                ("user", object(vec![("id", text("U1")), ("is_bot", Json::Bool(false))])),
            ]),
        ),
    ]);
    assert_eq!(classify(&payload), Err(PayloadError::MalformedEvent));
}

#[test]
fn join_with_string_flag_is_malformed() {
    let payload = object(vec![
        ("type", text("event_callback")),
        (
            "event",
            object(vec![
                ("type", text("team_join")),
                (
                    "user",
                    object(vec![
                        ("id", text("U1")),
                        ("is_bot", text("false")),
                        ("is_app_user", Json::Bool(false)),
                    ]),
                ),
            ]),
        ),
    ]);
    assert_eq!(classify(&payload), Err(PayloadError::MalformedEvent));
}

#[test]
fn join_is_classified_with_extra_fields_ignored() {
    let r = classify(&join_payload("U42", false, true)).unwrap();
    assert_eq!(
        r,
        IncomingRequest::EventCallback {
            event: InnerEvent::Join {
                user: User { id: "U42".to_string(), is_bot: false, is_app_user: true },
            },
        }
    );
}

#[test]
fn first_member_with_a_name_wins() {
    let payload = object(vec![
        ("type", text("url_verification")),
        ("challenge", text("first")),
        ("challenge", text("second")),
    ]);
    assert_eq!(
        classify(&payload),
        Ok(IncomingRequest::Verification { challenge: "first".to_string() })
    );
}

#[test]
fn human_join_is_relayed_with_welcome_text() {
    let r = handle(&config("Welcome, @{id}!"), &join_payload("U123", false, false)).unwrap();
    assert_eq!(
        r,
        Action::Relay {
            url: "https://hooks.example.com/relay".to_string(),
            body: "{\"text\":\"Welcome, U123!\"}".to_string(),
        }
    );
}

#[test]
fn bot_join_is_silent() {
    let r = handle(&config("Welcome, @{id}!"), &join_payload("B1", true, false)).unwrap();
    assert_eq!(r, empty_reply());
}

#[test]
fn bot_app_join_is_silent() {
    let r = handle(&config("Welcome, @{id}!"), &join_payload("B2", true, true)).unwrap();
    assert_eq!(r, empty_reply());
}

#[test]
fn app_user_join_is_silent() {
    let r = handle(&config("Welcome, @{id}!"), &join_payload("A1", false, true)).unwrap();
    assert_eq!(r, empty_reply());
}

#[test]
fn route_verification_directly() {
    let q = IncomingRequest::Verification { challenge: "xyz".to_string() };
    assert_eq!(
        route(&q, &config("t")),
        Action::Reply { status: 200, plain_text: true, body: "xyz".to_string() }
    );
}

#[test]
fn template_replaces_every_token() {
    assert_eq!(render_message("@{id} and @{id}", "U7"), "U7 and U7");
    assert_eq!(render_message("@{id}@{id}", "x"), "xx");
}

#[test]
fn template_without_token_is_unchanged() {
    assert_eq!(render_message("Hello there", "U7"), "Hello there");
    assert_eq!(render_message("", "U7"), "");
    assert_eq!(render_message("@{i d} @{ID} @{id", "U7"), "@{i d} @{ID} @{id");
}

#[test]
fn template_token_next_to_partial_token() {
    assert_eq!(render_message("@{i@{id}}", "U"), "@{iU}");
    assert_eq!(render_message("@@{id}", "U"), "@U");
}

#[test]
fn template_with_unicode_text() {
    assert_eq!(render_message("¡Hola, @{id}! 🎉", "Ü1"), "¡Hola, Ü1! 🎉");
}

#[test]
fn template_id_holding_token_is_not_rescanned() {
    assert_eq!(render_message("<@{id}>", "@{id}"), "<@{id}>");
}

#[test]
fn relay_body_escapes_text() {
    assert_eq!(relay_body_for("plain"), "{\"text\":\"plain\"}");
    assert_eq!(relay_body_for("say \"hi\"\n\\"), "{\"text\":\"say \\\"hi\\\"\\n\\\\\"}");
    assert_eq!(relay_body_for(""), "{\"text\":\"\"}");
}

#[test]
fn relay_body_for_joined_user_with_quote_in_id() {
    let r = handle(&config("Hi @{id}"), &join_payload("a\"b", false, false)).unwrap();
    assert_eq!(
        r,
        Action::Relay {
            url: "https://hooks.example.com/relay".to_string(),
            body: "{\"text\":\"Hi a\\\"b\"}".to_string(),
        }
    );
}

#[test]
fn config_needs_both_values() {
    let url = Some("https://hooks.example.com/relay".to_string());
    let msg = Some("Welcome, @{id}!".to_string());
    assert_eq!(Config::from_vars(None, msg.clone()), Err(ConfigError::MissingWebhookUrl));
    assert_eq!(Config::from_vars(None, None), Err(ConfigError::MissingWebhookUrl));
    assert_eq!(Config::from_vars(url.clone(), None), Err(ConfigError::MissingMessage));
    assert_eq!(Config::from_vars(url, msg), Ok(config("Welcome, @{id}!")));
}
