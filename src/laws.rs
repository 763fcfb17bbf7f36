use vstd::prelude::*;
use crate::classify::{classify_spec, user_spec, EventView, PayloadError, RequestView, UserView};
use crate::json::{member_of, string_member, Json};
use crate::route::{handle_spec, relay_body, ActionView, ConfigView};
use crate::template::{id_token, render, token_at};

verus! {

/// `payload` is an event callback whose event is a join by `user`.
pub open spec fn is_join_payload(payload: Json, user: UserView) -> bool {
    &&& string_member(payload, "type"@) == Some("event_callback"@)
    &&& member_of(payload, "event"@) matches Some(e)
    &&& e is Object
    &&& string_member(e, "type"@) == Some("team_join"@)
    &&& member_of(e, "user"@) matches Some(u)
    &&& user_spec(u) == Some(user)
}

/// A verification payload is answered with status 200, as plain text, and
/// with its challenge as the body, character for character.
pub proof fn law_verification_echoes(config: ConfigView, payload: Json, challenge: Seq<char>)
    requires
        string_member(payload, "type"@) == Some("url_verification"@),
        string_member(payload, "challenge"@) == Some(challenge),
    ensures
        handle_spec(config, payload) == Ok::<ActionView, PayloadError>(
            ActionView::Reply { status: 200, plain_text: true, body: challenge },
        ),
{
}

/// A payload whose outer `type` is neither `url_verification` nor
/// `event_callback` (or is missing) is rejected, whatever else it holds.
pub proof fn law_unknown_request_type_rejected(config: ConfigView, payload: Json)
    requires
        string_member(payload, "type"@) != Some("url_verification"@),
        string_member(payload, "type"@) != Some("event_callback"@),
    ensures
        classify_spec(payload) == Err::<RequestView, PayloadError>(
            PayloadError::UnknownRequestType,
        ),
        handle_spec(config, payload) == Err::<ActionView, PayloadError>(
            PayloadError::UnknownRequestType,
        ),
{
}

/// A join by a bot or by an app user relays nothing: it is answered with
/// status 200 and an empty body, either flag alone being enough.
pub proof fn law_automated_join_is_silent(config: ConfigView, payload: Json, user: UserView)
    requires
        is_join_payload(payload, user),
        user.is_bot || user.is_app_user,
    ensures
        handle_spec(config, payload) == Ok::<ActionView, PayloadError>(
            ActionView::Reply { status: 200, plain_text: false, body: Seq::empty() },
        ),
{
    reveal_strlit("url_verification");
    reveal_strlit("event_callback");
    assert("url_verification"@.len() != "event_callback"@.len());
    assert(classify_spec(payload) == Ok::<RequestView, PayloadError>(
        RequestView::EventCallback { event: EventView::Join { user } },
    ));
}

/// A join by a human user, neither bot nor app user, is relayed to the
/// configured URL as `{"text":...}` holding the filled template.
pub proof fn law_human_join_is_relayed(config: ConfigView, payload: Json, user: UserView)
    requires
        is_join_payload(payload, user),
        !user.is_bot,
        !user.is_app_user,
    ensures
        handle_spec(config, payload) == Ok::<ActionView, PayloadError>(
            ActionView::Relay {
                url: config.webhook_url,
                body: relay_body(render(config.message, user.id)),
            },
        ),
{
    reveal_strlit("url_verification");
    reveal_strlit("event_callback");
    assert("url_verification"@.len() != "event_callback"@.len());
    assert(classify_spec(payload) == Ok::<RequestView, PayloadError>(
        RequestView::EventCallback { event: EventView::Join { user } },
    ));
}

/// A verification payload gets the same answer on every delivery, whatever
/// the configuration: nothing outside the payload enters the answer.
pub proof fn law_verification_is_stateless(first: ConfigView, second: ConfigView, payload: Json)
    requires
        string_member(payload, "type"@) == Some("url_verification"@),
    ensures
        handle_spec(first, payload) == handle_spec(second, payload),
{
}

/// Text without any placeholder comes out of a template unchanged.
pub proof fn law_render_keeps_plain_text(t: Seq<char>, id: Seq<char>)
    requires
        forall|i: int| !token_at(t, i),
    ensures
        render(t, id) == t,
    decreases t.len(),
{
    if t.len() > 0 {
        let rest = t.subrange(1, t.len() as int);
        assert(!token_at(t, 0));
        assert forall|i: int| !token_at(rest, i) by {
            if token_at(rest, i) {
                assert(token_at(t, i + 1));
            }
        }
        law_render_keeps_plain_text(rest, id);
        assert(t =~= seq![t[0]] + rest);
    }
}

/// A placeholder splits a template: what stands before it and what stands
/// after it are filled on their own, and the placeholder becomes `id`.
pub proof fn law_render_splits_at_token(a: Seq<char>, b: Seq<char>, id: Seq<char>)
    ensures
        render(a + id_token() + b, id) == render(a, id) + id + render(b, id),
    decreases a.len(),
{
    let t = a + id_token() + b;
    if a.len() == 0 {
        assert(t =~= id_token() + b);
        assert(token_at(t, 0));
        assert(t.subrange(5, t.len() as int) =~= b);
        assert(render(a, id) + id + render(b, id) =~= id + render(b, id));
    } else if token_at(a, 0) {
        let rest = a.subrange(5, a.len() as int);
        assert(token_at(t, 0));
        assert(t.subrange(5, t.len() as int) =~= rest + id_token() + b);
        law_render_splits_at_token(rest, b, id);
        assert(render(a, id) + id + render(b, id) =~= id + (render(rest, id) + id + render(
            b,
            id,
        )));
    } else {
        let rest = a.subrange(1, a.len() as int);
        if a.len() < 5 {
            assert(t[4] == id_token()[4 - a.len()]);
            assert(id_token()[4 - a.len()] != '}');
        } else {
            assert(t.subrange(0, 5) =~= a.subrange(0, 5));
        }
        assert(!token_at(t, 0));
        assert(t.subrange(1, t.len() as int) =~= rest + id_token() + b);
        law_render_splits_at_token(rest, b, id);
        assert(t[0] == a[0]);
        assert(render(a, id) + id + render(b, id) =~= seq![a[0]] + (render(rest, id) + id
            + render(b, id)));
    }
}

/// Every placeholder is replaced, not only the first: a template that holds
/// it twice between plain pieces gets `id` in both places.
pub proof fn law_render_replaces_each_token(
    a: Seq<char>,
    b: Seq<char>,
    c: Seq<char>,
    id: Seq<char>,
)
    requires
        forall|i: int| !token_at(a, i),
        forall|i: int| !token_at(b, i),
        forall|i: int| !token_at(c, i),
    ensures
        render(a + id_token() + b + id_token() + c, id) == a + id + b + id + c,
{
    law_render_splits_at_token(a, b + id_token() + c, id);
    law_render_splits_at_token(b, c, id);
    law_render_keeps_plain_text(a, id);
    law_render_keeps_plain_text(b, id);
    law_render_keeps_plain_text(c, id);
    assert(a + id_token() + b + id_token() + c =~= a + id_token() + (b + id_token() + c));
    assert(render(a + id_token() + (b + id_token() + c), id) =~= a + id + b + id + c);
}

} // verus!
