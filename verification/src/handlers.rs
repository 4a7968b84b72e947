//! The reply handlers of one bot.
//!
//! For each user the table holds a map from an expected reply text to the
//! webhook call that the reply triggers. A reply is matched by its exact text
//! and a matched handler leaves the table: it fires once.

use vstd::prelude::*;
use crate::str_map::StrMap;
use crate::json::{bot_verify_call, bot_verify_request, json_string, render_text};
use crate::structs::api::{
    call_views, ApiRequest, ApiRequestView, BotContext, BotHandler, UserHandlers,
};

verus! {

/// A handler map as a mathematical map: reply text to webhook call.
pub type HandlerMap = Map<Seq<char>, ApiRequest>;

/// The table of one bot as a mathematical map: user to handler map.
pub type UserTable = Map<Seq<char>, HandlerMap>;

/// The table behind `handlers`.
pub open spec fn table_of(handlers: UserHandlers) -> UserTable {
    handlers@.map_values(|h: BotHandler| h@)
}

/// The handlers that `table` holds for `user`; none for an unknown user.
pub open spec fn handlers_of(table: UserTable, user: Seq<char>) -> HandlerMap {
    if table.contains_key(user) {
        table[user]
    } else {
        Map::empty()
    }
}

/// `table` after `handler` was merged into the entry of `user`: a reply text
/// that both hold gets the call of `handler`.
pub open spec fn registered(table: UserTable, user: Seq<char>, handler: HandlerMap) -> UserTable {
    table.insert(user, handlers_of(table, user).union_prefer_right(handler))
}

/// The call that a reply `text` of `user` triggers, if any.
pub open spec fn matched(table: UserTable, user: Seq<char>, text: Seq<char>) -> Option<
    ApiRequest,
> {
    if handlers_of(table, user).contains_key(text) {
        Some(handlers_of(table, user)[text])
    } else {
        None
    }
}

/// `table` after a reply `text` of `user` was handled: the matched handler is
/// gone, and without a match nothing changes.
pub open spec fn consumed(table: UserTable, user: Seq<char>, text: Seq<char>) -> UserTable {
    if handlers_of(table, user).contains_key(text) {
        table.insert(user, table[user].remove(text))
    } else {
        table
    }
}

/// Merges `handler` into the entry of `user`, replacing the call of a reply
/// text that is registered already.
pub fn register(handlers: &mut UserHandlers, user: &String, handler: BotHandler)
    ensures
        table_of(*final(handlers)) == registered(table_of(*old(handlers)), user@, handler@),
{
    let ghost before = handlers@;
    let mut entry = match handlers.insert(user.clone(), StrMap::new()) {
        Some(existing) => existing,
        None => StrMap::new(),
    };
    entry.extend(handler);
    let ghost merged = entry@;
    handlers.insert(user.clone(), entry);
    proof {
        assert(merged == handlers_of(table_of(*old(handlers)), user@).union_prefer_right(
            handler@,
        ));
        assert(table_of(*handlers) =~= registered(table_of(*old(handlers)), user@, handler@));
    }
}

/// Handles a reply `text` of `user`: on an exact match the handler's call is
/// returned and the handler removed; otherwise the table stays as it is.
pub fn consume(handlers: &mut UserHandlers, user: &String, text: &String) -> (fired: Option<
    ApiRequest,
>)
    ensures
        fired == matched(table_of(*old(handlers)), user@, text@),
        table_of(*final(handlers)) == consumed(table_of(*old(handlers)), user@, text@),
{
    let hit = match handlers.get(user) {
        Some(entry) => entry.contains_key(text),
        None => false,
    };
    if !hit {
        return None;
    }
    let mut entry = match handlers.insert(user.clone(), StrMap::new()) {
        Some(existing) => existing,
        None => StrMap::new(),
    };
    let fired = entry.remove(text);
    handlers.insert(user.clone(), entry);
    proof {
        assert(table_of(*handlers) =~= consumed(table_of(*old(handlers)), user@, text@));
    }
    fired
}

/// A handler registered for a reply fires on that reply once, and not again.
pub proof fn lemma_fires_once(
    table: UserTable,
    user: Seq<char>,
    text: Seq<char>,
    call: ApiRequest,
)
    ensures
        matched(registered(table, user, map![text => call]), user, text) == Some(call),
        matched(
            consumed(registered(table, user, map![text => call]), user, text),
            user,
            text,
        ) is None,
{
    let after = registered(table, user, map![text => call]);
    assert(map![text => call].contains_key(text));
    assert(handlers_of(after, user).contains_key(text));
    assert(handlers_of(after, user)[text] == call);
}

/// A reply whose text is not registered for the user triggers nothing and
/// leaves the table unchanged.
pub proof fn lemma_miss_changes_nothing(table: UserTable, user: Seq<char>, text: Seq<char>)
    requires
        !handlers_of(table, user).contains_key(text),
    ensures
        matched(table, user, text) is None,
        consumed(table, user, text) == table,
{
}

/// Handling a reply of one user leaves the handlers of every other user, and
/// the other handlers of that user, as they were.
pub proof fn lemma_consume_is_local(
    table: UserTable,
    user: Seq<char>,
    text: Seq<char>,
    other_user: Seq<char>,
    other_text: Seq<char>,
)
    requires
        other_user != user || other_text != text,
    ensures
        matched(consumed(table, user, text), other_user, other_text) == matched(
            table,
            other_user,
            other_text,
        ),
{
}

/// The reply with which a user asks to have a visit verified.
pub open spec fn verify_reply() -> Seq<char> {
    seq!['1']
}

/// Whether `text` is the reply that asks for verification.
pub fn is_verify_reply(text: &String) -> (r: bool)
    ensures
        r == (text@ == verify_reply()),
{
    let s = text.as_str();
    let r = s.unicode_len() == 1 && s.get_char(0) == '1';
    proof {
        if r {
            assert(text@ =~= verify_reply());
        }
    }
    r
}

/// The calls that a message `text` triggers: first the call of the matched
/// handler `fired`, if one matched, then, for the verification reply and a
/// rendered user id, the verification call to `api_url`.
pub open spec fn inbound_call_views(
    fired: Option<ApiRequest>,
    api_url: Seq<char>,
    text: Seq<char>,
    rendered_user: Option<Seq<char>>,
) -> Seq<ApiRequestView> {
    let first = match fired {
        Some(call) => seq![call@],
        None => Seq::empty(),
    };
    if text == verify_reply() && rendered_user is Some {
        first.push(bot_verify_call(api_url, rendered_user->0))
    } else {
        first
    }
}

/// The webhook calls for a message `text`, given the handler call that it
/// matched and the sender's id as a rendered JSON value.
pub fn inbound_calls(
    fired: Option<ApiRequest>,
    api_url: &String,
    text: &String,
    rendered_user: Option<String>,
) -> (calls: Vec<ApiRequest>)
    ensures
        call_views(calls@) == inbound_call_views(
            fired,
            api_url@,
            text@,
            match rendered_user {
                Some(u) => Some(u@),
                None => None,
            },
        ),
{
    let mut calls: Vec<ApiRequest> = Vec::new();
    match fired {
        Some(call) => {
            calls.push(call);
        },
        None => {},
    }
    if is_verify_reply(text) {
        match rendered_user {
            Some(user) => {
                calls.push(bot_verify_request(api_url, &user));
            },
            None => {},
        }
    }
    proof {
        assert(call_views(calls@) =~= inbound_call_views(
            fired,
            api_url@,
            text@,
            match rendered_user {
                Some(u) => Some(u@),
                None => None,
            },
        ));
    }
    calls
}

/// Handles a message `text` that `user` sent to the bot of `context`: a
/// handler registered for exactly this text fires and leaves the table, and
/// the verification reply triggers the verification call besides.
pub fn handle_inbound(
    handlers: &mut UserHandlers,
    context: &BotContext,
    user: &String,
    text: &String,
) -> (calls: Vec<ApiRequest>)
    ensures
        table_of(*final(handlers)) == consumed(table_of(*old(handlers)), user@, text@),
        call_views(calls@) == inbound_call_views(
            matched(table_of(*old(handlers)), user@, text@),
            context.api_url@,
            text@,
            json_string(user@),
        ),
{
    let fired = consume(handlers, user, text);
    let rendered = if is_verify_reply(text) {
        render_text(user)
    } else {
        None
    };
    inbound_calls(fired, &context.api_url, text, rendered)
}

} // verus!
