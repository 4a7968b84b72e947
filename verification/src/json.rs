//! The JSON documents that the gateway writes itself.
//!
//! Text inside a document is rendered by `serde_json`; the documents are
//! assembled around the rendered text here.

use vstd::prelude::*;
use vstd::string::*;
use crate::structs::api::{ApiRequest, ApiRequestView};
use crate::text::{decimal, decimal_text};

verus! {

/// What `serde_json::to_string` returns for the text `s`: the JSON text that
/// it writes for a string, or `None` where it reports an error.
pub uninterp spec fn json_string(s: Seq<char>) -> Option<Seq<char>>;

/// `serde_json::to_string` on a string slice.
///
/// Not proved: that the outcome depends on the characters of `s` alone, which
/// is what gives it the name `json_string`. Neither success nor the shape of
/// the text is claimed.
#[verifier::external_body]
fn to_json_string(s: &str) -> (r: Option<String>)
    ensures
        r is Some <==> json_string(s@) is Some,
        r matches Some(t) ==> json_string(s@) == Some(t@),
{
    serde_json::to_string(s).ok()
}

/// The JSON string literal of `s`, where `serde_json` renders one.
pub fn render_text(s: &String) -> (r: Option<String>)
    ensures
        r is Some <==> json_string(s@) is Some,
        r matches Some(t) ==> json_string(s@) == Some(t@),
{
    to_json_string(s.as_str())
}

/// The document `{"context":{"bot":true,"user_id":U}}`, where `U` is `user`,
/// a rendered JSON value.
pub open spec fn verify_data(user: Seq<char>) -> Seq<char> {
    "{\"context\":{\"bot\":true,\"user_id\":"@ + user + "}}"@
}

/// The document `{"id":I,"telegram_id":N}`, where `I` is `id`, a rendered JSON
/// value, and `N` the decimal text of `telegram_id`.
pub open spec fn client_update_data(id: Seq<char>, telegram_id: int) -> Seq<char> {
    "{\"id\":"@ + id + ",\"telegram_id\":"@ + decimal(telegram_id) + "}"@
}

/// The call that asks `api_url` to verify the visit of the user whose
/// rendered id is `user`.
pub open spec fn bot_verify_call(api_url: Seq<char>, user: Seq<char>) -> ApiRequestView {
    ApiRequestView {
        api_url,
        object: "visits"@,
        command: "bot_verify"@,
        data: verify_data(user),
    }
}

/// The call that tells `api_url` that the client whose rendered id is `id`
/// has the platform user id `telegram_id`.
pub open spec fn client_update_call(
    api_url: Seq<char>,
    id: Seq<char>,
    telegram_id: int,
) -> ApiRequestView {
    ApiRequestView {
        api_url,
        object: "clients"@,
        command: "update"@,
        data: client_update_data(id, telegram_id),
    }
}

/// The webhook call that asks `api_url` to verify a visit. `user` is the
/// user's id as a rendered JSON value.
pub fn bot_verify_request(api_url: &String, user: &String) -> (call: ApiRequest)
    ensures
        call@ == bot_verify_call(api_url@, user@),
{
    let mut data = "{\"context\":{\"bot\":true,\"user_id\":".to_owned();
    data.append(user.as_str());
    data.append("}}");
    ApiRequest {
        api_url: api_url.clone(),
        object: "visits".to_owned(),
        command: "bot_verify".to_owned(),
        data,
    }
}

/// The webhook call that reports the platform user id of a new contact.
/// `id` is the client's id as a rendered JSON value.
pub fn client_update_request(api_url: &String, id: &String, telegram_id: i64) -> (call:
    ApiRequest)
    ensures
        call@ == client_update_call(api_url@, id@, telegram_id as int),
{
    let mut data = "{\"id\":".to_owned();
    data.append(id.as_str());
    data.append(",\"telegram_id\":");
    let number = decimal_text(telegram_id);
    data.append(number.as_str());
    data.append("}");
    ApiRequest {
        api_url: api_url.clone(),
        object: "clients".to_owned(),
        command: "update".to_owned(),
        data,
    }
}

} // verus!
