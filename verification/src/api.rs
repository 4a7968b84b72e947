//! The ingress: from a request to the command that is enqueued for it, and
//! from what became of the command to the response.

use vstd::prelude::*;
use crate::str_map::{distinct, StrMap};
use crate::wrapper::{is_wildcard, wildcard};
use crate::structs::api::{AddContactRequest, SendMessageRequest};
use crate::structs::wrapper::{ChannelData, ChannelTx};
use crate::utils::BotError;

verus! {

/// The status of a request that was carried out.
pub const STATUS_OK: u16 = 200;

/// The status of a request that failed.
pub const STATUS_FAILED: u16 = 500;

/// What the ingress answers for one bot.
#[derive(Debug, PartialEq)]
pub struct ApiResponse {
    pub status: u16,
    pub details: Option<String>,
}

pub struct ApiResponseView {
    pub status: u16,
    pub details: Option<Seq<char>>,
}

impl View for ApiResponse {
    type V = ApiResponseView;

    open spec fn view(&self) -> ApiResponseView {
        ApiResponseView {
            status: self.status,
            details: match self.details {
                Some(d) => Some(d@),
                None => None,
            },
        }
    }
}

/// The response for `outcome`: 200 for success, 500 with the error's text
/// for a failure.
pub open spec fn response_of(outcome: Result<(), BotError>) -> ApiResponseView {
    match outcome {
        Ok(_) => ApiResponseView { status: STATUS_OK, details: None },
        Err(e) => ApiResponseView { status: STATUS_FAILED, details: Some(e.detail()) },
    }
}

/// The responses for the bots `names` with the outcomes `outcomes`, by bot
/// name; of a name that occurs twice the later outcome counts.
pub open spec fn status_map(
    names: Seq<Seq<char>>,
    outcomes: Seq<Result<(), BotError>>,
) -> Map<Seq<char>, ApiResponseView>
    decreases names.len(),
{
    if names.len() == 0 || outcomes.len() == 0 {
        Map::empty()
    } else {
        status_map(names.drop_last(), outcomes.drop_last()).insert(
            names.last(),
            response_of(outcomes.last()),
        )
    }
}

/// The views of `names`, in order.
pub open spec fn name_views(names: Seq<String>) -> Seq<Seq<char>> {
    Seq::new(names.len(), |i: int| names[i]@)
}

/// The command to enqueue for a request to send a message: it goes to the
/// bot, or the bots, that the request names.
pub fn send_message(request: SendMessageRequest) -> (command: ChannelTx)
    ensures
        command.bot_name == request.messenger,
        command.data == ChannelData::SendMessage(request),
{
    ChannelTx { bot_name: request.messenger.clone(), data: ChannelData::SendMessage(request) }
}

/// The command to enqueue for a request to add a contact.
pub fn add_contact(request: AddContactRequest) -> (command: ChannelTx)
    ensures
        command.bot_name == request.messenger,
        command.data == ChannelData::AddContact(request),
{
    ChannelTx { bot_name: request.messenger.clone(), data: ChannelData::AddContact(request) }
}

/// The response for one bot, given what became of its call.
pub fn response_for(outcome: &Result<(), BotError>) -> (response: ApiResponse)
    ensures
        response@ == response_of(*outcome),
{
    match outcome {
        Ok(_) => ApiResponse { status: STATUS_OK, details: None },
        Err(e) => ApiResponse { status: STATUS_FAILED, details: Some(e.details()) },
    }
}

/// The responses behind `statuses`.
pub open spec fn response_views(statuses: StrMap<ApiResponse>) -> Map<Seq<char>, ApiResponseView> {
    statuses@.map_values(|r: ApiResponse| r@)
}

/// The response to a request that went to the bots `names`: for each bot the
/// response for its outcome, under the bot's name.
pub fn aggregate(names: &Vec<String>, outcomes: &Vec<Result<(), BotError>>) -> (statuses: StrMap<
    ApiResponse,
>)
    requires
        names@.len() == outcomes@.len(),
    ensures
        response_views(statuses) == status_map(name_views(names@), outcomes@),
        distinct(name_views(names@)) ==> statuses.keys() == name_views(names@),
{
    let mut statuses: StrMap<ApiResponse> = StrMap::new();
    let ghost all = name_views(names@);
    let mut i: usize = 0;
    assert(response_views(statuses) =~= status_map(all.take(0), outcomes@.take(0)));
    while i < names.len()
        invariant
            i <= names@.len(),
            names@.len() == outcomes@.len(),
            all == name_views(names@),
            response_views(statuses) == status_map(all.take(i as int), outcomes@.take(i as int)),
            distinct(all) ==> statuses.keys() == all.take(i as int),
        decreases names.len() - i,
    {
        let ghost before = statuses;
        proof {
            assert(all.take(i as int + 1).drop_last() =~= all.take(i as int));
            assert(outcomes@.take(i as int + 1).drop_last() =~= outcomes@.take(i as int));
            use_type_invariant(&statuses);
            statuses.lemma_shape();
            if distinct(all) {
                assert(!statuses@.contains_key(names@[i as int]@)) by {
                    if statuses.keys().contains(names@[i as int]@) {
                        let j = statuses.keys().index_of(names@[i as int]@);
                        assert(all[j] == all[i as int]);
                    }
                }
            }
        }
        statuses.insert(names[i].clone(), response_for(&outcomes[i]));
        proof {
            assert(response_views(statuses) =~= response_views(before).insert(
                names@[i as int]@,
                response_of(outcomes@[i as int]),
            ));
            if distinct(all) {
                assert(statuses.keys() =~= all.take(i as int + 1));
            }
        }
        i += 1;
    }
    proof {
        assert(all.take(names@.len() as int) =~= all);
        assert(outcomes@.take(names@.len() as int) =~= outcomes@);
    }
    statuses
}

/// The response to a request that went to bots of different names holds one
/// entry for each of them: as many entries as bots, each the response for
/// the outcome of its bot.
pub proof fn lemma_one_status_per_bot(names: Seq<Seq<char>>, outcomes: Seq<Result<(), BotError>>)
    requires
        distinct(names),
        names.len() == outcomes.len(),
    ensures
        status_map(names, outcomes).dom().finite(),
        status_map(names, outcomes).dom().len() == names.len(),
        forall|i: int|
            0 <= i < names.len() ==> status_map(names, outcomes).contains_key(#[trigger] names[i])
                && status_map(names, outcomes)[names[i]] == response_of(outcomes[i]),
        forall|k: Seq<char>| status_map(names, outcomes).contains_key(k) ==> names.contains(k),
    decreases names.len(),
{
    if names.len() > 0 {
        let front_names = names.drop_last();
        let front_outcomes = outcomes.drop_last();
        assert forall|a: int, b: int| 0 <= a < b < front_names.len() implies front_names[a]
            != front_names[b] by {
            assert(front_names[a] == names[a] && front_names[b] == names[b]);
        }
        lemma_one_status_per_bot(front_names, front_outcomes);
        let front = status_map(front_names, front_outcomes);
        let all = status_map(names, outcomes);
        assert(!front.contains_key(names.last())) by {
            if front.contains_key(names.last()) {
                assert(front_names.contains(names.last()));
                let j = front_names.index_of(names.last());
                assert(0 <= j < front_names.len() && front_names[j] == names.last());
                assert(names[j] == names[names.len() - 1]);
            }
        }
        assert forall|i: int| 0 <= i < names.len() implies all.contains_key(#[trigger] names[i])
            && all[names[i]] == response_of(outcomes[i]) by {
            if i < names.len() - 1 {
                assert(front_names[i] == names[i]);
                assert(front_outcomes[i] == outcomes[i]);
            }
        }
        assert forall|k: Seq<char>| all.contains_key(k) implies names.contains(k) by {
            if k == names.last() {
                assert(names[names.len() - 1] == k);
            } else {
                assert(front.contains_key(k));
                assert(front_names.contains(k));
                let j = front_names.index_of(k);
                assert(0 <= j < front_names.len() && front_names[j] == k);
                assert(names[j] == k);
            }
        }
    }
}

/// What the ingress answers to a request.
#[derive(Debug)]
pub enum ApiReply {
    /// The response of the one bot that the request named.
    Single(ApiResponse),
    /// The response of each bot, by bot name: the answer to a request for all bots.
    PerBot(StrMap<ApiResponse>),
}

/// The answer to a request for `bot_name`, given the responses of the bots
/// it went to. A request for all bots is answered with all responses. A
/// request for one bot is answered with the response of that bot; where there
/// is none, because the bot is unknown or had nothing to do, the answer
/// reports success.
pub fn reply_for(bot_name: &String, statuses: StrMap<ApiResponse>) -> (reply: ApiReply)
    ensures
        bot_name@ == wildcard() ==> reply == ApiReply::PerBot(statuses),
        bot_name@ != wildcard() ==> (reply matches ApiReply::Single(response) && response@ == (
        if statuses@.contains_key(bot_name@) {
            statuses@[bot_name@]@
        } else {
            response_of(Ok(()))
        })),
{
    if is_wildcard(bot_name) {
        return ApiReply::PerBot(statuses);
    }
    let mut statuses = statuses;
    match statuses.remove(bot_name) {
        Some(response) => ApiReply::Single(response),
        None => ApiReply::Single(response_for(&Ok(()))),
    }
}

} // verus!
