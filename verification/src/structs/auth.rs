//! What a bot signs in with.

use vstd::prelude::*;
use crate::str_map::StrMap;
use crate::structs::api::BotContext;

verus! {

/// The account of one Telegram bot, with the address its callbacks go to.
#[derive(Debug, PartialEq)]
pub struct TelegramAuth {
    pub username: String,
    pub password: String,
    pub verify_code: String,
    pub api_url: String,
}

#[derive(Debug, PartialEq)]
pub struct WhatsAppAuth {
    pub phone_id: String,
}

#[derive(Debug, PartialEq)]
pub enum AuthData {
    Telegram(TelegramAuth),
    WhatsApp(WhatsAppAuth),
}

/// The accounts to sign in at startup, keyed by bot name.
pub type AuthList = StrMap<TelegramAuth>;

impl Clone for TelegramAuth {
    fn clone(&self) -> (r: Self)
        ensures
            r == *self,
    {
        TelegramAuth {
            username: self.username.clone(),
            password: self.password.clone(),
            verify_code: self.verify_code.clone(),
            api_url: self.api_url.clone(),
        }
    }
}

impl Default for TelegramAuth {
    fn default() -> (r: Self)
        ensures
            r.username@ == Seq::<char>::empty(),
            r.password@ == Seq::<char>::empty(),
            r.verify_code@ == Seq::<char>::empty(),
            r.api_url@ == Seq::<char>::empty(),
    {
        TelegramAuth {
            username: String::new(),
            password: String::new(),
            verify_code: String::new(),
            api_url: String::new(),
        }
    }
}

impl Clone for WhatsAppAuth {
    fn clone(&self) -> (r: Self)
        ensures
            r == *self,
    {
        WhatsAppAuth { phone_id: self.phone_id.clone() }
    }
}

impl Default for WhatsAppAuth {
    fn default() -> (r: Self)
        ensures
            r.phone_id@ == Seq::<char>::empty(),
    {
        WhatsAppAuth { phone_id: String::new() }
    }
}

impl Clone for AuthData {
    fn clone(&self) -> (r: Self)
        ensures
            r == *self,
    {
        match self {
            AuthData::Telegram(a) => AuthData::Telegram(a.clone()),
            AuthData::WhatsApp(a) => AuthData::WhatsApp(a.clone()),
        }
    }
}

/// Whether `context` is that of the bot `name` with the account `auth`.
pub open spec fn is_context_of(context: BotContext, name: Seq<char>, auth: TelegramAuth) -> bool {
    context.bot_name@ == name && context.api_url@ == auth.api_url@
}

/// The context of each bot of `list`, in the order of the list: the bot's
/// name with the callback address of its account.
pub fn bot_contexts(list: &AuthList) -> (contexts: Vec<BotContext>)
    ensures
        contexts@.len() == list.keys().len(),
        forall|i: int|
            0 <= i < contexts@.len() ==> is_context_of(
                #[trigger] contexts@[i],
                list.keys()[i],
                list.values()[i],
            ),
{
    let mut contexts: Vec<BotContext> = Vec::new();
    let n = list.len();
    let mut i: usize = 0;
    while i < n
        invariant
            i <= n,
            n == list.keys().len(),
            contexts@.len() == i,
            forall|j: int|
                0 <= j < i ==> is_context_of(
                    #[trigger] contexts@[j],
                    list.keys()[j],
                    list.values()[j],
                ),
        decreases n - i,
    {
        contexts.push(
            BotContext {
                bot_name: list.key_at(i).clone(),
                api_url: list.value_at(i).api_url.clone(),
            },
        );
        i += 1;
    }
    contexts
}

} // verus!
