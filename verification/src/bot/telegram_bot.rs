//! The Telegram bot account that talks through the bot API: its credentials.

use vstd::prelude::*;

verus! {

#[derive(Debug, PartialEq)]
pub struct TelegramBotAuth {
    pub token: String,
}

#[derive(Debug, PartialEq)]
pub struct TelegramBot {
    pub api_url: String,
    pub token: String,
}

impl Clone for TelegramBotAuth {
    fn clone(&self) -> (r: Self)
        ensures
            r == *self,
    {
        TelegramBotAuth { token: self.token.clone() }
    }
}

impl Default for TelegramBotAuth {
    fn default() -> (r: Self)
        ensures
            r.token@ == Seq::<char>::empty(),
    {
        TelegramBotAuth { token: String::new() }
    }
}

impl Clone for TelegramBot {
    fn clone(&self) -> (r: Self)
        ensures
            r == *self,
    {
        TelegramBot { api_url: self.api_url.clone(), token: self.token.clone() }
    }
}

impl TelegramBot {
    /// A bot that calls `api_url` with the token of `auth`.
    pub fn new(api_url: String, auth: TelegramBotAuth) -> (bot: Self)
        ensures
            bot.api_url == api_url,
            bot.token == auth.token,
    {
        TelegramBot { api_url, token: auth.token }
    }
}

} // verus!
