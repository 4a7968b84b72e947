//! The bots of the gateway: what one bot knows and decides, apart from the
//! connection through which it talks.

pub mod sign_in;
pub mod telegram;
pub mod telegram_bot;
pub mod telegram_user;
pub mod whatsapp;

use vstd::prelude::*;
use crate::bot::telegram::TelegramAuth;
use crate::bot::whatsapp::WhatsappAuth;
use crate::str_map::StrMap;
use crate::structs::api::TelegramMessage;

verus! {

/// The application credentials of a bot, by platform.
#[derive(Debug, PartialEq)]
pub enum BotAuth {
    TelegramAuth(TelegramAuth),
    WhatsappAuth(WhatsappAuth),
}

/// A contact of a bot.
#[derive(Debug, PartialEq)]
pub struct BotContact {
    pub user_id: i64,
    pub username: String,
}

/// What is shown of a conversation.
#[derive(Debug, PartialEq)]
pub struct BotChat {
    pub chat_id: Option<i64>,
    pub title: Option<String>,
}

/// The latest message seen of each conversation, keyed by the user's messenger id.
pub type MessagesMap = StrMap<TelegramMessage>;

impl Clone for BotContact {
    fn clone(&self) -> (r: Self)
        ensures
            r == *self,
    {
        BotContact { user_id: self.user_id, username: self.username.clone() }
    }
}

} // verus!
