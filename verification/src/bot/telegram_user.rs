//! The Telegram user account: a bot that signs in with a login code kept in
//! its account data and that answers replies from its own handler table.

use vstd::prelude::*;
use crate::bot::sign_in::{
    sign_in_next, sign_in_step, SignInAction, SignInActionView, SignInEvent, SignInEventView,
    SignInState,
};
use crate::bot::telegram::{user_chat, ImportContact, OutgoingMessage};
use crate::bot::{BotChat, BotContact};
use crate::handlers::{consume, consumed, matched, register, registered, table_of};
use crate::str_map::StrMap;
use crate::structs::api::{
    AddContactRequest, ApiRequest, BotHandler, ConversationHandle, ConversationKind,
    SendMessageRequest, UserHandlers,
};
use crate::structs::auth::AuthData;
use crate::text::{parse_i64, parsed};
use crate::utils::BotError;

verus! {

/// The application credentials of a Telegram user account.
#[derive(Debug, PartialEq)]
pub struct TelegramUserAuth {
    pub app_id: i32,
    pub app_hash: String,
}

impl Clone for TelegramUserAuth {
    fn clone(&self) -> (r: Self)
        ensures
            r == *self,
    {
        TelegramUserAuth { app_id: self.app_id, app_hash: self.app_hash.clone() }
    }
}

impl Default for TelegramUserAuth {
    fn default() -> (r: Self)
        ensures
            r.app_id == 0,
            r.app_hash@ == Seq::<char>::empty(),
    {
        TelegramUserAuth { app_id: 0, app_hash: String::new() }
    }
}

/// A conversation as the platform lists it: its id and its title.
#[derive(Debug, PartialEq)]
pub struct ListedChat {
    pub id: i64,
    pub name: String,
}

/// What a Telegram user account keeps between calls.
#[derive(Debug)]
pub struct TelegramUser {
    pub handlers: UserHandlers,
}

/// The sign-in of a user account: as that of a bot, but the login code is the
/// one of the account data, so the operator is not asked.
pub open spec fn stored_code_next(
    state: SignInState,
    event: SignInEventView,
    bot_name: Seq<char>,
    data: AuthData,
) -> (SignInState, SignInActionView) {
    let next = sign_in_next(state, event, bot_name, data);
    match (next.1, data) {
        (SignInActionView::Prompt { .. }, AuthData::Telegram(auth)) => (
            SignInState::SigningIn,
            SignInActionView::SignIn { code: auth.verify_code@ },
        ),
        _ => next,
    }
}

/// Whether `chat` is what is shown of the listed conversation `listed`.
pub open spec fn shows(chat: BotChat, listed: ListedChat) -> bool {
    chat.chat_id == Some(listed.id) && chat.title == Some(listed.name)
}

impl TelegramUser {
    /// The state of an account that has just connected: no reply handler yet.
    pub fn new() -> (account: Self)
        ensures
            account.handlers@ == Map::<Seq<char>, BotHandler>::empty(),
    {
        TelegramUser { handlers: StrMap::new() }
    }

    /// Registers `handler` for the replies of `user`.
    pub fn add_handler(&mut self, user: &String, handler: BotHandler)
        ensures
            table_of(final(self).handlers) == registered(
                table_of(old(self).handlers),
                user@,
                handler@,
            ),
    {
        register(&mut self.handlers, user, handler);
    }

    /// The state after `event`, and what to do next.
    pub fn sign_in(state: SignInState, event: SignInEvent, bot_name: &String, data: &AuthData) -> (r:
        (SignInState, SignInAction))
        ensures
            r.0 == stored_code_next(state, event@, bot_name@, *data).0,
            r.1@ == stored_code_next(state, event@, bot_name@, *data).1,
    {
        let next = sign_in_step(state, event, bot_name, data);
        match (&next.1, data) {
            (SignInAction::Prompt { .. }, AuthData::Telegram(auth)) => (
                SignInState::SigningIn,
                SignInAction::SignIn { code: auth.verify_code.clone() },
            ),
            _ => next,
        }
    }

    /// What is shown of the conversations `listing`, in their order.
    pub fn get_dialogs(&self, listing: &Vec<ListedChat>) -> (dialogs_list: Vec<BotChat>)
        ensures
            dialogs_list@.len() == listing@.len(),
            forall|i: int|
                0 <= i < listing@.len() ==> shows(#[trigger] dialogs_list@[i], listing@[i]),
    {
        let mut dialogs_list: Vec<BotChat> = Vec::new();
        let mut i: usize = 0;
        while i < listing.len()
            invariant
                i <= listing@.len(),
                dialogs_list@.len() == i,
                forall|j: int| 0 <= j < i ==> shows(#[trigger] dialogs_list@[j], listing@[j]),
            decreases listing.len() - i,
        {
            dialogs_list.push(
                BotChat { chat_id: Some(listing[i].id), title: Some(listing[i].name.clone()) },
            );
            i += 1;
        }
        dialogs_list
    }

    /// The contacts that the account reports: none.
    pub fn get_contacts(&self) -> (contacts: Vec<BotContact>)
        ensures
            contacts@.len() == 0,
    {
        Vec::new()
    }

    /// What to send for `data`: nothing for a user without a messenger id, an
    /// error for an id that is no number, else the message for the
    /// conversation with that user.
    pub fn send_message(&self, data: &SendMessageRequest) -> (r: Result<
        Option<OutgoingMessage>,
        BotError,
    >)
        ensures
            match data.user.messenger_id {
                None => r == Ok::<Option<OutgoingMessage>, BotError>(None),
                Some(id) => match parsed(id@) {
                    None => r == Err::<Option<OutgoingMessage>, BotError>(BotError::InvalidUserId),
                    Some(chat_id) => r matches Ok(Some(message)) && message.chat == user_chat(
                        chat_id,
                        data.access_hash,
                    ) && message.text == data.message,
                },
            },
    {
        match &data.user.messenger_id {
            None => Ok(None),
            Some(id) => match parse_i64(id.as_str()) {
                None => Err(BotError::InvalidUserId),
                Some(chat_id) => Ok(
                    Some(
                        OutgoingMessage {
                            chat: ConversationHandle {
                                kind: ConversationKind::User,
                                id: chat_id,
                                access_hash: data.access_hash,
                            },
                            text: data.message.clone(),
                        },
                    ),
                ),
            },
        }
    }

    /// The contact to import for `data`.
    pub fn add_contact(&self, data: &AddContactRequest) -> (contact: ImportContact)
        ensures
            contact.client_id == 0,
            contact.phone == data.phone,
            contact.first_name == data.first_name,
            contact.last_name == data.last_name,
    {
        ImportContact {
            client_id: 0,
            phone: data.phone.clone(),
            first_name: data.first_name.clone(),
            last_name: data.last_name.clone(),
        }
    }

    /// The platform user id to report for an import: that of the first
    /// imported contact, and 0 where the import failed or imported nothing.
    pub fn contact_imported(&self, imported: &Option<Vec<i64>>) -> (user_id: i64)
        ensures
            user_id == (match *imported {
                Some(ids) => if ids@.len() > 0 {
                    ids@[0]
                } else {
                    0i64
                },
                None => 0i64,
            }),
    {
        match imported {
            Some(ids) => if ids.len() > 0 {
                ids[0]
            } else {
                0
            },
            None => 0,
        }
    }

    /// Handles the message `message` of `user`: the call of a handler
    /// registered for exactly this text, which thereby leaves the table.
    pub fn handle_message(&mut self, user: &String, message: &String) -> (call: Option<ApiRequest>)
        ensures
            call == matched(table_of(old(self).handlers), user@, message@),
            table_of(final(self).handlers) == consumed(
                table_of(old(self).handlers),
                user@,
                message@,
            ),
    {
        consume(&mut self.handlers, user, message)
    }
}

} // verus!
