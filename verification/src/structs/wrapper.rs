//! The commands that the dispatcher takes from its queue.

use vstd::prelude::*;
use crate::structs::api::{
    AddContactRequest, MessageView, SendMessageRequest, SendMessageView, TelegramMessage,
    UserHandler, UserHandlerView,
};

verus! {

/// What a command asks for.
#[derive(Debug)]
pub enum ChannelData {
    /// A message came in from a user.
    ReceiveMessage(TelegramMessage),
    /// Send a message to a user.
    SendMessage(SendMessageRequest),
    /// Register reply handlers for a user.
    Handler(UserHandler),
    /// Add a contact.
    AddContact(AddContactRequest),
}

/// A command: what to do, and the bot, or all bots, to do it with.
#[derive(Debug)]
pub struct ChannelTx {
    pub data: ChannelData,
    pub bot_name: String,
}

pub enum ChannelDataView {
    ReceiveMessage(MessageView),
    SendMessage(SendMessageView),
    Handler(UserHandlerView),
    AddContact(AddContactRequest),
}

pub struct ChannelTxView {
    pub data: ChannelDataView,
    pub bot_name: Seq<char>,
}

impl View for ChannelData {
    type V = ChannelDataView;

    open spec fn view(&self) -> ChannelDataView {
        match *self {
            ChannelData::ReceiveMessage(m) => ChannelDataView::ReceiveMessage(m@),
            ChannelData::SendMessage(r) => ChannelDataView::SendMessage(r@),
            ChannelData::Handler(h) => ChannelDataView::Handler(h@),
            ChannelData::AddContact(c) => ChannelDataView::AddContact(c),
        }
    }
}

impl View for ChannelTx {
    type V = ChannelTxView;

    open spec fn view(&self) -> ChannelTxView {
        ChannelTxView { data: self.data@, bot_name: self.bot_name@ }
    }
}

impl Clone for ChannelData {
    fn clone(&self) -> (r: Self)
        ensures
            r@ == self@,
    {
        match self {
            ChannelData::ReceiveMessage(m) => ChannelData::ReceiveMessage(m.clone()),
            ChannelData::SendMessage(r) => ChannelData::SendMessage(r.clone()),
            ChannelData::Handler(h) => ChannelData::Handler(h.clone()),
            ChannelData::AddContact(c) => ChannelData::AddContact(c.clone()),
        }
    }
}

impl Clone for ChannelTx {
    fn clone(&self) -> (r: Self)
        ensures
            r@ == self@,
    {
        ChannelTx { data: self.data.clone(), bot_name: self.bot_name.clone() }
    }
}

} // verus!
