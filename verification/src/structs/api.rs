//! The requests that travel through the gateway.

use vstd::prelude::*;
use crate::str_map::StrMap;

verus! {

/// What to post when an expected reply arrives, keyed by the reply's text.
pub type BotHandler = StrMap<ApiRequest>;

/// The expected replies of each user of one bot, keyed by the user's messenger id.
pub type UserHandlers = StrMap<BotHandler>;

/// A button offered under a message.
#[derive(Debug, PartialEq)]
pub struct BotButtons {
    pub title: String,
    pub reply: String,
}

/// What every event of one bot carries: its name and where its callbacks go.
#[derive(Debug, PartialEq)]
pub struct BotContext {
    pub bot_name: String,
    pub api_url: String,
}

/// The kind of conversation a handle points at.
#[derive(Debug, PartialEq, Eq, Clone, Copy)]
pub enum ConversationKind {
    User,
    Bot,
    Chat,
    Megagroup,
    Broadcast,
    Gigagroup,
}

/// What a connector needs to find a conversation again.
#[derive(Debug, PartialEq, Eq, Clone, Copy)]
pub struct ConversationHandle {
    pub kind: ConversationKind,
    pub id: i64,
    pub access_hash: Option<i64>,
}

/// The latest message of one conversation.
#[derive(Debug, PartialEq)]
pub struct TelegramMessage {
    pub id: i32,
    pub ctx: ConversationHandle,
    pub user: String,
    pub text: String,
}

/// A webhook call: `api_url` says where it goes and is no part of what is sent;
/// `data` is a JSON document, held as text.
#[derive(Debug, PartialEq)]
pub struct ApiRequest {
    pub api_url: String,
    pub object: String,
    pub command: String,
    pub data: String,
}

#[derive(Debug, PartialEq)]
pub struct AddContactRequest {
    pub messenger: String,
    pub api_id: String,
    pub first_name: String,
    pub last_name: String,
    pub phone: String,
}

#[derive(Debug, PartialEq)]
pub struct UserData {
    pub phone: String,
    pub messenger_id: Option<String>,
}

#[derive(Debug)]
pub struct SendMessageRequest {
    pub messenger: String,
    pub user: UserData,
    pub message: String,
    pub access_hash: Option<i64>,
    pub buttons: Option<Vec<BotButtons>>,
    pub handlers: Option<BotHandler>,
}

impl Clone for BotButtons {
    fn clone(&self) -> (r: Self)
        ensures
            r == *self,
    {
        BotButtons { title: self.title.clone(), reply: self.reply.clone() }
    }
}

impl Clone for BotContext {
    fn clone(&self) -> (r: Self)
        ensures
            r == *self,
    {
        BotContext { bot_name: self.bot_name.clone(), api_url: self.api_url.clone() }
    }
}

/// A message with its texts as sequences of characters.
pub struct MessageView {
    pub id: i32,
    pub ctx: ConversationHandle,
    pub user: Seq<char>,
    pub text: Seq<char>,
}

impl View for TelegramMessage {
    type V = MessageView;

    open spec fn view(&self) -> MessageView {
        MessageView { id: self.id, ctx: self.ctx, user: self.user@, text: self.text@ }
    }
}

/// A webhook call with its texts as sequences of characters.
pub struct ApiRequestView {
    pub api_url: Seq<char>,
    pub object: Seq<char>,
    pub command: Seq<char>,
    pub data: Seq<char>,
}

impl View for ApiRequest {
    type V = ApiRequestView;

    open spec fn view(&self) -> ApiRequestView {
        ApiRequestView {
            api_url: self.api_url@,
            object: self.object@,
            command: self.command@,
            data: self.data@,
        }
    }
}

/// The views of `calls`, in order.
pub open spec fn call_views(calls: Seq<ApiRequest>) -> Seq<ApiRequestView> {
    Seq::new(calls.len(), |i: int| calls[i]@)
}

impl Clone for TelegramMessage {
    fn clone(&self) -> (r: Self)
        ensures
            r == *self,
    {
        TelegramMessage {
            id: self.id,
            ctx: self.ctx,
            user: self.user.clone(),
            text: self.text.clone(),
        }
    }
}

impl Clone for ApiRequest {
    fn clone(&self) -> (r: Self)
        ensures
            r == *self,
    {
        ApiRequest {
            api_url: self.api_url.clone(),
            object: self.object.clone(),
            command: self.command.clone(),
            data: self.data.clone(),
        }
    }
}

impl Default for ApiRequest {
    fn default() -> (r: Self)
        ensures
            r.api_url@ == Seq::<char>::empty(),
            r.object@ == Seq::<char>::empty(),
            r.command@ == Seq::<char>::empty(),
            r.data@ == Seq::<char>::empty(),
    {
        ApiRequest {
            api_url: String::new(),
            object: String::new(),
            command: String::new(),
            data: String::new(),
        }
    }
}

impl Default for BotButtons {
    fn default() -> (r: Self)
        ensures
            r.title@ == Seq::<char>::empty(),
            r.reply@ == Seq::<char>::empty(),
    {
        BotButtons { title: String::new(), reply: String::new() }
    }
}

impl Clone for AddContactRequest {
    fn clone(&self) -> (r: Self)
        ensures
            r == *self,
    {
        AddContactRequest {
            messenger: self.messenger.clone(),
            api_id: self.api_id.clone(),
            first_name: self.first_name.clone(),
            last_name: self.last_name.clone(),
            phone: self.phone.clone(),
        }
    }
}

impl Default for AddContactRequest {
    fn default() -> (r: Self)
        ensures
            r.messenger@ == Seq::<char>::empty(),
            r.api_id@ == Seq::<char>::empty(),
            r.first_name@ == Seq::<char>::empty(),
            r.last_name@ == Seq::<char>::empty(),
            r.phone@ == Seq::<char>::empty(),
    {
        AddContactRequest {
            messenger: String::new(),
            api_id: String::new(),
            first_name: String::new(),
            last_name: String::new(),
            phone: String::new(),
        }
    }
}

/// A copy of an optional text.
pub fn clone_text(text: &Option<String>) -> (r: Option<String>)
    ensures
        r == *text,
{
    match text {
        Some(t) => Some(t.clone()),
        None => None,
    }
}

impl Clone for UserData {
    fn clone(&self) -> (r: Self)
        ensures
            r == *self,
    {
        UserData { phone: self.phone.clone(), messenger_id: clone_text(&self.messenger_id) }
    }
}

impl Default for UserData {
    fn default() -> (r: Self)
        ensures
            r.phone@ == Seq::<char>::empty(),
            r.messenger_id is None,
    {
        UserData { phone: String::new(), messenger_id: None }
    }
}

/// A copy of a handler map: the same keys in the same order, each with a copy
/// of its webhook call.
pub fn clone_handler(handler: &BotHandler) -> (r: BotHandler)
    ensures
        r@ == handler@,
        r.keys() == handler.keys(),
{
    proof {
        use_type_invariant(handler);
        handler.lemma_shape();
    }
    let mut out: BotHandler = StrMap::new();
    let n = handler.len();
    let mut i: usize = 0;
    while i < n
        invariant
            i <= n,
            n == handler.keys().len(),
            handler.keys().len() == handler.values().len(),
            crate::str_map::distinct(handler.keys()),
            out.keys() == handler.keys().take(i as int),
            out@ == crate::str_map::map_of(
                handler.keys().take(i as int),
                handler.values().take(i as int),
            ),
        decreases n - i,
    {
        let ghost keys = handler.keys().take(i as int);
        let ghost values = handler.values().take(i as int);
        let key = handler.key_at(i).clone();
        let value = handler.value_at(i).clone();
        proof {
            assert(!keys.contains(key@)) by {
                if keys.contains(key@) {
                    let j = keys.index_of(key@);
                    assert(handler.keys()[j] == handler.keys()[i as int]);
                }
            }
            crate::str_map::lemma_map_of_push(keys, values, key@, value);
            assert(keys.push(key@) =~= handler.keys().take(i as int + 1));
            assert(values.push(value) =~= handler.values().take(i as int + 1));
        }
        out.insert(key, value);
        i += 1;
    }
    proof {
        assert(handler.keys().take(n as int) =~= handler.keys());
        assert(handler.values().take(n as int) =~= handler.values());
    }
    out
}

/// A copy of a list of buttons.
pub fn clone_buttons(buttons: &Vec<BotButtons>) -> (r: Vec<BotButtons>)
    ensures
        r@ == buttons@,
{
    let mut out: Vec<BotButtons> = Vec::new();
    let mut i: usize = 0;
    while i < buttons.len()
        invariant
            i <= buttons.len(),
            out@ == buttons@.take(i as int),
        decreases buttons.len() - i,
    {
        out.push(buttons[i].clone());
        assert(out@ =~= buttons@.take(i as int + 1));
        i += 1;
    }
    assert(buttons@.take(buttons.len() as int) =~= buttons@);
    out
}

/// A request to send a message, with its lists and maps as mathematical values.
pub struct SendMessageView {
    pub messenger: String,
    pub user: UserData,
    pub message: String,
    pub access_hash: Option<i64>,
    pub buttons: Option<Seq<BotButtons>>,
    pub handlers: Option<Map<Seq<char>, ApiRequest>>,
}

impl View for SendMessageRequest {
    type V = SendMessageView;

    open spec fn view(&self) -> SendMessageView {
        SendMessageView {
            messenger: self.messenger,
            user: self.user,
            message: self.message,
            access_hash: self.access_hash,
            buttons: match self.buttons {
                Some(b) => Some(b@),
                None => None,
            },
            handlers: match self.handlers {
                Some(h) => Some(h@),
                None => None,
            },
        }
    }
}

impl Clone for SendMessageRequest {
    fn clone(&self) -> (r: Self)
        ensures
            r@ == self@,
    {
        SendMessageRequest {
            messenger: self.messenger.clone(),
            user: self.user.clone(),
            message: self.message.clone(),
            access_hash: self.access_hash,
            buttons: match &self.buttons {
                Some(b) => Some(clone_buttons(b)),
                None => None,
            },
            handlers: match &self.handlers {
                Some(h) => Some(clone_handler(h)),
                None => None,
            },
        }
    }
}

impl Default for SendMessageRequest {
    fn default() -> (r: Self)
        ensures
            r.messenger@ == Seq::<char>::empty(),
            r.user.phone@ == Seq::<char>::empty(),
            r.user.messenger_id is None,
            r.message@ == Seq::<char>::empty(),
            r.access_hash is None,
            r.buttons is None,
            r.handlers is None,
    {
        SendMessageRequest {
            messenger: String::new(),
            user: UserData::default(),
            message: String::new(),
            access_hash: None,
            buttons: None,
            handlers: None,
        }
    }
}

/// Either of the two requests that the ingress takes.
#[derive(Debug)]
pub enum BotRequestType {
    RequestContact(AddContactRequest),
    RequestMessage(SendMessageRequest),
}

/// A handler map to register for one user of one bot.
#[derive(Debug)]
pub struct UserHandler {
    pub bot: String,
    pub user: UserData,
    pub handler: BotHandler,
}

/// A registration, with its handler map as a mathematical map.
pub struct UserHandlerView {
    pub bot: String,
    pub user: UserData,
    pub handler: Map<Seq<char>, ApiRequest>,
}

impl View for UserHandler {
    type V = UserHandlerView;

    open spec fn view(&self) -> UserHandlerView {
        UserHandlerView { bot: self.bot, user: self.user, handler: self.handler@ }
    }
}

impl Clone for UserHandler {
    fn clone(&self) -> (r: Self)
        ensures
            r@ == self@,
    {
        UserHandler {
            bot: self.bot.clone(),
            user: self.user.clone(),
            handler: clone_handler(&self.handler),
        }
    }
}

} // verus!
