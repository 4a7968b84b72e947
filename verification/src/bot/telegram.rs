//! The Telegram bot: what it records and decides. The connection itself is
//! its caller's; every function here takes what the connection returned and
//! says what to do next.

use vstd::prelude::*;
use vstd::arithmetic::power2::{lemma2_to64, lemma2_to64_rest, lemma_pow2_unfold, pow2};
use vstd::string::*;
use crate::bot::{BotAuth, MessagesMap};
use crate::handlers::{
    consumed, handle_inbound, inbound_call_views, matched, register, registered, table_of,
};
use crate::json::{client_update_call, client_update_request, json_string, render_text};
use crate::str_map::StrMap;
use crate::structs::api::{
    call_views, AddContactRequest, ApiRequest, BotContext, BotHandler, ConversationHandle,
    ConversationKind, MessageView, SendMessageRequest, TelegramMessage, UserData, UserHandlers,
};
use crate::structs::wrapper::{ChannelData, ChannelDataView, ChannelTx, ChannelTxView};
use crate::text::{decimal, decimal_text, parse_i64, parsed};
use crate::utils::BotError;

verus! {

/// The application credentials of a Telegram bot.
#[derive(Debug, PartialEq)]
pub struct TelegramAuth {
    pub app_id: i32,
    pub app_hash: String,
}

impl Clone for TelegramAuth {
    fn clone(&self) -> (r: Self)
        ensures
            r == *self,
    {
        TelegramAuth { app_id: self.app_id, app_hash: self.app_hash.clone() }
    }
}

impl Default for TelegramAuth {
    fn default() -> (r: Self)
        ensures
            r.app_id == 0,
            r.app_hash@ == Seq::<char>::empty(),
    {
        TelegramAuth { app_id: 0, app_hash: String::new() }
    }
}

impl TelegramAuth {
    /// The Telegram credentials of `cfg`; empty ones where `cfg` is for
    /// another platform.
    pub fn from_bot_auth(cfg: BotAuth) -> (auth: TelegramAuth)
        ensures
            cfg matches BotAuth::TelegramAuth(data) ==> auth == data,
            !(cfg is TelegramAuth) ==> auth.app_id == 0 && auth.app_hash@ == Seq::<char>::empty(),
    {
        match cfg {
            BotAuth::TelegramAuth(data) => data,
            _ => TelegramAuth::default(),
        }
    }
}

/// Where the session of the bot `bot_name` is kept.
pub open spec fn session_path(bot_name: Seq<char>) -> Seq<char> {
    "configs/sessions/"@ + bot_name + ".session"@
}

/// Where the session of the bot `bot_name` is kept.
pub fn session_file(bot_name: &String) -> (path: String)
    ensures
        path@ == session_path(bot_name@),
{
    let mut path = "configs/sessions/".to_owned();
    path.append(bot_name.as_str());
    path.append(".session");
    path
}

/// How many milliseconds to wait before reconnecting after `attempts` failed
/// attempts: twice as long after each one.
pub fn retry_delay_millis(attempts: usize) -> (millis: u64)
    requires
        attempts < 64,
    ensures
        millis == pow2(attempts as nat),
{
    let mut millis: u64 = 1;
    let mut i: usize = 0;
    proof {
        lemma2_to64();
    }
    while i < attempts
        invariant
            i <= attempts < 64,
            millis == pow2(i as nat),
        decreases attempts - i,
    {
        proof {
            lemma_pow2_unfold((i + 1) as nat);
            lemma2_to64_rest();
            vstd::arithmetic::power2::lemma_pow2_strictly_increases((i + 1) as nat, 64);
        }
        millis = millis * 2;
        i += 1;
    }
    millis
}

/// A message to hand to the connection.
#[derive(Debug, PartialEq)]
pub struct OutgoingMessage {
    pub chat: ConversationHandle,
    pub text: String,
}

/// A contact to import through the connection.
#[derive(Debug, PartialEq)]
pub struct ImportContact {
    pub client_id: i64,
    pub phone: String,
    pub first_name: String,
    pub last_name: String,
}

/// A user among the contacts that the platform lists.
#[derive(Debug, PartialEq, Clone, Copy)]
pub enum ContactUser {
    /// A user of which only the id is known.
    Empty { id: i64 },
    /// A user, with the hash that gives access to it where the platform sent one.
    User { id: i64, access_hash: Option<i64> },
}

/// A user to name to the platform.
#[derive(Debug, PartialEq, Clone, Copy)]
pub struct InputUser {
    pub user_id: i64,
    pub access_hash: i64,
}

/// A message that the platform pushed to the bot.
#[derive(Debug, PartialEq)]
pub struct IncomingMessage {
    pub id: i32,
    pub chat: ConversationHandle,
    pub text: String,
    pub outgoing: bool,
}

/// What a Telegram bot keeps between calls.
#[derive(Debug)]
pub struct Telegram {
    pub bot_id: i64,
    pub handlers: UserHandlers,
    pub dialogs: MessagesMap,
    pub context: BotContext,
}

/// The conversation with the user `id`.
pub open spec fn user_chat(id: i64, access_hash: Option<i64>) -> ConversationHandle {
    ConversationHandle { kind: ConversationKind::User, id, access_hash }
}

/// The command that reports `message` as received by the bot `bot_name`.
pub open spec fn inbound(bot_name: Seq<char>, message: MessageView) -> ChannelTxView {
    ChannelTxView { data: ChannelDataView::ReceiveMessage(message), bot_name }
}

/// Whether `user` can be named to the platform, if it is known in full.
pub open spec fn has_access(user: ContactUser) -> bool {
    user matches ContactUser::User { access_hash, .. } ==> access_hash is Some
}

/// Whether each of `users` that is known in full can be named to the platform.
pub open spec fn nameable(users: Seq<ContactUser>) -> bool {
    forall|i: int| 0 <= i < users.len() ==> has_access(#[trigger] users[i])
}

/// The users to remove when all of `users` are to go: those that are known
/// in full, in their order.
pub open spec fn deletions(users: Seq<ContactUser>) -> Seq<InputUser>
    decreases users.len(),
{
    if users.len() == 0 {
        Seq::empty()
    } else {
        let front = deletions(users.drop_last());
        match users.last() {
            ContactUser::User { id, access_hash: Some(hash) } => front.push(
                InputUser { user_id: id, access_hash: hash },
            ),
            _ => front,
        }
    }
}

impl Telegram {
    /// The state of a bot that has just connected as the account `bot_id`:
    /// no reply handler and no conversation seen yet.
    pub fn new(bot_id: i64, ctx: BotContext) -> (bot: Self)
        ensures
            bot.bot_id == bot_id,
            bot.context == ctx,
            bot.handlers@ == Map::<Seq<char>, BotHandler>::empty(),
            bot.dialogs@ == Map::<Seq<char>, TelegramMessage>::empty(),
    {
        Telegram { bot_id, handlers: StrMap::new(), dialogs: StrMap::new(), context: ctx }
    }

    /// The name of the platform.
    pub fn get_bot_name(&self) -> (name: String)
        ensures
            name@ == "telegram"@,
    {
        "telegram".to_owned()
    }

    /// Registers `handler` for the replies of `user`. A user without a
    /// messenger id cannot reply, so nothing is registered for one.
    pub fn add_handler(&mut self, user: &UserData, handler: BotHandler)
        ensures
            final(self).bot_id == old(self).bot_id,
            final(self).context == old(self).context,
            final(self).dialogs == old(self).dialogs,
            table_of(final(self).handlers) == (match user.messenger_id {
                Some(id) => registered(table_of(old(self).handlers), id@, handler@),
                None => table_of(old(self).handlers),
            }),
    {
        match &user.messenger_id {
            Some(id) => {
                register(&mut self.handlers, id, handler);
            },
            None => {},
        }
    }

    /// Handles the message `message` of `user` and returns the webhook calls
    /// to make: the call of a handler registered for exactly this text, which
    /// thereby leaves the table, and for the verification reply the
    /// verification call.
    pub fn handle_message(&mut self, user: &String, message: &String) -> (calls: Vec<ApiRequest>)
        ensures
            final(self).bot_id == old(self).bot_id,
            final(self).context == old(self).context,
            final(self).dialogs == old(self).dialogs,
            table_of(final(self).handlers) == consumed(
                table_of(old(self).handlers),
                user@,
                message@,
            ),
            call_views(calls@) == inbound_call_views(
                matched(table_of(old(self).handlers), user@, message@),
                old(self).context.api_url@,
                message@,
                json_string(user@),
            ),
    {
        handle_inbound(&mut self.handlers, &self.context, user, message)
    }

    /// What to send for `data`: nothing for a user without a messenger id, an
    /// error for an id that is no number, else the message for the
    /// conversation with that user.
    pub fn send_message(&self, data: &SendMessageRequest) -> (r: Result<
        Option<OutgoingMessage>,
        BotError,
    >)
        ensures
            match data.user.messenger_id {
                None => r == Ok::<Option<OutgoingMessage>, BotError>(None),
                Some(id) => match parsed(id@) {
                    None => r == Err::<Option<OutgoingMessage>, BotError>(BotError::InvalidUserId),
                    Some(chat_id) => r matches Ok(Some(message)) && message.chat == user_chat(
                        chat_id,
                        data.access_hash,
                    ) && message.text == data.message,
                },
            },
    {
        match &data.user.messenger_id {
            None => Ok(None),
            Some(id) => match parse_i64(id.as_str()) {
                None => Err(BotError::InvalidUserId),
                Some(chat_id) => Ok(
                    Some(
                        OutgoingMessage {
                            chat: ConversationHandle {
                                kind: ConversationKind::User,
                                id: chat_id,
                                access_hash: data.access_hash,
                            },
                            text: data.message.clone(),
                        },
                    ),
                ),
            },
        }
    }

    /// The contact to import for `new_contact`.
    pub fn add_contact(&self, new_contact: &AddContactRequest) -> (contact: ImportContact)
        ensures
            contact.client_id == 0,
            contact.phone == new_contact.phone,
            contact.first_name == new_contact.first_name,
            contact.last_name == new_contact.last_name,
    {
        ImportContact {
            client_id: 0,
            phone: new_contact.phone.clone(),
            first_name: new_contact.first_name.clone(),
            last_name: new_contact.last_name.clone(),
        }
    }

    /// The webhook call to make once the platform has imported a contact for
    /// the client `api_id`: it reports the first of the `imported` user ids.
    /// No call is made where nothing was imported.
    pub fn contact_imported(&self, api_id: &String, imported: &Vec<i64>) -> (call: Option<
        ApiRequest,
    >)
        ensures
            call is Some <==> imported@.len() > 0 && json_string(api_id@) is Some,
            call matches Some(c) ==> c@ == client_update_call(
                self.context.api_url@,
                json_string(api_id@)->0,
                imported@[0] as int,
            ),
    {
        if imported.len() == 0 {
            return None;
        }
        match render_text(api_id) {
            Some(id) => Some(client_update_request(&self.context.api_url, &id, imported[0])),
            None => None,
        }
    }

    /// The users to name to the platform when all contacts are to be removed.
    /// A user that is known in full but without the hash that gives access to
    /// it cannot be named: then nothing is removed and the error says so.
    pub fn delete_contacts(&self, users: &Vec<ContactUser>) -> (r: Result<Vec<InputUser>, BotError>)
        ensures
            nameable(users@) ==> (r matches Ok(delete_users) && delete_users@ == deletions(users@)),
            !nameable(users@) ==> r == Err::<Vec<InputUser>, BotError>(
                BotError::MissingAccessHash,
            ),
    {
        let mut delete_users: Vec<InputUser> = Vec::new();
        let mut i: usize = 0;
        while i < users.len()
            invariant
                i <= users.len(),
                nameable(users@.take(i as int)),
                delete_users@ == deletions(users@.take(i as int)),
            decreases users.len() - i,
        {
            proof {
                assert(users@.take(i as int + 1).drop_last() =~= users@.take(i as int));
            }
            match users[i] {
                ContactUser::User { id, access_hash: Some(hash) } => {
                    delete_users.push(InputUser { user_id: id, access_hash: hash });
                },
                ContactUser::User { access_hash: None, .. } => {
                    assert(!has_access(users@[i as int]));
                    return Err(BotError::MissingAccessHash);
                },
                ContactUser::Empty { .. } => {},
            }
            proof {
                assert forall|j: int| 0 <= j < i + 1 implies has_access(
                    #[trigger] users@.take(i as int + 1)[j],
                ) by {
                    if j < i {
                        assert(users@.take(i as int)[j] == users@[j]);
                    }
                }
            }
            i += 1;
        }
        proof {
            assert(users@.take(users@.len() as int) =~= users@);
        }
        Ok(delete_users)
    }

    /// Whether a message that the platform pushed is one to act on: a message
    /// of another account, in a conversation with a single user.
    pub open spec fn accepts(&self, message: IncomingMessage) -> bool {
        &&& !message.outgoing
        &&& message.chat.kind == ConversationKind::User
        &&& message.chat.id != self.bot_id
    }

    /// The command to enqueue for a message that the platform pushed, if it
    /// is one to act on.
    pub fn message_received(&self, message: &IncomingMessage) -> (command: Option<ChannelTx>)
        ensures
            command is Some <==> self.accepts(*message),
            command matches Some(tx) ==> tx@ == inbound(
                self.context.bot_name@,
                MessageView {
                    id: message.id,
                    ctx: message.chat,
                    user: decimal(message.chat.id as int),
                    text: message.text@,
                },
            ),
    {
        if message.outgoing {
            return None;
        }
        match message.chat.kind {
            ConversationKind::User => {},
            _ => {
                return None;
            },
        }
        if message.chat.id == self.bot_id {
            return None;
        }
        Some(
            ChannelTx {
                bot_name: self.context.bot_name.clone(),
                data: ChannelData::ReceiveMessage(
                    TelegramMessage {
                        id: message.id,
                        ctx: message.chat,
                        user: decimal_text(message.chat.id),
                        text: message.text.clone(),
                    },
                ),
            },
        )
    }
}

/// How many conversations one poll looks at: the most recent ones.
pub const DIALOG_LIMIT: usize = 5;

/// How many milliseconds a bot waits between two polls.
pub const POLL_INTERVAL_MILLIS: u64 = 500;

/// A conversation as the platform lists it: the conversation and the id of
/// its latest message.
#[derive(Debug, PartialEq, Clone, Copy)]
pub struct DialogEntry {
    pub chat: ConversationHandle,
    pub top_message: i32,
}

/// The content of a message that was fetched by its id.
#[derive(Debug, PartialEq)]
pub struct FetchedMessage {
    pub text: String,
    /// Whether the bot's own account sent it.
    pub outgoing: bool,
}

/// What the poller asks of its caller for one conversation.
#[derive(Debug)]
pub enum PollStep {
    /// Enqueue this command.
    Emit(ChannelTx),
    /// Fetch the text of this message and hand it to `message_fetched`.
    Fetch(TelegramMessage),
}

pub enum PollStepView {
    Emit(ChannelTxView),
    Fetch(MessageView),
}

impl View for PollStep {
    type V = PollStepView;

    open spec fn view(&self) -> PollStepView {
        match *self {
            PollStep::Emit(tx) => PollStepView::Emit(tx@),
            PollStep::Fetch(message) => PollStepView::Fetch(message@),
        }
    }
}

/// The views of `steps`, in order.
pub open spec fn step_views(steps: Seq<PollStep>) -> Seq<PollStepView> {
    Seq::new(steps.len(), |i: int| steps[i]@)
}

/// The views of `messages`, in order.
pub open spec fn message_views(messages: Seq<TelegramMessage>) -> Seq<MessageView> {
    Seq::new(messages.len(), |i: int| messages[i]@)
}

/// The latest message seen of each conversation, as a mathematical map.
pub type Snapshots = Map<Seq<char>, MessageView>;

/// The snapshots behind `dialogs`.
pub open spec fn snapshots_of(dialogs: MessagesMap) -> Snapshots {
    dialogs@.map_values(|m: TelegramMessage| m@)
}

/// The snapshot of a listed conversation: the id of its latest message, under
/// the decimal text of the conversation's id, without the message's text.
pub open spec fn snapshot(entry: DialogEntry) -> MessageView {
    MessageView {
        id: entry.top_message,
        ctx: entry.chat,
        user: decimal(entry.chat.id as int),
        text: Seq::empty(),
    }
}

/// `message` with the text `text`.
pub open spec fn with_text(message: MessageView, text: Seq<char>) -> MessageView {
    MessageView { id: message.id, ctx: message.ctx, user: message.user, text }
}

/// How a listed conversation compares with what was seen before.
pub enum Sighting {
    /// No message of this user was seen before.
    New,
    /// The latest message is another one than the one seen before.
    Changed,
    /// The latest message is the one seen before.
    Same,
}

/// How `entry` compares with the snapshots `seen`.
pub open spec fn sighting(seen: Snapshots, entry: MessageView) -> Sighting {
    if !seen.contains_key(entry.user) {
        Sighting::New
    } else if seen[entry.user].id != entry.id {
        Sighting::Changed
    } else {
        Sighting::Same
    }
}

/// The snapshots after `entry` was observed: a new conversation is recorded
/// as it is, anything else waits for its text.
pub open spec fn observed(seen: Snapshots, entry: MessageView) -> Snapshots {
    match sighting(seen, entry) {
        Sighting::New => seen.insert(entry.user, entry),
        _ => seen,
    }
}

/// What observing `entry` asks for: a new conversation is reported with an
/// empty text, of a changed one the text is fetched, an unchanged one asks
/// for nothing.
pub open spec fn observation(seen: Snapshots, bot_name: Seq<char>, entry: MessageView) -> Option<
    PollStepView,
> {
    match sighting(seen, entry) {
        Sighting::New => Some(PollStepView::Emit(inbound(bot_name, with_text(entry, Seq::empty())))),
        Sighting::Changed => Some(PollStepView::Fetch(entry)),
        Sighting::Same => None,
    }
}

/// Whether a fetched message is one to report: it has a text, and neither
/// did the bot send it nor is the conversation one with the bot itself.
pub open spec fn reportable(bot_id: i64, entry: MessageView, text: Seq<char>, outgoing: bool) -> bool {
    text.len() > 0 && !outgoing && entry.ctx.id != bot_id
}

/// The snapshots after the text of `entry` was fetched: a reported message
/// becomes the snapshot of its user, anything else changes nothing.
pub open spec fn delivered(
    seen: Snapshots,
    bot_id: i64,
    entry: MessageView,
    text: Seq<char>,
    outgoing: bool,
) -> Snapshots {
    if reportable(bot_id, entry, text, outgoing) {
        seen.insert(entry.user, with_text(entry, text))
    } else {
        seen
    }
}

/// The command to enqueue after the text of `entry` was fetched, if the
/// message is one to report.
pub open spec fn delivery(
    bot_id: i64,
    bot_name: Seq<char>,
    entry: MessageView,
    text: Seq<char>,
    outgoing: bool,
) -> Option<ChannelTxView> {
    if reportable(bot_id, entry, text, outgoing) {
        Some(inbound(bot_name, with_text(entry, text)))
    } else {
        None
    }
}

/// The snapshots after the conversations `entries` were observed in order.
pub open spec fn polled(seen: Snapshots, entries: Seq<MessageView>) -> Snapshots
    decreases entries.len(),
{
    if entries.len() == 0 {
        seen
    } else {
        observed(polled(seen, entries.drop_last()), entries.last())
    }
}

/// What observing the conversations `entries` in order asks for.
pub open spec fn poll_steps(
    seen: Snapshots,
    bot_name: Seq<char>,
    entries: Seq<MessageView>,
) -> Seq<PollStepView>
    decreases entries.len(),
{
    if entries.len() == 0 {
        Seq::empty()
    } else {
        let front = poll_steps(seen, bot_name, entries.drop_last());
        match observation(polled(seen, entries.drop_last()), bot_name, entries.last()) {
            Some(step) => front.push(step),
            None => front,
        }
    }
}

impl Telegram {
    /// The snapshots of the conversations that one poll looks at: of the
    /// first `DIALOG_LIMIT` of `listing`, in their order.
    pub fn get_dialogs(&self, listing: &Vec<DialogEntry>) -> (dialogs: Vec<TelegramMessage>)
        ensures
            dialogs@.len() == if listing@.len() < DIALOG_LIMIT {
                listing@.len()
            } else {
                DIALOG_LIMIT as nat
            },
            forall|i: int| 0 <= i < dialogs@.len() ==> (#[trigger] dialogs@[i])@ == snapshot(listing@[i]),
    {
        let mut dialogs: Vec<TelegramMessage> = Vec::new();
        let mut counter: usize = 0;
        while counter < listing.len() && counter < DIALOG_LIMIT
            invariant
                counter <= listing@.len(),
                counter <= DIALOG_LIMIT,
                dialogs@.len() == counter,
                forall|i: int|
                    0 <= i < counter ==> (#[trigger] dialogs@[i])@ == snapshot(listing@[i]),
            decreases listing.len() - counter,
        {
            let entry = listing[counter];
            dialogs.push(
                TelegramMessage {
                    id: entry.top_message,
                    ctx: entry.chat,
                    user: decimal_text(entry.chat.id),
                    text: String::new(),
                },
            );
            counter += 1;
        }
        dialogs
    }

    /// Records `entry` as the latest message of its user without reporting
    /// anything: for the conversations that exist when the bot starts.
    pub fn remember(&mut self, entry: &TelegramMessage)
        ensures
            final(self).bot_id == old(self).bot_id,
            final(self).context == old(self).context,
            final(self).handlers == old(self).handlers,
            snapshots_of(final(self).dialogs) == snapshots_of(old(self).dialogs).insert(
                entry.user@,
                entry@,
            ),
    {
        self.dialogs.insert(entry.user.clone(), entry.clone());
        assert(snapshots_of(self.dialogs) =~= snapshots_of(old(self).dialogs).insert(
            entry.user@,
            entry@,
        ));
    }

    /// Compares a listed conversation with what was seen before. A user seen
    /// for the first time is recorded and reported, with an empty text; for a
    /// user whose latest message changed the text is to be fetched, and
    /// nothing is recorded yet; an unchanged conversation asks for nothing.
    pub fn observe(&mut self, entry: &TelegramMessage) -> (step: Option<PollStep>)
        ensures
            final(self).bot_id == old(self).bot_id,
            final(self).context == old(self).context,
            final(self).handlers == old(self).handlers,
            snapshots_of(final(self).dialogs) == observed(snapshots_of(old(self).dialogs), entry@),
            (match step {
                Some(s) => Some(s@),
                None => None,
            }) == observation(snapshots_of(old(self).dialogs), old(self).context.bot_name@, entry@),
    {
        let known = match self.dialogs.get(&entry.user) {
            Some(seen) => Some(seen.id),
            None => None,
        };
        match known {
            None => {
                self.dialogs.insert(entry.user.clone(), entry.clone());
                proof {
                    assert(snapshots_of(self.dialogs) =~= observed(
                        snapshots_of(old(self).dialogs),
                        entry@,
                    ));
                }
                Some(
                    PollStep::Emit(
                        ChannelTx {
                            bot_name: self.context.bot_name.clone(),
                            data: ChannelData::ReceiveMessage(
                                TelegramMessage {
                                    id: entry.id,
                                    ctx: entry.ctx,
                                    user: entry.user.clone(),
                                    text: String::new(),
                                },
                            ),
                        },
                    ),
                )
            },
            Some(id) => {
                if id != entry.id {
                    Some(PollStep::Fetch(entry.clone()))
                } else {
                    None
                }
            },
        }
    }

    /// Takes the content that was fetched for the changed conversation
    /// `entry`. A message without text, and one that the bot itself sent, is
    /// passed over: nothing is reported and the snapshot stays. Any other
    /// message is reported with its text and becomes the snapshot of its user.
    pub fn message_fetched(&mut self, entry: &TelegramMessage, fetched: &FetchedMessage) -> (command:
        Option<ChannelTx>)
        ensures
            final(self).bot_id == old(self).bot_id,
            final(self).context == old(self).context,
            final(self).handlers == old(self).handlers,
            snapshots_of(final(self).dialogs) == delivered(
                snapshots_of(old(self).dialogs),
                old(self).bot_id,
                entry@,
                fetched.text@,
                fetched.outgoing,
            ),
            (match command {
                Some(tx) => Some(tx@),
                None => None,
            }) == delivery(
                old(self).bot_id,
                old(self).context.bot_name@,
                entry@,
                fetched.text@,
                fetched.outgoing,
            ),
    {
        if fetched.text.as_str().unicode_len() == 0 || fetched.outgoing || entry.ctx.id
            == self.bot_id {
            return None;
        }
        let message = TelegramMessage {
            id: entry.id,
            ctx: entry.ctx,
            user: entry.user.clone(),
            text: fetched.text.clone(),
        };
        self.dialogs.insert(entry.user.clone(), message.clone());
        proof {
            assert(snapshots_of(self.dialogs) =~= delivered(
                snapshots_of(old(self).dialogs),
                self.bot_id,
                entry@,
                fetched.text@,
                fetched.outgoing,
            ));
        }
        Some(
            ChannelTx {
                bot_name: self.context.bot_name.clone(),
                data: ChannelData::ReceiveMessage(message),
            },
        )
    }

    /// One poll: observes the conversations `listing` in order and returns
    /// what they ask for, in that order.
    pub fn message_handler(&mut self, listing: &Vec<TelegramMessage>) -> (steps: Vec<PollStep>)
        ensures
            final(self).bot_id == old(self).bot_id,
            final(self).context == old(self).context,
            final(self).handlers == old(self).handlers,
            snapshots_of(final(self).dialogs) == polled(
                snapshots_of(old(self).dialogs),
                message_views(listing@),
            ),
            step_views(steps@) == poll_steps(
                snapshots_of(old(self).dialogs),
                old(self).context.bot_name@,
                message_views(listing@),
            ),
    {
        let mut steps: Vec<PollStep> = Vec::new();
        let ghost seen = snapshots_of(self.dialogs);
        let ghost entries = message_views(listing@);
        let mut i: usize = 0;
        while i < listing.len()
            invariant
                i <= listing@.len(),
                entries == message_views(listing@),
                self.bot_id == old(self).bot_id,
                self.context == old(self).context,
                self.handlers == old(self).handlers,
                snapshots_of(self.dialogs) == polled(seen, entries.take(i as int)),
                step_views(steps@) == poll_steps(
                    seen,
                    self.context.bot_name@,
                    entries.take(i as int),
                ),
            decreases listing.len() - i,
        {
            proof {
                assert(entries.take(i as int + 1).drop_last() =~= entries.take(i as int));
                assert(entries.take(i as int + 1).last() == listing@[i as int]@);
            }
            let ghost earlier = steps@;
            match self.observe(&listing[i]) {
                Some(step) => {
                    steps.push(step);
                    proof {
                        assert(step_views(steps@) =~= step_views(earlier).push(step@));
                    }
                },
                None => {},
            }
            i += 1;
        }
        proof {
            assert(entries.take(listing@.len() as int) =~= entries);
        }
        steps
    }
}

/// A conversation whose latest message is the one seen before asks for
/// nothing and changes no snapshot.
pub proof fn lemma_unchanged_dialog_is_silent(
    seen: Snapshots,
    bot_name: Seq<char>,
    entry: MessageView,
)
    requires
        seen.contains_key(entry.user),
        seen[entry.user].id == entry.id,
    ensures
        observation(seen, bot_name, entry) is None,
        observed(seen, entry) == seen,
{
}

/// A conversation whose latest message changed is reported exactly once: its
/// text is fetched, a fetched message that is one to report is reported with
/// that text and becomes the snapshot, and observing the conversation again
/// asks for nothing.
pub proof fn lemma_changed_dialog_is_reported_once(
    seen: Snapshots,
    bot_id: i64,
    bot_name: Seq<char>,
    entry: MessageView,
    text: Seq<char>,
    outgoing: bool,
)
    requires
        seen.contains_key(entry.user),
        seen[entry.user].id != entry.id,
        reportable(bot_id, entry, text, outgoing),
    ensures
        observation(seen, bot_name, entry) == Some(PollStepView::Fetch(entry)),
        observed(seen, entry) == seen,
        delivery(bot_id, bot_name, entry, text, outgoing) == Some(
            inbound(bot_name, with_text(entry, text)),
        ),
        delivered(seen, bot_id, entry, text, outgoing)[entry.user].id == entry.id,
        observation(delivered(seen, bot_id, entry, text, outgoing), bot_name, entry) is None,
{
}

/// A fetched message without text, and one that the bot itself sent, is never
/// reported and changes no snapshot.
pub proof fn lemma_own_or_empty_is_never_reported(
    seen: Snapshots,
    bot_id: i64,
    bot_name: Seq<char>,
    entry: MessageView,
    text: Seq<char>,
    outgoing: bool,
)
    requires
        text.len() == 0 || outgoing || entry.ctx.id == bot_id,
    ensures
        delivery(bot_id, bot_name, entry, text, outgoing) is None,
        delivered(seen, bot_id, entry, text, outgoing) == seen,
{
}

} // verus!
