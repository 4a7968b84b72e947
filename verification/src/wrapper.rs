//! The registry of bots and the dispatcher of commands.
//!
//! The dispatcher takes one command at a time. It decides which bots the
//! command is for, brings the reply handlers of those bots up to date, and
//! says which connector calls and webhook calls are to be made. The calls
//! themselves are made by its caller.

use vstd::prelude::*;
use crate::handlers::{
    consume, consumed, handle_inbound, inbound_call_views, matched, register, registered,
    table_of, UserTable,
};
use crate::json::json_string;
use crate::str_map::{lemma_index_of, StrMap};
use crate::structs::api::{
    call_views, clone_handler, AddContactRequest, ApiRequest, ApiRequestView, BotContext, BotHandler,
    SendMessageRequest, SendMessageView, UserHandlers,
};
use crate::structs::wrapper::{ChannelData, ChannelDataView, ChannelTx};

verus! {

/// A bot of the registry: its context and the connector that talks for it.
#[derive(Debug)]
pub struct Registered<C> {
    pub context: BotContext,
    pub connector: C,
}

/// The registry: bots by name, in the order in which they were registered.
pub type BotStorage<C> = StrMap<Registered<C>>;

/// The target that stands for every registered bot.
pub open spec fn wildcard() -> Seq<char> {
    seq!['*']
}

/// The indices of the bots that a command for `target` goes to: all of them
/// for the wildcard, in registry order; else the bot of that name, if any.
pub open spec fn resolved(names: Seq<Seq<char>>, target: Seq<char>) -> Seq<usize> {
    if target == wildcard() {
        Seq::new(names.len(), |i: int| i as usize)
    } else if names.contains(target) {
        seq![names.index_of(target) as usize]
    } else {
        Seq::empty()
    }
}

/// Whether `target` is the wildcard.
pub fn is_wildcard(target: &String) -> (r: bool)
    ensures
        r == (target@ == wildcard()),
{
    let s = target.as_str();
    let r = s.unicode_len() == 1 && s.get_char(0) == '*';
    proof {
        if r {
            assert(target@ =~= wildcard());
        }
    }
    r
}

/// The connector of the bot `bot_name`, if it is registered.
pub fn lookup<'a, C>(messengers: &'a BotStorage<C>, bot_name: &String) -> (r: Option<&'a C>)
    ensures
        match r {
            Some(c) => messengers@.contains_key(bot_name@) && *c == messengers@[bot_name@].connector,
            None => !messengers@.contains_key(bot_name@),
        },
{
    match messengers.get(bot_name) {
        Some(bot) => Some(&bot.connector),
        None => None,
    }
}

/// The indices of the bots that a command for `target` goes to.
pub fn resolve_targets<C>(messengers: &BotStorage<C>, target: &String) -> (targets: Vec<usize>)
    ensures
        targets@ == resolved(messengers.keys(), target@),
        forall|k: int| 0 <= k < targets@.len() ==> targets@[k] < messengers.keys().len(),
        forall|a: int, b: int| 0 <= a < b < targets@.len() ==> targets@[a] != targets@[b],
{
    proof {
        use_type_invariant(messengers);
        messengers.lemma_shape();
    }
    let mut targets: Vec<usize> = Vec::new();
    if is_wildcard(target) {
        let n = messengers.len();
        let mut i: usize = 0;
        while i < n
            invariant
                i <= n,
                n == messengers.keys().len(),
                targets@ == Seq::new(i as nat, |j: int| j as usize),
            decreases n - i,
        {
            targets.push(i);
            assert(targets@ =~= Seq::new((i + 1) as nat, |j: int| j as usize));
            i += 1;
        }
    } else {
        match messengers.position(target) {
            Some(i) => {
                proof {
                    lemma_index_of(messengers.keys(), i as int);
                }
                targets.push(i);
                assert(targets@ =~= seq![i]);
            },
            None => {},
        }
    }
    targets
}

/// A call that the dispatcher asks its caller to make.
#[derive(Debug)]
pub enum BotAction {
    /// Send `request` through the connector at index `target` of the registry.
    SendMessage { target: usize, bot_name: String, request: SendMessageRequest },
    /// Add `contact` through the connector at index `target` of the registry.
    AddContact { target: usize, bot_name: String, contact: AddContactRequest },
    /// Post `call` to its `api_url`.
    Webhook { call: ApiRequest },
}

pub enum BotActionView {
    SendMessage { target: usize, bot_name: Seq<char>, request: SendMessageView },
    AddContact { target: usize, bot_name: Seq<char>, contact: AddContactRequest },
    Webhook { call: ApiRequestView },
}

impl View for BotAction {
    type V = BotActionView;

    open spec fn view(&self) -> BotActionView {
        match *self {
            BotAction::SendMessage { target, bot_name, request } => BotActionView::SendMessage {
                target,
                bot_name: bot_name@,
                request: request@,
            },
            BotAction::AddContact { target, bot_name, contact } => BotActionView::AddContact {
                target,
                bot_name: bot_name@,
                contact,
            },
            BotAction::Webhook { call } => BotActionView::Webhook { call: call@ },
        }
    }
}

/// The views of `actions`, in order.
pub open spec fn action_views(actions: Seq<BotAction>) -> Seq<BotActionView> {
    Seq::new(actions.len(), |i: int| actions[i]@)
}

/// `calls` as webhook actions, in order.
pub open spec fn webhooks(calls: Seq<ApiRequestView>) -> Seq<BotActionView> {
    Seq::new(calls.len(), |i: int| BotActionView::Webhook { call: calls[i] })
}

/// The reply handlers of one target bot after the command `data`.
pub open spec fn table_after(table: UserTable, data: ChannelDataView) -> UserTable {
    match data {
        ChannelDataView::SendMessage(request) => match (request.handlers, request.user.messenger_id) {
            (Some(handler), Some(user)) => registered(table, user@, handler),
            _ => table,
        },
        ChannelDataView::Handler(registration) => match registration.user.messenger_id {
            Some(user) => registered(table, user@, registration.handler),
            None => table,
        },
        ChannelDataView::ReceiveMessage(message) => consumed(table, message.user, message.text),
        ChannelDataView::AddContact(_) => table,
    }
}

/// The calls to make for the command `data` at one target bot: the bot at
/// index `target`, named `bot_name`, with the callback address `api_url` and
/// the reply handlers `table`.
pub open spec fn actions_at(
    table: UserTable,
    target: usize,
    bot_name: Seq<char>,
    api_url: Seq<char>,
    data: ChannelDataView,
) -> Seq<BotActionView> {
    match data {
        ChannelDataView::SendMessage(request) => seq![
            BotActionView::SendMessage { target, bot_name, request },
        ],
        ChannelDataView::AddContact(contact) => seq![
            BotActionView::AddContact { target, bot_name, contact },
        ],
        ChannelDataView::Handler(_) => Seq::empty(),
        ChannelDataView::ReceiveMessage(message) => webhooks(
            inbound_call_views(
                matched(table, message.user, message.text),
                api_url,
                message.text,
                json_string(message.user),
            ),
        ),
    }
}

/// The calls to make for the command `data` at the bots `targets`, target by
/// target.
pub open spec fn actions_for(
    tables: Seq<UserTable>,
    names: Seq<Seq<char>>,
    api_urls: Seq<Seq<char>>,
    targets: Seq<usize>,
    data: ChannelDataView,
) -> Seq<BotActionView>
    decreases targets.len(),
{
    if targets.len() == 0 {
        Seq::empty()
    } else {
        let last = targets.last();
        actions_for(tables, names, api_urls, targets.drop_last(), data) + actions_at(
            tables[last as int],
            last,
            names[last as int],
            api_urls[last as int],
            data,
        )
    }
}

/// The reply handlers of all bots after the command `data` went to `targets`.
pub open spec fn tables_after(
    tables: Seq<UserTable>,
    targets: Seq<usize>,
    data: ChannelDataView,
) -> Seq<UserTable> {
    Seq::new(
        tables.len(),
        |i: int|
            if targets.contains(i as usize) {
                table_after(tables[i], data)
            } else {
                tables[i]
            },
    )
}

/// The tables behind the handlers of all bots, in registry order.
pub open spec fn tables_of(handlers: Seq<UserHandlers>) -> Seq<UserTable> {
    Seq::new(handlers.len(), |i: int| table_of(handlers[i]))
}

/// The callback addresses of the bots of a registry, in registry order.
pub open spec fn api_urls_of<C>(bots: Seq<Registered<C>>) -> Seq<Seq<char>> {
    Seq::new(bots.len(), |i: int| bots[i].context.api_url@)
}

/// Carries out the command `data` at one target bot: brings its reply
/// handlers up to date and says which calls are to be made for it.
pub fn dispatch_at(
    table: &mut UserHandlers,
    target: usize,
    bot_name: &String,
    context: &BotContext,
    data: &ChannelData,
) -> (actions: Vec<BotAction>)
    ensures
        table_of(*final(table)) == table_after(table_of(*old(table)), data@),
        action_views(actions@) == actions_at(
            table_of(*old(table)),
            target,
            bot_name@,
            context.api_url@,
            data@,
        ),
{
    let mut actions: Vec<BotAction> = Vec::new();
    match data {
        ChannelData::SendMessage(request) => {
            match (&request.handlers, &request.user.messenger_id) {
                (Some(handler), Some(user)) => {
                    register(table, user, clone_handler(handler));
                },
                _ => {},
            }
            actions.push(
                BotAction::SendMessage {
                    target,
                    bot_name: bot_name.clone(),
                    request: request.clone(),
                },
            );
        },
        ChannelData::AddContact(contact) => {
            actions.push(
                BotAction::AddContact {
                    target,
                    bot_name: bot_name.clone(),
                    contact: contact.clone(),
                },
            );
        },
        ChannelData::Handler(registration) => {
            match &registration.user.messenger_id {
                Some(user) => {
                    register(table, user, clone_handler(&registration.handler));
                },
                None => {},
            }
        },
        ChannelData::ReceiveMessage(message) => {
            let calls = handle_inbound(table, context, &message.user, &message.text);
            actions = into_webhooks(calls);
        },
    }
    proof {
        assert(action_views(actions@) =~= actions_at(
            table_of(*old(table)),
            target,
            bot_name@,
            context.api_url@,
            data@,
        ));
    }
    actions
}

/// `calls` as webhook actions, in order.
pub fn into_webhooks(calls: Vec<ApiRequest>) -> (actions: Vec<BotAction>)
    ensures
        action_views(actions@) == webhooks(call_views(calls@)),
{
    let ghost views = call_views(calls@);
    let mut calls = calls;
    let mut actions: Vec<BotAction> = Vec::new();
    while calls.len() > 0
        invariant
            actions@.len() + calls@.len() == views.len(),
            call_views(calls@) == views.skip(actions@.len() as int),
            action_views(actions@) == webhooks(views.take(actions@.len() as int)),
        decreases calls.len(),
    {
        let ghost before = calls@;
        let ghost done = actions@.len() as int;
        let call = calls.remove(0);
        proof {
            let rest = call_views(before);
            assert(rest == views.skip(done));
            assert(call@ == rest[0]);
            assert(call@ == views[done]);
            assert forall|i: int| 0 <= i < calls@.len() implies call_views(
                calls@,
            )[i] == views.skip(done + 1)[i] by {
                assert(calls@[i] == before[i + 1]);
                assert(rest[i + 1] == before[i + 1]@);
                assert(rest[i + 1] == views[done + i + 1]);
            }
            assert(call_views(calls@) =~= views.skip(done + 1));
        }
        let ghost earlier = actions@;
        actions.push(BotAction::Webhook { call });
        proof {
            let target = webhooks(views.take(done + 1));
            assert forall|i: int| 0 <= i < actions@.len() implies action_views(actions@)[i]
                == target[i] by {
                if i < done {
                    assert(actions@[i] == earlier[i]);
                    assert(action_views(earlier)[i] == webhooks(views.take(done))[i]);
                    assert(views.take(done)[i] == views.take(done + 1)[i]);
                }
            }
            assert(action_views(actions@) =~= target);
        }
    }
    proof {
        assert(views.take(views.len() as int) =~= views);
    }
    actions
}

/// The dispatcher: the registry, which it never changes, and the reply
/// handlers of each registered bot.
pub struct Wrapper<C> {
    messengers: BotStorage<C>,
    handlers: Vec<UserHandlers>,
}

impl<C> Wrapper<C> {
    #[verifier::type_invariant]
    pub closed spec fn inv(&self) -> bool {
        self.handlers@.len() == self.messengers.keys().len()
    }

    /// The registry.
    pub closed spec fn storage(&self) -> BotStorage<C> {
        self.messengers
    }

    /// The names of the registered bots, in registry order.
    pub open spec fn names(&self) -> Seq<Seq<char>> {
        self.storage().keys()
    }

    /// The callback addresses of the registered bots, in registry order.
    pub open spec fn api_urls(&self) -> Seq<Seq<char>> {
        api_urls_of(self.storage().values())
    }

    /// The reply handlers of the registered bots, in registry order.
    pub closed spec fn tables(&self) -> Seq<UserTable> {
        tables_of(self.handlers@)
    }

    /// Every registered bot has its table of reply handlers.
    pub proof fn lemma_one_table_per_bot(&self)
        requires
            self.inv(),
        ensures
            self.tables().len() == self.names().len(),
    {
    }

    /// A dispatcher for the bots of `messengers`, with no reply handler yet.
    pub fn new(messengers: BotStorage<C>) -> (wrapper: Self)
        ensures
            wrapper.storage() == messengers,
            wrapper.tables() == Seq::new(messengers.keys().len(), |i: int| UserTable::empty()),
    {
        let n = messengers.len();
        let mut handlers: Vec<UserHandlers> = Vec::new();
        let mut i: usize = 0;
        while i < n
            invariant
                i <= n,
                handlers@.len() == i,
                forall|j: int| 0 <= j < i ==> table_of(#[trigger] handlers@[j]) == UserTable::empty(),
            decreases n - i,
        {
            let table: UserHandlers = StrMap::new();
            assert(table_of(table) =~= UserTable::empty());
            handlers.push(table);
            i += 1;
        }
        let wrapper = Wrapper { messengers, handlers };
        assert(wrapper.tables() =~= Seq::new(
            messengers.keys().len(),
            |i: int| UserTable::empty(),
        ));
        wrapper
    }

    /// The registry.
    pub fn messengers(&self) -> (r: &BotStorage<C>)
        ensures
            *r == self.storage(),
    {
        &self.messengers
    }

    /// Takes the reply handlers of the bot at index `i` out, lets `table` be
    /// the handlers of that bot from now on, and returns the old ones.
    fn swap_table(&mut self, i: usize, table: UserHandlers) -> (previous: UserHandlers)
        requires
            i < old(self).tables().len(),
        ensures
            final(self).storage() == old(self).storage(),
            final(self).tables() == old(self).tables().update(i as int, table_of(table)),
            table_of(previous) == old(self).tables()[i as int],
    {
        proof {
            use_type_invariant(&*self);
        }
        let mut taken = Wrapper { messengers: StrMap::new(), handlers: Vec::new() };
        std::mem::swap(&mut taken, self);
        let Wrapper { messengers, mut handlers } = taken;
        let ghost before = handlers@;
        let previous = handlers.remove(i);
        handlers.insert(i, table);
        proof {
            assert(handlers@ =~= before.update(i as int, table));
            assert(tables_of(handlers@) =~= tables_of(before).update(i as int, table_of(table)));
        }
        *self = Wrapper { messengers, handlers };
        previous
    }

    /// Merges `handler` into the reply handlers that the bot `bot` holds for
    /// `user`, replacing the call of a reply text that is registered already.
    /// For a bot that is not registered nothing is kept.
    pub fn register(&mut self, bot: &String, user: &String, handler: BotHandler)
        ensures
            final(self).storage() == old(self).storage(),
            final(self).tables() == (if old(self).names().contains(bot@) {
                let i = old(self).names().index_of(bot@);
                old(self).tables().update(i, registered(old(self).tables()[i], user@, handler@))
            } else {
                old(self).tables()
            }),
    {
        proof {
            use_type_invariant(&*self);
            use_type_invariant(&self.messengers);
            self.messengers.lemma_shape();
        }
        match self.messengers.position(bot) {
            Some(i) => {
                proof {
                    lemma_index_of(self.messengers.keys(), i as int);
                }
                let mut table = self.swap_table(i, StrMap::new());
                register(&mut table, user, handler);
                self.swap_table(i, table);
                proof {
                    assert(self.tables() =~= old(self).tables().update(
                        i as int,
                        registered(old(self).tables()[i as int], user@, handler@),
                    ));
                }
            },
            None => {},
        }
    }

    /// Handles a reply `text` that `user` sent to the bot `bot`: on an exact
    /// match the handler's call is returned and the handler removed;
    /// otherwise, and for a bot that is not registered, nothing changes.
    pub fn consume(&mut self, bot: &String, user: &String, text: &String) -> (fired: Option<
        ApiRequest,
    >)
        ensures
            final(self).storage() == old(self).storage(),
            fired == (if old(self).names().contains(bot@) {
                matched(old(self).tables()[old(self).names().index_of(bot@)], user@, text@)
            } else {
                None
            }),
            final(self).tables() == (if old(self).names().contains(bot@) {
                let i = old(self).names().index_of(bot@);
                old(self).tables().update(i, consumed(old(self).tables()[i], user@, text@))
            } else {
                old(self).tables()
            }),
    {
        proof {
            use_type_invariant(&*self);
            use_type_invariant(&self.messengers);
            self.messengers.lemma_shape();
        }
        match self.messengers.position(bot) {
            Some(i) => {
                proof {
                    lemma_index_of(self.messengers.keys(), i as int);
                }
                let mut table = self.swap_table(i, StrMap::new());
                let fired = consume(&mut table, user, text);
                self.swap_table(i, table);
                proof {
                    assert(self.tables() =~= old(self).tables().update(
                        i as int,
                        consumed(old(self).tables()[i as int], user@, text@),
                    ));
                }
                fired
            },
            None => None,
        }
    }

    /// Carries out one command: resolves the bots it is for, brings their
    /// reply handlers up to date and returns the calls to make, target by
    /// target in registry order. A command for an unknown bot does nothing.
    pub fn internal(&mut self, command: &ChannelTx) -> (actions: Vec<BotAction>)
        ensures
            final(self).storage() == old(self).storage(),
            final(self).tables() == tables_after(
                old(self).tables(),
                resolved(old(self).names(), command.bot_name@),
                command.data@,
            ),
            action_views(actions@) == actions_for(
                old(self).tables(),
                old(self).names(),
                old(self).api_urls(),
                resolved(old(self).names(), command.bot_name@),
                command.data@,
            ),
    {
        proof {
            use_type_invariant(&*self);
        }
        let targets = resolve_targets(&self.messengers, &command.bot_name);
        let mut taken = Wrapper { messengers: StrMap::new(), handlers: Vec::new() };
        std::mem::swap(&mut taken, self);
        let Wrapper { messengers, mut handlers } = taken;
        let ghost tables = tables_of(handlers@);
        let ghost names = messengers.keys();
        let ghost urls = api_urls_of(messengers.values());
        let n = messengers.len();
        proof {
            use_type_invariant(&messengers);
            messengers.lemma_shape();
        }
        let mut actions: Vec<BotAction> = Vec::new();
        let mut k: usize = 0;
        while k < targets.len()
            invariant
                k <= targets@.len(),
                n == names.len(),
                names == messengers.keys(),
                urls == api_urls_of(messengers.values()),
                handlers@.len() == n,
                tables.len() == n,
                messengers.values().len() == n,
                forall|a: int| 0 <= a < targets@.len() ==> targets@[a] < n,
                forall|a: int, b: int| 0 <= a < b < targets@.len() ==> targets@[a] != targets@[b],
                tables_of(handlers@) == tables_after(tables, targets@.take(k as int), command.data@),
                action_views(actions@) == actions_for(
                    tables,
                    names,
                    urls,
                    targets@.take(k as int),
                    command.data@,
                ),
            decreases targets.len() - k,
        {
            let i = targets[k];
            let ghost done = targets@.take(k as int);
            let ghost next = targets@.take(k as int + 1);
            let ghost earlier = handlers@;
            proof {
                assert(next.drop_last() =~= done);
                assert(next.last() == i);
                assert(!done.contains(i)) by {
                    if done.contains(i) {
                        let a = choose|a: int| 0 <= a < done.len() && done[a] == i;
                        assert(targets@[a] == targets@[k as int]);
                    }
                }
                assert(tables_of(earlier)[i as int] == tables[i as int]);
            }
            let mut table = handlers.remove(i);
            assert(table_of(table) == tables[i as int]);
            let mut step = dispatch_at(
                &mut table,
                i,
                messengers.key_at(i),
                &messengers.value_at(i).context,
                &command.data,
            );
            handlers.insert(i, table);
            proof {
                assert(handlers@ =~= earlier.update(i as int, table));
                assert forall|j: int| 0 <= j < n implies tables_of(handlers@)[j] == tables_after(
                    tables,
                    next,
                    command.data@,
                )[j] by {
                    if j == i {
                        assert(next.contains(i));
                    } else {
                        assert(tables_of(earlier)[j] == tables_after(tables, done, command.data@)[j]);
                        if done.contains(j as usize) {
                            let a = choose|a: int| 0 <= a < done.len() && done[a] == j as usize;
                            assert(next[a] == j as usize);
                        }
                        if next.contains(j as usize) {
                            let a = choose|a: int| 0 <= a < next.len() && next[a] == j as usize;
                            assert(done[a] == j as usize);
                        }
                    }
                }
                assert(tables_of(handlers@) =~= tables_after(tables, next, command.data@));
            }
            let ghost before = actions@;
            let ghost added = step@;
            actions.append(&mut step);
            proof {
                assert(actions@ == before + added);
                assert(action_views(actions@) =~= action_views(before) + action_views(added));
                assert(action_views(added) == actions_at(
                    tables[i as int],
                    i,
                    names[i as int],
                    urls[i as int],
                    command.data@,
                ));
                assert(actions_for(tables, names, urls, next, command.data@) == actions_for(
                    tables,
                    names,
                    urls,
                    next.drop_last(),
                    command.data@,
                ) + actions_at(
                    tables[i as int],
                    i,
                    names[i as int],
                    urls[i as int],
                    command.data@,
                ));
            }
            k += 1;
        }
        proof {
            assert(targets@.take(targets@.len() as int) =~= targets@);
        }
        *self = Wrapper { messengers, handlers };
        actions
    }
}

/// The connector call that the command `data` asks of the bot at index
/// `target`, for a command that asks for one.
pub open spec fn invocation(
    target: usize,
    bot_name: Seq<char>,
    data: ChannelDataView,
) -> BotActionView {
    match data {
        ChannelDataView::AddContact(contact) => BotActionView::AddContact {
            target,
            bot_name,
            contact,
        },
        ChannelDataView::SendMessage(request) => BotActionView::SendMessage {
            target,
            bot_name,
            request,
        },
        _ => arbitrary(),
    }
}

/// A command to send a message or to add a contact leads to one connector
/// call for each target, in the order of the targets, each with the request
/// of the command.
pub proof fn lemma_one_invocation_per_target(
    tables: Seq<UserTable>,
    names: Seq<Seq<char>>,
    api_urls: Seq<Seq<char>>,
    targets: Seq<usize>,
    data: ChannelDataView,
)
    requires
        data is SendMessage || data is AddContact,
    ensures
        actions_for(tables, names, api_urls, targets, data).len() == targets.len(),
        forall|k: int|
            0 <= k < targets.len() ==> #[trigger] actions_for(
                tables,
                names,
                api_urls,
                targets,
                data,
            )[k] == invocation(targets[k], names[targets[k] as int], data),
    decreases targets.len(),
{
    if targets.len() > 0 {
        lemma_one_invocation_per_target(tables, names, api_urls, targets.drop_last(), data);
        let front = actions_for(tables, names, api_urls, targets.drop_last(), data);
        let all = actions_for(tables, names, api_urls, targets, data);
        assert forall|k: int| 0 <= k < targets.len() implies #[trigger] all[k] == invocation(
            targets[k],
            names[targets[k] as int],
            data,
        ) by {
            if k < targets.len() - 1 {
                assert(all[k] == front[k]);
                assert(targets.drop_last()[k] == targets[k]);
            }
        }
    }
}

/// A command for a registered bot, named by its own name, leads to exactly
/// one call of that bot's connector, with the request of the command.
pub proof fn lemma_named_bot_invoked_once(
    tables: Seq<UserTable>,
    names: Seq<Seq<char>>,
    api_urls: Seq<Seq<char>>,
    bot_name: Seq<char>,
    data: ChannelDataView,
)
    requires
        data is SendMessage || data is AddContact,
        names.contains(bot_name),
        names.len() <= usize::MAX,
        bot_name != wildcard(),
    ensures
        actions_for(tables, names, api_urls, resolved(names, bot_name), data) == seq![
            invocation(names.index_of(bot_name) as usize, bot_name, data),
        ],
{
    let targets = resolved(names, bot_name);
    let i = names.index_of(bot_name);
    assert(0 <= i < names.len() && names[i] == bot_name);
    lemma_one_invocation_per_target(tables, names, api_urls, targets, data);
    let all = actions_for(tables, names, api_urls, targets, data);
    assert(all[0] == invocation(targets[0], names[targets[0] as int], data));
    assert(targets[0] as int == i);
    assert(all =~= seq![invocation(i as usize, bot_name, data)]);
}

/// A command for the wildcard leads to one connector call for each registered
/// bot: as many calls as there are bots, the call at place `i` being for the
/// bot at index `i`, with the request of the command.
pub proof fn lemma_wildcard_invokes_every_bot(
    tables: Seq<UserTable>,
    names: Seq<Seq<char>>,
    api_urls: Seq<Seq<char>>,
    data: ChannelDataView,
)
    requires
        data is SendMessage || data is AddContact,
        names.len() <= usize::MAX,
    ensures
        actions_for(tables, names, api_urls, resolved(names, wildcard()), data).len()
            == names.len(),
        forall|i: int|
            0 <= i < names.len() ==> #[trigger] actions_for(
                tables,
                names,
                api_urls,
                resolved(names, wildcard()),
                data,
            )[i] == invocation(i as usize, names[i], data),
{
    let targets = resolved(names, wildcard());
    lemma_one_invocation_per_target(tables, names, api_urls, targets, data);
    let all = actions_for(tables, names, api_urls, targets, data);
    assert forall|i: int| 0 <= i < names.len() implies #[trigger] all[i] == invocation(
        i as usize,
        names[i],
        data,
    ) by {
        assert(targets[i] == i as usize);
    }
}

/// A command for a name that is neither registered nor the wildcard does
/// nothing: no call is made and no reply handler changes.
pub proof fn lemma_unknown_bot_is_ignored(
    tables: Seq<UserTable>,
    names: Seq<Seq<char>>,
    api_urls: Seq<Seq<char>>,
    bot_name: Seq<char>,
    data: ChannelDataView,
)
    requires
        !names.contains(bot_name),
        bot_name != wildcard(),
    ensures
        actions_for(tables, names, api_urls, resolved(names, bot_name), data).len() == 0,
        tables_after(tables, resolved(names, bot_name), data) == tables,
{
    assert(tables_after(tables, resolved(names, bot_name), data) =~= tables);
}

} // verus!
