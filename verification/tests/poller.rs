use doca_bot::bot::telegram::{
    DialogEntry, FetchedMessage, IncomingMessage, PollStep, Telegram, DIALOG_LIMIT,
    POLL_INTERVAL_MILLIS,
};
use doca_bot::structs::api::{BotContext, ConversationHandle, ConversationKind, TelegramMessage};
use doca_bot::structs::wrapper::{ChannelData, ChannelTx};

fn chat(id: i64) -> ConversationHandle {
    ConversationHandle { kind: ConversationKind::User, id, access_hash: Some(id * 10) }
}

fn bot() -> Telegram {
    Telegram::new(1000, BotContext { bot_name: "b".to_string(), api_url: "http://b".to_string() })
}

fn snapshot(user: i64, last_message_id: i32) -> TelegramMessage {
    TelegramMessage {
        id: last_message_id,
        ctx: chat(user),
        user: user.to_string(),
        text: String::new(),
    }
}

fn fetched(text: &str, outgoing: bool) -> FetchedMessage {
    FetchedMessage { text: text.to_string(), outgoing }
}

fn received(command: &ChannelTx) -> &TelegramMessage {
    match &command.data {
        ChannelData::ReceiveMessage(message) => message,
        other => panic!("unexpected command {:?}", other),
    }
}

#[test]
fn poll_looks_at_the_five_most_recent_dialogs() {
    assert_eq!(DIALOG_LIMIT, 5);
    assert_eq!(POLL_INTERVAL_MILLIS, 500);
    let listing: Vec<DialogEntry> =
        (1..=8).map(|i| DialogEntry { chat: chat(i), top_message: 100 + i as i32 }).collect();
    let dialogs = bot().get_dialogs(&listing);
    assert_eq!(dialogs.len(), 5);
    for (i, dialog) in dialogs.iter().enumerate() {
        let id = i as i64 + 1;
        assert_eq!(*dialog, snapshot(id, 100 + id as i32));
    }
    assert_eq!(bot().get_dialogs(&listing[..2].to_vec()).len(), 2);
    assert!(bot().get_dialogs(&Vec::new()).is_empty());
}

#[test]
fn dialog_of_a_negative_id_is_keyed_by_its_decimal_text() {
    let listing = vec![DialogEntry { chat: chat(-42), top_message: 3 }];
    assert_eq!(bot().get_dialogs(&listing)[0].user, "-42");
}

#[test]
fn unchanged_snapshot_emits_nothing() {
    let mut telegram = bot();
    telegram.remember(&snapshot(7, 10));
    assert!(telegram.observe(&snapshot(7, 10)).is_none());
    assert_eq!(telegram.dialogs.get(&"7".to_string()).unwrap().id, 10);
    assert!(telegram.message_handler(&vec![snapshot(7, 10)]).is_empty());
}

#[test]
fn changed_snapshot_emits_one_message_with_the_fetched_text() {
    let mut telegram = bot();
    telegram.remember(&snapshot(7, 10));
    let step = telegram.observe(&snapshot(7, 11));
    let entry = match step {
        Some(PollStep::Fetch(entry)) => entry,
        other => panic!("unexpected step {:?}", other),
    };
    assert_eq!(entry, snapshot(7, 11));
    assert_eq!(telegram.dialogs.get(&"7".to_string()).unwrap().id, 10);
    let command = telegram.message_fetched(&entry, &fetched("hi there", false)).unwrap();
    assert_eq!(command.bot_name, "b");
    let message = received(&command);
    assert_eq!(message.id, 11);
    assert_eq!(message.user, "7");
    assert_eq!(message.text, "hi there");
    assert_eq!(message.ctx, chat(7));
    assert_eq!(telegram.dialogs.get(&"7".to_string()).unwrap().id, 11);
    assert!(telegram.observe(&snapshot(7, 11)).is_none());
}

#[test]
fn own_and_empty_messages_are_never_emitted() {
    let mut telegram = bot();
    telegram.remember(&snapshot(7, 10));
    assert!(telegram.message_fetched(&snapshot(7, 11), &fetched("", false)).is_none());
    assert!(telegram.message_fetched(&snapshot(7, 11), &fetched("mine", true)).is_none());
    assert!(telegram.message_fetched(&snapshot(7, 11), &fetched("", true)).is_none());
    assert_eq!(telegram.dialogs.get(&"7".to_string()).unwrap().id, 10);
    telegram.remember(&snapshot(1000, 1));
    assert!(telegram.message_fetched(&snapshot(1000, 2), &fetched("note to self", false)).is_none());
    assert_eq!(telegram.dialogs.get(&"1000".to_string()).unwrap().id, 1);
    assert!(matches!(telegram.observe(&snapshot(7, 11)), Some(PollStep::Fetch(_))));
}

#[test]
fn first_sight_records_the_snapshot_and_emits_an_empty_message() {
    let mut telegram = bot();
    let step = telegram.observe(&snapshot(9, 4));
    match step {
        Some(PollStep::Emit(command)) => {
            assert_eq!(command.bot_name, "b");
            let message = received(&command);
            assert_eq!(message.user, "9");
            assert_eq!(message.text, "");
            assert_eq!(message.id, 4);
        }
        other => panic!("unexpected step {:?}", other),
    }
    assert_eq!(telegram.dialogs.get(&"9".to_string()).unwrap().id, 4);
    assert!(telegram.observe(&snapshot(9, 4)).is_none());
}

#[test]
fn one_poll_walks_the_listing_in_order() {
    let mut telegram = bot();
    telegram.remember(&snapshot(1, 10));
    telegram.remember(&snapshot(2, 20));
    let steps = telegram.message_handler(&vec![snapshot(1, 10), snapshot(2, 21), snapshot(3, 30)]);
    assert_eq!(steps.len(), 2);
    assert!(matches!(&steps[0], PollStep::Fetch(entry) if entry.user == "2" && entry.id == 21));
    assert!(matches!(&steps[1], PollStep::Emit(command) if received(command).user == "3"));
    assert_eq!(telegram.dialogs.len(), 3);
    assert_eq!(telegram.dialogs.get(&"2".to_string()).unwrap().id, 20);
}

#[test]
fn pushed_message_is_accepted_from_other_users_only() {
    let telegram = bot();
    let message = |chat: ConversationHandle, outgoing: bool| IncomingMessage {
        id: 5,
        chat,
        text: "ping".to_string(),
        outgoing,
    };
    let command = telegram.message_received(&message(chat(7), false)).unwrap();
    assert_eq!(command.bot_name, "b");
    let seen = received(&command);
    assert_eq!(seen.user, "7");
    assert_eq!(seen.text, "ping");
    assert_eq!(seen.id, 5);
    assert_eq!(seen.ctx, chat(7));
    assert!(telegram.message_received(&message(chat(7), true)).is_none());
    assert!(telegram.message_received(&message(chat(1000), false)).is_none());
    let group = ConversationHandle { kind: ConversationKind::Chat, id: 7, access_hash: None };
    assert!(telegram.message_received(&message(group, false)).is_none());
    let other_bot = ConversationHandle { kind: ConversationKind::Bot, id: 7, access_hash: None };
    assert!(telegram.message_received(&message(other_bot, false)).is_none());
}
