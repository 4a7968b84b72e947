use doca_bot::bot::sign_in::{
    sign_in_outcome, sign_in_over, sign_in_step, SignInAction, SignInEvent, SignInState,
};
use doca_bot::bot::telegram::{
    retry_delay_millis, session_file, ContactUser, InputUser, Telegram, TelegramAuth,
};
use doca_bot::bot::telegram_bot::{TelegramBot, TelegramBotAuth};
use doca_bot::bot::telegram_user::{ListedChat, TelegramUser, TelegramUserAuth};
use doca_bot::bot::whatsapp::{WhatsApp, WhatsappAuth};
use doca_bot::bot::{BotAuth, BotChat};
use doca_bot::str_map::StrMap;
use doca_bot::structs::api::{
    AddContactRequest, ApiRequest, BotContext, BotHandler, ConversationHandle, ConversationKind,
    SendMessageRequest, UserData,
};
use doca_bot::structs::auth::{bot_contexts, AuthData, AuthList, TelegramAuth as Account, WhatsAppAuth};
use doca_bot::utils::BotError;

fn s(text: &str) -> String {
    text.to_string()
}

fn bot() -> Telegram {
    Telegram::new(1000, BotContext { bot_name: s("b"), api_url: s("http://b") })
}

fn account() -> AuthData {
    AuthData::Telegram(Account {
        username: s("+123"),
        password: s("  hunter2 \n"),
        verify_code: s("54321"),
        api_url: s("http://b"),
    })
}

fn request(user: Option<&str>) -> SendMessageRequest {
    SendMessageRequest {
        messenger: s("b"),
        user: UserData { phone: s("+1"), messenger_id: user.map(s) },
        message: s("hello"),
        access_hash: Some(77),
        buttons: None,
        handlers: None,
    }
}

fn webhook(url: &str) -> ApiRequest {
    ApiRequest { api_url: s(url), object: s("o"), command: s("c"), data: s("null") }
}

#[test]
fn platform_names() {
    assert_eq!(bot().get_bot_name(), "telegram");
    assert_eq!(WhatsApp { token: s("t") }.get_bot_name(), "whatsapp");
}

#[test]
fn new_bot_knows_nothing_yet() {
    let telegram = bot();
    assert_eq!(telegram.bot_id, 1000);
    assert_eq!(telegram.context, BotContext { bot_name: s("b"), api_url: s("http://b") });
    assert!(telegram.handlers.is_empty());
    assert!(telegram.dialogs.is_empty());
}

#[test]
fn credentials_come_from_the_matching_platform() {
    let auth = TelegramAuth { app_id: 5, app_hash: s("h") };
    assert_eq!(TelegramAuth::from_bot_auth(BotAuth::TelegramAuth(auth.clone())), auth);
    let other = BotAuth::WhatsappAuth(WhatsappAuth { phone_id: s("p"), account_id: s("a") });
    assert_eq!(TelegramAuth::from_bot_auth(other), TelegramAuth { app_id: 0, app_hash: s("") });
    assert_eq!(TelegramAuth::default(), TelegramAuth { app_id: 0, app_hash: s("") });
    assert_eq!(TelegramUserAuth::default(), TelegramUserAuth { app_id: 0, app_hash: s("") });
    assert_eq!(TelegramBotAuth::default(), TelegramBotAuth { token: s("") });
    assert_eq!(WhatsAppAuth::default(), WhatsAppAuth { phone_id: s("") });
    let api = TelegramBot::new(s("http://t"), TelegramBotAuth { token: s("tok") });
    assert_eq!(api, TelegramBot { api_url: s("http://t"), token: s("tok") });
}

#[test]
fn session_file_is_under_the_sessions_folder() {
    assert_eq!(session_file(&s("alpha")), "configs/sessions/alpha.session");
    assert_eq!(session_file(&s("")), "configs/sessions/.session");
}

#[test]
fn retry_delay_doubles_with_each_attempt() {
    assert_eq!(retry_delay_millis(0), 1);
    assert_eq!(retry_delay_millis(1), 2);
    assert_eq!(retry_delay_millis(10), 1024);
    assert_eq!(retry_delay_millis(63), 1u64 << 63);
}

#[test]
fn message_goes_to_the_conversation_with_the_user() {
    let message = bot().send_message(&request(Some("4242"))).unwrap().unwrap();
    assert_eq!(
        message.chat,
        ConversationHandle { kind: ConversationKind::User, id: 4242, access_hash: Some(77) }
    );
    assert_eq!(message.text, "hello");
}

#[test]
fn message_for_a_user_without_id_is_not_sent() {
    assert_eq!(bot().send_message(&request(None)), Ok(None));
}

#[test]
fn message_for_a_user_with_a_bad_id_is_an_error() {
    assert_eq!(bot().send_message(&request(Some("abc"))), Err(BotError::InvalidUserId));
    assert_eq!(bot().send_message(&request(Some(""))), Err(BotError::InvalidUserId));
    let account = TelegramUser::new();
    assert_eq!(account.send_message(&request(Some("4x"))), Err(BotError::InvalidUserId));
    assert_eq!(account.send_message(&request(Some("-3"))).unwrap().unwrap().chat.id, -3);
}

#[test]
fn contact_is_imported_with_client_id_zero() {
    let contact = AddContactRequest {
        messenger: s("b"),
        api_id: s("c1"),
        first_name: s("Ada"),
        last_name: s("Lovelace"),
        phone: s("+44"),
    };
    let import = bot().add_contact(&contact);
    assert_eq!(import.client_id, 0);
    assert_eq!(import.first_name, "Ada");
    assert_eq!(import.last_name, "Lovelace");
    assert_eq!(import.phone, "+44");
}

#[test]
fn imported_contact_is_reported_to_the_callback_address() {
    let call = bot().contact_imported(&s("c1"), &vec![555, 666]).unwrap();
    assert_eq!(call.api_url, "http://b");
    assert_eq!(call.object, "clients");
    assert_eq!(call.command, "update");
    assert_eq!(call.data, "{\"id\":\"c1\",\"telegram_id\":555}");
    assert_eq!(bot().contact_imported(&s("c1"), &Vec::new()), None);
}

#[test]
fn user_account_reports_the_first_imported_id_or_zero() {
    let account = TelegramUser::new();
    assert_eq!(account.contact_imported(&Some(vec![9, 8])), 9);
    assert_eq!(account.contact_imported(&Some(Vec::new())), 0);
    assert_eq!(account.contact_imported(&None), 0);
    let contact = AddContactRequest {
        messenger: s("b"),
        api_id: s("c1"),
        first_name: s("Ada"),
        last_name: s("Lovelace"),
        phone: s("+44"),
    };
    assert_eq!(account.add_contact(&contact), bot().add_contact(&contact));
    assert_eq!(account.add_contact(&contact).client_id, 0);
    assert!(account.get_contacts().is_empty());
}

#[test]
fn contacts_known_in_full_are_deleted() {
    let users = vec![
        ContactUser::User { id: 1, access_hash: Some(11) },
        ContactUser::Empty { id: 2 },
        ContactUser::User { id: 3, access_hash: Some(33) },
    ];
    assert_eq!(
        bot().delete_contacts(&users),
        Ok(vec![
            InputUser { user_id: 1, access_hash: 11 },
            InputUser { user_id: 3, access_hash: 33 },
        ])
    );
    assert_eq!(bot().delete_contacts(&Vec::new()), Ok(Vec::new()));
}

#[test]
fn contact_without_access_hash_stops_the_deletion() {
    let users = vec![
        ContactUser::User { id: 1, access_hash: Some(11) },
        ContactUser::User { id: 2, access_hash: None },
    ];
    assert_eq!(bot().delete_contacts(&users), Err(BotError::MissingAccessHash));
    assert_eq!(BotError::MissingAccessHash.details(), "a contact has no access hash");
}

#[test]
fn bot_handlers_fire_once() {
    let mut telegram = bot();
    let mut handler: BotHandler = StrMap::new();
    handler.insert(s("yes"), webhook("http://w"));
    let user = UserData { phone: s(""), messenger_id: Some(s("u")) };
    telegram.add_handler(&user, handler);
    assert!(telegram.handle_message(&s("u"), &s("no")).is_empty());
    assert_eq!(telegram.handle_message(&s("u"), &s("yes")), vec![webhook("http://w")]);
    assert!(telegram.handle_message(&s("u"), &s("yes")).is_empty());
    let verify = telegram.handle_message(&s("u"), &s("1"));
    assert_eq!(verify.len(), 1);
    assert_eq!(verify[0].api_url, "http://b");
    assert_eq!(verify[0].command, "bot_verify");
}

#[test]
fn handler_for_a_user_without_id_is_not_registered() {
    let mut telegram = bot();
    let mut handler: BotHandler = StrMap::new();
    handler.insert(s("yes"), webhook("http://w"));
    telegram.add_handler(&UserData { phone: s("+1"), messenger_id: None }, handler);
    assert!(telegram.handlers.is_empty());
}

#[test]
fn user_account_handlers_fire_once() {
    let mut account = TelegramUser::new();
    let mut handler: BotHandler = StrMap::new();
    handler.insert(s("yes"), webhook("http://w"));
    account.add_handler(&s("u"), handler);
    assert_eq!(account.handle_message(&s("u"), &s("1")), None);
    assert_eq!(account.handle_message(&s("v"), &s("yes")), None);
    assert_eq!(account.handle_message(&s("u"), &s("yes")), Some(webhook("http://w")));
    assert_eq!(account.handle_message(&s("u"), &s("yes")), None);
}

#[test]
fn user_account_lists_all_dialogs() {
    let listing = vec![ListedChat { id: 1, name: s("one") }, ListedChat { id: 2, name: s("two") }];
    assert_eq!(
        TelegramUser::new().get_dialogs(&listing),
        vec![
            BotChat { chat_id: Some(1), title: Some(s("one")) },
            BotChat { chat_id: Some(2), title: Some(s("two")) },
        ]
    );
}

#[test]
fn contexts_are_built_from_the_accounts() {
    let mut list: AuthList = StrMap::new();
    list.insert(
        s("alpha"),
        Account { username: s("u"), password: s("p"), verify_code: s(""), api_url: s("http://a") },
    );
    list.insert(s("beta"), Account::default());
    assert_eq!(
        bot_contexts(&list),
        vec![
            BotContext { bot_name: s("alpha"), api_url: s("http://a") },
            BotContext { bot_name: s("beta"), api_url: s("") },
        ]
    );
}

fn run(events: Vec<SignInEvent>, data: &AuthData) -> (SignInState, Vec<SignInAction>) {
    let mut state = SignInState::Start;
    let mut actions = Vec::new();
    for event in events {
        let (next, action) = sign_in_step(state, event, &s("alpha"), data);
        state = next;
        actions.push(action);
    }
    (state, actions)
}

#[test]
fn signed_in_session_finishes_at_once() {
    let (state, actions) =
        run(vec![SignInEvent::Begin, SignInEvent::Authorized(true)], &account());
    assert_eq!(state, SignInState::Done);
    assert_eq!(actions, vec![SignInAction::CheckAuthorization, SignInAction::Finish]);
    assert!(sign_in_over(state));
    assert!(!sign_in_over(SignInState::AwaitingCode));
}

#[test]
fn sign_in_with_code_and_password() {
    let events = vec![
        SignInEvent::Begin,
        SignInEvent::Authorized(false),
        SignInEvent::CodeRequested,
        SignInEvent::CodeEntered(s("11111")),
        SignInEvent::PasswordRequired,
        SignInEvent::PasswordAccepted,
        SignInEvent::SessionSaved(false),
    ];
    let (state, actions) = run(events, &account());
    assert_eq!(state, SignInState::Done);
    assert_eq!(
        actions,
        vec![
            SignInAction::CheckAuthorization,
            SignInAction::RequestLoginCode { username: s("+123") },
            SignInAction::Prompt { text: s("alpha Code: ") },
            SignInAction::SignIn { code: s("11111") },
            SignInAction::CheckPassword { password: s("hunter2") },
            SignInAction::SaveSession { path: s("configs/sessions/alpha.session") },
            SignInAction::Finish,
        ]
    );
}

#[test]
fn sign_in_without_password() {
    let events = vec![
        SignInEvent::Begin,
        SignInEvent::Authorized(false),
        SignInEvent::CodeRequested,
        SignInEvent::CodeEntered(s("11111")),
        SignInEvent::SignedIn,
        SignInEvent::SessionSaved(true),
    ];
    let (state, actions) = run(events, &account());
    assert_eq!(state, SignInState::Done);
    assert_eq!(actions[4], SignInAction::SaveSession { path: s("configs/sessions/alpha.session") });
    assert_eq!(actions[5], SignInAction::Finish);
}

#[test]
fn refusal_aborts_the_sign_in() {
    let events = vec![
        SignInEvent::Begin,
        SignInEvent::Authorized(false),
        SignInEvent::Refused(s("PHONE_NUMBER_BANNED")),
    ];
    let (state, actions) = run(events, &account());
    assert_eq!(state, SignInState::Failed);
    assert_eq!(actions[2], SignInAction::Abort { reason: s("PHONE_NUMBER_BANNED") });
    assert!(sign_in_over(state));
}

#[test]
fn answer_out_of_order_aborts_the_sign_in() {
    let (state, actions) = run(vec![SignInEvent::SignedIn], &account());
    assert_eq!(state, SignInState::Failed);
    assert_eq!(actions, vec![SignInAction::Abort { reason: s("sign-in out of order") }]);
    let (state, _) = run(vec![SignInEvent::Begin, SignInEvent::Begin], &account());
    assert_eq!(state, SignInState::Failed);
}

#[test]
fn account_of_another_platform_is_not_signed_in() {
    let data = AuthData::WhatsApp(WhatsAppAuth { phone_id: s("p") });
    let (state, actions) = run(vec![SignInEvent::Begin, SignInEvent::Authorized(false)], &data);
    assert_eq!(state, SignInState::Done);
    assert_eq!(actions[1], SignInAction::Finish);
}

#[test]
fn user_account_signs_in_with_its_stored_code() {
    let data = account();
    let name = s("alpha");
    let (state, action) =
        TelegramUser::sign_in(SignInState::RequestingCode, SignInEvent::CodeRequested, &name, &data);
    assert_eq!(state, SignInState::SigningIn);
    assert_eq!(action, SignInAction::SignIn { code: s("54321") });
    let (state, action) =
        TelegramUser::sign_in(SignInState::Start, SignInEvent::Begin, &name, &data);
    assert_eq!(state, SignInState::CheckingAuthorization);
    assert_eq!(action, SignInAction::CheckAuthorization);
}

#[test]
fn sign_in_ends_well_or_with_an_authentication_error() {
    assert_eq!(sign_in_outcome(SignInAction::Finish), Some(Ok(())));
    assert_eq!(
        sign_in_outcome(SignInAction::Abort { reason: s("PHONE_NUMBER_BANNED") }),
        Some(Err(BotError::Authentication(s("PHONE_NUMBER_BANNED"))))
    );
    assert_eq!(sign_in_outcome(SignInAction::CheckAuthorization), None);
    assert_eq!(sign_in_outcome(SignInAction::SignIn { code: s("1") }), None);
    let (_, action) =
        sign_in_step(SignInState::SigningIn, SignInEvent::Refused(s("no")), &s("a"), &account());
    assert_eq!(sign_in_outcome(action), Some(Err(BotError::Authentication(s("no")))));
}
