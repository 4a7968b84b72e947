use doca_bot::api::{
    add_contact, aggregate, reply_for, response_for, send_message, ApiReply, STATUS_FAILED,
    STATUS_OK,
};
use doca_bot::structs::api::{
    AddContactRequest, ApiRequest, BotButtons, SendMessageRequest, UserData,
};
use doca_bot::structs::wrapper::ChannelData;
use doca_bot::utils::{loaded_or_default, BotError};

fn contact(messenger: &str) -> AddContactRequest {
    AddContactRequest {
        messenger: messenger.to_string(),
        api_id: "42".to_string(),
        first_name: "Ada".to_string(),
        last_name: "Lovelace".to_string(),
        phone: "+100".to_string(),
    }
}

#[test]
fn test_api_request() {
    let request = SendMessageRequest::default();
    assert_eq!(request.messenger, "");
    assert_eq!(request.user, UserData { phone: String::new(), messenger_id: None });
    assert_eq!(request.message, "");
    assert!(request.access_hash.is_none());
    assert!(request.buttons.is_none());
    assert!(request.handlers.is_none());
    let call = ApiRequest::default();
    assert_eq!(call.api_url, "");
    assert_eq!(call.object, "");
    assert_eq!(call.command, "");
    assert_eq!(call.data, "");
    assert_eq!(AddContactRequest::default().phone, "");
}

#[test]
fn send_request_becomes_command_for_its_messenger() {
    let mut request = SendMessageRequest::default();
    request.messenger = "alpha".to_string();
    request.message = "hello".to_string();
    request.access_hash = Some(9);
    request.buttons =
        Some(vec![BotButtons { title: "Yes".to_string(), reply: "yes".to_string() }]);
    let command = send_message(request);
    assert_eq!(command.bot_name, "alpha");
    match command.data {
        ChannelData::SendMessage(sent) => {
            assert_eq!(sent.messenger, "alpha");
            assert_eq!(sent.message, "hello");
            assert_eq!(sent.access_hash, Some(9));
            assert_eq!(sent.buttons.unwrap()[0].reply, "yes");
        }
        other => panic!("unexpected command {:?}", other),
    }
}

#[test]
fn contact_request_becomes_command_for_its_messenger() {
    let command = add_contact(contact("*"));
    assert_eq!(command.bot_name, "*");
    match command.data {
        ChannelData::AddContact(sent) => assert_eq!(sent, contact("*")),
        other => panic!("unexpected command {:?}", other),
    }
}

#[test]
fn response_is_200_or_500_with_details() {
    let ok = response_for(&Ok(()));
    assert_eq!(ok.status, STATUS_OK);
    assert_eq!(ok.status, 200);
    assert_eq!(ok.details, None);
    let failed = response_for(&Err(BotError::Connector("timeout".to_string())));
    assert_eq!(failed.status, STATUS_FAILED);
    assert_eq!(failed.status, 500);
    assert_eq!(failed.details, Some("timeout".to_string()));
    let refused = response_for(&Err(BotError::Authentication("banned".to_string())));
    assert_eq!(refused.details, Some("banned".to_string()));
    let invalid = response_for(&Err(BotError::InvalidUserId));
    assert_eq!(invalid.status, 500);
    assert_eq!(invalid.details, Some("the user's messenger id is not a number".to_string()));
}

#[test]
fn aggregate_has_one_entry_per_bot() {
    let names = vec!["a".to_string(), "b".to_string(), "c".to_string()];
    let outcomes = vec![Ok(()), Err(BotError::Connector("down".to_string())), Ok(())];
    let statuses = aggregate(&names, &outcomes);
    assert_eq!(statuses.len(), 3);
    assert_eq!(statuses.key_at(0), "a");
    assert_eq!(statuses.key_at(1), "b");
    assert_eq!(statuses.key_at(2), "c");
    assert_eq!(statuses.get(&"a".to_string()).unwrap().status, 200);
    let b = statuses.get(&"b".to_string()).unwrap();
    assert_eq!(b.status, 500);
    assert_eq!(b.details, Some("down".to_string()));
    assert_eq!(statuses.get(&"c".to_string()).unwrap().status, 200);
    assert!(statuses.get(&"d".to_string()).is_none());
}

#[test]
fn aggregate_of_nothing_is_empty() {
    let statuses = aggregate(&Vec::new(), &Vec::new());
    assert_eq!(statuses.len(), 0);
    assert!(statuses.is_empty());
}

#[test]
fn aggregate_keeps_the_later_outcome_of_a_repeated_name() {
    let names = vec!["a".to_string(), "a".to_string()];
    let outcomes = vec![Ok(()), Err(BotError::Connector("late".to_string()))];
    let statuses = aggregate(&names, &outcomes);
    assert_eq!(statuses.len(), 1);
    assert_eq!(statuses.get(&"a".to_string()).unwrap().status, 500);
}

#[test]
fn missing_configuration_falls_back_to_default() {
    let loaded: Option<AddContactRequest> = None;
    assert_eq!(loaded_or_default(loaded), AddContactRequest::default());
    assert_eq!(loaded_or_default(Some(contact("a"))), contact("a"));
}

#[test]
fn reply_is_one_status_or_one_per_bot() {
    let names = vec!["a".to_string(), "b".to_string()];
    let outcomes = vec![Ok(()), Err(BotError::Connector("down".to_string()))];
    match reply_for(&"b".to_string(), aggregate(&names, &outcomes)) {
        ApiReply::Single(status) => {
            assert_eq!(status.status, 500);
            assert_eq!(status.details, Some("down".to_string()));
        }
        other => panic!("unexpected reply {:?}", other),
    }
    match reply_for(&"*".to_string(), aggregate(&names, &outcomes)) {
        ApiReply::PerBot(statuses) => {
            assert_eq!(statuses.len(), 2);
            assert_eq!(statuses.get(&"a".to_string()).unwrap().status, 200);
            assert_eq!(statuses.get(&"b".to_string()).unwrap().status, 500);
        }
        other => panic!("unexpected reply {:?}", other),
    }
    match reply_for(&"nobody".to_string(), aggregate(&Vec::new(), &Vec::new())) {
        ApiReply::Single(status) => {
            assert_eq!(status.status, 200);
            assert_eq!(status.details, None);
        }
        other => panic!("unexpected reply {:?}", other),
    }
}
