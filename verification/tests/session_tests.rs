use cgip::args::SessionSubCommand;
use cgip::client::GptClient;
use cgip::config::AppConfig;
use cgip::config::ConfigManager;
use cgip::message::Message;
use cgip::message::MessageContent;
use cgip::message::Role;
use cgip::printer::MockPrinter;
use cgip::printer::Printer;
use cgip::store::SessionStore;
use cgip::transcript::run;

fn plain_message(role: &str, text: &str) -> Message {
    Message {
        role: role.to_string(),
        name: None,
        tool_call_id: None,
        tool_calls: None,
        content: MessageContent::Text(text.to_string()),
    }
}

#[test]
fn test_run_view() {
    let config_manager = ConfigManager::with_config(AppConfig::default(), String::new());
    let mut client = GptClient::with_config(config_manager, "standing prompt".to_string());
    client.add_message(Role::System, "system message".to_string());
    client.add_message(Role::User, "user message".to_string());
    client.add_message(Role::Assistant, "assistant message".to_string());

    let subcmd = SessionSubCommand {
        view: true,
        clear: false,
    };
    let mut printer = Printer::Mock(MockPrinter::new());
    run(&subcmd, &client.messages, &mut printer);

    match printer {
        Printer::Mock(mp) => {
            assert_eq!(mp.messages.len(), 2);
            assert_eq!(mp.messages[0].0, "user");
            assert_eq!(mp.messages[0].1, "user message");
            assert_eq!(mp.messages[1].0, "assistant");
            assert_eq!(mp.messages[1].1, "assistant message");
        }
        _ => panic!("expected the recording printer"),
    }
}

#[test]
fn run_clear_requests_deletion_without_printing() {
    let subcmd = SessionSubCommand {
        view: false,
        clear: true,
    };
    let messages = vec![plain_message("user", "hello")];
    let mut printer = Printer::Mock(MockPrinter::new());
    let clear = run(&subcmd, &messages, &mut printer);
    assert!(clear);
    match printer {
        Printer::Mock(mp) => assert!(mp.messages.is_empty()),
        _ => panic!("expected the recording printer"),
    }
}

#[test]
fn appending_over_the_bound_keeps_the_last_n_in_order() {
    let mut store = SessionStore::new();
    let new: Vec<Message> = (0..5)
        .map(|i| plain_message("user", &format!("turn {}", i)))
        .collect();
    store.append(new, 3);
    let record = store.read();
    assert_eq!(record.len(), 3);
    assert_eq!(record[0].content.to_string(), "turn 2");
    assert_eq!(record[1].content.to_string(), "turn 3");
    assert_eq!(record[2].content.to_string(), "turn 4");
}

#[test]
fn appending_under_the_bound_keeps_everything() {
    let mut store = SessionStore::new();
    store.append(vec![plain_message("user", "one")], 20);
    store.append(vec![plain_message("assistant", "two")], 20);
    let record = store.read();
    assert_eq!(record.len(), 2);
    assert_eq!(record[0].content.to_string(), "one");
    assert_eq!(record[1].content.to_string(), "two");
}

#[test]
fn eviction_is_applied_on_later_appends_too() {
    let mut store = SessionStore::from_record(vec![
        plain_message("user", "a"),
        plain_message("assistant", "b"),
    ]);
    store.append(
        vec![plain_message("user", "c"), plain_message("assistant", "d")],
        2,
    );
    let record = store.read();
    assert_eq!(record.len(), 2);
    assert_eq!(record[0].content.to_string(), "c");
    assert_eq!(record[1].content.to_string(), "d");
}

#[test]
fn read_after_clear_is_empty() {
    let mut store = SessionStore::from_record(vec![plain_message("user", "hello")]);
    assert_eq!(store.read().len(), 1);
    store.clear();
    assert!(store.read().is_empty());
    assert!(!store.has_record());
}

#[test]
fn reading_without_any_record_is_empty_and_never_fails() {
    let store = SessionStore::new();
    assert!(store.read().is_empty());
}
