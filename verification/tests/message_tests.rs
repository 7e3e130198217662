use cgip::client::select_model;
use cgip::client::GptClient;
use cgip::config::AppConfig;
use cgip::config::ConfigManager;
use cgip::message::ContentPart;
use cgip::message::ImageUrl;
use cgip::message::Message;
use cgip::message::MessageContent;
use cgip::message::Role;
use cgip::text::starts_with_str;
use cgip::text::trim_ascii;
use cgip::transcript::markdown_from_messages;

fn test_client() -> GptClient {
    let config_manager = ConfigManager::with_config(AppConfig::default(), String::new());
    GptClient::with_config(config_manager, "You are a helpful assistant.".to_string())
}

fn client_with_model(model: &str) -> GptClient {
    let config = AppConfig {
        model: model.to_string(),
        ..AppConfig::default()
    };
    let config_manager = ConfigManager::with_config(config, String::new());
    GptClient::with_config(config_manager, "You are a helpful assistant.".to_string())
}

fn plain_message(role: &str, text: &str) -> Message {
    Message {
        role: role.to_string(),
        name: None,
        tool_call_id: None,
        tool_calls: None,
        content: MessageContent::Text(text.to_string()),
    }
}

fn detects_search_prefix(client: &GptClient) -> bool {
    let last_message = client.messages.last().unwrap();
    if let MessageContent::Text(ref content) = last_message.content {
        let trimmed_content = trim_ascii(content.as_str());
        last_message.role == "user" && starts_with_str(trimmed_content, "/search")
    } else {
        false
    }
}

#[test]
fn test_search_prefix_detection() {
    let mut client = test_client();
    client.add_message(Role::User, "/search what is the weather today?".to_string());
    let use_search = detects_search_prefix(&client);
    assert!(use_search, "Search prefix should be detected");
}

#[test]
fn test_no_search_prefix() {
    let mut client = test_client();
    client.add_message(Role::User, "what is the weather today?".to_string());
    let use_search = detects_search_prefix(&client);
    assert!(!use_search, "Search prefix should not be detected");
}

#[test]
fn test_search_prefix_with_whitespace() {
    let mut client = test_client();
    client.add_message(
        Role::User,
        "  /search what is the weather today?  ".to_string(),
    );
    let use_search = detects_search_prefix(&client);
    assert!(
        use_search,
        "Search prefix should be detected even with whitespace"
    );
}

#[test]
fn test_search_model_selection_with_gpt() {
    let client = test_client();
    let model = &client.config_manager.config.model;

    let use_search = true;
    let selected_model = select_model(model, use_search);

    if starts_with_str(model.as_str(), "gpt") {
        assert_eq!(selected_model, "gpt-4o-search-preview");
    }
}

#[test]
fn test_search_model_selection_with_non_gpt() {
    let client = client_with_model("llama-3");
    let use_search = true;
    let selected_model = select_model(&client.config_manager.config.model, use_search);
    assert_eq!(selected_model, "llama-3");
}

#[test]
fn test_search_model_selection_with_gpt_in_middle() {
    let client = client_with_model("anthropic-gpt-4");
    let use_search = true;
    let selected_model = select_model(&client.config_manager.config.model, use_search);
    assert_eq!(selected_model, "anthropic-gpt-4");
}

#[test]
fn test_markdown_from_messages() {
    let messages = vec![
        plain_message("user", "Hello"),
        plain_message("assistant", "Hi there!"),
    ];

    let markdown = markdown_from_messages(messages);
    assert!(markdown.contains("**user**: Hello"));
    assert!(markdown.contains("**assistant**: Hi there!"));
}

#[test]
fn flatten_joins_parts_with_spaces() {
    let content = MessageContent::Multi(vec![
        ContentPart::Text {
            text: "look at".to_string(),
        },
        ContentPart::ImageUrl {
            image_url: ImageUrl {
                url: "data:image/png;base64,AAAA".to_string(),
            },
        },
        ContentPart::Text {
            text: "this".to_string(),
        },
    ]);
    assert_eq!(content.to_string(), "look at [Image] this");
}

#[test]
fn flatten_of_all_image_message_is_placeholder_only() {
    let content = MessageContent::Multi(vec![ContentPart::ImageUrl {
        image_url: ImageUrl {
            url: "data:image/png;base64,AAAA".to_string(),
        },
    }]);
    assert_eq!(content.to_string(), "[Image]");
    assert_eq!(content.as_str(), "[Multi-content message]");
    assert!(!content.is_empty());
}

#[test]
fn added_messages_are_trimmed() {
    let mut client = test_client();
    client.add_message(Role::User, "  hello  ".to_string());
    let last = client.messages.last().unwrap();
    assert_eq!(last.role, "user");
    assert_eq!(last.content.to_string(), "hello");
}

#[test]
fn image_message_carries_caption_then_image() {
    let mut client = test_client();
    client.add_image_message(
        Role::User,
        Some("what is this?".to_string()),
        "data:image/png;base64,AAAA".to_string(),
    );
    let last = client.messages.last().unwrap();
    assert_eq!(last.role, "user");
    match &last.content {
        MessageContent::Multi(parts) => {
            assert_eq!(parts.len(), 2);
            assert!(matches!(parts[0], ContentPart::Text { .. }));
            assert!(matches!(parts[1], ContentPart::ImageUrl { .. }));
        }
        _ => panic!("expected mixed content"),
    }
}

#[test]
fn messages_are_valid_rejects_empty_role_or_content() {
    let good = vec![plain_message("user", "hi")];
    assert!(cgip::message::messages_are_valid(&good));
    let empty_role = vec![plain_message("", "hi")];
    assert!(!cgip::message::messages_are_valid(&empty_role));
    let empty_content = vec![plain_message("user", "")];
    assert!(!cgip::message::messages_are_valid(&empty_content));
}

#[test]
fn role_names_round_trip() {
    assert_eq!(Role::System.as_str(), "system");
    assert_eq!(Role::User.as_str(), "user");
    assert_eq!(Role::Assistant.as_str(), "assistant");
    assert_eq!(Role::Tool.as_str(), "tool");
    assert!(matches!(Role::from_name("tool"), Some(Role::Tool)));
    assert!(Role::from_name("robot").is_none());
}
