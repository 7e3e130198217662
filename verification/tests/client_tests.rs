use cgip::client::CompletionPlan;
use cgip::client::GptClient;
use cgip::config::AppConfig;
use cgip::config::ConfigManager;
use cgip::json::JsonValue;
use cgip::message::ContentPart;
use cgip::message::ImageUrl;
use cgip::message::MessageContent;
use cgip::message::Role;
use cgip::response::parse_response;
use cgip::response::parse_error_response;

fn test_client() -> GptClient {
    let config_manager = ConfigManager::with_config(AppConfig::default(), String::new());
    GptClient::with_config(config_manager, "You are a helpful assistant.".to_string())
}

fn response_value(finish_reason: &str, text: &str) -> JsonValue {
    JsonValue::Obj(vec![
        ("id".to_string(), JsonValue::Str("cmpl-1".to_string())),
        ("object".to_string(), JsonValue::Str("chat.completion".to_string())),
        ("created".to_string(), JsonValue::Int(1700000000)),
        ("model".to_string(), JsonValue::Str("gpt-4o".to_string())),
        (
            "usage".to_string(),
            JsonValue::Obj(vec![
                ("prompt_tokens".to_string(), JsonValue::Int(5)),
                ("completion_tokens".to_string(), JsonValue::Int(7)),
                ("total_tokens".to_string(), JsonValue::Int(12)),
            ]),
        ),
        (
            "choices".to_string(),
            JsonValue::Arr(vec![JsonValue::Obj(vec![
                (
                    "message".to_string(),
                    JsonValue::Obj(vec![
                        ("role".to_string(), JsonValue::Str("assistant".to_string())),
                        ("content".to_string(), JsonValue::Str(text.to_string())),
                    ]),
                ),
                ("finish_reason".to_string(), JsonValue::Str(finish_reason.to_string())),
                ("index".to_string(), JsonValue::Int(0)),
            ])]),
        ),
    ])
}

#[test]
fn ping_is_answered_locally_with_pong() {
    let mut client = test_client();
    client.add_message(Role::User, "ping".to_string());
    let before = client.messages.len();
    let plan = client.prepare_completion("https://api.openai.com", None);
    assert!(matches!(plan, CompletionPlan::Pong));
    assert_eq!(client.messages.len(), before + 1);
    let last = client.messages.last().unwrap();
    assert_eq!(last.role, "assistant");
    assert_eq!(last.content.to_string(), "pong");
}

#[test]
fn ping_detection_trims_and_ignores_case() {
    let mut client = test_client();
    client.add_message(Role::User, "  PiNg  ".to_string());
    let plan = client.prepare_completion("https://api.openai.com", None);
    assert!(matches!(plan, CompletionPlan::Pong));
}

#[test]
fn search_prefix_is_stripped_and_augmented_mode_set() {
    let mut client = test_client();
    client.add_message(Role::User, "  /search weather today  ".to_string());
    let plan = client.prepare_completion("https://api.openai.com", None);
    match plan {
        CompletionPlan::Call { url, body } => {
            assert_eq!(url, "https://api.openai.com/v1/chat/completions");
            let last = client.messages.last().unwrap();
            assert_eq!(last.content.to_string(), "weather today");
            assert!(body.get("web_search_options").is_some());
            let model = body.get("model").unwrap().as_str().unwrap();
            assert_eq!(model, "gpt-4o-search-preview");
        }
        _ => panic!("expected a planned call"),
    }
}

#[test]
fn plain_request_has_no_search_options_and_keeps_model() {
    let mut client = test_client();
    client.add_message(Role::User, "what is rust?".to_string());
    let plan = client.prepare_completion("https://api.openai.com", Some(300));
    match plan {
        CompletionPlan::Call { url, body } => {
            assert_eq!(url, "https://api.openai.com/v1/chat/completions");
            assert!(body.get("web_search_options").is_none());
            let model = body.get("model").unwrap().as_str().unwrap();
            assert_eq!(model, "gpt-4o");
            assert!(matches!(
                body.get("max_tokens"),
                Some(JsonValue::Int(300))
            ));
            assert_eq!(
                client.messages.last().unwrap().content.to_string(),
                "what is rust?"
            );
        }
        _ => panic!("expected a planned call"),
    }
}

#[test]
fn tools_request_carries_schema_and_auto_choice() {
    let mut client = test_client();
    client.add_message(Role::User, "list the files".to_string());
    let tools = cgip::agent::execute_tool_schema();
    let plan = client.prepare_tools_completion("https://api.openai.com", &tools);
    match plan {
        CompletionPlan::Call { url, body } => {
            assert_eq!(url, "https://api.openai.com/v1/chat/completions");
            assert!(body.get("tools").is_some());
            let choice = body.get("tool_choice").unwrap().as_str().unwrap();
            assert_eq!(choice, "auto");
        }
        _ => panic!("expected a planned call"),
    }
}

#[test]
fn accepting_a_completion_appends_one_assistant_turn() {
    let mut client = test_client();
    client.add_message(Role::User, "hello".to_string());
    let before = client.messages.len();
    let value = response_value("stop", "Hi! How can I help?");
    let response = parse_response(&value).unwrap();
    let text = client.accept_completion(&response);
    assert_eq!(text, "Hi! How can I help?");
    assert_eq!(client.messages.len(), before + 1);
    let last = client.messages.last().unwrap();
    assert_eq!(last.role, "assistant");
}

#[test]
fn response_missing_choices_is_a_parse_failure() {
    let value = JsonValue::Obj(vec![
        ("created".to_string(), JsonValue::Int(1700000000)),
        ("model".to_string(), JsonValue::Str("gpt-4o".to_string())),
    ]);
    assert!(parse_response(&value).is_none());
}

#[test]
fn error_shape_is_parsed_from_error_body() {
    let value = JsonValue::Obj(vec![(
        "error".to_string(),
        JsonValue::Obj(vec![(
            "message".to_string(),
            JsonValue::Str("invalid api key".to_string()),
        )]),
    )]);
    let err = parse_error_response(&value).unwrap();
    assert_eq!(err.error.message, "invalid api key");
    assert!(parse_error_response(&response_value("stop", "ok")).is_none());
}

#[test]
fn multi_content_ping_uses_flattened_text() {
    let mut client = test_client();
    client.messages.push(cgip::message::Message {
        role: "user".to_string(),
        name: None,
        tool_call_id: None,
        tool_calls: None,
        content: MessageContent::Multi(vec![ContentPart::Text {
            text: "ping".to_string(),
        }]),
    });
    let plan = client.prepare_completion("https://api.openai.com", None);
    assert!(matches!(plan, CompletionPlan::Pong));
    let _ = ImageUrl {
        url: String::new(),
    };
}
