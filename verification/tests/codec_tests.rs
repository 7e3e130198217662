use cgip::codec::decode_content;
use cgip::codec::decode_message;
use cgip::codec::encode_content;
use cgip::codec::encode_message;
use cgip::json::JsonValue;
use cgip::message::ContentPart;
use cgip::message::ImageUrl;
use cgip::message::Message;
use cgip::message::MessageContent;

#[test]
fn text_content_round_trips() {
    let content = MessageContent::Text("hello there".to_string());
    let wire = encode_content(&content);
    assert!(matches!(&wire, JsonValue::Str(s) if s == "hello there"));
    let back = decode_content(&wire).unwrap();
    match back {
        MessageContent::Text(t) => assert_eq!(t, "hello there"),
        _ => panic!("expected plain text back"),
    }
}

#[test]
fn multi_content_round_trips_in_order() {
    let content = MessageContent::Multi(vec![
        ContentPart::Text {
            text: "caption".to_string(),
        },
        ContentPart::ImageUrl {
            image_url: ImageUrl {
                url: "data:image/png;base64,AAAA".to_string(),
            },
        },
    ]);
    let wire = encode_content(&content);
    let back = decode_content(&wire).unwrap();
    match back {
        MessageContent::Multi(parts) => {
            assert_eq!(parts.len(), 2);
            match &parts[0] {
                ContentPart::Text { text } => assert_eq!(text, "caption"),
                _ => panic!("first part should be the caption"),
            }
            match &parts[1] {
                ContentPart::ImageUrl { image_url } => {
                    assert_eq!(image_url.url, "data:image/png;base64,AAAA")
                }
                _ => panic!("second part should be the image"),
            }
        }
        _ => panic!("expected mixed content back"),
    }
}

#[test]
fn message_with_metadata_round_trips() {
    let msg = Message {
        role: "tool".to_string(),
        name: Some("result".to_string()),
        tool_call_id: Some("call-3".to_string()),
        tool_calls: None,
        content: MessageContent::Text("42".to_string()),
    };
    let wire = encode_message(&msg);
    let back = decode_message(&wire).unwrap();
    assert_eq!(back.role, "tool");
    assert_eq!(back.name.as_deref(), Some("result"));
    assert_eq!(back.tool_call_id.as_deref(), Some("call-3"));
    assert!(back.tool_calls.is_none());
    assert_eq!(back.content.to_string(), "42");
}

#[test]
fn assistant_tool_calls_pass_through_the_codec() {
    let calls = JsonValue::Arr(vec![JsonValue::Obj(vec![(
        "id".to_string(),
        JsonValue::Str("call-1".to_string()),
    )])]);
    let msg = Message {
        role: "assistant".to_string(),
        name: None,
        tool_call_id: None,
        tool_calls: Some(calls),
        content: MessageContent::Text(String::new()),
    };
    let wire = encode_message(&msg);
    let back = decode_message(&wire).unwrap();
    let carried = back.tool_calls.expect("tool calls should survive");
    match carried {
        JsonValue::Arr(items) => {
            assert_eq!(items.len(), 1);
            let id = items[0].get("id").unwrap().as_str().unwrap();
            assert_eq!(id, "call-1");
        }
        _ => panic!("expected the carried array"),
    }
}

#[test]
fn bare_string_decodes_as_text_and_list_as_parts() {
    let bare = JsonValue::Str("just text".to_string());
    assert!(matches!(
        decode_content(&bare),
        Some(MessageContent::Text(_))
    ));
    let tagged = JsonValue::Arr(vec![JsonValue::Obj(vec![
        ("type".to_string(), JsonValue::Str("text".to_string())),
        ("text".to_string(), JsonValue::Str("part".to_string())),
    ])]);
    assert!(matches!(
        decode_content(&tagged),
        Some(MessageContent::Multi(_))
    ));
}

#[test]
fn unrecognized_shapes_do_not_decode() {
    assert!(decode_content(&JsonValue::Int(5)).is_none());
    let bad_part = JsonValue::Arr(vec![JsonValue::Obj(vec![(
        "type".to_string(),
        JsonValue::Str("video".to_string()),
    )])]);
    assert!(decode_content(&bad_part).is_none());
    let no_role = JsonValue::Obj(vec![(
        "content".to_string(),
        JsonValue::Str("hi".to_string()),
    )]);
    assert!(decode_message(&no_role).is_none());
}
