//! The completion request payload: the selected model, the full
//! conversation, and the optional web-search and token-limit options, in
//! their wire form.

use vstd::prelude::*;

use crate::codec::encode_message;
use crate::codec::encode_message_spec;
use crate::json::json_view;
use crate::json::lemma_views_of_fields;
use crate::json::lemma_views_of_items;
use crate::json::views_of_fields;
use crate::json::views_of_items;
use crate::json::JsonValue;
use crate::json::JsonView;
use crate::message::message_views;
use crate::message::Message;
use crate::message::MessageView;

verus! {

/// One completion request.
pub struct ChatRequest {
    pub model: String,
    pub messages: Vec<Message>,
    pub web_search_options: Option<JsonValue>,
    pub max_tokens: Option<u32>,
}

/// The wire fields of a request: the model, the encoded conversation, and
/// each option that is present.
pub open spec fn encode_request_fields_spec(
    model: Seq<char>,
    msgs: Seq<MessageView>,
    web_search_options: Option<JsonView>,
    max_tokens: Option<u32>,
) -> Seq<(Seq<char>, JsonView)> {
    let base = seq![
        ("model"@, JsonView::Str(model)),
        ("messages"@, JsonView::Arr(msgs.map_values(|m: MessageView| encode_message_spec(m)))),
    ];
    let f1 = if web_search_options is Some {
        base.push(("web_search_options"@, web_search_options->0))
    } else {
        base
    };
    if max_tokens is Some {
        f1.push(("max_tokens"@, JsonView::Int(max_tokens->0 as int)))
    } else {
        f1
    }
}

/// The wire form of a request.
pub open spec fn encode_request_spec(
    model: Seq<char>,
    msgs: Seq<MessageView>,
    web_search_options: Option<JsonView>,
    max_tokens: Option<u32>,
) -> JsonView {
    JsonView::Obj(encode_request_fields_spec(model, msgs, web_search_options, max_tokens))
}

/// The wire fields of a tool-enabled request: the model, the encoded
/// conversation, the tool schema, and automatic tool choice.
pub open spec fn encode_tools_request_fields_spec(
    model: Seq<char>,
    msgs: Seq<MessageView>,
    tools: JsonView,
) -> Seq<(Seq<char>, JsonView)> {
    seq![
        ("model"@, JsonView::Str(model)),
        ("messages"@, JsonView::Arr(msgs.map_values(|m: MessageView| encode_message_spec(m)))),
        ("tools"@, tools),
        ("tool_choice"@, JsonView::Str("auto"@)),
    ]
}

/// The wire form of a tool-enabled request.
pub open spec fn encode_tools_request_spec(
    model: Seq<char>,
    msgs: Seq<MessageView>,
    tools: JsonView,
) -> JsonView {
    JsonView::Obj(encode_tools_request_fields_spec(model, msgs, tools))
}

fn encode_message_list(msgs: &Vec<Message>) -> (r: JsonValue)
    ensures
        r@ == JsonView::Arr(
            message_views(msgs@).map_values(|m: MessageView| encode_message_spec(m)),
        ),
{
    let mut items: Vec<JsonValue> = Vec::new();
    let mut i: usize = 0;
    #[verifier::loop_isolation(false)]
    while i < msgs.len()
        invariant
            i <= msgs.len(),
            items@.len() == i as int,
            forall|j: int|
                0 <= j < i ==> json_view(#[trigger] items@[j]) == encode_message_spec(msgs@[j]@),
        decreases msgs.len() - i,
    {
        items.push(encode_message(&msgs[i]));
        i += 1;
    }
    proof {
        lemma_views_of_items(items@);
        assert(views_of_items(items@) =~= message_views(msgs@).map_values(
            |m: MessageView| encode_message_spec(m),
        ));
    }
    JsonValue::Arr(items)
}

/// Encode a completion request into its wire object.
pub fn encode_request(req: &ChatRequest) -> (r: JsonValue)
    ensures
        r@ == encode_request_spec(
            req.model@,
            message_views(req.messages@),
            crate::message::opt_json_view(req.web_search_options),
            req.max_tokens,
        ),
{
    let mut fields: Vec<(String, JsonValue)> = Vec::new();
    fields.push(("model".to_owned(), JsonValue::Str(req.model.clone())));
    fields.push(("messages".to_owned(), encode_message_list(&req.messages)));
    match &req.web_search_options {
        Some(w) => fields.push(("web_search_options".to_owned(), w.clone())),
        None => (),
    }
    match &req.max_tokens {
        Some(mt) => {
            let v: i64 = *mt as i64;
            fields.push(("max_tokens".to_owned(), JsonValue::Int(v)));
        },
        None => (),
    }
    proof {
        lemma_views_of_fields(fields@);
        assert(views_of_fields(fields@) =~~= encode_request_fields_spec(
            req.model@,
            message_views(req.messages@),
            crate::message::opt_json_view(req.web_search_options),
            req.max_tokens,
        ));
    }
    JsonValue::Obj(fields)
}

/// Encode a tool-enabled completion request into its wire object.
pub fn encode_tools_request(model: &String, msgs: &Vec<Message>, tools: &JsonValue) -> (r:
    JsonValue)
    ensures
        r@ == encode_tools_request_spec(model@, message_views(msgs@), tools@),
{
    let mut fields: Vec<(String, JsonValue)> = Vec::new();
    fields.push(("model".to_owned(), JsonValue::Str(model.clone())));
    fields.push(("messages".to_owned(), encode_message_list(msgs)));
    fields.push(("tools".to_owned(), tools.clone()));
    fields.push(("tool_choice".to_owned(), JsonValue::Str("auto".to_owned())));
    proof {
        lemma_views_of_fields(fields@);
        assert(views_of_fields(fields@) =~~= encode_tools_request_fields_spec(
            model@,
            message_views(msgs@),
            tools@,
        ));
    }
    JsonValue::Obj(fields)
}

} // verus!
