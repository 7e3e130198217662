//! The completion response: the parsed shape of a successful exchange, the
//! alternate error shape, and their decoding from wire values. A value that
//! fits neither shape is a protocol mismatch the caller treats as fatal.

use vstd::prelude::*;

use crate::codec::decode_message;
use crate::codec::decode_message_spec;
use crate::json::get_spec;
use crate::json::JsonValue;
use crate::json::JsonView;
use crate::message::Message;
use crate::message::MessageView;

verus! {

/// Token accounting reported with a completion.
pub struct Usage {
    pub prompt_tokens: u64,
    pub completion_tokens: u64,
    pub total_tokens: u64,
}

/// The mathematical value of a [`Usage`].
#[verifier::ext_equal]
pub struct UsageView {
    pub prompt_tokens: u64,
    pub completion_tokens: u64,
    pub total_tokens: u64,
}

impl View for Usage {
    type V = UsageView;

    open spec fn view(&self) -> UsageView {
        UsageView {
            prompt_tokens: self.prompt_tokens,
            completion_tokens: self.completion_tokens,
            total_tokens: self.total_tokens,
        }
    }
}

/// One returned completion choice.
pub struct Choice {
    pub message: Message,
    pub finish_reason: String,
    pub index: u64,
}

/// The mathematical value of a [`Choice`].
#[verifier::ext_equal]
pub struct ChoiceView {
    pub message: MessageView,
    pub finish_reason: Seq<char>,
    pub index: u64,
}

impl View for Choice {
    type V = ChoiceView;

    open spec fn view(&self) -> ChoiceView {
        ChoiceView {
            message: self.message@,
            finish_reason: self.finish_reason@,
            index: self.index,
        }
    }
}

/// A successful completion response.
pub struct ChatResponse {
    pub id: Option<String>,
    pub object: Option<String>,
    pub created: u64,
    pub model: String,
    pub usage: Usage,
    pub choices: Vec<Choice>,
}

/// The mathematical value of a [`ChatResponse`].
#[verifier::ext_equal]
pub struct ChatResponseView {
    pub id: Option<Seq<char>>,
    pub object: Option<Seq<char>>,
    pub created: u64,
    pub model: Seq<char>,
    pub usage: UsageView,
    pub choices: Seq<ChoiceView>,
}

impl View for ChatResponse {
    type V = ChatResponseView;

    open spec fn view(&self) -> ChatResponseView {
        ChatResponseView {
            id: crate::message::opt_str_view(self.id),
            object: crate::message::opt_str_view(self.object),
            created: self.created,
            model: self.model@,
            usage: self.usage@,
            choices: self.choices@.map_values(|c: Choice| c@),
        }
    }
}

/// The error payload of a failed exchange.
pub struct ErrorDetail {
    pub message: String,
}

/// The alternate error shape of a response body.
pub struct ErrorResponse {
    pub error: ErrorDetail,
}

/// A required non-negative number field that fits the counter width.
pub open spec fn decode_u64_spec(v: JsonView, key: Seq<char>) -> Option<u64> {
    match get_spec(v, key) {
        Some(x) => match x {
            JsonView::Int(i) => if 0 <= i <= u64::MAX {
                Some(i as u64)
            } else {
                None
            },
            _ => None,
        },
        None => None,
    }
}

/// A required string field.
pub open spec fn decode_str_spec(v: JsonView, key: Seq<char>) -> Option<Seq<char>> {
    match get_spec(v, key) {
        Some(x) => match x {
            JsonView::Str(s) => Some(s),
            _ => None,
        },
        None => None,
    }
}

/// The usage record a wire object stands for.
pub open spec fn decode_usage_spec(v: JsonView) -> Option<UsageView> {
    match (
        decode_u64_spec(v, "prompt_tokens"@),
        decode_u64_spec(v, "completion_tokens"@),
        decode_u64_spec(v, "total_tokens"@),
    ) {
        (Some(p), Some(c), Some(t)) => Some(
            UsageView { prompt_tokens: p, completion_tokens: c, total_tokens: t },
        ),
        _ => None,
    }
}

/// The choice a wire object stands for.
pub open spec fn decode_choice_spec(v: JsonView) -> Option<ChoiceView> {
    match get_spec(v, "message"@) {
        Some(mv) => match (
            decode_message_spec(mv),
            decode_str_spec(v, "finish_reason"@),
            decode_u64_spec(v, "index"@),
        ) {
            (Some(message), Some(finish_reason), Some(index)) => Some(
                ChoiceView { message, finish_reason, index },
            ),
            _ => None,
        },
        None => None,
    }
}

/// The choice list a wire array stands for; `None` as soon as one element
/// does not decode.
pub open spec fn decode_choices_spec(items: Seq<JsonView>) -> Option<Seq<ChoiceView>>
    decreases items.len(),
{
    if items.len() == 0 {
        Some(Seq::empty())
    } else {
        match (decode_choices_spec(items.drop_last()), decode_choice_spec(items.last())) {
            (Some(cs), Some(c)) => Some(cs.push(c)),
            _ => None,
        }
    }
}

/// An optional string field: absent, present as a string, or malformed.
pub open spec fn decode_opt_str_spec(v: JsonView, key: Seq<char>) -> Option<Option<Seq<char>>> {
    match get_spec(v, key) {
        Some(x) => match x {
            JsonView::Str(s) => Some(Some(s)),
            _ => None,
        },
        None => Some(None),
    }
}

/// The completion response a wire value stands for: `created`, `model`,
/// `usage` and `choices` are required, `id` and `object` optional.
pub open spec fn decode_response_spec(v: JsonView) -> Option<ChatResponseView> {
    match (get_spec(v, "usage"@), get_spec(v, "choices"@)) {
        (Some(uv), Some(cv)) => match cv {
            JsonView::Arr(items) => match (
                decode_opt_str_spec(v, "id"@),
                decode_opt_str_spec(v, "object"@),
                decode_u64_spec(v, "created"@),
                decode_str_spec(v, "model"@),
                decode_usage_spec(uv),
                decode_choices_spec(items),
            ) {
                (Some(id), Some(object), Some(created), Some(model), Some(usage), Some(choices)) =>
                    Some(ChatResponseView { id, object, created, model, usage, choices }),
                _ => None,
            },
            _ => None,
        },
        _ => None,
    }
}

/// The error message a wire value stands for, under `{"error":{"message"}}`.
pub open spec fn decode_error_spec(v: JsonView) -> Option<Seq<char>> {
    match get_spec(v, "error"@) {
        Some(e) => decode_str_spec(e, "message"@),
        None => None,
    }
}

fn decode_u64_field(v: &JsonValue, key: &str) -> (r: Option<u64>)
    ensures
        r == decode_u64_spec(v@, key@),
{
    match v.get(key) {
        Some(x) => match x {
            JsonValue::Int(i) => if *i >= 0 {
                Some(*i as u64)
            } else {
                None
            },
            _ => None,
        },
        None => None,
    }
}

fn decode_str_field(v: &JsonValue, key: &str) -> (r: Option<String>)
    ensures
        match r {
            Some(s) => decode_str_spec(v@, key@) == Some(s@),
            None => decode_str_spec(v@, key@) is None,
        },
{
    match v.get(key) {
        Some(x) => match x.as_str() {
            Some(s) => Some(s.clone()),
            None => None,
        },
        None => None,
    }
}

fn decode_opt_str_field(v: &JsonValue, key: &str) -> (r: Option<Option<String>>)
    ensures
        match r {
            Some(o) => decode_opt_str_spec(v@, key@) == Some(crate::message::opt_str_view(o)),
            None => decode_opt_str_spec(v@, key@) is None,
        },
{
    match v.get(key) {
        Some(x) => match x.as_str() {
            Some(s) => Some(Some(s.clone())),
            None => None,
        },
        None => Some(None),
    }
}

fn decode_usage(v: &JsonValue) -> (r: Option<Usage>)
    ensures
        match r {
            Some(u) => decode_usage_spec(v@) == Some(u@),
            None => decode_usage_spec(v@) is None,
        },
{
    let prompt_tokens = match decode_u64_field(v, "prompt_tokens") {
        Some(x) => x,
        None => {
            return None;
        },
    };
    let completion_tokens = match decode_u64_field(v, "completion_tokens") {
        Some(x) => x,
        None => {
            return None;
        },
    };
    let total_tokens = match decode_u64_field(v, "total_tokens") {
        Some(x) => x,
        None => {
            return None;
        },
    };
    Some(Usage { prompt_tokens, completion_tokens, total_tokens })
}

fn decode_choice(v: &JsonValue) -> (r: Option<Choice>)
    ensures
        match r {
            Some(c) => decode_choice_spec(v@) == Some(c@),
            None => decode_choice_spec(v@) is None,
        },
{
    let message = match v.get("message") {
        Some(mv) => match decode_message(mv) {
            Some(m) => m,
            None => {
                return None;
            },
        },
        None => {
            return None;
        },
    };
    let finish_reason = match decode_str_field(v, "finish_reason") {
        Some(s) => s,
        None => {
            return None;
        },
    };
    let index = match decode_u64_field(v, "index") {
        Some(i) => i,
        None => {
            return None;
        },
    };
    Some(Choice { message, finish_reason, index })
}

/// One undecodable element makes the whole choice list undecodable.
proof fn lemma_decode_choices_fail(items: Seq<JsonView>, i: int)
    requires
        0 <= i < items.len(),
        decode_choice_spec(items[i]) is None,
    ensures
        decode_choices_spec(items) is None,
    decreases items.len(),
{
    if i < items.len() - 1 {
        lemma_decode_choices_fail(items.drop_last(), i);
    }
}

/// Parse a successful completion response from its wire value. `None` marks
/// a protocol mismatch, which the caller treats as fatal.
pub fn parse_response(v: &JsonValue) -> (r: Option<ChatResponse>)
    ensures
        match r {
            Some(resp) => decode_response_spec(v@) == Some(resp@),
            None => decode_response_spec(v@) is None,
        },
{
    let usage_value = match v.get("usage") {
        Some(u) => u,
        None => {
            return None;
        },
    };
    let choices_value = match v.get("choices") {
        Some(c) => c,
        None => {
            return None;
        },
    };
    let items = match choices_value {
        JsonValue::Arr(items) => items,
        _ => {
            return None;
        },
    };
    let id = match decode_opt_str_field(v, "id") {
        Some(o) => o,
        None => {
            return None;
        },
    };
    let object = match decode_opt_str_field(v, "object") {
        Some(o) => o,
        None => {
            return None;
        },
    };
    let created = match decode_u64_field(v, "created") {
        Some(c) => c,
        None => {
            return None;
        },
    };
    let model = match decode_str_field(v, "model") {
        Some(m) => m,
        None => {
            return None;
        },
    };
    let usage = match decode_usage(usage_value) {
        Some(u) => u,
        None => {
            return None;
        },
    };
    proof {
        crate::json::lemma_views_of_items(items@);
    }
    let mut choices: Vec<Choice> = Vec::new();
    let mut i: usize = 0;
    #[verifier::loop_isolation(false)]
    while i < items.len()
        invariant
            i <= items.len(),
            choices@.len() == i as int,
            decode_choices_spec(crate::json::views_of_items(items@).take(i as int)) == Some(
                choices@.map_values(|c: Choice| c@),
            ),
        decreases items.len() - i,
    {
        let ghost iv = crate::json::views_of_items(items@);
        match decode_choice(&items[i]) {
            Some(c) => {
                choices.push(c);
                proof {
                    assert(iv.take(i + 1).drop_last() =~= iv.take(i as int));
                    assert(choices@.map_values(|c: Choice| c@) =~= choices@.drop_last().map_values(
                        |c: Choice| c@,
                    ).push(choices@.last()@));
                }
                i += 1;
            },
            None => {
                proof {
                    lemma_decode_choices_fail(iv, i as int);
                }
                return None;
            },
        }
    }
    proof {
        assert(crate::json::views_of_items(items@).take(items@.len() as int)
            =~= crate::json::views_of_items(items@));
    }
    Some(ChatResponse { id, object, created, model, usage, choices })
}

/// Parse the alternate error shape from a wire value.
pub fn parse_error_response(v: &JsonValue) -> (r: Option<ErrorResponse>)
    ensures
        match r {
            Some(e) => decode_error_spec(v@) == Some(e.error.message@),
            None => decode_error_spec(v@) is None,
        },
{
    match v.get("error") {
        Some(e) => match decode_str_field(e, "message") {
            Some(message) => Some(ErrorResponse { error: ErrorDetail { message } }),
            None => None,
        },
        None => None,
    }
}

} // verus!
