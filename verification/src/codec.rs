//! The wire codec for messages: content encodes as a bare string (plain
//! text) or a list of tagged part objects (mixed content); a message encodes
//! as an object carrying its role, optional metadata and content. Decoding
//! tries the string shape first and falls back to the list shape, so the two
//! forms round-trip losslessly.

use vstd::prelude::*;

use crate::json::get_spec;
use crate::json::json_view;
use crate::json::lemma_views_of_fields;
use crate::json::lemma_views_of_items;
use crate::json::views_of_fields;
use crate::json::views_of_items;
use crate::json::JsonValue;
use crate::json::JsonView;
use crate::message::opt_str_view;
use crate::message::part_views;
use crate::message::ContentPart;
use crate::message::ContentPartView;
use crate::message::ContentView;
use crate::message::ImageUrl;
use crate::message::Message;
use crate::message::MessageContent;
use crate::message::MessageView;

verus! {

/// The wire form of one content part.
pub open spec fn encode_part_spec(p: ContentPartView) -> JsonView {
    match p {
        ContentPartView::Text(t) => JsonView::Obj(
            seq![("type"@, JsonView::Str("text"@)), ("text"@, JsonView::Str(t))],
        ),
        ContentPartView::ImageUrl(u) => JsonView::Obj(
            seq![
                ("type"@, JsonView::Str("image_url"@)),
                ("image_url"@, JsonView::Obj(seq![("url"@, JsonView::Str(u))])),
            ],
        ),
    }
}

/// The wire form of message content: a bare string, or a list of parts.
pub open spec fn encode_content_spec(c: ContentView) -> JsonView {
    match c {
        ContentView::Text(t) => JsonView::Str(t),
        ContentView::Multi(parts) => JsonView::Arr(
            parts.map_values(|p: ContentPartView| encode_part_spec(p)),
        ),
    }
}

/// The part a tagged wire object stands for, if its shape is recognized.
pub open spec fn decode_part_spec(v: JsonView) -> Option<ContentPartView> {
    match get_spec(v, "type"@) {
        Some(tag) => match tag {
            JsonView::Str(kind) => if kind == "text"@ {
                match get_spec(v, "text"@) {
                    Some(tv) => match tv {
                        JsonView::Str(t) => Some(ContentPartView::Text(t)),
                        _ => None,
                    },
                    None => None,
                }
            } else if kind == "image_url"@ {
                match get_spec(v, "image_url"@) {
                    Some(iv) => match get_spec(iv, "url"@) {
                        Some(uv) => match uv {
                            JsonView::Str(u) => Some(ContentPartView::ImageUrl(u)),
                            _ => None,
                        },
                        None => None,
                    },
                    None => None,
                }
            } else {
                None
            },
            _ => None,
        },
        None => None,
    }
}

/// The part list a wire array stands for; `None` as soon as one element is
/// not a recognized part.
pub open spec fn decode_parts_spec(items: Seq<JsonView>) -> Option<Seq<ContentPartView>>
    decreases items.len(),
{
    if items.len() == 0 {
        Some(Seq::empty())
    } else {
        match (decode_parts_spec(items.drop_last()), decode_part_spec(items.last())) {
            (Some(ps), Some(p)) => Some(ps.push(p)),
            _ => None,
        }
    }
}

/// The content a wire value stands for: a string decodes as plain text, an
/// array as mixed parts, anything else as nothing.
pub open spec fn decode_content_spec(v: JsonView) -> Option<ContentView> {
    match v {
        JsonView::Str(t) => Some(ContentView::Text(t)),
        JsonView::Arr(items) => match decode_parts_spec(items) {
            Some(ps) => Some(ContentView::Multi(ps)),
            None => None,
        },
        _ => None,
    }
}

/// Encode one content part into its tagged wire object.
pub fn encode_part(p: &ContentPart) -> (r: JsonValue)
    ensures
        r@ == encode_part_spec(p@),
{
    match p {
        ContentPart::Text { text } => {
            let mut fields: Vec<(String, JsonValue)> = Vec::new();
            fields.push(("type".to_owned(), JsonValue::Str("text".to_owned())));
            fields.push(("text".to_owned(), JsonValue::Str(text.clone())));
            proof {
                lemma_views_of_fields(fields@);
                assert(views_of_fields(fields@) =~~= encode_part_spec(p@)->Obj_0);
            }
            JsonValue::Obj(fields)
        },
        ContentPart::ImageUrl { image_url } => {
            let mut inner: Vec<(String, JsonValue)> = Vec::new();
            inner.push(("url".to_owned(), JsonValue::Str(image_url.url.clone())));
            proof {
                lemma_views_of_fields(inner@);
                assert(views_of_fields(inner@) =~~= seq![("url"@, JsonView::Str(image_url.url@))]);
            }
            let mut fields: Vec<(String, JsonValue)> = Vec::new();
            fields.push(("type".to_owned(), JsonValue::Str("image_url".to_owned())));
            fields.push(("image_url".to_owned(), JsonValue::Obj(inner)));
            proof {
                lemma_views_of_fields(fields@);
                assert(views_of_fields(fields@) =~~= encode_part_spec(p@)->Obj_0);
            }
            JsonValue::Obj(fields)
        },
    }
}

/// Encode message content into its wire form.
pub fn encode_content(c: &MessageContent) -> (r: JsonValue)
    ensures
        r@ == encode_content_spec(c@),
{
    match c {
        MessageContent::Text(t) => JsonValue::Str(t.clone()),
        MessageContent::Multi(parts) => {
            let mut items: Vec<JsonValue> = Vec::new();
            let mut i: usize = 0;
            #[verifier::loop_isolation(false)]
            while i < parts.len()
                invariant
                    i <= parts.len(),
                    items@.len() == i as int,
                    forall|j: int|
                        0 <= j < i ==> json_view(#[trigger] items@[j]) == encode_part_spec(
                            parts@[j]@,
                        ),
                decreases parts.len() - i,
            {
                items.push(encode_part(&parts[i]));
                i += 1;
            }
            proof {
                lemma_views_of_items(items@);
                assert(views_of_items(items@) =~~= part_views(parts@).map_values(
                    |p: ContentPartView| encode_part_spec(p),
                ));
            }
            JsonValue::Arr(items)
        },
    }
}

/// Decode a tagged wire object into a content part.
pub fn decode_part(v: &JsonValue) -> (r: Option<ContentPart>)
    ensures
        match r {
            Some(p) => decode_part_spec(v@) == Some(p@),
            None => decode_part_spec(v@) is None,
        },
{
    let tag = match v.get("type") {
        Some(t) => t,
        None => {
            return None;
        },
    };
    let kind = match tag.as_str() {
        Some(s) => s,
        None => {
            return None;
        },
    };
    if crate::text::str_eq(kind.as_str(), "text") {
        match v.get("text") {
            Some(tv) => match tv.as_str() {
                Some(t) => Some(ContentPart::Text { text: t.clone() }),
                None => None,
            },
            None => None,
        }
    } else if crate::text::str_eq(kind.as_str(), "image_url") {
        match v.get("image_url") {
            Some(iv) => match iv.get("url") {
                Some(uv) => match uv.as_str() {
                    Some(u) => Some(
                        ContentPart::ImageUrl { image_url: ImageUrl { url: u.clone() } },
                    ),
                    None => None,
                },
                None => None,
            },
            None => None,
        }
    } else {
        None
    }
}

/// One undecodable element makes the whole part list undecodable.
proof fn lemma_decode_parts_fail(items: Seq<JsonView>, i: int)
    requires
        0 <= i < items.len(),
        decode_part_spec(items[i]) is None,
    ensures
        decode_parts_spec(items) is None,
    decreases items.len(),
{
    if i == items.len() - 1 {
    } else {
        lemma_decode_parts_fail(items.drop_last(), i);
    }
}

/// Decode a wire value into message content: string shape first, then list
/// shape.
pub fn decode_content(v: &JsonValue) -> (r: Option<MessageContent>)
    ensures
        match r {
            Some(c) => decode_content_spec(v@) == Some(c@),
            None => decode_content_spec(v@) is None,
        },
{
    match v {
        JsonValue::Str(t) => Some(MessageContent::Text(t.clone())),
        JsonValue::Arr(items) => {
            proof {
                lemma_views_of_items(items@);
            }
            let mut parts: Vec<ContentPart> = Vec::new();
            let mut i: usize = 0;
            #[verifier::loop_isolation(false)]
            while i < items.len()
                invariant
                    i <= items.len(),
                    parts@.len() == i as int,
                    decode_parts_spec(views_of_items(items@).take(i as int)) == Some(
                        part_views(parts@),
                    ),
                decreases items.len() - i,
            {
                let ghost iv = views_of_items(items@);
                match decode_part(&items[i]) {
                    Some(p) => {
                        parts.push(p);
                        proof {
                            assert(iv.take(i + 1).drop_last() =~= iv.take(i as int));
                            assert(iv.take(i + 1).last() == iv[i as int]);
                            assert(part_views(parts@) =~= part_views(parts@.drop_last()).push(
                                parts@.last()@,
                            ));
                        }
                        i += 1;
                    },
                    None => {
                        proof {
                            lemma_decode_parts_fail(iv, i as int);
                        }
                        return None;
                    },
                }
            }
            proof {
                assert(views_of_items(items@).take(items@.len() as int) =~= views_of_items(
                    items@,
                ));
            }
            Some(MessageContent::Multi(parts))
        },
        _ => None,
    }
}

/// Decoding inverts encoding on every part.
pub proof fn lemma_part_round_trip(p: ContentPartView)
    ensures
        decode_part_spec(encode_part_spec(p)) == Some(p),
{
    reveal_with_fuel(crate::json::lookup_spec, 3);
    reveal_strlit("type");
    reveal_strlit("text");
    reveal_strlit("image_url");
    reveal_strlit("url");
    assert(("type"@)[1] != ("text"@)[1]);
    assert(("type"@).len() != ("image_url"@).len());
    match p {
        ContentPartView::Text(t) => {
            let fields = encode_part_spec(p)->Obj_0;
            assert(fields.subrange(1, 2)[0] == ("text"@, JsonView::Str(t)));
        },
        ContentPartView::ImageUrl(u) => {
            let fields = encode_part_spec(p)->Obj_0;
            assert(fields.subrange(1, 2)[0] == (
                "image_url"@,
                JsonView::Obj(seq![("url"@, JsonView::Str(u))]),
            ));
        },
    }
}

proof fn lemma_parts_round_trip(parts: Seq<ContentPartView>)
    ensures
        decode_parts_spec(parts.map_values(|q: ContentPartView| encode_part_spec(q))) == Some(
            parts,
        ),
    decreases parts.len(),
{
    let enc = parts.map_values(|q: ContentPartView| encode_part_spec(q));
    if parts.len() == 0 {
        assert(enc.len() == 0);
    } else {
        lemma_parts_round_trip(parts.drop_last());
        lemma_part_round_trip(parts.last());
        assert(enc.drop_last() =~= parts.drop_last().map_values(
            |q: ContentPartView| encode_part_spec(q),
        ));
        assert(enc.last() == encode_part_spec(parts.last()));
        assert(decode_parts_spec(enc)->Some_0 =~= parts);
    }
}

/// Round trip: decoding an encoded content value yields exactly the original
/// — the original string for plain text, the original ordered part list for
/// mixed content.
pub proof fn lemma_content_round_trip(c: ContentView)
    ensures
        decode_content_spec(encode_content_spec(c)) == Some(c),
{
    match c {
        ContentView::Text(_) => {
        },
        ContentView::Multi(parts) => {
            lemma_parts_round_trip(parts);
            assert(decode_content_spec(encode_content_spec(c))->Some_0 =~~= c);
        },
    }
}

/// The wire fields of a message: role first, then each optional metadatum
/// that is present, then the content.
pub open spec fn encode_message_fields_spec(m: MessageView) -> Seq<(Seq<char>, JsonView)> {
    let base = seq![("role"@, JsonView::Str(m.role))];
    let f1 = if m.name is Some {
        base.push(("name"@, JsonView::Str(m.name->0)))
    } else {
        base
    };
    let f2 = if m.tool_call_id is Some {
        f1.push(("tool_call_id"@, JsonView::Str(m.tool_call_id->0)))
    } else {
        f1
    };
    let f3 = if m.tool_calls is Some {
        f2.push(("tool_calls"@, m.tool_calls->0))
    } else {
        f2
    };
    f3.push(("content"@, encode_content_spec(m.content)))
}

/// The wire form of a message.
pub open spec fn encode_message_spec(m: MessageView) -> JsonView {
    JsonView::Obj(encode_message_fields_spec(m))
}

/// An optional string field: present and a string, absent, or malformed.
pub open spec fn decode_opt_str_spec(v: JsonView, key: Seq<char>) -> Option<Option<Seq<char>>> {
    match get_spec(v, key) {
        Some(x) => match x {
            JsonView::Str(s) => Some(Some(s)),
            _ => None,
        },
        None => Some(None),
    }
}

/// The message a wire object stands for, if its role is a string and its
/// content has a recognized shape.
pub open spec fn decode_message_spec(v: JsonView) -> Option<MessageView> {
    match (get_spec(v, "role"@), get_spec(v, "content"@)) {
        (Some(rv), Some(cv)) => match rv {
            JsonView::Str(role) => match (
                decode_content_spec(cv),
                decode_opt_str_spec(v, "name"@),
                decode_opt_str_spec(v, "tool_call_id"@),
            ) {
                (Some(content), Some(name), Some(tool_call_id)) => Some(
                    MessageView {
                        role,
                        name,
                        tool_call_id,
                        tool_calls: get_spec(v, "tool_calls"@),
                        content,
                    },
                ),
                _ => None,
            },
            _ => None,
        },
        _ => None,
    }
}

/// Encode a message into its wire object.
pub fn encode_message(m: &Message) -> (r: JsonValue)
    ensures
        r@ == encode_message_spec(m@),
{
    let mut fields: Vec<(String, JsonValue)> = Vec::new();
    fields.push(("role".to_owned(), JsonValue::Str(m.role.clone())));
    match &m.name {
        Some(n) => fields.push(("name".to_owned(), JsonValue::Str(n.clone()))),
        None => (),
    }
    match &m.tool_call_id {
        Some(id) => fields.push(("tool_call_id".to_owned(), JsonValue::Str(id.clone()))),
        None => (),
    }
    match &m.tool_calls {
        Some(tc) => fields.push(("tool_calls".to_owned(), tc.clone())),
        None => (),
    }
    fields.push(("content".to_owned(), encode_content(&m.content)));
    proof {
        lemma_views_of_fields(fields@);
        assert(views_of_fields(fields@) =~~= encode_message_fields_spec(m@));
    }
    JsonValue::Obj(fields)
}

fn decode_opt_str_field(v: &JsonValue, key: &str) -> (r: Option<Option<String>>)
    ensures
        match r {
            Some(o) => decode_opt_str_spec(v@, key@) == Some(opt_str_view(o)),
            None => decode_opt_str_spec(v@, key@) is None,
        },
{
    match v.get(key) {
        Some(x) => match x.as_str() {
            Some(s) => Some(Some(s.clone())),
            None => None,
        },
        None => Some(None),
    }
}

/// Decode a wire object into a message.
pub fn decode_message(v: &JsonValue) -> (r: Option<Message>)
    ensures
        match r {
            Some(m) => decode_message_spec(v@) == Some(m@),
            None => decode_message_spec(v@) is None,
        },
{
    let role = match v.get("role") {
        Some(rv) => match rv.as_str() {
            Some(s) => s.clone(),
            None => {
                return None;
            },
        },
        None => {
            return None;
        },
    };
    let content = match v.get("content") {
        Some(cv) => match decode_content(cv) {
            Some(c) => c,
            None => {
                return None;
            },
        },
        None => {
            return None;
        },
    };
    let name = match decode_opt_str_field(v, "name") {
        Some(o) => o,
        None => {
            return None;
        },
    };
    let tool_call_id = match decode_opt_str_field(v, "tool_call_id") {
        Some(o) => o,
        None => {
            return None;
        },
    };
    let tool_calls = match v.get("tool_calls") {
        Some(tc) => Some(tc.clone()),
        None => None,
    };
    Some(Message { role, name, tool_call_id, tool_calls, content })
}

/// Round trip: decoding an encoded message yields exactly the original
/// message.
pub proof fn lemma_message_round_trip(m: MessageView)
    ensures
        decode_message_spec(encode_message_spec(m)) == Some(m),
{
    reveal_strlit("role");
    reveal_strlit("name");
    reveal_strlit("tool_call_id");
    reveal_strlit("tool_calls");
    reveal_strlit("content");
    assert(("role"@)[0] != ("name"@)[0]);
    assert(("role"@).len() == 4 && ("name"@).len() == 4 && ("tool_call_id"@).len() == 12 && (
    "tool_calls"@).len() == 10 && ("content"@).len() == 7);
    let fields = encode_message_fields_spec(m);
    let n = fields.len() as int;
    let enc = encode_message_spec(m);
    let p_name: int = 1;
    let p_tcid: int = if m.name is Some {
        2
    } else {
        1
    };
    let p_tc: int = p_tcid + if m.tool_call_id is Some {
        1int
    } else {
        0int
    };
    assert(n == p_tc + 1 + if m.tool_calls is Some {
        1int
    } else {
        0int
    });
    assert(fields[0] == ("role"@, JsonView::Str(m.role)));
    assert(fields[n - 1] == ("content"@, encode_content_spec(m.content)));
    assert forall|j: int| 0 <= j < n implies ((j == 0 && (#[trigger] fields[j]) == (
        "role"@,
        JsonView::Str(m.role),
    )) || (m.name is Some && j == p_name && fields[j] == ("name"@, JsonView::Str(m.name->0))) || (
    m.tool_call_id is Some && j == p_tcid && fields[j] == (
        "tool_call_id"@,
        JsonView::Str(m.tool_call_id->0),
    )) || (m.tool_calls is Some && j == p_tc && fields[j] == ("tool_calls"@, m.tool_calls->0)) || (
    j == n - 1 && fields[j] == ("content"@, encode_content_spec(m.content)))) by {
        if j == 0 {
        } else if m.name is Some && j == p_name {
            assert(fields[j] == ("name"@, JsonView::Str(m.name->0)));
        } else if m.tool_call_id is Some && j == p_tcid {
            assert(fields[j] == ("tool_call_id"@, JsonView::Str(m.tool_call_id->0)));
        } else if m.tool_calls is Some && j == p_tc {
            assert(fields[j] == ("tool_calls"@, m.tool_calls->0));
        } else {
            assert(j == n - 1);
        }
    }
    crate::json::lemma_lookup_at(fields, "role"@, 0);
    assert(forall|j: int| 0 <= j < n - 1 ==> (#[trigger] fields[j]).0 != "content"@);
    crate::json::lemma_lookup_at(fields, "content"@, n - 1);
    if m.name is Some {
        assert(fields[p_name] == ("name"@, JsonView::Str(m.name->0)));
        crate::json::lemma_lookup_at(fields, "name"@, p_name);
    } else {
        assert(forall|j: int| 0 <= j < n ==> (#[trigger] fields[j]).0 != "name"@);
        crate::json::lemma_lookup_at(fields, "name"@, n);
    }
    if m.tool_call_id is Some {
        assert(fields[p_tcid] == ("tool_call_id"@, JsonView::Str(m.tool_call_id->0)));
        assert(forall|j: int| 0 <= j < p_tcid ==> (#[trigger] fields[j]).0 != "tool_call_id"@);
        crate::json::lemma_lookup_at(fields, "tool_call_id"@, p_tcid);
    } else {
        assert(forall|j: int| 0 <= j < n ==> (#[trigger] fields[j]).0 != "tool_call_id"@);
        crate::json::lemma_lookup_at(fields, "tool_call_id"@, n);
    }
    if m.tool_calls is Some {
        assert(fields[p_tc] == ("tool_calls"@, m.tool_calls->0));
        assert(forall|j: int| 0 <= j < p_tc ==> (#[trigger] fields[j]).0 != "tool_calls"@);
        crate::json::lemma_lookup_at(fields, "tool_calls"@, p_tc);
    } else {
        assert(forall|j: int| 0 <= j < n ==> (#[trigger] fields[j]).0 != "tool_calls"@);
        crate::json::lemma_lookup_at(fields, "tool_calls"@, n);
    }
    lemma_content_round_trip(m.content);
    let dec = decode_message_spec(enc);
    assert(dec is Some && dec->Some_0 =~~= m);
}

} // verus!
