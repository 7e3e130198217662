//! The message data model: one conversation turn with a role, plain or mixed
//! text/image content, and optional tool metadata that passes through the
//! wire untouched.

use vstd::prelude::*;

use crate::json::JsonValue;
use crate::json::JsonView;

verus! {

/// The speaker of a conversation turn.
#[derive(Clone, Copy, PartialEq, Eq, Structural, Debug)]
pub enum Role {
    System,
    User,
    Assistant,
    Tool,
}

impl Role {
    /// The wire name of the role.
    pub open spec fn name_spec(self) -> Seq<char> {
        match self {
            Role::System => "system"@,
            Role::User => "user"@,
            Role::Assistant => "assistant"@,
            Role::Tool => "tool"@,
        }
    }

    /// The wire name of the role.
    pub fn as_str(self) -> (r: &'static str)
        ensures
            r@ == self.name_spec(),
    {
        match self {
            Role::System => "system",
            Role::User => "user",
            Role::Assistant => "assistant",
            Role::Tool => "tool",
        }
    }

    /// The role named by a wire string, if any.
    pub fn from_name(s: &str) -> (r: Option<Role>)
        ensures
            match r {
                Some(role) => s@ == role.name_spec(),
                None => s@ != Role::System.name_spec() && s@ != Role::User.name_spec() && s@
                    != Role::Assistant.name_spec() && s@ != Role::Tool.name_spec(),
            },
    {
        if crate::text::str_eq(s, "system") {
            Some(Role::System)
        } else if crate::text::str_eq(s, "user") {
            Some(Role::User)
        } else if crate::text::str_eq(s, "assistant") {
            Some(Role::Assistant)
        } else if crate::text::str_eq(s, "tool") {
            Some(Role::Tool)
        } else {
            None
        }
    }
}

/// An image reference inside mixed content.
pub struct ImageUrl {
    pub url: String,
}

impl View for ImageUrl {
    type V = Seq<char>;

    open spec fn view(&self) -> Seq<char> {
        self.url@
    }
}

impl Clone for ImageUrl {
    /// A clone carries the same view.
    fn clone(&self) -> (r: Self)
        ensures
            r@ == self@,
    {
        ImageUrl { url: self.url.clone() }
    }
}

/// One part of a mixed-content message.
pub enum ContentPart {
    Text { text: String },
    ImageUrl { image_url: ImageUrl },
}

/// The mathematical value of a [`ContentPart`].
#[verifier::ext_equal]
pub enum ContentPartView {
    Text(Seq<char>),
    ImageUrl(Seq<char>),
}

impl View for ContentPart {
    type V = ContentPartView;

    open spec fn view(&self) -> ContentPartView {
        match self {
            ContentPart::Text { text } => ContentPartView::Text(text@),
            ContentPart::ImageUrl { image_url } => ContentPartView::ImageUrl(image_url@),
        }
    }
}

impl Clone for ContentPart {
    /// A clone carries the same view.
    fn clone(&self) -> (r: Self)
        ensures
            r@ == self@,
    {
        match self {
            ContentPart::Text { text } => ContentPart::Text { text: text.clone() },
            ContentPart::ImageUrl { image_url } => ContentPart::ImageUrl {
                image_url: image_url.clone(),
            },
        }
    }
}

/// The views of a sequence of parts, pointwise.
pub open spec fn part_views(parts: Seq<ContentPart>) -> Seq<ContentPartView> {
    parts.map_values(|p: ContentPart| p@)
}

/// Message content: either one plain string or an ordered list of parts.
pub enum MessageContent {
    Text(String),
    Multi(Vec<ContentPart>),
}

/// The mathematical value of a [`MessageContent`].
#[verifier::ext_equal]
pub enum ContentView {
    Text(Seq<char>),
    Multi(Seq<ContentPartView>),
}

impl View for MessageContent {
    type V = ContentView;

    open spec fn view(&self) -> ContentView {
        match self {
            MessageContent::Text(t) => ContentView::Text(t@),
            MessageContent::Multi(parts) => ContentView::Multi(part_views(parts@)),
        }
    }
}

/// The flattened text of one part: its text, or a fixed placeholder for an
/// image.
pub open spec fn part_text_spec(p: ContentPartView) -> Seq<char> {
    match p {
        ContentPartView::Text(t) => t,
        ContentPartView::ImageUrl(_) => "[Image]"@,
    }
}

/// The flattened text of a part list: each part's text, joined by single
/// spaces.
pub open spec fn flatten_parts_spec(parts: Seq<ContentPartView>) -> Seq<char>
    decreases parts.len(),
{
    if parts.len() == 0 {
        Seq::empty()
    } else if parts.len() == 1 {
        part_text_spec(parts[0])
    } else {
        flatten_parts_spec(parts.drop_last()) + " "@ + part_text_spec(parts.last())
    }
}

/// The flattened text of message content.
pub open spec fn content_text_spec(c: ContentView) -> Seq<char> {
    match c {
        ContentView::Text(t) => t,
        ContentView::Multi(parts) => flatten_parts_spec(parts),
    }
}

/// Whether message content is empty: an empty string, or an empty part list.
pub open spec fn content_is_empty_spec(c: ContentView) -> bool {
    match c {
        ContentView::Text(t) => t.len() == 0,
        ContentView::Multi(parts) => parts.len() == 0,
    }
}

impl MessageContent {
    /// The plain text of the content, with a fixed placeholder for mixed
    /// content.
    pub fn as_str(&self) -> (r: &str)
        ensures
            match self@ {
                ContentView::Text(t) => r@ == t,
                ContentView::Multi(_) => r@ == "[Multi-content message]"@,
            },
    {
        match self {
            MessageContent::Text(text) => text.as_str(),
            MessageContent::Multi(_) => "[Multi-content message]",
        }
    }

    /// Whether the content is empty.
    pub fn is_empty(&self) -> (r: bool)
        ensures
            r == content_is_empty_spec(self@),
    {
        match self {
            MessageContent::Text(text) => text.unicode_len() == 0,
            MessageContent::Multi(parts) => parts.len() == 0,
        }
    }

    /// The flattened display text: the string itself, or every part's text
    /// (images as a placeholder) joined by single spaces. Total on any
    /// content, including all-image messages.
    pub fn to_string(&self) -> (r: String)
        ensures
            r@ == content_text_spec(self@),
    {
        match self {
            MessageContent::Text(text) => text.clone(),
            MessageContent::Multi(parts) => {
                let mut acc = String::new();
                let mut i: usize = 0;
                #[verifier::loop_isolation(false)]
                while i < parts.len()
                    invariant
                        i <= parts.len(),
                        acc@ == flatten_parts_spec(part_views(parts@).take(i as int)),
                    decreases parts.len() - i,
                {
                    if i > 0 {
                        acc.append(" ");
                    }
                    match &parts[i] {
                        ContentPart::Text { text } => acc.append(text.as_str()),
                        ContentPart::ImageUrl { .. } => acc.append("[Image]"),
                    }
                    proof {
                        let pv = part_views(parts@);
                        assert(pv.take(i + 1).drop_last() =~= pv.take(i as int));
                        assert(pv.take(i + 1).last() == pv[i as int]);
                        if i > 0 {
                            assert(acc@ == flatten_parts_spec(pv.take(i + 1)));
                        } else {
                            assert(acc@ =~= part_text_spec(pv[0]));
                        }
                    }
                    i += 1;
                }
                proof {
                    assert(part_views(parts@).take(parts@.len() as int) =~= part_views(parts@));
                }
                acc
            },
        }
    }
}

impl Clone for MessageContent {
    /// A clone carries the same view.
    fn clone(&self) -> (r: Self)
        ensures
            r@ == self@,
    {
        match self {
            MessageContent::Text(text) => MessageContent::Text(text.clone()),
            MessageContent::Multi(parts) => {
                let mut out: Vec<ContentPart> = Vec::new();
                let mut i: usize = 0;
                #[verifier::loop_isolation(false)]
                while i < parts.len()
                    invariant
                        i <= parts.len(),
                        out@.len() == i as int,
                        forall|j: int| 0 <= j < i ==> (#[trigger] out@[j])@ == parts@[j]@,
                    decreases parts.len() - i,
                {
                    out.push(parts[i].clone());
                    i += 1;
                }
                proof {
                    assert(part_views(out@) =~= part_views(parts@));
                }
                MessageContent::Multi(out)
            },
        }
    }
}

/// The view of an optional string.
pub open spec fn opt_str_view(o: Option<String>) -> Option<Seq<char>> {
    match o {
        Option::None => None,
        Option::Some(s) => Some(s@),
    }
}

/// The view of an optional structured value.
pub open spec fn opt_json_view(o: Option<JsonValue>) -> Option<JsonView> {
    match o {
        Option::None => None,
        Option::Some(v) => Some(v@),
    }
}

/// One conversation turn.
pub struct Message {
    pub role: String,
    pub name: Option<String>,
    pub tool_call_id: Option<String>,
    pub tool_calls: Option<JsonValue>,
    pub content: MessageContent,
}

/// The mathematical value of a [`Message`].
#[verifier::ext_equal]
pub struct MessageView {
    pub role: Seq<char>,
    pub name: Option<Seq<char>>,
    pub tool_call_id: Option<Seq<char>>,
    pub tool_calls: Option<JsonView>,
    pub content: ContentView,
}

impl View for Message {
    type V = MessageView;

    open spec fn view(&self) -> MessageView {
        MessageView {
            role: self.role@,
            name: opt_str_view(self.name),
            tool_call_id: opt_str_view(self.tool_call_id),
            tool_calls: opt_json_view(self.tool_calls),
            content: self.content@,
        }
    }
}

fn clone_opt_string(o: &Option<String>) -> (r: Option<String>)
    ensures
        opt_str_view(r) == opt_str_view(*o),
{
    match o {
        Option::None => None,
        Option::Some(s) => Some(s.clone()),
    }
}

impl Clone for Message {
    /// A clone carries the same view.
    fn clone(&self) -> (r: Self)
        ensures
            r@ == self@,
    {
        Message {
            role: self.role.clone(),
            name: clone_opt_string(&self.name),
            tool_call_id: clone_opt_string(&self.tool_call_id),
            tool_calls: match &self.tool_calls {
                Option::None => None,
                Option::Some(v) => Some(v.clone()),
            },
            content: self.content.clone(),
        }
    }
}

impl Message {
    /// A plain text turn: the given role, the text, and no tool metadata.
    pub fn plain(role: Role, text: String) -> (r: Message)
        ensures
            r@ == (MessageView {
                role: role.name_spec(),
                name: None,
                tool_call_id: None,
                tool_calls: None,
                content: ContentView::Text(text@),
            }),
    {
        Message {
            role: role.as_str().to_owned(),
            name: None,
            tool_call_id: None,
            tool_calls: None,
            content: MessageContent::Text(text),
        }
    }

    /// Whether the turn is well formed on the wire: a named role and content
    /// present (the content may be an empty string).
    pub fn is_valid(&self) -> (r: bool)
        ensures
            r == (self@.role.len() > 0 && !content_is_empty_spec(self@.content)),
    {
        self.role.as_str().unicode_len() > 0 && !self.content.is_empty()
    }
}

/// The views of a sequence of messages, pointwise.
pub open spec fn message_views(msgs: Seq<Message>) -> Seq<MessageView> {
    msgs.map_values(|m: Message| m@)
}

/// Whether every message in a decoded transcript is well formed: each role
/// nonempty and each content nonempty.
pub open spec fn all_valid_spec(msgs: Seq<MessageView>) -> bool {
    forall|i: int|
        0 <= i < msgs.len() ==> (#[trigger] msgs[i]).role.len() > 0 && !content_is_empty_spec(
            msgs[i].content,
        )
}

/// A copy of a transcript, turn for turn.
pub fn clone_messages(msgs: &Vec<Message>) -> (r: Vec<Message>)
    ensures
        message_views(r@) == message_views(msgs@),
{
    let mut out: Vec<Message> = Vec::new();
    let mut i: usize = 0;
    #[verifier::loop_isolation(false)]
    while i < msgs.len()
        invariant
            i <= msgs.len(),
            out@.len() == i as int,
            forall|j: int| 0 <= j < i ==> (#[trigger] out@[j])@ == msgs@[j]@,
        decreases msgs.len() - i,
    {
        out.push(msgs[i].clone());
        i += 1;
    }
    proof {
        assert(message_views(out@) =~= message_views(msgs@));
    }
    out
}

/// Validation applied to a transcript handed in from outside: accepts it
/// exactly when every message has a nonempty role and nonempty content.
pub fn messages_are_valid(msgs: &Vec<Message>) -> (r: bool)
    ensures
        r == all_valid_spec(message_views(msgs@)),
{
    let mut i: usize = 0;
    #[verifier::loop_isolation(false)]
    while i < msgs.len()
        invariant
            i <= msgs.len(),
            forall|j: int|
                0 <= j < i ==> (#[trigger] message_views(msgs@)[j]).role.len() > 0
                    && !content_is_empty_spec(message_views(msgs@)[j].content),
        decreases msgs.len() - i,
    {
        if !msgs[i].is_valid() {
            proof {
                assert(message_views(msgs@)[i as int] == msgs@[i as int]@);
            }
            return false;
        }
        i += 1;
    }
    true
}

} // verus!
