//! The completion client: the conversation it accumulates and the pure side
//! of one `complete` call. Planning a call applies the `ping` shortcut,
//! extracts a recognized `/search` command prefix from the last user turn,
//! resolves the endpoint and builds the request body; accepting a parsed
//! response appends exactly one assistant turn. The surrounding process
//! performs the HTTP exchange between the two.

use vstd::prelude::*;

use crate::config::ConfigManager;
use crate::endpoint::completions_url_spec;
use crate::endpoint::get_completions_url;
use crate::json::JsonValue;
use crate::json::JsonView;
use crate::message::content_text_spec;
use crate::message::message_views;
use crate::message::part_views;
use crate::message::ContentPart;
use crate::message::ContentPartView;
use crate::message::ContentView;
use crate::message::ImageUrl;
use crate::message::Message;
use crate::message::MessageContent;
use crate::message::MessageView;
use crate::message::Role;
use crate::request::encode_request;
use crate::request::encode_request_spec;
use crate::request::encode_tools_request;
use crate::request::encode_tools_request_spec;
use crate::request::ChatRequest;
use crate::response::ChatResponse;
use crate::text::is_ping;
use crate::text::is_ping_spec;
use crate::text::starts_with_spec;
use crate::text::starts_with_str;
use crate::text::str_eq;
use crate::text::strip_prefix_and_trim;
use crate::text::strip_prefix_spec;
use crate::text::trim_ascii;
use crate::text::trim_spec;

verus! {

/// The conversation and configuration one invocation works with.
pub struct GptClient {
    pub config_manager: ConfigManager,
    pub messages: Vec<Message>,
}

/// A freshly appended plain turn: the role's wire name, trimmed text, no
/// metadata.
pub open spec fn plain_turn_spec(role: Role, text: Seq<char>) -> MessageView {
    MessageView {
        role: role.name_spec(),
        name: None,
        tool_call_id: None,
        tool_calls: None,
        content: ContentView::Text(trim_spec(text)),
    }
}

/// Whether the last turn carries a recognized `/search` command: a user
/// turn whose plain text starts, after trimming, with the prefix.
pub open spec fn search_prefixed_spec(m: MessageView) -> bool {
    &&& m.role == "user"@
    &&& m.content is Text
    &&& starts_with_spec(trim_spec(m.content->Text_0), "/search"@)
}

/// The turn with the command prefix and surrounding whitespace removed.
pub open spec fn stripped_turn_spec(m: MessageView) -> MessageView {
    MessageView {
        content: ContentView::Text(strip_prefix_spec(m.content->Text_0, ("/search"@).len())),
        ..m
    }
}

/// The model a call uses: the search-capable variant replaces a `gpt`-family
/// model in augmented mode; anything else is used as configured.
pub open spec fn select_model_spec(model: Seq<char>, use_search: bool) -> Seq<char> {
    if use_search && starts_with_spec(model, "gpt"@) {
        "gpt-4o-search-preview"@
    } else {
        model
    }
}

/// The model a call uses (see [`select_model_spec`]).
pub fn select_model(model: &String, use_search: bool) -> (r: String)
    ensures
        r@ == select_model_spec(model@, use_search),
{
    if use_search && starts_with_str(model.as_str(), "gpt") {
        "gpt-4o-search-preview".to_owned()
    } else {
        model.clone()
    }
}

/// What one planned completion call amounts to.
pub enum CompletionPlan {
    /// The liveness shortcut answered locally; no request is sent.
    Pong,
    /// A request to send: the resolved URL and the encoded body.
    Call { url: String, body: JsonValue },
}

impl GptClient {
    /// A client over a loaded configuration, opening with the standing
    /// system instruction.
    pub fn with_config(config_manager: ConfigManager, system_prompt: String) -> (r: GptClient)
        ensures
            r.config_manager.config@ == config_manager.config@,
            r.config_manager.config_directory@ == config_manager.config_directory@,
            message_views(r.messages@) =~= seq![
                MessageView {
                    role: Role::System.name_spec(),
                    name: None,
                    tool_call_id: None,
                    tool_calls: None,
                    content: ContentView::Text(system_prompt@),
                },
            ],
    {
        let mut messages: Vec<Message> = Vec::new();
        messages.push(Message::plain(Role::System, system_prompt));
        GptClient { config_manager, messages }
    }

    /// Append one plain turn, with its text trimmed.
    pub fn add_message(&mut self, role: Role, text: String)
        ensures
            message_views(final(self).messages@) =~= message_views(old(self).messages@).push(
                plain_turn_spec(role, text@),
            ),
            final(self).config_manager == old(self).config_manager,
    {
        let trimmed = trim_ascii(text.as_str()).to_owned();
        self.messages.push(Message::plain(role, trimmed));
    }

    /// Append one mixed turn: the optional caption first, then the image.
    pub fn add_image_message(&mut self, role: Role, text: Option<String>, image_url: String)
        ensures
            message_views(final(self).messages@) =~= message_views(old(self).messages@).push(
                MessageView {
                    role: role.name_spec(),
                    name: None,
                    tool_call_id: None,
                    tool_calls: None,
                    content: ContentView::Multi(
                        match text {
                            Option::Some(t) => seq![
                                ContentPartView::Text(t@),
                                ContentPartView::ImageUrl(image_url@),
                            ],
                            Option::None => seq![ContentPartView::ImageUrl(image_url@)],
                        },
                    ),
                },
            ),
            final(self).config_manager == old(self).config_manager,
    {
        let ghost tview = crate::message::opt_str_view(text);
        let ghost uview = image_url@;
        let mut content_parts: Vec<ContentPart> = Vec::new();
        match text {
            Some(t) => content_parts.push(ContentPart::Text { text: t }),
            None => (),
        }
        content_parts.push(ContentPart::ImageUrl { image_url: ImageUrl { url: image_url } });
        proof {
            if tview is Some {
                assert(part_views(content_parts@) =~= seq![
                    ContentPartView::Text(tview->0),
                    ContentPartView::ImageUrl(uview),
                ]);
            } else {
                assert(part_views(content_parts@) =~= seq![ContentPartView::ImageUrl(uview)]);
            }
        }
        self.messages.push(
            Message {
                role: role.as_str().to_owned(),
                name: None,
                tool_call_id: None,
                tool_calls: None,
                content: MessageContent::Multi(content_parts),
            },
        );
    }

    /// Plan one completion call. The `ping` shortcut answers `pong` locally;
    /// otherwise a recognized `/search` prefix is stripped from the last
    /// user turn in place (so it is never forwarded), the endpoint is
    /// resolved, and the request body is built over the full conversation
    /// with the selected model and, in augmented mode, the web-search
    /// option.
    pub fn prepare_completion(&mut self, base_url: &str, max_tokens: Option<u32>) -> (r:
        CompletionPlan)
        requires
            old(self).messages@.len() > 0,
        ensures
            final(self).config_manager == old(self).config_manager,
            ({
                let olds = message_views(old(self).messages@);
                let last = olds.last();
                let pinged = is_ping_spec(content_text_spec(last.content));
                let searched = !pinged && search_prefixed_spec(last);
                let news = if searched {
                    olds.update(olds.len() - 1, stripped_turn_spec(last))
                } else {
                    olds
                };
                match r {
                    CompletionPlan::Pong => pinged && message_views(final(self).messages@)
                        =~= olds.push(plain_turn_spec(Role::Assistant, "pong"@)),
                    CompletionPlan::Call { url, body } => {
                        &&& !pinged
                        &&& message_views(final(self).messages@) =~= news
                        &&& url@ == completions_url_spec(base_url@)
                        &&& body@ == encode_request_spec(
                            select_model_spec(old(self).config_manager.config@.model, searched),
                            news,
                            if searched {
                                Some(JsonView::Obj(Seq::empty()))
                            } else {
                                None
                            },
                            max_tokens,
                        )
                    },
                }
            }),
    {
        let last_idx = self.messages.len() - 1;
        let flat = self.messages[last_idx].content.to_string();
        if is_ping(flat.as_str()) {
            self.add_message(Role::Assistant, "pong".to_owned());
            proof {
                reveal_strlit("pong");
                assert(trim_spec("pong"@) =~= "pong"@);
            }
            return CompletionPlan::Pong;
        }
        let mut use_search = false;
        let last = self.messages.pop().unwrap();
        let replaced: Message = if str_eq(last.role.as_str(), "user") {
            match last.content {
                MessageContent::Text(content) => {
                    let t = trim_ascii(content.as_str());
                    if starts_with_str(t, "/search") {
                        proof {
                            reveal_strlit("/search");
                        }
                        let stripped = strip_prefix_and_trim(content.as_str(), 7);
                        use_search = true;
                        Message {
                            role: last.role,
                            name: last.name,
                            tool_call_id: last.tool_call_id,
                            tool_calls: last.tool_calls,
                            content: MessageContent::Text(stripped),
                        }
                    } else {
                        Message {
                            role: last.role,
                            name: last.name,
                            tool_call_id: last.tool_call_id,
                            tool_calls: last.tool_calls,
                            content: MessageContent::Text(content),
                        }
                    }
                },
                MessageContent::Multi(parts) => Message {
                    role: last.role,
                    name: last.name,
                    tool_call_id: last.tool_call_id,
                    tool_calls: last.tool_calls,
                    content: MessageContent::Multi(parts),
                },
            }
        } else {
            last
        };
        self.messages.push(replaced);
        proof {
            let olds = message_views(old(self).messages@);
            let news = message_views(self.messages@);
            if use_search {
                assert(news =~= olds.update(olds.len() - 1, stripped_turn_spec(olds.last())));
            } else {
                assert(news =~= olds);
            }
        }
        let model = select_model(&self.config_manager.config.model, use_search);
        let web_search_options: Option<JsonValue> = if use_search {
            let empty: Vec<(String, JsonValue)> = Vec::new();
            proof {
                assert(crate::json::views_of_fields(empty@) =~= Seq::<
                    (Seq<char>, JsonView),
                >::empty());
            }
            Some(JsonValue::Obj(empty))
        } else {
            None
        };
        let url = get_completions_url(base_url);
        let request = ChatRequest {
            model,
            messages: crate::message::clone_messages(&self.messages),
            web_search_options,
            max_tokens,
        };
        let body = encode_request(&request);
        CompletionPlan::Call { url, body }
    }

    /// Plan one tool-enabled completion call: the `ping` shortcut as above;
    /// otherwise the conversation is sent unchanged with the tool schema and
    /// automatic tool choice.
    pub fn prepare_tools_completion(&mut self, base_url: &str, tools: &JsonValue) -> (r:
        CompletionPlan)
        requires
            old(self).messages@.len() > 0,
        ensures
            final(self).config_manager == old(self).config_manager,
            ({
                let olds = message_views(old(self).messages@);
                let pinged = is_ping_spec(content_text_spec(olds.last().content));
                match r {
                    CompletionPlan::Pong => pinged && message_views(final(self).messages@)
                        =~= olds.push(plain_turn_spec(Role::Assistant, "pong"@)),
                    CompletionPlan::Call { url, body } => {
                        &&& !pinged
                        &&& message_views(final(self).messages@) =~= olds
                        &&& url@ == completions_url_spec(base_url@)
                        &&& body@ == encode_tools_request_spec(
                            old(self).config_manager.config@.model,
                            olds,
                            tools@,
                        )
                    },
                }
            }),
    {
        let last_idx = self.messages.len() - 1;
        let flat = self.messages[last_idx].content.to_string();
        if is_ping(flat.as_str()) {
            self.add_message(Role::Assistant, "pong".to_owned());
            proof {
                reveal_strlit("pong");
                assert(trim_spec("pong"@) =~= "pong"@);
            }
            return CompletionPlan::Pong;
        }
        let url = get_completions_url(base_url);
        let body = encode_tools_request(&self.config_manager.config.model, &self.messages, tools);
        CompletionPlan::Call { url, body }
    }

    /// Accept a parsed completion: extract the first choice's text, append
    /// it as exactly one assistant turn, and hand the text back.
    pub fn accept_completion(&mut self, response: &ChatResponse) -> (r: String)
        requires
            response.choices@.len() > 0,
        ensures
            r@ == content_text_spec(response.choices@[0]@.message.content),
            message_views(final(self).messages@) =~= message_views(old(self).messages@).push(
                plain_turn_spec(Role::Assistant, r@),
            ),
            final(self).config_manager == old(self).config_manager,
    {
        let text = response.choices[0].message.content.to_string();
        let copy = text.clone();
        self.add_message(Role::Assistant, copy);
        text
    }
}

} // verus!
