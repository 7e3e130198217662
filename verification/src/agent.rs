//! The bounded tool-calling agent loop, as a state machine over one run.
//! Each model turn either finishes the run or requests tool calls; each
//! executed command is recorded and counted against an immutable action
//! budget, and the run aborts the moment the budget is spent. The
//! surrounding process performs the model calls and the subprocess spawns
//! and feeds the outcomes back in.

use vstd::prelude::*;

use crate::json::get_spec;
use crate::json::JsonValue;
use crate::json::JsonView;
use crate::message::ContentView;
use crate::message::Message;
use crate::message::MessageContent;
use crate::message::MessageView;
use crate::text::first_line;
use crate::text::first_line_spec;
use crate::text::str_eq;

verus! {

/// Where a run stands.
#[derive(Clone, Copy, PartialEq, Eq, Structural, Debug)]
pub enum AgentPhase {
    /// Waiting to call the model.
    Dispatch,
    /// Processing one batch of requested tool calls.
    ToolExecution,
    /// The model returned an ordinary completion.
    Done,
    /// The action budget was spent before the model finished.
    Aborted,
}

/// One executed command and what it printed.
pub struct CommandRecord {
    pub command: String,
    pub output: String,
}

/// The per-invocation state of one agent run.
pub struct AgentRun {
    pub phase: AgentPhase,
    pub directory: String,
    pub instruction: String,
    pub action_count: usize,
    pub max_actions: usize,
    pub executed: Vec<CommandRecord>,
}

/// The mathematical value of an [`AgentRun`].
#[verifier::ext_equal]
pub struct AgentRunView {
    pub phase: AgentPhase,
    pub directory: Seq<char>,
    pub instruction: Seq<char>,
    pub action_count: int,
    pub max_actions: int,
    pub executed: Seq<(Seq<char>, Seq<char>)>,
}

impl View for AgentRun {
    type V = AgentRunView;

    open spec fn view(&self) -> AgentRunView {
        AgentRunView {
            phase: self.phase,
            directory: self.directory@,
            instruction: self.instruction@,
            action_count: self.action_count as int,
            max_actions: self.max_actions as int,
            executed: self.executed@.map_values(|c: CommandRecord| (c.command@, c.output@)),
        }
    }
}

/// A fresh run: dispatching, nothing executed yet.
pub open spec fn init_run_spec(directory: Seq<char>, instruction: Seq<char>, max_actions: int) -> AgentRunView {
    AgentRunView {
        phase: AgentPhase::Dispatch,
        directory,
        instruction,
        action_count: 0,
        max_actions,
        executed: Seq::empty(),
    }
}

/// The run after one model turn: tool calls put it in tool execution, any
/// other finish reason completes it.
pub open spec fn begin_turn_spec(r: AgentRunView, tool_calls_requested: bool) -> AgentRunView {
    if tool_calls_requested {
        AgentRunView { phase: AgentPhase::ToolExecution, ..r }
    } else {
        AgentRunView { phase: AgentPhase::Done, ..r }
    }
}

/// The run after one executed command: recorded and counted.
pub open spec fn record_execution_spec(
    r: AgentRunView,
    command: Seq<char>,
    output: Seq<char>,
) -> AgentRunView {
    AgentRunView {
        action_count: r.action_count + 1,
        executed: r.executed.push((command, output)),
        ..r
    }
}

/// The run after a batch: aborted when the budget is spent, else back to
/// dispatch.
pub open spec fn finish_batch_spec(r: AgentRunView) -> AgentRunView {
    if r.action_count >= r.max_actions {
        AgentRunView { phase: AgentPhase::Aborted, ..r }
    } else {
        AgentRunView { phase: AgentPhase::Dispatch, ..r }
    }
}

/// Tool output as the model receives it: never empty — silence becomes a
/// fixed marker.
pub open spec fn normalize_output_spec(s: Seq<char>) -> Seq<char> {
    if s.len() == 0 {
        "[no output]\n"@
    } else {
        s
    }
}

/// Tool output as the model receives it (see [`normalize_output_spec`]).
pub fn normalize_tool_output(s: String) -> (r: String)
    ensures
        r@ == normalize_output_spec(s@),
{
    if s.as_str().unicode_len() == 0 {
        "[no output]\n".to_owned()
    } else {
        s
    }
}

/// The command string of parsed tool-call arguments; empty when absent or
/// not a string.
pub open spec fn command_spec(v: JsonView) -> Seq<char> {
    match get_spec(v, "command"@) {
        Some(x) => match x {
            JsonView::Str(s) => s,
            _ => Seq::empty(),
        },
        _ => Seq::empty(),
    }
}

/// The command string of parsed tool-call arguments.
pub fn command_from_args(args: &JsonValue) -> (r: String)
    ensures
        r@ == command_spec(args@),
{
    match args.get("command") {
        Some(x) => match x.as_str() {
            Some(s) => s.clone(),
            None => {
                proof {
                    reveal_strlit("");
                    assert(""@ =~= Seq::<char>::empty());
                }
                "".to_owned()
            },
        },
        None => {
            proof {
                reveal_strlit("");
                assert(""@ =~= Seq::<char>::empty());
            }
            "".to_owned()
        },
    }
}

/// The `tool`-role turn answering one tool call.
pub fn tool_message(call_id: String, output: String) -> (r: Message)
    ensures
        r@ == (MessageView {
            role: "tool"@,
            name: None,
            tool_call_id: Some(call_id@),
            tool_calls: None,
            content: ContentView::Text(output@),
        }),
{
    Message {
        role: "tool".to_owned(),
        name: None,
        tool_call_id: Some(call_id),
        tool_calls: None,
        content: MessageContent::Text(output),
    }
}

impl AgentRun {
    /// A fresh run confined to `directory`, pursuing `instruction`, with an
    /// immutable action budget.
    pub fn new(directory: String, instruction: String, max_actions: usize) -> (r: AgentRun)
        ensures
            r@ == init_run_spec(directory@, instruction@, max_actions as int),
    {
        let r = AgentRun {
            phase: AgentPhase::Dispatch,
            directory,
            instruction,
            action_count: 0,
            max_actions,
            executed: Vec::new(),
        };
        proof {
            assert(r@.executed =~= Seq::<(Seq<char>, Seq<char>)>::empty());
        }
        r
    }

    /// Whether the budget admits no further command.
    pub fn budget_exhausted(&self) -> (r: bool)
        ensures
            r == (self@.action_count >= self@.max_actions),
    {
        self.action_count >= self.max_actions
    }

    /// Take in one model turn: a `tool_calls` finish reason starts tool
    /// execution, any other reason completes the run.
    pub fn begin_turn(&mut self, finish_reason: &str) -> (tool_calls_requested: bool)
        requires
            old(self)@.phase is Dispatch,
        ensures
            tool_calls_requested == (finish_reason@ == "tool_calls"@),
            final(self)@ == begin_turn_spec(old(self)@, tool_calls_requested),
    {
        if str_eq(finish_reason, "tool_calls") {
            self.phase = AgentPhase::ToolExecution;
            true
        } else {
            self.phase = AgentPhase::Done;
            false
        }
    }

    /// Record one executed command and its normalized output, and count it
    /// against the budget.
    pub fn record_execution(&mut self, command: String, output: String)
        requires
            old(self)@.phase is ToolExecution,
            old(self)@.action_count < old(self)@.max_actions,
        ensures
            final(self)@ == record_execution_spec(old(self)@, command@, output@),
    {
        let ghost before = self@.executed;
        self.action_count = self.action_count + 1;
        self.executed.push(CommandRecord { command, output });
        proof {
            assert(self@.executed =~= before.push(
                (self.executed@.last().command@, self.executed@.last().output@),
            ));
        }
    }

    /// Close one batch of tool calls: abort when the budget is spent, else
    /// dispatch again.
    pub fn finish_batch(&mut self)
        requires
            old(self)@.phase is ToolExecution,
        ensures
            final(self)@ == finish_batch_spec(old(self)@),
    {
        if self.action_count >= self.max_actions {
            self.phase = AgentPhase::Aborted;
        } else {
            self.phase = AgentPhase::Dispatch;
        }
    }

    /// One summary line per executed command: the command and the first line
    /// of its output.
    pub fn summary_lines(&self) -> (r: Vec<String>)
        ensures
            r@.len() == self@.executed.len(),
            forall|i: int|
                0 <= i < r@.len() ==> (#[trigger] r@[i])@ == "$ "@ + self@.executed[i].0 + " -> "@
                    + first_line_spec(self@.executed[i].1),
    {
        let mut out: Vec<String> = Vec::new();
        let mut i: usize = 0;
        #[verifier::loop_isolation(false)]
        while i < self.executed.len()
            invariant
                i <= self.executed.len(),
                out@.len() == i as int,
                forall|j: int|
                    0 <= j < i ==> (#[trigger] out@[j])@ == "$ "@ + self@.executed[j].0 + " -> "@
                        + first_line_spec(self@.executed[j].1),
            decreases self.executed.len() - i,
        {
            let mut line = String::new();
            line.append("$ ");
            line.append(self.executed[i].command.as_str());
            line.append(" -> ");
            line.append(first_line(self.executed[i].output.as_str()));
            out.push(line);
            i += 1;
        }
        out
    }
}

/// The standing instruction an agent run opens with.
pub open spec fn agent_system_message_spec() -> Seq<char> {
    "You can run shell commands using the `execute` tool. Use it whenever running a command will help you complete the user's instruction. Once you have the information you need, return a final answer."@
}

/// The standing instruction an agent run opens with.
pub fn agent_system_message() -> (r: &'static str)
    ensures
        r@ == agent_system_message_spec(),
{
    "You can run shell commands using the `execute` tool. Use it whenever running a command will help you complete the user's instruction. Once you have the information you need, return a final answer."
}

/// Install the agent preamble: the standing tool instruction, one user turn
/// per input file, then the instruction itself, each trimmed as any appended
/// turn is.
pub fn install_preamble(
    client: &mut crate::client::GptClient,
    file_contents: &Vec<String>,
    instruction: String,
)
    ensures
        crate::message::message_views(final(client).messages@) =~= crate::message::message_views(
            old(client).messages@,
        ).push(
            crate::client::plain_turn_spec(
                crate::message::Role::System,
                agent_system_message_spec(),
            ),
        )
            + file_contents@.map_values(
            |s: String| crate::client::plain_turn_spec(crate::message::Role::User, s@),
        ) + seq![crate::client::plain_turn_spec(crate::message::Role::User, instruction@)],
        final(client).config_manager == old(client).config_manager,
{
    client.add_message(crate::message::Role::System, agent_system_message().to_owned());
    let ghost after_system = crate::message::message_views(client.messages@);
    let mut i: usize = 0;
    #[verifier::loop_isolation(false)]
    while i < file_contents.len()
        invariant
            i <= file_contents.len(),
            crate::message::message_views(client.messages@) =~= after_system
                + file_contents@.take(i as int).map_values(
                |s: String| crate::client::plain_turn_spec(crate::message::Role::User, s@),
            ),
            client.config_manager == old(client).config_manager,
        decreases file_contents.len() - i,
    {
        client.add_message(crate::message::Role::User, file_contents[i].clone());
        proof {
            assert(file_contents@.take(i + 1).map_values(
                |s: String| crate::client::plain_turn_spec(crate::message::Role::User, s@),
            ) =~= file_contents@.take(i as int).map_values(
                |s: String| crate::client::plain_turn_spec(crate::message::Role::User, s@),
            ).push(crate::client::plain_turn_spec(crate::message::Role::User, file_contents@[i as int]@)));
        }
        i += 1;
    }
    proof {
        assert(file_contents@.take(file_contents@.len() as int) =~= file_contents@);
    }
    client.add_message(crate::message::Role::User, instruction);
}

/// The wire schema of the one available tool: `execute`, taking a required
/// `command` string.
pub open spec fn execute_tool_schema_spec() -> JsonView {
    JsonView::Arr(
        seq![
            JsonView::Obj(
                seq![
                    ("type"@, JsonView::Str("function"@)),
                    (
                        "function"@,
                        JsonView::Obj(
                            seq![
                                ("name"@, JsonView::Str("execute"@)),
                                (
                                    "description"@,
                                    JsonView::Str("Run a shell command and return stdout and stderr"@),
                                ),
                                (
                                    "parameters"@,
                                    JsonView::Obj(
                                        seq![
                                            ("type"@, JsonView::Str("object"@)),
                                            (
                                                "properties"@,
                                                JsonView::Obj(
                                                    seq![
                                                        (
                                                            "command"@,
                                                            JsonView::Obj(
                                                                seq![("type"@, JsonView::Str("string"@))],
                                                            ),
                                                        ),
                                                    ],
                                                ),
                                            ),
                                            (
                                                "required"@,
                                                JsonView::Arr(seq![JsonView::Str("command"@)]),
                                            ),
                                        ],
                                    ),
                                ),
                            ],
                        ),
                    ),
                ],
            ),
        ],
    )
}

/// Build the wire schema of the `execute` tool.
pub fn execute_tool_schema() -> (r: JsonValue)
    ensures
        r@ == execute_tool_schema_spec(),
{
    let mut command_obj: Vec<(String, JsonValue)> = Vec::new();
    command_obj.push(("type".to_owned(), JsonValue::Str("string".to_owned())));
    proof {
        crate::json::lemma_views_of_fields(command_obj@);
        assert(crate::json::views_of_fields(command_obj@) =~~= seq![
            ("type"@, JsonView::Str("string"@)),
        ]);
    }
    let command_schema = JsonValue::Obj(command_obj);
    let mut properties: Vec<(String, JsonValue)> = Vec::new();
    properties.push(("command".to_owned(), command_schema));
    proof {
        crate::json::lemma_views_of_fields(properties@);
        assert(crate::json::views_of_fields(properties@) =~~= seq![
            ("command"@, JsonView::Obj(seq![("type"@, JsonView::Str("string"@))])),
        ]);
    }
    let properties_schema = JsonValue::Obj(properties);
    let mut required: Vec<JsonValue> = Vec::new();
    required.push(JsonValue::Str("command".to_owned()));
    proof {
        crate::json::lemma_views_of_items(required@);
        assert(crate::json::views_of_items(required@) =~~= seq![JsonView::Str("command"@)]);
    }
    let required_schema = JsonValue::Arr(required);
    let mut parameters: Vec<(String, JsonValue)> = Vec::new();
    parameters.push(("type".to_owned(), JsonValue::Str("object".to_owned())));
    parameters.push(("properties".to_owned(), properties_schema));
    parameters.push(("required".to_owned(), required_schema));
    proof {
        crate::json::lemma_views_of_fields(parameters@);
        assert(crate::json::views_of_fields(parameters@) =~~= seq![
            ("type"@, JsonView::Str("object"@)),
            (
                "properties"@,
                JsonView::Obj(
                    seq![
                        ("command"@, JsonView::Obj(seq![("type"@, JsonView::Str("string"@))])),
                    ],
                ),
            ),
            ("required"@, JsonView::Arr(seq![JsonView::Str("command"@)])),
        ]);
    }
    let parameters_schema = JsonValue::Obj(parameters);
    let mut function: Vec<(String, JsonValue)> = Vec::new();
    function.push(("name".to_owned(), JsonValue::Str("execute".to_owned())));
    function.push(
        (
            "description".to_owned(),
            JsonValue::Str("Run a shell command and return stdout and stderr".to_owned()),
        ),
    );
    function.push(("parameters".to_owned(), parameters_schema));
    proof {
        crate::json::lemma_views_of_fields(function@);
        assert(crate::json::views_of_fields(function@) =~~= seq![
            ("name"@, JsonView::Str("execute"@)),
            ("description"@, JsonView::Str("Run a shell command and return stdout and stderr"@)),
            (
                "parameters"@,
                JsonView::Obj(
                    seq![
                        ("type"@, JsonView::Str("object"@)),
                        (
                            "properties"@,
                            JsonView::Obj(
                                seq![
                                    (
                                        "command"@,
                                        JsonView::Obj(seq![("type"@, JsonView::Str("string"@))]),
                                    ),
                                ],
                            ),
                        ),
                        ("required"@, JsonView::Arr(seq![JsonView::Str("command"@)])),
                    ],
                ),
            ),
        ]);
    }
    let function_schema = JsonValue::Obj(function);
    let ghost function_view = function_schema@;
    let mut entry: Vec<(String, JsonValue)> = Vec::new();
    entry.push(("type".to_owned(), JsonValue::Str("function".to_owned())));
    entry.push(("function".to_owned(), function_schema));
    proof {
        crate::json::lemma_views_of_fields(entry@);
        assert(crate::json::views_of_fields(entry@) =~~= seq![
            ("type"@, JsonView::Str("function"@)),
            ("function"@, function_view),
        ]);
    }
    let entry_schema = JsonValue::Obj(entry);
    let ghost entry_view = entry_schema@;
    let mut schema: Vec<JsonValue> = Vec::new();
    schema.push(entry_schema);
    proof {
        crate::json::lemma_views_of_items(schema@);
        assert(crate::json::views_of_items(schema@) =~~= seq![entry_view]);
    }
    let r = JsonValue::Arr(schema);
    proof {
        assert(r@ =~~= execute_tool_schema_spec());
    }
    r
}

/// The first returned choice of a completion, if any.
pub open spec fn choice0_spec(v: JsonView) -> Option<JsonView> {
    match get_spec(v, "choices"@) {
        Some(c) => match c {
            JsonView::Arr(items) => if items.len() > 0 {
                Some(items[0])
            } else {
                None
            },
            _ => None,
        },
        None => None,
    }
}

/// The finish reason of the first choice; empty when absent.
pub open spec fn finish_reason_spec(v: JsonView) -> Seq<char> {
    match choice0_spec(v) {
        Some(c) => match get_spec(c, "finish_reason"@) {
            Some(x) => match x {
                JsonView::Str(s) => s,
                _ => Seq::empty(),
            },
            None => Seq::empty(),
        },
        None => Seq::empty(),
    }
}

/// The message object of the first choice, if any.
pub open spec fn turn_message_spec(v: JsonView) -> Option<JsonView> {
    match choice0_spec(v) {
        Some(c) => get_spec(c, "message"@),
        None => None,
    }
}

/// The text of the first choice's message; empty when absent.
pub open spec fn turn_text_spec(v: JsonView) -> Seq<char> {
    match turn_message_spec(v) {
        Some(m) => match get_spec(m, "content"@) {
            Some(x) => match x {
                JsonView::Str(s) => s,
                _ => Seq::empty(),
            },
            None => Seq::empty(),
        },
        None => Seq::empty(),
    }
}

/// The id and raw argument text of one requested tool call; nothing when the
/// call carries no argument string.
pub open spec fn call_entry_spec(c: JsonView) -> Option<(Seq<char>, Seq<char>)> {
    match get_spec(c, "function"@) {
        Some(f) => match get_spec(f, "arguments"@) {
            Some(x) => match x {
                JsonView::Str(a) => Some(
                    (
                        match get_spec(c, "id"@) {
                            Some(iv) => match iv {
                                JsonView::Str(i) => i,
                                _ => Seq::empty(),
                            },
                            None => Seq::empty(),
                        },
                        a,
                    ),
                ),
                _ => None,
            },
            None => None,
        },
        None => None,
    }
}

/// The recognized tool calls among a batch, in order.
pub open spec fn call_entries_spec(items: Seq<JsonView>) -> Seq<(Seq<char>, Seq<char>)>
    decreases items.len(),
{
    if items.len() == 0 {
        Seq::empty()
    } else {
        call_entries_spec(items.drop_last()) + match call_entry_spec(items.last()) {
            Some(e) => seq![e],
            None => Seq::empty(),
        }
    }
}

/// The recognized tool calls of the first choice's message; empty when none
/// are requested.
pub open spec fn turn_calls_spec(v: JsonView) -> Seq<(Seq<char>, Seq<char>)> {
    match turn_message_spec(v) {
        Some(m) => match get_spec(m, "tool_calls"@) {
            Some(x) => match x {
                JsonView::Arr(items) => call_entries_spec(items),
                _ => Seq::empty(),
            },
            None => Seq::empty(),
        },
        None => Seq::empty(),
    }
}

/// One requested tool call: its correlation id and its raw JSON-encoded
/// argument text.
pub struct ToolCallRequest {
    pub id: String,
    pub arguments: String,
}

/// What one model turn carries, read leniently: a missing field reads as
/// empty.
pub struct ModelTurn {
    pub finish_reason: String,
    pub text: String,
    pub calls: Vec<ToolCallRequest>,
}

fn str_of(v: Option<&JsonValue>) -> (r: String)
    ensures
        r@ == match v {
            Some(x) => match x@ {
                JsonView::Str(s) => s,
                _ => Seq::<char>::empty(),
            },
            None => Seq::<char>::empty(),
        },
{
    proof {
        reveal_strlit("");
        assert(""@ =~= Seq::<char>::empty());
    }
    match v {
        Some(x) => match x.as_str() {
            Some(s) => s.clone(),
            None => "".to_owned(),
        },
        None => "".to_owned(),
    }
}

/// Read one model turn out of a raw completion response: the first choice's
/// finish reason, its text, and the tool calls it requests, each empty when
/// absent.
pub fn read_model_turn(resp: &JsonValue) -> (r: ModelTurn)
    ensures
        r.finish_reason@ == finish_reason_spec(resp@),
        r.text@ == turn_text_spec(resp@),
        r.calls@.map_values(|c: ToolCallRequest| (c.id@, c.arguments@)) == turn_calls_spec(resp@),
{
    proof {
        reveal_strlit("");
        assert(""@ =~= Seq::<char>::empty());
    }
    let choice = match resp.get("choices") {
        Some(c) => match c {
            JsonValue::Arr(items) => if items.len() > 0 {
                proof {
                    crate::json::lemma_views_of_items(items@);
                }
                Some(&items[0])
            } else {
                None
            },
            _ => None,
        },
        None => None,
    };
    let (finish_reason, text, calls): (String, String, Vec<ToolCallRequest>) = match choice {
        Some(c) => {
            let finish_reason = str_of(c.get("finish_reason"));
            let message = c.get("message");
            let (text, calls): (String, Vec<ToolCallRequest>) = match message {
                Some(m) => {
                    let text = str_of(m.get("content"));
                    let calls: Vec<ToolCallRequest> = match m.get("tool_calls") {
                        Some(tc) => match tc {
                            JsonValue::Arr(items) => read_call_entries(items),
                            _ => Vec::new(),
                        },
                        None => Vec::new(),
                    };
                    (text, calls)
                },
                None => (str_of(None), Vec::new()),
            };
            (finish_reason, text, calls)
        },
        None => (str_of(None), str_of(None), Vec::new()),
    };
    proof {
        if turn_calls_spec(resp@).len() == 0 {
            assert(calls@.map_values(|c: ToolCallRequest| (c.id@, c.arguments@)) =~= turn_calls_spec(
                resp@,
            ));
        }
    }
    ModelTurn { finish_reason, text, calls }
}

fn read_call_entries(items: &Vec<JsonValue>) -> (r: Vec<ToolCallRequest>)
    ensures
        r@.map_values(|c: ToolCallRequest| (c.id@, c.arguments@)) == call_entries_spec(
            crate::json::views_of_items(items@),
        ),
{
    proof {
        crate::json::lemma_views_of_items(items@);
    }
    let mut out: Vec<ToolCallRequest> = Vec::new();
    let mut i: usize = 0;
    #[verifier::loop_isolation(false)]
    while i < items.len()
        invariant
            i <= items.len(),
            out@.map_values(|c: ToolCallRequest| (c.id@, c.arguments@)) == call_entries_spec(
                crate::json::views_of_items(items@).take(i as int),
            ),
        decreases items.len() - i,
    {
        let ghost iv = crate::json::views_of_items(items@);
        let ghost outv_before = out@.map_values(|c: ToolCallRequest| (c.id@, c.arguments@));
        let call = &items[i];
        match call.get("function") {
            Some(f) => match f.get("arguments") {
                Some(a) => match a.as_str() {
                    Some(arguments) => {
                        let id = str_of(call.get("id"));
                        out.push(ToolCallRequest { id, arguments: arguments.clone() });
                        proof {
                            assert(out@.drop_last() =~= out@.subrange(0, out@.len() - 1));
                        }
                    },
                    None => (),
                },
                None => (),
            },
            None => (),
        }
        proof {
            assert(iv.take(i + 1).drop_last() =~= iv.take(i as int));
            assert(iv.take(i + 1).last() == iv[i as int]);
            let outv = out@.map_values(|c: ToolCallRequest| (c.id@, c.arguments@));
            match call_entry_spec(iv[i as int]) {
                Some(e) => {
                    assert(outv =~= outv_before + seq![e]);
                    assert(outv =~= call_entries_spec(iv.take(i + 1)));
                },
                None => {
                    assert(outv =~= call_entries_spec(iv.take(i + 1)));
                },
            }
        }
        i += 1;
    }
    proof {
        assert(crate::json::views_of_items(items@).take(items@.len() as int)
            =~= crate::json::views_of_items(items@));
    }
    out
}

/// One round against a scripted model that always requests exactly one tool
/// call, driven as the loop drives it: the turn is taken in, the one call is
/// executed if the budget allows, and the batch is closed. A run that is not
/// dispatching takes no further round.
pub open spec fn scripted_round_spec(r: AgentRunView, command: Seq<char>, output: Seq<char>) -> AgentRunView {
    if r.phase is Dispatch {
        let entered = begin_turn_spec(r, true);
        let acted = if entered.action_count < entered.max_actions {
            record_execution_spec(entered, command, output)
        } else {
            entered
        };
        finish_batch_spec(acted)
    } else {
        r
    }
}

/// `k` rounds against that scripted model.
pub open spec fn scripted_iter_spec(
    r: AgentRunView,
    k: nat,
    command: Seq<char>,
    output: Seq<char>,
) -> AgentRunView
    decreases k,
{
    if k == 0 {
        r
    } else {
        scripted_round_spec(scripted_iter_spec(r, (k - 1) as nat, command, output), command, output)
    }
}

/// Against a scripted model that always requests one tool call, a fresh run
/// executes exactly `max_actions` commands and then reports `Aborted`: after
/// any number of rounds the count never exceeds the budget, each round below
/// the budget executes exactly one command and dispatches again, and from
/// the first round at the budget onward the run stands aborted at exactly
/// `max_actions` executed commands.
pub proof fn lemma_scripted_budget(
    directory: Seq<char>,
    instruction: Seq<char>,
    max_actions: int,
    k: nat,
    command: Seq<char>,
    output: Seq<char>,
)
    requires
        max_actions >= 0,
    ensures
        ({
            let r0 = init_run_spec(directory, instruction, max_actions);
            let rk = scripted_iter_spec(r0, k, command, output);
            &&& rk.action_count <= max_actions
            &&& rk.executed.len() == rk.action_count
            &&& rk.max_actions == max_actions
            &&& (k < max_actions ==> rk.phase is Dispatch && rk.action_count == k)
            &&& ((k >= max_actions && k >= 1) ==> rk.phase is Aborted && rk.action_count
                == max_actions)
        }),
    decreases k,
{
    let r0 = init_run_spec(directory, instruction, max_actions);
    if k == 0 {
    } else {
        lemma_scripted_budget(directory, instruction, max_actions, (k - 1) as nat, command, output);
    }
}

/// A scripted model that answers `stop` on the first call completes a fresh
/// run with zero commands executed.
pub proof fn lemma_stop_on_first_turn(
    directory: Seq<char>,
    instruction: Seq<char>,
    max_actions: int,
)
    ensures
        ({
            let r1 = begin_turn_spec(init_run_spec(directory, instruction, max_actions), false);
            &&& r1.phase is Done
            &&& r1.action_count == 0
            &&& r1.executed.len() == 0
        }),
{
}

} // verus!
