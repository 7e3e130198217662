use cgip::agent::command_from_args;
use cgip::agent::execute_tool_schema;
use cgip::agent::normalize_tool_output;
use cgip::agent::read_model_turn;
use cgip::agent::tool_message;
use cgip::agent::AgentPhase;
use cgip::agent::AgentRun;
use cgip::json::JsonValue;

fn tool_calls_response(command: &str) -> JsonValue {
    JsonValue::Obj(vec![(
        "choices".to_string(),
        JsonValue::Arr(vec![JsonValue::Obj(vec![
            (
                "message".to_string(),
                JsonValue::Obj(vec![
                    ("content".to_string(), JsonValue::Str("running it".to_string())),
                    (
                        "tool_calls".to_string(),
                        JsonValue::Arr(vec![JsonValue::Obj(vec![
                            ("id".to_string(), JsonValue::Str("call-1".to_string())),
                            (
                                "function".to_string(),
                                JsonValue::Obj(vec![
                                    ("name".to_string(), JsonValue::Str("execute".to_string())),
                                    (
                                        "arguments".to_string(),
                                        JsonValue::Str(
                                            format!("{{\"command\": \"{}\"}}", command),
                                        ),
                                    ),
                                ]),
                            ),
                        ])]),
                    ),
                ]),
            ),
            (
                "finish_reason".to_string(),
                JsonValue::Str("tool_calls".to_string()),
            ),
        ])]),
    )])
}

fn new_run(max_actions: usize) -> AgentRun {
    AgentRun::new(".".to_string(), "count the files".to_string(), max_actions)
}

#[test]
fn scripted_tool_calls_run_executes_exactly_the_budget() {
    let max_actions = 4;
    let mut run = new_run(max_actions);
    let mut executions = 0usize;
    loop {
        if !matches!(run.phase, AgentPhase::Dispatch) {
            break;
        }
        let requested = run.begin_turn("tool_calls");
        assert!(requested);
        if !run.budget_exhausted() {
            run.record_execution("ls".to_string(), "files\n".to_string());
            executions += 1;
        }
        assert!(run.action_count <= max_actions, "budget must never be exceeded");
        run.finish_batch();
    }
    assert_eq!(executions, max_actions);
    assert_eq!(run.action_count, max_actions);
    assert!(matches!(run.phase, AgentPhase::Aborted));
    assert_eq!(run.executed.len(), max_actions);
}

#[test]
fn stop_on_first_turn_executes_nothing() {
    let mut run = new_run(10);
    let requested = run.begin_turn("stop");
    assert!(!requested);
    assert!(matches!(run.phase, AgentPhase::Done));
    assert_eq!(run.action_count, 0);
    assert!(run.executed.is_empty());
}

#[test]
fn model_turn_is_read_from_a_tool_calls_response() {
    let resp = tool_calls_response("ls -la");
    let turn = read_model_turn(&resp);
    assert_eq!(turn.finish_reason, "tool_calls");
    assert_eq!(turn.text, "running it");
    assert_eq!(turn.calls.len(), 1);
    assert_eq!(turn.calls[0].id, "call-1");
    assert_eq!(turn.calls[0].arguments, "{\"command\": \"ls -la\"}");
}

#[test]
fn model_turn_of_empty_response_reads_as_empty() {
    let turn = read_model_turn(&JsonValue::Obj(vec![]));
    assert_eq!(turn.finish_reason, "");
    assert_eq!(turn.text, "");
    assert!(turn.calls.is_empty());
}

#[test]
fn command_is_read_from_parsed_arguments() {
    let args = JsonValue::Obj(vec![(
        "command".to_string(),
        JsonValue::Str("echo hello".to_string()),
    )]);
    assert_eq!(command_from_args(&args), "echo hello");
    assert_eq!(command_from_args(&JsonValue::Null), "");
}

#[test]
fn empty_output_becomes_a_marker() {
    assert_eq!(normalize_tool_output(String::new()), "[no output]\n");
    assert_eq!(normalize_tool_output("done\n".to_string()), "done\n");
}

#[test]
fn tool_messages_carry_the_call_id() {
    let msg = tool_message("call-9".to_string(), "output".to_string());
    assert_eq!(msg.role, "tool");
    assert_eq!(msg.tool_call_id.as_deref(), Some("call-9"));
    assert_eq!(msg.content.to_string(), "output");
}

#[test]
fn summary_has_one_line_per_command_with_first_output_line() {
    let mut run = new_run(5);
    run.begin_turn("tool_calls");
    run.record_execution("ls".to_string(), "a.txt\nb.txt\n".to_string());
    run.record_execution("pwd".to_string(), "/tmp\n".to_string());
    let lines = run.summary_lines();
    assert_eq!(lines.len(), 2);
    assert_eq!(lines[0], "$ ls -> a.txt");
    assert_eq!(lines[1], "$ pwd -> /tmp");
}

#[test]
fn execute_tool_schema_names_the_command_parameter() {
    let schema = execute_tool_schema();
    match &schema {
        JsonValue::Arr(entries) => {
            assert_eq!(entries.len(), 1);
            let function = entries[0].get("function").unwrap();
            let name = function.get("name").unwrap().as_str().unwrap();
            assert_eq!(name, "execute");
            let params = function.get("parameters").unwrap();
            assert!(params.get("properties").unwrap().get("command").is_some());
        }
        _ => panic!("expected a schema array"),
    }
}

#[test]
fn preamble_installs_instruction_last() {
    let config_manager = cgip::config::ConfigManager::with_config(
        cgip::config::AppConfig::default(),
        String::new(),
    );
    let mut client =
        cgip::client::GptClient::with_config(config_manager, "standing".to_string());
    let files = vec!["file one contents".to_string()];
    cgip::agent::install_preamble(&mut client, &files, "do the thing".to_string());
    let n = client.messages.len();
    assert_eq!(n, 4);
    assert_eq!(client.messages[1].role, "system");
    assert_eq!(client.messages[2].content.to_string(), "file one contents");
    assert_eq!(client.messages[3].content.to_string(), "do the thing");
}

#[test]
fn zero_budget_aborts_without_executing() {
    let mut run = new_run(0);
    let requested = run.begin_turn("tool_calls");
    assert!(requested);
    assert!(run.budget_exhausted());
    run.finish_batch();
    assert!(matches!(run.phase, AgentPhase::Aborted));
    assert_eq!(run.action_count, 0);
    assert!(run.executed.is_empty());
}

#[test]
fn duplicate_keys_read_the_first_field() {
    let args = JsonValue::Obj(vec![
        (
            "command".to_string(),
            JsonValue::Str("first".to_string()),
        ),
        (
            "command".to_string(),
            JsonValue::Str("second".to_string()),
        ),
    ]);
    assert_eq!(command_from_args(&args), "first");
}
