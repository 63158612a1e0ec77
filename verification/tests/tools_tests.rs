use agent_core::tools::{dispatch, ToolAction, ToolCall, ToolRegistry};

fn args_of(call: &ToolCall) -> Vec<(String, String)> {
    call.arguments.clone()
}

#[test]
fn tool_call_is_parsed_out_of_surrounding_prose() {
    let reply = "I'll help. {\"tool\":\"run_command\",\"args\":{\"command\":\"ls\"}} done";
    let call = ToolRegistry::parse_tool_call(reply).expect("must parse");
    assert_eq!(call.name, "run_command");
    let args = args_of(&call);
    assert_eq!(args.len(), 1);
    assert_eq!(args[0].0, "command");
    assert_eq!(args[0].1, "ls");
}

#[test]
fn plain_text_reply_is_no_tool_call() {
    assert!(ToolRegistry::parse_tool_call("Sure, here's the answer: 42").is_none());
}

#[test]
fn bare_json_object_parses() {
    let call =
        ToolRegistry::parse_tool_call("  {\"tool\": \"web_search\", \"args\": {\"query\": \"verus\"}} ")
            .expect("must parse");
    assert_eq!(call.name, "web_search");
    assert_eq!(call.arguments[0], ("query".to_string(), "verus".to_string()));
}

#[test]
fn two_json_fragments_use_the_outermost_span_and_fail() {
    // The span from the first `{` to the last `}` covers both fragments and
    // is not valid JSON; the reply is treated as plain text.
    let reply = "{\"a\": 1} and {\"tool\": \"run_command\", \"args\": {}}";
    assert!(ToolRegistry::parse_tool_call(reply).is_none());
}

#[test]
fn missing_args_field_is_no_tool_call() {
    assert!(ToolRegistry::parse_tool_call("{\"tool\": \"run_command\"}").is_none());
}

#[test]
fn non_string_tool_field_is_no_tool_call() {
    assert!(ToolRegistry::parse_tool_call("{\"tool\": 3, \"args\": {}}").is_none());
}

#[test]
fn closing_brace_before_opening_is_no_tool_call() {
    assert!(ToolRegistry::parse_tool_call("} nothing {").is_none());
}

#[test]
fn non_object_args_parse_with_no_arguments() {
    let call = ToolRegistry::parse_tool_call("{\"tool\": \"run_command\", \"args\": 4}")
        .expect("must parse");
    assert_eq!(call.name, "run_command");
    assert!(call.arguments.is_empty());
}

#[test]
fn non_string_argument_values_are_dropped() {
    let call = ToolRegistry::parse_tool_call(
        "{\"tool\": \"run_command\", \"args\": {\"command\": \"pwd\", \"count\": 2}}",
    )
    .expect("must parse");
    assert_eq!(call.arguments, vec![("command".to_string(), "pwd".to_string())]);
}

#[test]
fn registry_lists_the_three_builtin_tools() {
    let registry = ToolRegistry::new();
    let text = registry.describe_for_prompt();
    assert!(text.starts_with(
        "You have access to the following tools. To use a tool, respond with ONLY a JSON object in the format: {\"tool\": \"tool_name\", \"args\": {...}}\n\n"
    ));
    assert!(text.contains("- **run_command**: Execute a shell command on the server. Risky commands require admin approval.\n"));
    assert!(text.contains("- **web_search**: Search the web for information. Returns a summary of results.\n"));
    assert!(text.contains("- **update_persona**: Update a bot persona file (SOUL, IDENTITY, or SECURITY). Admin-only.\n"));
    assert!(text.contains("\n  Parameters: {\"type\": \"object\", \"properties\": {\"command\""));
}

#[test]
fn dispatch_runs_a_command() {
    let call = ToolCall {
        name: "run_command".to_string(),
        arguments: vec![("command".to_string(), "uptime".to_string())],
    };
    match dispatch(&call, false) {
        ToolAction::RunCommand { command } => assert_eq!(command, "uptime"),
        _ => panic!("expected a command run"),
    }
}

#[test]
fn dispatch_without_command_argument_does_nothing() {
    let call = ToolCall { name: "run_command".to_string(), arguments: vec![] };
    assert!(matches!(dispatch(&call, true), ToolAction::NoAction));
}

#[test]
fn persona_update_needs_an_administrator() {
    let call = ToolCall {
        name: "update_persona".to_string(),
        arguments: vec![
            ("file_name".to_string(), "SOUL".to_string()),
            ("new_content".to_string(), "# new".to_string()),
        ],
    };
    assert!(matches!(dispatch(&call, false), ToolAction::NotAuthorized));
    match dispatch(&call, true) {
        ToolAction::UpdatePersona { file_name, new_content } => {
            assert_eq!(file_name, "SOUL");
            assert_eq!(new_content, "# new");
        },
        _ => panic!("expected a persona update"),
    }
}

#[test]
fn persona_update_with_missing_fields_does_nothing() {
    let call = ToolCall {
        name: "update_persona".to_string(),
        arguments: vec![("file_name".to_string(), "SOUL".to_string())],
    };
    assert!(matches!(dispatch(&call, true), ToolAction::NoAction));
}

#[test]
fn unknown_tools_report_not_implemented() {
    let call = ToolCall {
        name: "web_search".to_string(),
        arguments: vec![("query".to_string(), "weather".to_string())],
    };
    match dispatch(&call, true) {
        ToolAction::NotImplemented { name } => assert_eq!(name, "web_search"),
        _ => panic!("expected not-implemented"),
    }
}
