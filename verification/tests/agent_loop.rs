use weavex::agent::{interpret_tool_call, Agent, LoopState, Role, RunOutcome, ToolDecision};
use weavex::error::OllamaError;
use weavex::ollama_local::{ArgValue, ChatMessage, FunctionCall, ToolArgs, ToolCall};

fn args(entries: Vec<(&str, ArgValue)>) -> ToolArgs {
    ToolArgs {
        entries: entries.into_iter().map(|(k, v)| (k.to_string(), v)).collect(),
    }
}

fn call(name: &str, arguments: ToolArgs) -> ToolCall {
    ToolCall {
        function: FunctionCall {
            name: name.to_string(),
            arguments,
        },
    }
}

fn assistant_msg(content: &str, tool_calls: Option<Vec<ToolCall>>) -> ChatMessage {
    ChatMessage {
        role: "assistant".to_string(),
        content: content.to_string(),
        tool_calls,
        thinking: None,
    }
}

fn search_call(query: &str) -> ToolCall {
    call("web_search", args(vec![("query", ArgValue::Text(query.to_string()))]))
}

#[test]
fn scenario_final_answer_on_first_round() {
    // Query "weather in Paris", model answers without tool calls on round 0.
    let agent = Agent::new("test-model".to_string(), false, true, 25);
    let mut state = agent.start("weather in Paris".to_string());
    let mut script = Vec::new();
    let mut texts: Vec<Vec<String>> = Vec::new();
    for _ in 0..25 {
        script.push(assistant_msg("It's sunny.", None));
        texts.push(Vec::new());
    }
    let result = state.run_replay(script, texts);
    match result {
        Ok(RunOutcome::Answer(c)) => assert_eq!(c, "It's sunny."),
        other => panic!("expected a final answer, got {:?}", other),
    }
    // One round: the user turn and one assistant turn.
    assert_eq!(state.transcript.len(), 2);
    assert_eq!(state.transcript[0].role, Role::User);
    assert_eq!(state.transcript[0].content, "weather in Paris");
    assert_eq!(state.transcript[1].role, Role::Assistant);
}

#[test]
fn scenario_one_tool_round_then_answer() {
    // Round 0 requests search{query:"rust async"}, round 1 answers "Done".
    let mut state = LoopState::new("look this up".to_string(), 10);
    let mut script = vec![assistant_msg("", Some(vec![search_call("rust async")]))];
    script.push(assistant_msg("Done", None));
    for _ in 0..8 {
        script.push(assistant_msg("unreached", None));
    }
    let mut texts = vec![vec!["Result 1:\nTitle: t\nURL: u\nContent: c\n\n".to_string()]];
    for _ in 0..9 {
        texts.push(Vec::new());
    }
    let result = state.run_replay(script, texts);
    match result {
        Ok(RunOutcome::Answer(c)) => assert_eq!(c, "Done"),
        other => panic!("expected a final answer, got {:?}", other),
    }
    // Transcript: user, assistant, tool, assistant.
    assert_eq!(state.transcript.len(), 4);
    assert_eq!(state.transcript[0].role, Role::User);
    assert_eq!(state.transcript[1].role, Role::Assistant);
    assert_eq!(state.transcript[2].role, Role::Tool);
    assert_eq!(state.transcript[3].role, Role::Assistant);
    assert_eq!(state.transcript[2].tool_name.as_deref(), Some("web_search"));
}

#[test]
fn scenario_exhaustion_after_two_rounds() {
    // max_iterations = 2 and the model always requests a tool call.
    let mut state = LoopState::new("keep going".to_string(), 2);
    let script = vec![
        assistant_msg("", Some(vec![search_call("first")])),
        assistant_msg("", Some(vec![search_call("second")])),
    ];
    let texts = vec![vec!["one".to_string()], vec!["two".to_string()]];
    let result = state.run_replay(script, texts);
    match result {
        Ok(RunOutcome::Exhausted(m)) => {
            assert_eq!(
                m,
                "Reached maximum iterations (2) while processing tool response. \
                 Try a more specific query or use --max-iterations to increase the limit."
            );
            assert!(m.contains("2"));
        }
        other => panic!("expected exhaustion, got {:?}", other),
    }
    assert_eq!(state.iteration, 2);
    // Two full rounds: user + 2 * (assistant + tool).
    assert_eq!(state.transcript.len(), 5);
}

#[test]
fn scenario_unknown_tool_is_recoverable() {
    // A tool name outside the registry becomes tool output, not a failure.
    let unknown = call("delete_database", args(vec![]));
    match interpret_tool_call(&unknown) {
        ToolDecision::Unknown { message } => {
            assert_eq!(message, "Error: Unknown tool 'delete_database'");
        }
        other => panic!("expected an unknown-tool decision, got {:?}", other),
    }

    let mut state = LoopState::new("try something".to_string(), 5);
    let mut script = vec![assistant_msg("", Some(vec![call("delete_database", args(vec![]))]))];
    script.push(assistant_msg("recovered", None));
    for _ in 0..3 {
        script.push(assistant_msg("unreached", None));
    }
    let texts = vec![vec!["ignored".to_string()], vec![], vec![], vec![], vec![]];
    let result = state.run_replay(script, texts);
    match result {
        Ok(RunOutcome::Answer(c)) => assert_eq!(c, "recovered"),
        other => panic!("the loop must continue past an unknown tool, got {:?}", other),
    }
    assert_eq!(state.transcript[2].content, "Error: Unknown tool 'delete_database'");
}

#[test]
fn scenario_oversized_tool_result_is_capped() {
    // A 9000-byte tool result enters the transcript cut to 8000 bytes plus
    // the truncation marker, on a character boundary.
    let mut state = LoopState::new("big search".to_string(), 3);
    state.on_chat_message(assistant_msg("", Some(vec![search_call("big")])));
    let big = "é".repeat(4500); // 9000 bytes
    state.record_tool_result("web_search".to_string(), big);
    let content = &state.transcript[2].content;
    assert!(content.ends_with("...[truncated]"));
    let kept = &content[..content.len() - "...[truncated]".len()];
    assert!(kept.len() <= 8000);
    assert!(kept.is_char_boundary(kept.len()));
    // Each character is two bytes and 8000 is aligned, so the cut is exact.
    assert_eq!(kept.len(), 8000);
}

#[test]
fn tool_result_within_ceiling_is_unchanged() {
    let mut state = LoopState::new("small search".to_string(), 3);
    state.on_chat_message(assistant_msg("", Some(vec![search_call("small")])));
    let small = "a".repeat(8000);
    state.record_tool_result("web_search".to_string(), small.clone());
    assert_eq!(state.transcript[2].content, small);
}

#[test]
fn tool_turns_match_calls_in_order() {
    // One round with two calls appends exactly two tool turns, in order.
    let mut state = LoopState::new("two tools".to_string(), 1);
    let script = vec![assistant_msg(
        "",
        Some(vec![search_call("alpha"), call("web_fetch", args(vec![(
            "url",
            ArgValue::Text("https://example.com".to_string()),
        )]))]),
    )];
    let texts = vec![vec!["first result".to_string(), "second result".to_string()]];
    let result = state.run_replay(script, texts);
    assert!(matches!(result, Ok(RunOutcome::Exhausted(_))));
    assert_eq!(state.transcript.len(), 4);
    assert_eq!(state.transcript[2].tool_name.as_deref(), Some("web_search"));
    assert_eq!(state.transcript[2].content, "first result");
    assert_eq!(state.transcript[3].tool_name.as_deref(), Some("web_fetch"));
    assert_eq!(state.transcript[3].content, "second result");
}

#[test]
fn invalid_tool_arguments_abort_the_run() {
    let mut state = LoopState::new("bad args".to_string(), 3);
    let script = vec![
        assistant_msg("", Some(vec![call("web_search", args(vec![]))])),
        assistant_msg("unreached", None),
        assistant_msg("unreached", None),
    ];
    let texts = vec![vec!["unused".to_string()], vec![], vec![]];
    let result = state.run_replay(script, texts);
    match result {
        Err(OllamaError::InvalidResponse(m)) => {
            assert_eq!(m, "Missing 'query' field in web_search");
        }
        other => panic!("expected the run to abort, got {:?}", other),
    }
}

#[test]
fn interpret_validates_each_tool() {
    // A whitespace-only query is rejected as empty.
    match interpret_tool_call(&search_call("   ")) {
        ToolDecision::Invalid { error: OllamaError::InvalidResponse(m) } => {
            assert_eq!(m, "Query cannot be empty")
        }
        other => panic!("expected invalid arguments, got {:?}", other),
    }
    // A query of the wrong shape counts as missing.
    match interpret_tool_call(&call("web_search", args(vec![("query", ArgValue::Uint(3))]))) {
        ToolDecision::Invalid { error: OllamaError::InvalidResponse(m) } => {
            assert_eq!(m, "Missing 'query' field in web_search")
        }
        other => panic!("expected invalid arguments, got {:?}", other),
    }
    // A fetch without a url is rejected.
    match interpret_tool_call(&call("web_fetch", args(vec![]))) {
        ToolDecision::Invalid { error: OllamaError::InvalidResponse(m) } => {
            assert_eq!(m, "Missing 'url' field in web_fetch")
        }
        other => panic!("expected invalid arguments, got {:?}", other),
    }
    // An empty url is rejected.
    match interpret_tool_call(&call("web_fetch", args(vec![("url", ArgValue::Text(" ".into()))]))) {
        ToolDecision::Invalid { error: OllamaError::InvalidResponse(m) } => {
            assert_eq!(m, "URL cannot be empty")
        }
        other => panic!("expected invalid arguments, got {:?}", other),
    }
    // A valid search carries the query and the optional result cap.
    match interpret_tool_call(&call(
        "web_search",
        args(vec![
            ("query", ArgValue::Text("rust".to_string())),
            ("max_results", ArgValue::Uint(5)),
        ]),
    )) {
        ToolDecision::Search { query, max_results } => {
            assert_eq!(query, "rust");
            assert_eq!(max_results, Some(5));
        }
        other => panic!("expected a search decision, got {:?}", other),
    }
    // A max_results of the wrong shape is ignored, not an error.
    match interpret_tool_call(&call(
        "web_search",
        args(vec![
            ("query", ArgValue::Text("rust".to_string())),
            ("max_results", ArgValue::Text("5".to_string())),
        ]),
    )) {
        ToolDecision::Search { max_results, .. } => assert_eq!(max_results, None),
        other => panic!("expected a search decision, got {:?}", other),
    }
    // A valid fetch carries the url.
    match interpret_tool_call(&call(
        "web_fetch",
        args(vec![("url", ArgValue::Text("https://example.com".to_string()))]),
    )) {
        ToolDecision::Fetch { url } => assert_eq!(url, "https://example.com"),
        other => panic!("expected a fetch decision, got {:?}", other),
    }
}

#[test]
fn exhaustion_message_last_action_phrases() {
    // With pending tool calls and no tool turn yet, the first call names the
    // phrase; an unrecognized tool falls back to "using <name>".
    let mut state = LoopState::new("q".to_string(), 7);
    state.on_chat_message(assistant_msg("", Some(vec![call("frobnicate", args(vec![]))])));
    let m = state.exhaustion_message();
    assert_eq!(
        m,
        "Reached maximum iterations (7) while using frobnicate. \
         Try a more specific query or use --max-iterations to increase the limit."
    );

    let mut state = LoopState::new("q".to_string(), 3);
    state.on_chat_message(assistant_msg("", Some(vec![search_call("x")])));
    assert!(state.exhaustion_message().contains("while searching the web"));

    let mut state = LoopState::new("q".to_string(), 3);
    state.on_chat_message(assistant_msg("", Some(vec![call("web_fetch", args(vec![(
        "url",
        ArgValue::Text("https://e.com".to_string()),
    )]))])));
    assert!(state.exhaustion_message().contains("while fetching a webpage"));

    // With no assistant activity at all, the model was reasoning.
    let state = LoopState::new("q".to_string(), 3);
    assert!(state.exhaustion_message().contains("while reasoning"));
}

#[test]
fn duplicate_argument_keys_take_the_first() {
    let c = call(
        "web_search",
        args(vec![
            ("query", ArgValue::Text("first".to_string())),
            ("query", ArgValue::Text("second".to_string())),
        ]),
    );
    match interpret_tool_call(&c) {
        ToolDecision::Search { query, .. } => assert_eq!(query, "first"),
        other => panic!("expected a search decision, got {:?}", other),
    }
}

#[test]
fn zero_iteration_budget_exhausts_immediately() {
    let mut state = LoopState::new("q".to_string(), 0);
    let result = state.run_replay(Vec::new(), Vec::new());
    match result {
        Ok(RunOutcome::Exhausted(m)) => {
            assert!(m.starts_with("Reached maximum iterations (0) while reasoning."));
        }
        other => panic!("expected immediate exhaustion, got {:?}", other),
    }
    assert_eq!(state.transcript.len(), 1);
}
