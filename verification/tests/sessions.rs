use rag::agent::{
    dispatch, finish_exhausted, force_final_answer, forced_final_prompt, next_request,
    session_result,
};
use rag::{
    answer_query_hybrid, run_agent, AgentAction, AgentEvent, AgentState, Config, Decision, Json,
    McpCapabilities, McpClient, Member, Origin,
};

fn config(url: &str, max_steps: usize) -> Config {
    Config {
        source_dir: "./".to_string(),
        include_exts: vec![".rs".to_string()],
        exclude_dirs: vec![],
        max_file_bytes: 10,
        chunk_size: 10,
        chunk_overlap: 2,
        ollama_url: String::new(),
        embed_model: String::new(),
        chat_model: String::new(),
        qdrant_url: String::new(),
        collection: String::new(),
        distance: String::new(),
        top_k: 1,
        system_prompt: "Answer plainly.".to_string(),
        hybrid_system_prompt: "You are an agent.".to_string(),
        mcp_url: url.to_string(),
        mcp_command: String::new(),
        mcp_args: vec![],
        agent_max_steps: max_steps,
    }
}

fn no_capabilities() -> McpCapabilities {
    McpCapabilities { tools: vec![], prompts: vec![], resources: vec![], diagnostics: vec![] }
}

fn start(url: &str, max_steps: usize, question: &str) -> (Config, McpClient, AgentState) {
    let cfg = config(url, max_steps);
    let mcp = McpClient::from_config(&cfg);
    let (state, first) = answer_query_hybrid(&cfg, &mcp, &no_capabilities(), question);
    assert!(matches!(first, AgentAction::AskDirective));
    (cfg, mcp, state)
}

fn turns(state: &AgentState) -> Vec<(String, String)> {
    state.conversation.iter().map(|m| (m.role.clone(), m.content.clone())).collect()
}

fn pair(role: &str, content: &str) -> (String, String) {
    (role.to_string(), content.to_string())
}

fn object(members: Vec<(&str, Json)>) -> Json {
    Json::Object(
        members
            .into_iter()
            .map(|(key, value)| Member { key: key.to_string(), value })
            .collect(),
    )
}

fn directive(raw: &str) -> AgentEvent {
    AgentEvent::Directive(Ok(raw.to_string()))
}

fn retrieve_action(action: &AgentAction) -> (String, Origin) {
    match action {
        AgentAction::Retrieve { query, origin } => (query.clone(), *origin),
        other => panic!("no retrieval: {:?}", other),
    }
}

#[test]
fn session_opens_with_summary_and_question() {
    let (_, _, state) = start("http://mcp", 0, "What is X?");
    assert_eq!(state.max_steps, 1);
    assert_eq!(state.current_step, 0);
    assert_eq!(state.conversation.len(), 2);
    assert_eq!(state.conversation[0].role, "system");
    assert!(state.conversation[0].content.starts_with("You are an agent.\n\nAvailable Tools:\n- (none)"));
    assert_eq!(turns(&state)[1], pair("user", "What is X?"));
    assert!(state.context_log.is_empty());

    let (_, _, state) = start("http://mcp", 5, "Use RAG only: what is X?");
    assert_eq!(state.max_steps, 5);
    assert_eq!(state.conversation.len(), 3);
    assert_eq!(
        turns(&state)[1],
        pair(
            "system",
            "User requested RAG-only mode for this query. Do not use MCP tool/prompt/resource actions. Use retrieve and final only."
        )
    );
    assert_eq!(turns(&state)[2], pair("user", "Use RAG only: what is X?"));
}

#[test]
fn final_answer_ends_the_session_without_counting_a_step() {
    let (cfg, mcp, mut state) = start("http://mcp", 1, "q");
    let before = turns(&state);
    let action = run_agent(&mut state, &cfg, &mcp, directive(r#"{"action":"final","answer":"42"}"#));
    assert!(matches!(action, AgentAction::Done(Ok(ref a)) if a == "42"));
    assert_eq!(state.current_step, 0);
    assert_eq!(turns(&state), before);
}

#[test]
fn failed_completion_ends_the_session_with_that_failure() {
    let (cfg, mcp, mut state) = start("http://mcp", 3, "q");
    let action = run_agent(&mut state, &cfg, &mcp, AgentEvent::Directive(Err("timeout".to_string())));
    assert!(matches!(action, AgentAction::Done(Err(ref e)) if e == "timeout"));
    assert_eq!(state.current_step, 0);
}

#[test]
fn unreadable_output_is_reported_to_the_model_and_counts_a_step() {
    let (cfg, mcp, mut state) = start("http://mcp", 2, "q");
    let action = run_agent(&mut state, &cfg, &mcp, directive("no json"));
    assert!(matches!(action, AgentAction::AskDirective));
    assert_eq!(state.current_step, 1);
    assert_eq!(
        turns(&state).last().unwrap(),
        &pair(
            "system",
            "Invalid controller JSON output: No JSON object found in model output. Return valid JSON with one action and required fields."
        )
    );
    assert!(state.context_log.is_empty());
    let action = run_agent(&mut state, &cfg, &mcp, directive(r#"{"action":"fly"}"#));
    assert!(matches!(action, AgentAction::AskFinal { .. }));
    assert_eq!(state.current_step, 2);
    assert_eq!(
        turns(&state).last().unwrap(),
        &pair(
            "system",
            "Invalid controller JSON output: unknown action: fly. Return valid JSON with one action and required fields."
        )
    );
}

#[test]
fn retrieval_is_recorded_as_context_or_as_failure() {
    let (cfg, mcp, mut state) = start("http://mcp", 5, "q");
    let action = run_agent(
        &mut state,
        &cfg,
        &mcp,
        directive(r#"{"action":"retrieve","arguments":{"query":"agent loop"}}"#),
    );
    assert_eq!(retrieve_action(&action), ("agent loop".to_string(), Origin::Directive));
    assert_eq!(state.current_step, 0);
    let action = run_agent(
        &mut state,
        &cfg,
        &mcp,
        AgentEvent::Retrieved {
            query: "agent loop".to_string(),
            origin: Origin::Directive,
            result: Ok("[1] a.rs (chunk 0)\nfn main".to_string()),
        },
    );
    assert!(matches!(action, AgentAction::AskDirective));
    assert_eq!(state.current_step, 1);
    assert_eq!(
        turns(&state).last().unwrap(),
        &pair("system", "RAG retrieve for query: agent loop\n[1] a.rs (chunk 0)\nfn main")
    );
    assert_eq!(state.context_log, vec!["RAG retrieve for query: agent loop\n[1] a.rs (chunk 0)\nfn main"]);
    let action = run_agent(
        &mut state,
        &cfg,
        &mcp,
        AgentEvent::Retrieved {
            query: "x".to_string(),
            origin: Origin::Directive,
            result: Err("store down".to_string()),
        },
    );
    assert!(matches!(action, AgentAction::AskDirective));
    assert_eq!(state.current_step, 2);
    assert_eq!(turns(&state).last().unwrap(), &pair("tool", "RAG retrieve error: store down"));
    assert_eq!(state.context_log.len(), 2);
}

#[test]
fn each_origin_labels_its_turns() {
    let cases = [
        (
            Origin::RagOnly,
            "RAG retrieve fallback (RAG-only mode) for query: q\nctx",
            "RAG retrieve fallback error (RAG-only mode): e",
        ),
        (
            Origin::ResourceUnavailable,
            "RAG retrieve fallback (MCP disabled) for query: q\nctx",
            "RAG retrieve fallback error (MCP disabled): e",
        ),
        (
            Origin::ResourceFailed,
            "RAG retrieve fallback (resource read failed) for query: q\nctx",
            "RAG retrieve fallback error (resource read failed): e",
        ),
    ];
    for (origin, found, failed) in cases {
        let (cfg, mcp, mut state) = start("http://mcp", 5, "q");
        run_agent(
            &mut state,
            &cfg,
            &mcp,
            AgentEvent::Retrieved { query: "q".to_string(), origin, result: Ok("ctx".to_string()) },
        );
        assert_eq!(turns(&state).last().unwrap(), &pair("system", found));
        run_agent(
            &mut state,
            &cfg,
            &mcp,
            AgentEvent::Retrieved { query: "q".to_string(), origin, result: Err("e".to_string()) },
        );
        assert_eq!(turns(&state).last().unwrap(), &pair("tool", failed));
        assert_eq!(state.conversation.len(), 4);
        assert_eq!(state.current_step, 2);
    }
}

#[test]
fn retrieval_only_session_turns_capabilities_into_retrieval() {
    for raw in [
        r#"{"action":"tool","name":"fetch-weather","arguments":{"city":"Delhi"}}"#,
        r#"{"action":"prompt","name":"summarize"}"#,
        r#"{"action":"resource","uri":"config://app"}"#,
    ] {
        for url in ["http://mcp", ""] {
            let (cfg, mcp, mut state) = start(url, 4, "What is X? use rag only");
            let before = turns(&state);
            let action = run_agent(&mut state, &cfg, &mcp, directive(raw));
            assert_eq!(
                retrieve_action(&action),
                ("What is X? use rag only".to_string(), Origin::RagOnly),
                "{}",
                raw
            );
            assert_eq!(turns(&state), before);
            assert_eq!(state.current_step, 0);
        }
    }
}

#[test]
fn without_a_server_capabilities_fall_back_to_retrieval() {
    let (cfg, mcp, mut state) = start("", 4, "weather in Pune");
    assert!(!mcp.is_enabled());
    let action = run_agent(
        &mut state,
        &cfg,
        &mcp,
        directive(r#"{"action":"tool","name":"fetch-weather"}"#),
    );
    assert_eq!(retrieve_action(&action), ("weather in Pune".to_string(), Origin::CallUnavailable));
    let action = run_agent(
        &mut state,
        &cfg,
        &mcp,
        AgentEvent::Retrieved {
            query: "weather in Pune".to_string(),
            origin: Origin::CallUnavailable,
            result: Ok("ctx".to_string()),
        },
    );
    assert!(matches!(action, AgentAction::AskDirective));
    assert_eq!(state.current_step, 1);
    let all = turns(&state);
    assert_eq!(
        &all[all.len() - 2..],
        &[
            pair("system", "RAG retrieve fallback (MCP disabled) for query: weather in Pune\nctx"),
            pair("system", "MCP is unavailable in this session. Choose only: retrieve or final."),
        ]
    );
    assert_eq!(state.context_log.len(), 1);

    let action = run_agent(&mut state, &cfg, &mcp, directive(r#"{"action":"prompt","name":"p"}"#));
    assert_eq!(retrieve_action(&action), ("weather in Pune".to_string(), Origin::CallUnavailable));
    let action = run_agent(
        &mut state,
        &cfg,
        &mcp,
        directive(r#"{"action":"resource","uri":"config://app"}"#),
    );
    assert_eq!(
        retrieve_action(&action),
        ("weather in Pune".to_string(), Origin::ResourceUnavailable)
    );
}

#[test]
fn substitute_query_is_the_name_when_no_user_turn_exists() {
    let state = AgentState::new(3);
    let action = dispatch(
        &state,
        false,
        Decision::ToolCall { name: "lookup".to_string(), args: Json::Null },
    );
    assert_eq!(retrieve_action(&action), ("lookup".to_string(), Origin::CallUnavailable));
    let action = dispatch(&state, false, Decision::ResourceRead { uri: "file://x".to_string() });
    assert_eq!(retrieve_action(&action), ("file://x".to_string(), Origin::ResourceUnavailable));
    let action = dispatch(&state, true, Decision::ResourceRead { uri: "file://x".to_string() });
    assert!(matches!(action, AgentAction::ReadResource { ref uri } if uri == "file://x"));
    let action = dispatch(&state, true, Decision::FinalAnswer("a".to_string()));
    assert!(matches!(action, AgentAction::Done(Ok(ref a)) if a == "a"));
}

#[test]
fn tool_call_is_normalized_and_its_outcome_recorded() {
    let (cfg, mcp, mut state) = start("http://mcp", 4, "weather in Pune, please");
    let action = run_agent(
        &mut state,
        &cfg,
        &mcp,
        directive(r#"{"action":"tool","name":"Fetch-Weather","arguments":{"units":"c"}}"#),
    );
    match action {
        AgentAction::CallTool { name, args } => {
            assert_eq!(name, "Fetch-Weather");
            assert_eq!(args, object(vec![("city", Json::Str("Pune".to_string()))]));
        }
        other => panic!("{:?}", other),
    }
    let value = object(vec![
        ("isError", Json::Bool(false)),
        ("content", Json::Array(vec![Json::Str("31 \"C\"".to_string())])),
    ]);
    let action = run_agent(
        &mut state,
        &cfg,
        &mcp,
        AgentEvent::ToolResult { name: "Fetch-Weather".to_string(), result: Ok(value) },
    );
    assert!(matches!(action, AgentAction::AskDirective));
    assert_eq!(state.current_step, 1);
    assert_eq!(
        turns(&state).last().unwrap(),
        &pair("tool", "Tool result [Fetch-Weather]: {\"content\":[\"31 \\\"C\\\"\"],\"isError\":false}")
    );
    run_agent(
        &mut state,
        &cfg,
        &mcp,
        AgentEvent::ToolResult { name: "t".to_string(), result: Err("refused".to_string()) },
    );
    assert_eq!(
        turns(&state).last().unwrap(),
        &pair("tool", "Tool result [t]: Tool call failed for t: refused")
    );
    assert_eq!(state.context_log.len(), 2);
}

#[test]
fn prompt_call_keeps_its_arguments_and_its_outcome_is_recorded() {
    let (cfg, mcp, mut state) = start("http://mcp", 4, "weather in Pune");
    let action = run_agent(
        &mut state,
        &cfg,
        &mcp,
        directive(r#"{"action":"prompt","name":"fetch-weather","arguments":{"units":"c"}}"#),
    );
    match action {
        AgentAction::GetPrompt { name, args } => {
            assert_eq!(name, "fetch-weather");
            assert_eq!(args, object(vec![("units", Json::Str("c".to_string()))]));
        }
        other => panic!("{:?}", other),
    }
    run_agent(
        &mut state,
        &cfg,
        &mcp,
        AgentEvent::PromptResult { name: "p".to_string(), result: Ok(Json::Null) },
    );
    assert_eq!(turns(&state).last().unwrap(), &pair("tool", "Prompt result [p]: null"));
    run_agent(
        &mut state,
        &cfg,
        &mcp,
        AgentEvent::PromptResult { name: "p".to_string(), result: Err("gone".to_string()) },
    );
    assert_eq!(
        turns(&state).last().unwrap(),
        &pair("tool", "Prompt result [p]: Prompt fetch failed for p: gone")
    );
    assert_eq!(state.current_step, 2);
}

#[test]
fn failed_resource_read_leaves_two_turns() {
    for retrieval in [Ok("ctx".to_string()), Err("store down".to_string())] {
        let (cfg, mcp, mut state) = start("http://mcp", 4, "what does the config say");
        let action = run_agent(
            &mut state,
            &cfg,
            &mcp,
            directive(r#"{"action":"resource","uri":"config://app"}"#),
        );
        assert!(matches!(action, AgentAction::ReadResource { ref uri } if uri == "config://app"));
        let before = state.conversation.len();
        let action = run_agent(
            &mut state,
            &cfg,
            &mcp,
            AgentEvent::ResourceResult {
                uri: "config://app".to_string(),
                result: Err("not found".to_string()),
            },
        );
        assert_eq!(
            retrieve_action(&action),
            ("what does the config say".to_string(), Origin::ResourceFailed)
        );
        assert_eq!(state.current_step, 0);
        assert_eq!(state.conversation.len(), before + 1);
        let expected_second = match &retrieval {
            Ok(_) => pair(
                "system",
                "RAG retrieve fallback (resource read failed) for query: what does the config say\nctx",
            ),
            Err(_) => pair("tool", "RAG retrieve fallback error (resource read failed): store down"),
        };
        let action = run_agent(
            &mut state,
            &cfg,
            &mcp,
            AgentEvent::Retrieved {
                query: "what does the config say".to_string(),
                origin: Origin::ResourceFailed,
                result: retrieval,
            },
        );
        assert!(matches!(action, AgentAction::AskDirective));
        assert_eq!(state.current_step, 1);
        assert_eq!(state.conversation.len(), before + 2);
        let all = turns(&state);
        assert_eq!(
            &all[before..],
            &[pair("tool", "Resource read failed for config://app: not found"), expected_second]
        );
        assert_eq!(state.context_log.len(), 2);
    }
}

#[test]
fn resource_content_is_recorded() {
    let (cfg, mcp, mut state) = start("http://mcp", 4, "q");
    let action = run_agent(
        &mut state,
        &cfg,
        &mcp,
        AgentEvent::ResourceResult {
            uri: "config://app".to_string(),
            result: Ok(object(vec![("contents", Json::Array(vec![]))])),
        },
    );
    assert!(matches!(action, AgentAction::AskDirective));
    assert_eq!(
        turns(&state).last().unwrap(),
        &pair("tool", "Resource result [config://app]: {\"contents\":[]}")
    );
    assert_eq!(state.current_step, 1);
}

#[test]
fn budget_of_n_steps_allows_n_directives_then_forces_the_final_answer() {
    for n in [1usize, 2, 5] {
        let (cfg, mcp, mut state) = start("http://mcp", n, "q");
        let mut directives = 0usize;
        let mut action = next_request(&state, &cfg);
        loop {
            match action {
                AgentAction::AskDirective => {
                    directives += 1;
                    assert!(state.current_step < n);
                    action = run_agent(&mut state, &cfg, &mcp, directive("garbage"));
                }
                AgentAction::AskFinal { .. } => break,
                other => panic!("{:?}", other),
            }
        }
        assert_eq!(directives, n);
        assert_eq!(state.current_step, n);
    }
}

#[test]
fn final_answer_on_the_last_step_is_a_success() {
    let (cfg, mcp, mut state) = start("http://mcp", 3, "q");
    run_agent(&mut state, &cfg, &mcp, directive("garbage"));
    run_agent(&mut state, &cfg, &mcp, directive("garbage"));
    assert_eq!(state.current_step, 2);
    assert!(matches!(next_request(&state, &cfg), AgentAction::AskDirective));
    let action = run_agent(&mut state, &cfg, &mcp, directive(r#"{"action":"final","answer":"done"}"#));
    assert!(matches!(action, AgentAction::Done(Ok(ref a)) if a == "done"));
}

#[test]
fn forced_final_prompt_holds_context_and_question() {
    let (cfg, mcp, mut state) = start("http://mcp", 1, "What is X?");
    let action = run_agent(&mut state, &cfg, &mcp, directive("garbage"));
    let messages = match action {
        AgentAction::AskFinal { messages } => messages,
        other => panic!("{:?}", other),
    };
    assert_eq!(messages.len(), 2);
    assert_eq!(messages[0].role, "system");
    assert_eq!(messages[0].content, "Answer plainly.");
    assert_eq!(messages[1].role, "user");
    assert_eq!(
        messages[1].content,
        "Use the context below to answer the question.\n\nContext:\n(no context found)\n\nQuestion: What is X?\n\nReturn only a direct final answer in plain text. Do not return JSON."
    );

    state.append_context("A".to_string());
    state.append_tool("B".to_string());
    let messages = forced_final_prompt(&state, &cfg);
    assert_eq!(
        messages[1].content,
        "Use the context below to answer the question.\n\nContext:\nA\n\nB\n\nQuestion: What is X?\n\nReturn only a direct final answer in plain text. Do not return JSON."
    );
    let empty = AgentState::new(1);
    let messages = forced_final_prompt(&empty, &cfg);
    assert_eq!(
        messages[1].content,
        "Use the context below to answer the question.\n\nContext:\n(no context found)\n\nQuestion: \n\nReturn only a direct final answer in plain text. Do not return JSON."
    );
}

#[test]
fn forced_final_answer_is_trimmed_or_fails() {
    assert_eq!(force_final_answer(Ok("  fine \n".to_string())), Ok("fine".to_string()));
    assert_eq!(
        force_final_answer(Ok(" \n\t".to_string())),
        Err("Model returned an empty fallback final answer".to_string())
    );
    assert_eq!(force_final_answer(Err("down".to_string())), Err("down".to_string()));
    assert_eq!(finish_exhausted(3, Ok(" a ".to_string())), Ok("a".to_string()));
    assert_eq!(
        finish_exhausted(10, Err("down".to_string())),
        Err("Max steps exceeded (limit: 10) before final answer; fallback generation failed: down".to_string())
    );
    assert_eq!(
        finish_exhausted(1, Ok(String::new())),
        Err("Max steps exceeded (limit: 1) before final answer; fallback generation failed: Model returned an empty fallback final answer".to_string())
    );

    let (cfg, mcp, mut state) = start("http://mcp", 2, "q");
    state.current_step = 2;
    let action = run_agent(&mut state, &cfg, &mcp, AgentEvent::FinalCompletion(Ok(" yes ".to_string())));
    assert!(matches!(action, AgentAction::Done(Ok(ref a)) if a == "yes"));
    let action = run_agent(&mut state, &cfg, &mcp, AgentEvent::FinalCompletion(Err("x".to_string())));
    assert!(matches!(
        action,
        AgentAction::Done(Err(ref e))
            if e == "Max steps exceeded (limit: 2) before final answer; fallback generation failed: x"
    ));
}

#[test]
fn question_stays_the_latest_user_turn_through_a_session() {
    let (cfg, mcp, mut state) = start("http://mcp", 6, "the question");
    run_agent(&mut state, &cfg, &mcp, directive("garbage"));
    run_agent(
        &mut state,
        &cfg,
        &mcp,
        AgentEvent::Retrieved {
            query: "user".to_string(),
            origin: Origin::Directive,
            result: Ok("user".to_string()),
        },
    );
    run_agent(
        &mut state,
        &cfg,
        &mcp,
        AgentEvent::ToolResult { name: "user".to_string(), result: Err("user".to_string()) },
    );
    assert_eq!(rag::state::latest_user_query(&state), Some("the question".to_string()));
}

#[test]
fn session_result_pairs_context_and_answer() {
    let mut state = AgentState::new(1);
    assert_eq!(
        session_result(&state, "a".to_string()),
        ("(no context found)".to_string(), "a".to_string())
    );
    state.append_context("c1".to_string());
    state.append_tool("c2".to_string());
    assert_eq!(session_result(&state, "a".to_string()), ("c1\n\nc2".to_string(), "a".to_string()));
}
