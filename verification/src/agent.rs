use crate::config::Config;
use crate::decision::{directive_of_text, parse_decision, Decision, Directive};
use crate::json::{encode_json, json_encode, value_result, Json, JsonModel};
use crate::mcp::{McpCapabilities, McpClient};
use crate::normalize::{normalize_tool_args, normalized_args};
use crate::prompt::{build_hybrid_system_prompt, capability_summary};
use crate::state::{
    is_rag_only, is_rag_only_query, is_rag_only_state, latest_user_query, turns_of, AgentState,
    Message, Session, Turn,
};
use crate::text::{
    blank, concat2, concat3, concat4, concat5, decimal, is_blank, text_result, texts, trim,
    trimmed, usize_text,
};
use vstd::prelude::*;
use vstd::string::StringExecFns;

verus! {

/// Why a retrieval runs.
#[derive(Clone, Copy, Debug, PartialEq, Eq)]
pub enum Origin {
    /// The model asked for it.
    Directive,
    /// The model asked for a capability in a retrieval-only session.
    RagOnly,
    /// The model asked for a tool or a prompt while no capability server is
    /// configured.
    CallUnavailable,
    /// The model asked for a resource while no capability server is configured.
    ResourceUnavailable,
    /// A resource could not be read.
    ResourceFailed,
}

/// What the caller is asked to do next.
#[derive(Debug)]
pub enum AgentAction {
    /// Ask the model for a directive, in structured mode, over the whole
    /// transcript of the state.
    AskDirective,
    /// Run the retrieval for `query`.
    Retrieve { query: String, origin: Origin },
    /// Call the tool `name`.
    CallTool { name: String, args: Json },
    /// Fetch the prompt `name`.
    GetPrompt { name: String, args: Json },
    /// Read the resource at `uri`.
    ReadResource { uri: String },
    /// Ask the model for a plain answer over `messages`.
    AskFinal { messages: Vec<Message> },
    /// The session is over, with an answer or a failure.
    Done(Result<String, String>),
}

/// What the caller reports back: the outcome of the action it was asked for,
/// together with what the action named.
#[derive(Debug)]
pub enum AgentEvent {
    /// Nothing yet: the session starts.
    Begin,
    Directive(Result<String, String>),
    Retrieved { query: String, origin: Origin, result: Result<String, String> },
    ToolResult { name: String, result: Result<Json, String> },
    PromptResult { name: String, result: Result<Json, String> },
    ResourceResult { uri: String, result: Result<Json, String> },
    FinalCompletion(Result<String, String>),
}

/// An `AgentAction` as the contracts see it.
pub enum Action {
    AskDirective,
    Retrieve { query: Seq<char>, origin: Origin },
    CallTool { name: Seq<char>, args: JsonModel },
    GetPrompt { name: Seq<char>, args: JsonModel },
    ReadResource { uri: Seq<char> },
    AskFinal { turns: Seq<Turn> },
    Done(Result<Seq<char>, Seq<char>>),
}

/// An `AgentEvent` as the contracts see it.
pub enum Event {
    Begin,
    Directive(Result<Seq<char>, Seq<char>>),
    Retrieved { query: Seq<char>, origin: Origin, result: Result<Seq<char>, Seq<char>> },
    ToolResult { name: Seq<char>, result: Result<JsonModel, Seq<char>> },
    PromptResult { name: Seq<char>, result: Result<JsonModel, Seq<char>> },
    ResourceResult { uri: Seq<char>, result: Result<JsonModel, Seq<char>> },
    FinalCompletion(Result<Seq<char>, Seq<char>>),
}

impl View for AgentAction {
    type V = Action;

    open spec fn view(&self) -> Action {
        match self {
            AgentAction::AskDirective => Action::AskDirective,
            AgentAction::Retrieve { query, origin } => Action::Retrieve {
                query: query@,
                origin: *origin,
            },
            AgentAction::CallTool { name, args } => Action::CallTool { name: name@, args: args@ },
            AgentAction::GetPrompt { name, args } => Action::GetPrompt { name: name@, args: args@ },
            AgentAction::ReadResource { uri } => Action::ReadResource { uri: uri@ },
            AgentAction::AskFinal { messages } => Action::AskFinal { turns: turns_of(messages@) },
            AgentAction::Done(r) => Action::Done(text_result(*r)),
        }
    }
}

impl View for AgentEvent {
    type V = Event;

    open spec fn view(&self) -> Event {
        match self {
            AgentEvent::Begin => Event::Begin,
            AgentEvent::Directive(r) => Event::Directive(text_result(*r)),
            AgentEvent::Retrieved { query, origin, result } => Event::Retrieved {
                query: query@,
                origin: *origin,
                result: text_result(*result),
            },
            AgentEvent::ToolResult { name, result } => Event::ToolResult {
                name: name@,
                result: value_result(*result),
            },
            AgentEvent::PromptResult { name, result } => Event::PromptResult {
                name: name@,
                result: value_result(*result),
            },
            AgentEvent::ResourceResult { uri, result } => Event::ResourceResult {
                uri: uri@,
                result: value_result(*result),
            },
            AgentEvent::FinalCompletion(r) => Event::FinalCompletion(text_result(*r)),
        }
    }
}

impl Event {
    /// Whether the event reports on an action of a step of the loop, as
    /// opposed to the start of the session and to the forced final answer.
    pub open spec fn within_step(self) -> bool {
        !(self is Begin) && !(self is FinalCompletion)
    }
}

/// The turn that records a successful retrieval.
pub open spec fn retrieved_note(origin: Origin, query: Seq<char>, context: Seq<char>) -> Seq<char> {
    match origin {
        Origin::Directive => "RAG retrieve for query: "@ + query + "\n"@ + context,
        Origin::RagOnly => "RAG retrieve fallback (RAG-only mode) for query: "@ + query + "\n"@
            + context,
        Origin::CallUnavailable => "RAG retrieve fallback (MCP disabled) for query: "@ + query
            + "\n"@ + context,
        Origin::ResourceUnavailable => "RAG retrieve fallback (MCP disabled) for query: "@ + query
            + "\n"@ + context,
        Origin::ResourceFailed => "RAG retrieve fallback (resource read failed) for query: "@
            + query + "\n"@ + context,
    }
}

/// The turn that records a failed retrieval.
pub open spec fn retrieve_failure_note(origin: Origin, error: Seq<char>) -> Seq<char> {
    match origin {
        Origin::Directive => "RAG retrieve error: "@ + error,
        Origin::RagOnly => "RAG retrieve fallback error (RAG-only mode): "@ + error,
        Origin::CallUnavailable => "RAG retrieve fallback error (MCP disabled): "@ + error,
        Origin::ResourceUnavailable => "RAG retrieve fallback error (MCP disabled): "@ + error,
        Origin::ResourceFailed => "RAG retrieve fallback error (resource read failed): "@ + error,
    }
}

/// The turn that tells the model that its output could not be read.
pub open spec fn invalid_output_note(error: Seq<char>) -> Seq<char> {
    "Invalid controller JSON output: "@ + error
        + ". Return valid JSON with one action and required fields."@
}

/// The turn that tells the model that no capability server is there.
pub open spec fn unavailable_note() -> Seq<char> {
    "MCP is unavailable in this session. Choose only: retrieve or final."@
}

/// The turn that records the outcome of a tool call.
pub open spec fn tool_note(name: Seq<char>, result: Result<JsonModel, Seq<char>>) -> Seq<char> {
    "Tool result ["@ + name + "]: "@ + match result {
        Ok(v) => json_encode(v),
        Err(e) => "Tool call failed for "@ + name + ": "@ + e,
    }
}

/// The turn that records the outcome of a prompt fetch.
pub open spec fn prompt_note(name: Seq<char>, result: Result<JsonModel, Seq<char>>) -> Seq<char> {
    "Prompt result ["@ + name + "]: "@ + match result {
        Ok(v) => json_encode(v),
        Err(e) => "Prompt fetch failed for "@ + name + ": "@ + e,
    }
}

/// The turn that records what a resource holds.
pub open spec fn resource_note(uri: Seq<char>, value: JsonModel) -> Seq<char> {
    "Resource result ["@ + uri + "]: "@ + json_encode(value)
}

/// The turn that records that a resource could not be read.
pub open spec fn resource_failure_note(uri: Seq<char>, error: Seq<char>) -> Seq<char> {
    "Resource read failed for "@ + uri + ": "@ + error
}

/// The question put to the model when the step budget is used up.
pub open spec fn forced_final_question(context: Seq<char>, question: Seq<char>) -> Seq<char> {
    "Use the context below to answer the question.\n\nContext:\n"@ + context + "\n\nQuestion: "@
        + question
        + "\n\nReturn only a direct final answer in plain text. Do not return JSON."@
}

/// The two turns sent for the forced final answer: the instructions, and the
/// gathered context with the latest user turn (empty where there is none).
pub open spec fn forced_final_turns(s: Session, system_prompt: Seq<char>) -> Seq<Turn> {
    seq![
        Turn { role: "system"@, content: system_prompt },
        Turn {
            role: "user"@,
            content: forced_final_question(
                s.context_text(),
                match s.latest_user() {
                    Some(q) => q,
                    None => Seq::empty(),
                },
            ),
        },
    ]
}

/// What the forced final answer comes to: the answer trimmed, or a failure
/// where the call failed or the answer is blank.
pub open spec fn forced_final_outcome(completion: Result<Seq<char>, Seq<char>>) -> Result<
    Seq<char>,
    Seq<char>,
> {
    match completion {
        Ok(answer) => if is_blank(answer) {
            Err("Model returned an empty fallback final answer"@)
        } else {
            Ok(trim(answer))
        },
        Err(e) => Err(e),
    }
}

/// How a session ends once its step budget is used up.
pub open spec fn exhausted_outcome(max_steps: nat, completion: Result<Seq<char>, Seq<char>>) -> Result<
    Seq<char>,
    Seq<char>,
> {
    match forced_final_outcome(completion) {
        Ok(answer) => Ok(answer),
        Err(e) => Err(
            "Max steps exceeded (limit: "@ + decimal(max_steps)
                + ") before final answer; fallback generation failed: "@ + e,
        ),
    }
}

/// What is asked for at the top of the loop: a directive while steps are left,
/// else the forced final answer.
pub open spec fn next_action(s: Session, system_prompt: Seq<char>) -> Action {
    if s.step < s.max_steps {
        Action::AskDirective
    } else {
        Action::AskFinal { turns: forced_final_turns(s, system_prompt) }
    }
}

/// The end of a step: the step is counted, and the loop goes on.
pub open spec fn advance(s: Session, system_prompt: Seq<char>) -> (Session, Action) {
    (s.stepped(), next_action(s.stepped(), system_prompt))
}

/// The query of a retrieval that stands in for a capability: the latest user
/// turn, else `fallback`.
pub open spec fn substitute_query(s: Session, fallback: Seq<char>) -> Seq<char> {
    match s.latest_user() {
        Some(q) => q,
        None => fallback,
    }
}

/// The action that a directive leads to. In a retrieval-only session, and
/// where no capability server is configured, a retrieval stands in for a tool,
/// a prompt or a resource.
pub open spec fn dispatch_action(s: Session, mcp_enabled: bool, d: Directive) -> Action {
    match d {
        Directive::Retrieve { query } => Action::Retrieve { query, origin: Origin::Directive },
        Directive::ToolCall { name, args } => if s.rag_only() {
            Action::Retrieve { query: substitute_query(s, name), origin: Origin::RagOnly }
        } else if !mcp_enabled {
            Action::Retrieve { query: substitute_query(s, name), origin: Origin::CallUnavailable }
        } else {
            Action::CallTool { name, args: normalized_args(name, args, s.latest_user()) }
        },
        Directive::PromptCall { name, args } => if s.rag_only() {
            Action::Retrieve { query: substitute_query(s, name), origin: Origin::RagOnly }
        } else if !mcp_enabled {
            Action::Retrieve { query: substitute_query(s, name), origin: Origin::CallUnavailable }
        } else {
            Action::GetPrompt { name, args }
        },
        Directive::ResourceRead { uri } => if s.rag_only() {
            Action::Retrieve { query: substitute_query(s, uri), origin: Origin::RagOnly }
        } else if !mcp_enabled {
            Action::Retrieve {
                query: substitute_query(s, uri),
                origin: Origin::ResourceUnavailable,
            }
        } else {
            Action::ReadResource { uri }
        },
        Directive::FinalAnswer(text) => Action::Done(Ok(text)),
    }
}

/// The session after the outcome of a retrieval is recorded: a context turn
/// for what was found, a tool turn for a failure; after a retrieval that stood
/// in for a tool or a prompt with no server configured, a system turn that
/// says so.
pub open spec fn record_retrieval(
    s: Session,
    query: Seq<char>,
    origin: Origin,
    result: Result<Seq<char>, Seq<char>>,
) -> Session {
    let recorded = match result {
        Ok(context) => s.with_logged_turn("system"@, retrieved_note(origin, query, context)),
        Err(e) => s.with_logged_turn("tool"@, retrieve_failure_note(origin, e)),
    };
    if origin == Origin::CallUnavailable {
        recorded.with_turn("system"@, unavailable_note())
    } else {
        recorded
    }
}

/// One move of the session: the state after `event`, and what is asked next.
pub open spec fn step(s: Session, system_prompt: Seq<char>, mcp_enabled: bool, event: Event) -> (
    Session,
    Action,
) {
    match event {
        Event::Begin => (s, next_action(s, system_prompt)),
        Event::Directive(Err(e)) => (s, Action::Done(Err(e))),
        Event::Directive(Ok(raw)) => match directive_of_text(raw) {
            Ok(d) => (s, dispatch_action(s, mcp_enabled, d)),
            Err(e) => advance(s.with_turn("system"@, invalid_output_note(e)), system_prompt),
        },
        Event::Retrieved { query, origin, result } => advance(
            record_retrieval(s, query, origin, result),
            system_prompt,
        ),
        Event::ToolResult { name, result } => advance(
            s.with_logged_turn("tool"@, tool_note(name, result)),
            system_prompt,
        ),
        Event::PromptResult { name, result } => advance(
            s.with_logged_turn("tool"@, prompt_note(name, result)),
            system_prompt,
        ),
        Event::ResourceResult { uri, result: Ok(value) } => advance(
            s.with_logged_turn("tool"@, resource_note(uri, value)),
            system_prompt,
        ),
        Event::ResourceResult { uri, result: Err(e) } => {
            let recorded = s.with_logged_turn("tool"@, resource_failure_note(uri, e));
            (
                recorded,
                Action::Retrieve {
                    query: substitute_query(recorded, uri),
                    origin: Origin::ResourceFailed,
                },
            )
        },
        Event::FinalCompletion(completion) => (
            s,
            Action::Done(exhausted_outcome(s.max_steps, completion)),
        ),
    }
}

fn retrieval_turn(origin: Origin, query: &str, context: &str) -> (r: String)
    ensures
        r@ == retrieved_note(origin, query@, context@),
{
    match origin {
        Origin::Directive => concat4("RAG retrieve for query: ", query, "\n", context),
        Origin::RagOnly => concat4(
            "RAG retrieve fallback (RAG-only mode) for query: ",
            query,
            "\n",
            context,
        ),
        Origin::CallUnavailable => concat4(
            "RAG retrieve fallback (MCP disabled) for query: ",
            query,
            "\n",
            context,
        ),
        Origin::ResourceUnavailable => concat4(
            "RAG retrieve fallback (MCP disabled) for query: ",
            query,
            "\n",
            context,
        ),
        Origin::ResourceFailed => concat4(
            "RAG retrieve fallback (resource read failed) for query: ",
            query,
            "\n",
            context,
        ),
    }
}

fn retrieval_failure_turn(origin: Origin, error: &str) -> (r: String)
    ensures
        r@ == retrieve_failure_note(origin, error@),
{
    match origin {
        Origin::Directive => concat2("RAG retrieve error: ", error),
        Origin::RagOnly => concat2("RAG retrieve fallback error (RAG-only mode): ", error),
        Origin::CallUnavailable => concat2("RAG retrieve fallback error (MCP disabled): ", error),
        Origin::ResourceUnavailable => concat2(
            "RAG retrieve fallback error (MCP disabled): ",
            error,
        ),
        Origin::ResourceFailed => concat2(
            "RAG retrieve fallback error (resource read failed): ",
            error,
        ),
    }
}

/// The two messages sent for the forced final answer.
pub fn forced_final_prompt(state: &AgentState, cfg: &Config) -> (r: Vec<Message>)
    ensures
        turns_of(r@) == forced_final_turns(state@, cfg.system_prompt@),
{
    let question = match latest_user_query(state) {
        Some(q) => q,
        None => String::new(),
    };
    let context = state.context_text();
    let content = concat5(
        "Use the context below to answer the question.\n\nContext:\n",
        context.as_str(),
        "\n\nQuestion: ",
        question.as_str(),
        "\n\nReturn only a direct final answer in plain text. Do not return JSON.",
    );
    let mut r: Vec<Message> = Vec::new();
    r.push(Message { role: String::from_str("system"), content: cfg.system_prompt.clone() });
    r.push(Message { role: String::from_str("user"), content });
    r
}

/// What the forced final answer comes to, given what the model returned.
pub fn force_final_answer(completion: Result<String, String>) -> (r: Result<String, String>)
    ensures
        text_result(r) == forced_final_outcome(text_result(completion)),
{
    match completion {
        Ok(answer) => if blank(answer.as_str()) {
            Err(String::from_str("Model returned an empty fallback final answer"))
        } else {
            Ok(trimmed(answer.as_str()))
        },
        Err(e) => Err(e),
    }
}

/// How a session ends once its step budget is used up.
pub fn finish_exhausted(max_steps: usize, completion: Result<String, String>) -> (r: Result<
    String,
    String,
>)
    ensures
        text_result(r) == exhausted_outcome(max_steps as nat, text_result(completion)),
{
    match force_final_answer(completion) {
        Ok(answer) => Ok(answer),
        Err(e) => Err(
            concat4(
                "Max steps exceeded (limit: ",
                usize_text(max_steps).as_str(),
                ") before final answer; fallback generation failed: ",
                e.as_str(),
            ),
        ),
    }
}

/// What is asked for at the top of the loop.
pub fn next_request(state: &AgentState, cfg: &Config) -> (r: AgentAction)
    ensures
        r@ == next_action(state@, cfg.system_prompt@),
{
    if state.current_step < state.max_steps {
        AgentAction::AskDirective
    } else {
        AgentAction::AskFinal { messages: forced_final_prompt(state, cfg) }
    }
}

fn substitute(state: &AgentState, fallback: String) -> (r: String)
    ensures
        r@ == substitute_query(state@, fallback@),
{
    match latest_user_query(state) {
        Some(q) => q,
        None => fallback,
    }
}

/// The action that a decision leads to.
pub fn dispatch(state: &AgentState, mcp_enabled: bool, decision: Decision) -> (r: AgentAction)
    ensures
        r@ == dispatch_action(state@, mcp_enabled, decision@),
{
    match decision {
        Decision::Retrieve { query } => AgentAction::Retrieve { query, origin: Origin::Directive },
        Decision::ToolCall { name, args } => {
            if is_rag_only_state(state) {
                AgentAction::Retrieve { query: substitute(state, name), origin: Origin::RagOnly }
            } else if !mcp_enabled {
                AgentAction::Retrieve {
                    query: substitute(state, name),
                    origin: Origin::CallUnavailable,
                }
            } else {
                let args = normalize_tool_args(name.as_str(), args, state);
                AgentAction::CallTool { name, args }
            }
        },
        Decision::PromptCall { name, args } => {
            if is_rag_only_state(state) {
                AgentAction::Retrieve { query: substitute(state, name), origin: Origin::RagOnly }
            } else if !mcp_enabled {
                AgentAction::Retrieve {
                    query: substitute(state, name),
                    origin: Origin::CallUnavailable,
                }
            } else {
                AgentAction::GetPrompt { name, args }
            }
        },
        Decision::ResourceRead { uri } => {
            if is_rag_only_state(state) {
                AgentAction::Retrieve { query: substitute(state, uri), origin: Origin::RagOnly }
            } else if !mcp_enabled {
                AgentAction::Retrieve {
                    query: substitute(state, uri),
                    origin: Origin::ResourceUnavailable,
                }
            } else {
                AgentAction::ReadResource { uri }
            }
        },
        Decision::FinalAnswer(text) => AgentAction::Done(Ok(text)),
    }
}

fn finish_step(state: &mut AgentState, cfg: &Config) -> (r: AgentAction)
    requires
        old(state).current_step < old(state).max_steps,
    ensures
        (final(state)@, r@) == advance(old(state)@, cfg.system_prompt@),
{
    state.current_step = state.current_step + 1;
    next_request(state, cfg)
}

fn call_outcome_text(failure: &str, name: &str, result: Result<Json, String>) -> (r: String)
    ensures
        r@ == match value_result(result) {
            Ok(v) => json_encode(v),
            Err(e) => failure@ + name@ + ": "@ + e,
        },
{
    match result {
        Ok(v) => encode_json(&v),
        Err(e) => concat4(failure, name, ": ", e.as_str()),
    }
}

/// Moves a session by one event: records what the event reports and returns
/// what the caller is to do next.
pub fn run_agent(state: &mut AgentState, cfg: &Config, mcp: &McpClient, event: AgentEvent) -> (r:
    AgentAction)
    requires
        event@.within_step() ==> old(state).current_step < old(state).max_steps,
    ensures
        (final(state)@, r@) == step(
            old(state)@,
            cfg.system_prompt@,
            !(mcp@ is Disabled),
            event@,
        ),
{
    match event {
        AgentEvent::Begin => next_request(state, cfg),
        AgentEvent::Directive(Err(e)) => AgentAction::Done(Err(e)),
        AgentEvent::Directive(Ok(raw)) => match parse_decision(raw.as_str()) {
            Ok(decision) => dispatch(state, mcp.is_enabled(), decision),
            Err(e) => {
                state.append_system(
                    concat3(
                        "Invalid controller JSON output: ",
                        e.as_str(),
                        ". Return valid JSON with one action and required fields.",
                    ),
                );
                finish_step(state, cfg)
            },
        },
        AgentEvent::Retrieved { query, origin, result } => {
            match result {
                Ok(context) => state.append_context(
                    retrieval_turn(origin, query.as_str(), context.as_str()),
                ),
                Err(e) => state.append_tool(retrieval_failure_turn(origin, e.as_str())),
            }
            match origin {
                Origin::CallUnavailable => state.append_system(
                    String::from_str(
                        "MCP is unavailable in this session. Choose only: retrieve or final.",
                    ),
                ),
                _ => {},
            }
            finish_step(state, cfg)
        },
        AgentEvent::ToolResult { name, result } => {
            let outcome = call_outcome_text("Tool call failed for ", name.as_str(), result);
            state.append_tool(concat4("Tool result [", name.as_str(), "]: ", outcome.as_str()));
            finish_step(state, cfg)
        },
        AgentEvent::PromptResult { name, result } => {
            let outcome = call_outcome_text("Prompt fetch failed for ", name.as_str(), result);
            state.append_tool(concat4("Prompt result [", name.as_str(), "]: ", outcome.as_str()));
            finish_step(state, cfg)
        },
        AgentEvent::ResourceResult { uri, result: Ok(value) } => {
            let text = encode_json(&value);
            state.append_tool(concat4("Resource result [", uri.as_str(), "]: ", text.as_str()));
            finish_step(state, cfg)
        },
        AgentEvent::ResourceResult { uri, result: Err(e) } => {
            state.append_tool(
                concat4("Resource read failed for ", uri.as_str(), ": ", e.as_str()),
            );
            let query = substitute(state, uri);
            AgentAction::Retrieve { query, origin: Origin::ResourceFailed }
        },
        AgentEvent::FinalCompletion(completion) => AgentAction::Done(
            finish_exhausted(state.max_steps, completion),
        ),
    }
}

/// What a retrieval-only session is told at its start.
pub open spec fn rag_only_note() -> Seq<char> {
    "User requested RAG-only mode for this query. Do not use MCP tool/prompt/resource actions. Use retrieve and final only."@
}

/// The turns that a session starts with: the capability summary, the note on
/// retrieval-only mode where the question asks for it, and the question.
pub open spec fn opening_turns(summary: Seq<char>, question: Seq<char>) -> Seq<Turn> {
    if is_rag_only(question) {
        seq![
            Turn { role: "system"@, content: summary },
            Turn { role: "system"@, content: rag_only_note() },
            Turn { role: "user"@, content: question },
        ]
    } else {
        seq![
            Turn { role: "system"@, content: summary },
            Turn { role: "user"@, content: question },
        ]
    }
}

/// The session that a question starts in: the opening turns, no context, no
/// step taken, and a budget of at least one step.
pub open spec fn opening_session(summary: Seq<char>, question: Seq<char>, max_steps: nat) -> Session {
    Session {
        turns: opening_turns(summary, question),
        context_log: Seq::empty(),
        step: 0,
        max_steps: if max_steps < 1 {
            1
        } else {
            max_steps
        },
    }
}

/// Starts the session for a question: seeds the state with what the server
/// offers and with the question, and returns it with the first action.
pub fn answer_query_hybrid(
    cfg: &Config,
    mcp: &McpClient,
    caps: &McpCapabilities,
    question: &str,
) -> (r: (AgentState, AgentAction))
    ensures
        r.0@ == opening_session(
            capability_summary(
                cfg.hybrid_system_prompt@,
                texts(caps.tools@),
                texts(caps.prompts@),
                texts(caps.resources@),
                texts(caps.diagnostics@),
                !(mcp@ is Disabled),
            ),
            question@,
            cfg.agent_max_steps as nat,
        ),
        r.1@ == Action::AskDirective,
{
    let budget: usize = if cfg.agent_max_steps < 1 {
        1
    } else {
        cfg.agent_max_steps
    };
    let mut state = AgentState::new(budget);
    state.append_system(build_hybrid_system_prompt(cfg, caps, mcp.is_enabled()));
    if is_rag_only_query(question) {
        state.append_system(
            String::from_str(
                "User requested RAG-only mode for this query. Do not use MCP tool/prompt/resource actions. Use retrieve and final only.",
            ),
        );
    }
    state.append_user(String::from_str(question));
    assert(state@.turns =~= opening_turns(
        capability_summary(
            cfg.hybrid_system_prompt@,
            texts(caps.tools@),
            texts(caps.prompts@),
            texts(caps.resources@),
            texts(caps.diagnostics@),
            !(mcp@ is Disabled),
        ),
        question@,
    ));
    let first = run_agent(&mut state, cfg, mcp, AgentEvent::Begin);
    (state, first)
}

/// What a session hands to its caller: the gathered context and the answer.
pub fn session_result(state: &AgentState, answer: String) -> (r: (String, String))
    ensures
        r.0@ == state@.context_text(),
        r.1@ == answer@,
{
    (state.context_text(), answer)
}

} // verus!
