use crate::agent::{
    dispatch_action, invalid_output_note, prompt_note, resource_failure_note, resource_note,
    retrieve_failure_note, retrieved_note, step, substitute_query, tool_note, unavailable_note,
    Action, Event, Origin,
};
use crate::decision::{directive_of_text, Directive};
use crate::state::{latest_with_role, Session, Turn};
use crate::text::{ascii_lowercase, contains, occurs_at};
use vstd::prelude::*;

verus! {

/// Whether `event` reports on `action`: it is of the kind that the action asks
/// for and names what the action named.
pub open spec fn answers(action: Action, event: Event) -> bool {
    match action {
        Action::AskDirective => event is Directive,
        Action::Retrieve { query, origin } => event is Retrieved && event->Retrieved_query == query
            && event->Retrieved_origin == origin,
        Action::CallTool { name, args } => event is ToolResult && event->ToolResult_name == name,
        Action::GetPrompt { name, args } => event is PromptResult && event->PromptResult_name
            == name,
        Action::ReadResource { uri } => event is ResourceResult && event->ResourceResult_uri == uri,
        Action::AskFinal { turns } => event is FinalCompletion,
        Action::Done(_) => false,
    }
}

/// The session and the action asked for after a session that starts in `s`
/// has seen `events`.
pub open spec fn run(s: Session, system_prompt: Seq<char>, mcp_enabled: bool, events: Seq<Event>) -> (
    Session,
    Action,
)
    decreases events.len(),
{
    if events.len() == 0 {
        step(s, system_prompt, mcp_enabled, Event::Begin)
    } else {
        step(
            run(s, system_prompt, mcp_enabled, events.drop_last()).0,
            system_prompt,
            mcp_enabled,
            events.last(),
        )
    }
}

/// Whether each event of `events` reports on the action asked for just before it.
pub open spec fn orderly(
    s: Session,
    system_prompt: Seq<char>,
    mcp_enabled: bool,
    events: Seq<Event>,
) -> bool
    decreases events.len(),
{
    events.len() == 0 || (orderly(s, system_prompt, mcp_enabled, events.drop_last()) && answers(
        run(s, system_prompt, mcp_enabled, events.drop_last()).1,
        events.last(),
    ))
}

/// How many of `events` hand in the model's output for a directive.
pub open spec fn directives_read(events: Seq<Event>) -> nat
    decreases events.len(),
{
    if events.len() == 0 {
        0
    } else {
        directives_read(events.drop_last()) + if events.last() is Directive {
            1nat
        } else {
            0nat
        }
    }
}

/// Whether `action` is asked for in the middle of a step.
pub open spec fn mid_step(action: Action) -> bool {
    action is Retrieve || action is CallTool || action is GetPrompt || action is ReadResource
}

proof fn lemma_literals()
    ensures
        "system"@ != "user"@,
        "tool"@ != "user"@,
{
    reveal_strlit("system");
    reveal_strlit("tool");
    reveal_strlit("user");
    assert("tool"@[0] != "user"@[0]);
}

proof fn lemma_turn_keeps_latest_user(turns: Seq<Turn>, role: Seq<char>, content: Seq<char>)
    requires
        role != "user"@,
    ensures
        latest_with_role(turns.push(Turn { role, content }), "user"@) == latest_with_role(
            turns,
            "user"@,
        ),
{
    let more = turns.push(Turn { role, content });
    assert(more.drop_last() =~= turns);
}

/// No move of a session changes its latest user turn: the question that a
/// session starts with stays the one that its mode is read from.
pub proof fn law_step_keeps_question(
    s: Session,
    system_prompt: Seq<char>,
    mcp_enabled: bool,
    event: Event,
)
    ensures
        step(s, system_prompt, mcp_enabled, event).0.latest_user() == s.latest_user(),
        step(s, system_prompt, mcp_enabled, event).0.rag_only() == s.rag_only(),
        step(s, system_prompt, mcp_enabled, event).0.max_steps == s.max_steps,
{
    lemma_literals();
    match event {
        Event::Begin => {},
        Event::Directive(Err(e)) => {},
        Event::Directive(Ok(raw)) => {
            match directive_of_text(raw) {
                Ok(d) => {},
                Err(e) => {
                    lemma_turn_keeps_latest_user(
                        s.turns,
                        "system"@,
                        invalid_output_note(e),
                    );
                },
            }
        },
        Event::Retrieved { query, origin, result } => {
            let recorded = match result {
                Ok(context) => s.with_logged_turn("system"@, retrieved_note(origin, query, context)),
                Err(e) => s.with_logged_turn("tool"@, retrieve_failure_note(origin, e)),
            };
            match result {
                Ok(context) => lemma_turn_keeps_latest_user(
                    s.turns,
                    "system"@,
                    retrieved_note(origin, query, context),
                ),
                Err(e) => lemma_turn_keeps_latest_user(
                    s.turns,
                    "tool"@,
                    retrieve_failure_note(origin, e),
                ),
            }
            lemma_turn_keeps_latest_user(
                recorded.turns,
                "system"@,
                unavailable_note(),
            );
        },
        Event::ToolResult { name, result } => {
            lemma_turn_keeps_latest_user(s.turns, "tool"@, tool_note(name, result));
        },
        Event::PromptResult { name, result } => {
            lemma_turn_keeps_latest_user(s.turns, "tool"@, prompt_note(name, result));
        },
        Event::ResourceResult { uri, result: Ok(value) } => {
            lemma_turn_keeps_latest_user(
                s.turns,
                "tool"@,
                resource_note(uri, value),
            );
        },
        Event::ResourceResult { uri, result: Err(e) } => {
            lemma_turn_keeps_latest_user(s.turns, "tool"@, resource_failure_note(uri, e));
        },
        Event::FinalCompletion(completion) => {},
    }
}

/// A move of a session only appends: the turns and the context log it had
/// stay at the front, in order, and its step count stays or grows by one.
pub proof fn law_step_only_appends(
    s: Session,
    system_prompt: Seq<char>,
    mcp_enabled: bool,
    event: Event,
)
    ensures
        s.turns.is_prefix_of(step(s, system_prompt, mcp_enabled, event).0.turns),
        s.context_log.is_prefix_of(step(s, system_prompt, mcp_enabled, event).0.context_log),
        s.step <= step(s, system_prompt, mcp_enabled, event).0.step <= s.step + 1,
{
    let after = step(s, system_prompt, mcp_enabled, event).0;
    assert(after.turns.subrange(0, s.turns.len() as int) =~= s.turns);
    assert(after.context_log.subrange(0, s.context_log.len() as int) =~= s.context_log);
}

proof fn lemma_phrase_prefix(text: Seq<char>)
    requires
        contains(text, "use rag only"@),
    ensures
        contains(text, "use rag"@),
{
    reveal_strlit("use rag only");
    reveal_strlit("use rag");
    let at = choose|at: int| occurs_at(text, "use rag only"@, at);
    assert forall|k: int| 0 <= k < 7 implies text.subrange(at, at + 7)[k] == "use rag"@[k] by {}
    assert(text.subrange(at, at + 7) =~= "use rag"@);
    assert(occurs_at(text, "use rag"@, at));
}

/// In a session whose question holds the words "use rag only", in any letter
/// case, a directive for a tool, a prompt or a resource leads to a retrieval
/// for that question, whatever the directive names.
pub proof fn law_rag_only_retrieves(
    s: Session,
    question: Seq<char>,
    mcp_enabled: bool,
    directive: Directive,
)
    requires
        s.latest_user() == Some(question),
        contains(ascii_lowercase(question), "use rag only"@),
        directive is ToolCall || directive is PromptCall || directive is ResourceRead,
    ensures
        dispatch_action(s, mcp_enabled, directive) == (Action::Retrieve {
            query: question,
            origin: Origin::RagOnly,
        }),
{
    lemma_phrase_prefix(ascii_lowercase(question));
}

/// A final answer ends the session with that answer whenever a directive was
/// asked for, the last step of the budget included.
pub proof fn law_final_answer_succeeds(
    s: Session,
    system_prompt: Seq<char>,
    mcp_enabled: bool,
    raw: Seq<char>,
    answer: Seq<char>,
)
    requires
        directive_of_text(raw) == Ok::<Directive, Seq<char>>(Directive::FinalAnswer(answer)),
    ensures
        step(s, system_prompt, mcp_enabled, Event::Directive(Ok(raw))) == (
            s,
            Action::Done(Ok(answer)),
        ),
{
}

/// A resource that cannot be read leaves two turns behind: one that tells of
/// the failure, and one that tells how the retrieval that stands in for it
/// went.
pub proof fn law_failed_resource_leaves_two_turns(
    s: Session,
    system_prompt: Seq<char>,
    mcp_enabled: bool,
    uri: Seq<char>,
    error: Seq<char>,
    retrieval: Result<Seq<char>, Seq<char>>,
)
    ensures
        ({
            let (failed, asked) = step(
                s,
                system_prompt,
                mcp_enabled,
                Event::ResourceResult { uri, result: Err(error) },
            );
            let query = substitute_query(s, uri);
            let (after, _) = step(
                failed,
                system_prompt,
                mcp_enabled,
                Event::Retrieved { query, origin: Origin::ResourceFailed, result: retrieval },
            );
            &&& asked == (Action::Retrieve { query, origin: Origin::ResourceFailed })
            &&& failed.step == s.step
            &&& after.step == s.step + 1
            &&& after.turns.len() == s.turns.len() + 2
            &&& after.turns.take(s.turns.len() as int) == s.turns
            &&& after.turns[s.turns.len() as int] == (Turn {
                role: "tool"@,
                content: resource_failure_note(uri, error),
            })
            &&& after.turns[(s.turns.len() + 1) as int] == match retrieval {
                Ok(context) => Turn {
                    role: "system"@,
                    content: retrieved_note(Origin::ResourceFailed, query, context),
                },
                Err(e) => Turn {
                    role: "tool"@,
                    content: retrieve_failure_note(Origin::ResourceFailed, e),
                },
            }
        }),
{
    lemma_literals();
    lemma_turn_keeps_latest_user(s.turns, "tool"@, resource_failure_note(uri, error));
    let (failed, asked) = step(
        s,
        system_prompt,
        mcp_enabled,
        Event::ResourceResult { uri, result: Err(error) },
    );
    let query = substitute_query(s, uri);
    let (after, _) = step(
        failed,
        system_prompt,
        mcp_enabled,
        Event::Retrieved { query, origin: Origin::ResourceFailed, result: retrieval },
    );
}

/// What holds of a session that started within its budget and saw `events`
/// in order, where `t` is its state, `a` the action asked for and `read` the
/// number of directives handed in.
pub open spec fn within_budget(start: Session, t: Session, a: Action, read: nat) -> bool {
    &&& t.max_steps == start.max_steps
    &&& start.step <= t.step <= t.max_steps
    &&& a is AskDirective ==> t.step < t.max_steps && start.step + read == t.step
    &&& mid_step(a) ==> t.step < t.max_steps && start.step + read == t.step + 1
    &&& a is AskFinal ==> t.step == t.max_steps && start.step + read == t.step
    &&& a is Done ==> start.step + read <= t.max_steps
}

proof fn lemma_run_within_budget(
    s: Session,
    system_prompt: Seq<char>,
    mcp_enabled: bool,
    events: Seq<Event>,
)
    requires
        s.step <= s.max_steps,
        orderly(s, system_prompt, mcp_enabled, events),
    ensures
        within_budget(
            s,
            run(s, system_prompt, mcp_enabled, events).0,
            run(s, system_prompt, mcp_enabled, events).1,
            directives_read(events),
        ),
    decreases events.len(),
{
    if events.len() > 0 {
        lemma_run_within_budget(s, system_prompt, mcp_enabled, events.drop_last());
        let before = run(s, system_prompt, mcp_enabled, events.drop_last());
        let event = events.last();
        match event {
            Event::Directive(Ok(raw)) => {
                match directive_of_text(raw) {
                    Ok(d) => {
                    },
                    Err(e) => {},
                }
            },
            _ => {},
        }
    }
}

/// A session with a budget of `N` steps reads at most `N` directives, whatever
/// the model and the collaborators return; it asks for the forced final answer
/// only after it has read `N`; and every event that reports on a step finds the
/// session with a step left.
pub proof fn law_step_budget(
    s: Session,
    system_prompt: Seq<char>,
    mcp_enabled: bool,
    events: Seq<Event>,
)
    requires
        s.step == 0,
        orderly(s, system_prompt, mcp_enabled, events),
    ensures
        directives_read(events) <= s.max_steps,
        run(s, system_prompt, mcp_enabled, events).1 is AskFinal ==> directives_read(events)
            == s.max_steps,
        events.len() > 0 && events.last().within_step() ==> run(
            s,
            system_prompt,
            mcp_enabled,
            events.drop_last(),
        ).0.step < s.max_steps,
{
    lemma_run_within_budget(s, system_prompt, mcp_enabled, events);
    if events.len() > 0 {
        lemma_run_within_budget(s, system_prompt, mcp_enabled, events.drop_last());
    }
}

} // verus!
