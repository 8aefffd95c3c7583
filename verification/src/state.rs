use crate::text::{ascii_lowercase, chars_of, contains, contains_in, join, join_strings, lower_ascii, same_chars, texts};
use vstd::prelude::*;
use vstd::string::StringExecFns;

verus! {

/// One turn of a conversation.
#[derive(Clone, Debug)]
pub struct Message {
    pub role: String,
    pub content: String,
}

/// A turn as the contracts see it: the role and the text.
pub struct Turn {
    pub role: Seq<char>,
    pub content: Seq<char>,
}

impl View for Message {
    type V = Turn;

    open spec fn view(&self) -> Turn {
        Turn { role: self.role@, content: self.content@ }
    }
}

/// The turns that the messages of `v` hold.
pub open spec fn turns_of(v: Seq<Message>) -> Seq<Turn> {
    Seq::new(v.len(), |i: int| v[i]@)
}

/// The transcript and the context gathered for one question.
#[derive(Clone, Debug)]
pub struct AgentState {
    pub conversation: Vec<Message>,
    pub current_step: usize,
    pub max_steps: usize,
    pub context_log: Vec<String>,
}

/// An `AgentState` as the contracts see it.
pub struct Session {
    pub turns: Seq<Turn>,
    pub context_log: Seq<Seq<char>>,
    pub step: nat,
    pub max_steps: nat,
}

impl Session {
    /// The session with one more turn at the end.
    pub open spec fn with_turn(self, role: Seq<char>, content: Seq<char>) -> Session {
        Session { turns: self.turns.push(Turn { role, content }), ..self }
    }

    /// The session with one more turn at the end, whose text also joins the
    /// context log.
    pub open spec fn with_logged_turn(self, role: Seq<char>, content: Seq<char>) -> Session {
        Session {
            turns: self.turns.push(Turn { role, content }),
            context_log: self.context_log.push(content),
            ..self
        }
    }

    /// The session one step further.
    pub open spec fn stepped(self) -> Session {
        Session { step: self.step + 1, ..self }
    }

    /// The text of the latest turn whose role is `user`.
    pub open spec fn latest_user(self) -> Option<Seq<char>> {
        latest_with_role(self.turns, "user"@)
    }

    /// Whether the latest user turn asks for retrieval only.
    pub open spec fn rag_only(self) -> bool {
        match self.latest_user() {
            Some(q) => is_rag_only(q),
            None => false,
        }
    }

    /// The context log as one text: its entries with a blank line between
    /// them, or a placeholder when there is none.
    pub open spec fn context_text(self) -> Seq<char> {
        if self.context_log.len() == 0 {
            "(no context found)"@
        } else {
            join(self.context_log, "\n\n"@)
        }
    }
}

/// The text of the last turn of `turns` whose role is `role`.
pub open spec fn latest_with_role(turns: Seq<Turn>, role: Seq<char>) -> Option<Seq<char>>
    decreases turns.len(),
{
    if turns.len() == 0 {
        None
    } else if turns.last().role == role {
        Some(turns.last().content)
    } else {
        latest_with_role(turns.drop_last(), role)
    }
}

/// Whether a question asks, in any letter case, that only retrieval be used.
pub open spec fn is_rag_only(question: Seq<char>) -> bool {
    let q = ascii_lowercase(question);
    ||| contains(q, "use rag"@)
    ||| contains(q, "rag only"@)
    ||| contains(q, "only rag"@)
    ||| contains(q, "do not use mcp"@)
    ||| contains(q, "don't use mcp"@)
    ||| contains(q, "without mcp"@)
}

impl View for AgentState {
    type V = Session;

    open spec fn view(&self) -> Session {
        Session {
            turns: turns_of(self.conversation@),
            context_log: texts(self.context_log@),
            step: self.current_step as nat,
            max_steps: self.max_steps as nat,
        }
    }
}

impl AgentState {
    /// An empty session with a budget of `max_steps` steps.
    pub fn new(max_steps: usize) -> (r: AgentState)
        ensures
            r@ == (Session {
                turns: Seq::empty(),
                context_log: Seq::empty(),
                step: 0,
                max_steps: max_steps as nat,
            }),
    {
        let r = AgentState {
            conversation: Vec::new(),
            current_step: 0,
            max_steps,
            context_log: Vec::new(),
        };
        assert(r@.turns =~= Seq::empty());
        assert(r@.context_log =~= Seq::empty());
        r
    }

    fn push_turn(&mut self, role: &str, text: String)
        ensures
            final(self)@ == old(self)@.with_turn(role@, text@),
    {
        self.conversation.push(Message { role: String::from_str(role), content: text });
        assert(final(self)@.turns =~= old(self)@.turns.push(Turn { role: role@, content: text@ }));
    }

    fn push_logged_turn(&mut self, role: &str, text: String)
        ensures
            final(self)@ == old(self)@.with_logged_turn(role@, text@),
    {
        self.context_log.push(text.clone());
        self.conversation.push(Message { role: String::from_str(role), content: text });
        assert(final(self)@.turns =~= old(self)@.turns.push(Turn { role: role@, content: text@ }));
        assert(final(self)@.context_log =~= old(self)@.context_log.push(text@));
    }

    /// Appends a user turn.
    pub fn append_user(&mut self, text: String)
        ensures
            final(self)@ == old(self)@.with_turn("user"@, text@),
    {
        self.push_turn("user", text)
    }

    /// Appends a system turn.
    pub fn append_system(&mut self, text: String)
        ensures
            final(self)@ == old(self)@.with_turn("system"@, text@),
    {
        self.push_turn("system", text)
    }

    /// Appends a system turn that also joins the context log.
    pub fn append_context(&mut self, text: String)
        ensures
            final(self)@ == old(self)@.with_logged_turn("system"@, text@),
    {
        self.push_logged_turn("system", text)
    }

    /// Appends a tool turn that also joins the context log.
    pub fn append_tool(&mut self, text: String)
        ensures
            final(self)@ == old(self)@.with_logged_turn("tool"@, text@),
    {
        self.push_logged_turn("tool", text)
    }

    /// The context log as one text.
    pub fn context_text(&self) -> (r: String)
        ensures
            r@ == self@.context_text(),
    {
        if self.context_log.len() == 0 {
            String::from_str("(no context found)")
        } else {
            join_strings(&self.context_log, "\n\n")
        }
    }
}

/// The text of the latest user turn.
pub fn latest_user_query(state: &AgentState) -> (r: Option<String>)
    ensures
        match r {
            Some(q) => state@.latest_user() == Some(q@),
            None => state@.latest_user() is None,
        },
{
    let user = chars_of("user");
    let mut j: usize = state.conversation.len();
    assert(state@.turns.take(j as int) =~= state@.turns);
    while j > 0
        invariant
            j <= state.conversation.len(),
            user@ == "user"@,
            state@.latest_user() == latest_with_role(state@.turns.take(j as int), "user"@),
        decreases j,
    {
        let m = &state.conversation[j - 1];
        let role = chars_of(m.role.as_str());
        if same_chars(&role, &user) {
            return Some(m.content.clone());
        }
        assert(state@.turns.take(j as int).drop_last() =~= state@.turns.take(j - 1));
        j = j - 1;
    }
    None
}

/// Whether a question asks that only retrieval be used.
pub fn is_rag_only_query(question: &str) -> (r: bool)
    ensures
        r == is_rag_only(question@),
{
    let q = lower_ascii(&chars_of(question));
    contains_in(&q, &chars_of("use rag")) || contains_in(&q, &chars_of("rag only")) || contains_in(
        &q,
        &chars_of("only rag"),
    ) || contains_in(&q, &chars_of("do not use mcp")) || contains_in(
        &q,
        &chars_of("don't use mcp"),
    ) || contains_in(&q, &chars_of("without mcp"))
}

/// Whether the latest user turn asks that only retrieval be used.
pub fn is_rag_only_state(state: &AgentState) -> (r: bool)
    ensures
        r == state@.rag_only(),
{
    match latest_user_query(state) {
        Some(q) => is_rag_only_query(q.as_str()),
        None => false,
    }
}

} // verus!
