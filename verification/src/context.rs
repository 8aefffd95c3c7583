use crate::config::Config;
use crate::state::{turns_of, Message, Turn};
use crate::text::{concat4, decimal, join, join_strings, texts, usize_text};
use vstd::prelude::*;
use vstd::string::StringExecFns;

verus! {

/// What the store keeps with a chunk.
#[derive(Clone, Debug)]
pub struct Payload {
    pub path: Option<String>,
    pub index: Option<usize>,
    pub chunk: Option<String>,
}

/// One result of a search in the store.
#[derive(Clone, Debug)]
pub struct Hit {
    pub payload: Option<Payload>,
}

/// The file that a hit comes from, `unknown` where the store does not say.
pub open spec fn hit_path(hit: Hit) -> Seq<char> {
    match hit.payload {
        Some(Payload { path: Some(p), .. }) => p@,
        _ => "unknown"@,
    }
}

/// The number of a hit's chunk within its file, `?` where the store does not say.
pub open spec fn hit_index(hit: Hit) -> Seq<char> {
    match hit.payload {
        Some(Payload { index: Some(i), .. }) => decimal(i as nat),
        _ => "?"@,
    }
}

/// The text of a hit, empty where the store does not hold it.
pub open spec fn hit_chunk(hit: Hit) -> Seq<char> {
    match hit.payload {
        Some(Payload { chunk: Some(c), .. }) => c@,
        _ => Seq::empty(),
    }
}

/// The entry for the hit at position `i`: its rank, its file and chunk
/// number, and its text on the next line.
pub open spec fn context_entry(i: nat, hit: Hit) -> Seq<char> {
    "["@ + decimal(i + 1) + "] "@ + hit_path(hit) + " (chunk "@ + hit_index(hit) + ")\n"@
        + hit_chunk(hit)
}

/// The entries of all hits, in order.
pub open spec fn context_entries(hits: Seq<Hit>) -> Seq<Seq<char>> {
    Seq::new(hits.len(), |i: int| context_entry(i as nat, hits[i]))
}

/// The context block for the hits: their entries with a blank line between
/// them, or a placeholder where there is none.
pub open spec fn context_of(hits: Seq<Hit>) -> Seq<char> {
    if hits.len() == 0 {
        "(no context found)"@
    } else {
        join(context_entries(hits), "\n\n"@)
    }
}

/// The question put to the model together with its context.
pub open spec fn question_with_context(context: Seq<char>, question: Seq<char>) -> Seq<char> {
    "Use the context below to answer the question.\n\nContext:\n"@ + context + "\n\nQuestion: "@
        + question
}

fn entry_for(i: usize, hit: &Hit) -> (r: String)
    requires
        i < usize::MAX,
    ensures
        r@ == context_entry(i as nat, *hit),
{
    let mut r = String::from_str("[");
    r.append(usize_text(i + 1).as_str());
    r.append("] ");
    match &hit.payload {
        Some(Payload { path: Some(p), .. }) => r.append(p.as_str()),
        _ => r.append("unknown"),
    }
    r.append(" (chunk ");
    match &hit.payload {
        Some(Payload { index: Some(n), .. }) => r.append(usize_text(*n).as_str()),
        _ => r.append("?"),
    }
    r.append(")\n");
    match &hit.payload {
        Some(Payload { chunk: Some(c), .. }) => r.append(c.as_str()),
        _ => {
        },
    }
    r
}

/// The context block for the hits of a search.
pub fn format_context_from_hits(hits: &[Hit]) -> (r: String)
    ensures
        r@ == context_of(hits@),
{
    if hits.len() == 0 {
        return String::from_str("(no context found)");
    }
    let mut lines: Vec<String> = Vec::new();
    let mut i: usize = 0;
    while i < hits.len()
        invariant
            i <= hits.len(),
            lines.len() == i,
            forall|k: int| 0 <= k < i ==> lines@[k]@ == context_entry(k as nat, hits@[k]),
        decreases hits.len() - i,
    {
        lines.push(entry_for(i, &hits[i]));
        i = i + 1;
    }
    assert(texts(lines@) =~= context_entries(hits@));
    join_strings(&lines, "\n\n")
}

/// The messages that put a question to the model with the context of its
/// hits, and that context.
pub fn build_prompt_with_context(cfg: &Config, question: &str, hits: &[Hit]) -> (r: (
    Vec<Message>,
    String,
))
    ensures
        r.1@ == context_of(hits@),
        turns_of(r.0@) == seq![
            Turn { role: "system"@, content: cfg.system_prompt@ },
            Turn { role: "user"@, content: question_with_context(context_of(hits@), question@) },
        ],
{
    let context = format_context_from_hits(hits);
    let content = concat4(
        "Use the context below to answer the question.\n\nContext:\n",
        context.as_str(),
        "\n\nQuestion: ",
        question,
    );
    let mut messages: Vec<Message> = Vec::new();
    messages.push(Message { role: String::from_str("system"), content: cfg.system_prompt.clone() });
    messages.push(Message { role: String::from_str("user"), content });
    (messages, context)
}

} // verus!
