use crate::text::{
    chars_of, concat2, opt_text, parse_u64, parse_unsigned, same_text, split, split_trimmed,
    split_words, string_of, texts, trim_each, words,
};
use vstd::prelude::*;
use vstd::string::StringExecFns;

verus! {

/// The settings that every component is handed.
#[derive(Clone, Debug)]
pub struct Config {
    pub source_dir: String,
    pub include_exts: Vec<String>,
    pub exclude_dirs: Vec<String>,
    pub max_file_bytes: u64,
    pub chunk_size: usize,
    pub chunk_overlap: usize,
    pub ollama_url: String,
    pub embed_model: String,
    pub chat_model: String,
    pub qdrant_url: String,
    pub collection: String,
    pub distance: String,
    pub top_k: usize,
    pub system_prompt: String,
    pub hybrid_system_prompt: String,
    pub mcp_url: String,
    pub mcp_command: String,
    pub mcp_args: Vec<String>,
    pub agent_max_steps: usize,
}

/// The variables of the environment as pairs of texts.
pub open spec fn variables(vars: Seq<(String, String)>) -> Seq<(Seq<char>, Seq<char>)> {
    Seq::new(vars.len(), |i: int| (vars[i].0@, vars[i].1@))
}

/// The value of the first variable, from index `at` on, that is called `name`.
pub open spec fn variable_from(vars: Seq<(Seq<char>, Seq<char>)>, name: Seq<char>, at: int) -> Option<
    Seq<char>,
>
    decreases vars.len() - at,
{
    if at < 0 || at >= vars.len() {
        None
    } else if vars[at].0 == name {
        Some(vars[at].1)
    } else {
        variable_from(vars, name, at + 1)
    }
}

/// The value of the variable `name`, or `default` where it is not set.
pub open spec fn text_setting(
    vars: Seq<(Seq<char>, Seq<char>)>,
    name: Seq<char>,
    default: Seq<char>,
) -> Seq<char> {
    match variable_from(vars, name, 0) {
        Some(v) => v,
        None => default,
    }
}

/// The number that the variable `name` holds, or `default` where it is not
/// set or holds no number of at most `max`.
pub open spec fn number_setting(
    vars: Seq<(Seq<char>, Seq<char>)>,
    name: Seq<char>,
    max: nat,
    default: nat,
) -> nat {
    match variable_from(vars, name, 0) {
        Some(v) => match parse_unsigned(v, max) {
            Some(n) => n,
            None => default,
        },
        None => default,
    }
}

/// Whether `c` is an ASCII letter or digit.
pub open spec fn is_ascii_alphanumeric(c: char) -> bool {
    ('0' <= c <= '9') || ('a' <= c <= 'z') || ('A' <= c <= 'Z')
}

/// Whether `c` is ASCII white space: a blank, a tab, a line feed, a form feed
/// or a carriage return.
pub open spec fn is_ascii_whitespace(c: char) -> bool {
    c == ' ' || c == '\t' || c == '\n' || c == '\x0C' || c == '\r'
}

/// What stands for `c` in a collection name: the character itself where it
/// is an ASCII letter or digit, `_` or `-`; `_` for ASCII white space and `.`;
/// nothing for any other.
pub open spec fn sanitized_char(c: char) -> Option<char> {
    if is_ascii_alphanumeric(c) || c == '_' || c == '-' {
        Some(c)
    } else if is_ascii_whitespace(c) || c == '.' {
        Some('_')
    } else {
        None
    }
}

/// `name` with each character replaced by what stands for it.
pub open spec fn sanitized(name: Seq<char>) -> Seq<char>
    decreases name.len(),
{
    if name.len() == 0 {
        Seq::empty()
    } else {
        match sanitized_char(name.last()) {
            Some(c) => sanitized(name.drop_last()).push(c),
            None => sanitized(name.drop_last()),
        }
    }
}

/// The collection name made of `name`: `default` where nothing is left of it.
pub open spec fn collection_name(name: Seq<char>) -> Seq<char> {
    if sanitized(name).len() == 0 {
        "default"@
    } else {
        sanitized(name)
    }
}

/// The collection that is used where none is set: named after the folder the
/// program runs in, or after `default` where that has no name.
pub open spec fn default_collection(folder: Option<Seq<char>>) -> Seq<char> {
    collection_name(
        match folder {
            Some(f) => f,
            None => "default"@,
        },
    ) + "_rag_chunks"@
}

/// The file endings that are read where none are set.
pub open spec fn default_extensions() -> Seq<char> {
    ".rs,.md,.txt,.toml,.json,.yaml,.yml,.py,.js,.ts,.tsx,.html,.css"@
}

/// The folders that are passed over where none are set.
pub open spec fn default_excluded() -> Seq<char> {
    ".git,target,node_modules,.idea,.vscode,dist,build,qdrant_storage,.qoder"@
}

/// The instructions of the plain assistant where none are set.
pub open spec fn default_system_prompt() -> Seq<char> {
    "You are a helpful coding assistant. Use only the provided context."@
}

/// The instructions of the agent where none are set.
pub open spec fn default_hybrid_prompt() -> Seq<char> {
    "You are a hybrid AI agent.\n\nYou can:\n- Retrieve knowledge from documents.\n- Call MCP tools.\n- Fetch MCP prompts.\n- Read MCP resources.\n- Answer directly if no external action is required.\n\nAlways respond in valid JSON with one action:\nretrieve | tool | prompt | resource | final\n\nDo not output plain text."@
}

fn lookup<'a>(vars: &'a Vec<(String, String)>, name: &str) -> (r: Option<&'a String>)
    ensures
        opt_text(r) == variable_from(variables(vars@), name@, 0),
{
    let mut i: usize = 0;
    while i < vars.len()
        invariant
            i <= vars.len(),
            variable_from(variables(vars@), name@, 0) == variable_from(
                variables(vars@),
                name@,
                i as int,
            ),
        decreases vars.len() - i,
    {
        if same_text(vars[i].0.as_str(), name) {
            return Some(&vars[i].1);
        }
        i = i + 1;
    }
    None
}

fn text_or(vars: &Vec<(String, String)>, name: &str, default: &str) -> (r: String)
    ensures
        r@ == text_setting(variables(vars@), name@, default@),
{
    match lookup(vars, name) {
        Some(v) => v.clone(),
        None => String::from_str(default),
    }
}

fn number_or(vars: &Vec<(String, String)>, name: &str, max: u64, default: u64) -> (r: u64)
    requires
        default <= max,
    ensures
        r == number_setting(variables(vars@), name@, max as nat, default as nat),
        r <= max,
{
    match lookup(vars, name) {
        Some(v) => match parse_u64(v.as_str(), max) {
            Some(n) => n,
            None => default,
        },
        None => default,
    }
}

fn size_or(vars: &Vec<(String, String)>, name: &str, default: usize) -> (r: usize)
    ensures
        r == number_setting(variables(vars@), name@, usize::MAX as nat, default as nat),
{
    number_or(vars, name, usize::MAX as u64, default as u64) as usize
}

/// The collection name made of `name`.
pub fn sanitize_collection_name(name: &str) -> (r: String)
    ensures
        r@ == collection_name(name@),
{
    let v = chars_of(name);
    let mut out: Vec<char> = Vec::new();
    let mut i: usize = 0;
    while i < v.len()
        invariant
            i <= v.len(),
            out@ == sanitized(v@.take(i as int)),
        decreases v.len() - i,
    {
        let c = v[i];
        assert(v@.take(i + 1).drop_last() =~= v@.take(i as int));
        if ('0' <= c && c <= '9') || ('a' <= c && c <= 'z') || ('A' <= c && c <= 'Z') || c == '_'
            || c == '-' {
            out.push(c);
        } else if c == ' ' || c == '\t' || c == '\n' || c == '\x0C' || c == '\r' || c == '.' {
            out.push('_');
        }
        i = i + 1;
    }
    assert(v@.take(v.len() as int) =~= v@);
    if out.len() == 0 {
        String::from_str("default")
    } else {
        let r = string_of(&out, 0, out.len());
        r
    }
}

impl Config {
    /// The settings that the variables of the environment give, with the
    /// defaults for those that are not set; `current_folder` is the name of
    /// the folder that the program runs in, where it has one.
    pub fn from_env(vars: &Vec<(String, String)>, current_folder: Option<&str>) -> (r: Config)
        ensures
            r.source_dir@ == text_setting(variables(vars@), "RAG_SOURCE_DIR"@, "./"@),
            texts(r.include_exts@) == trim_each(
                split(text_setting(variables(vars@), "RAG_INCLUDE_EXTS"@, default_extensions()), ','),
            ),
            texts(r.exclude_dirs@) == trim_each(
                split(text_setting(variables(vars@), "RAG_EXCLUDE_DIRS"@, default_excluded()), ','),
            ),
            r.max_file_bytes == number_setting(
                variables(vars@),
                "RAG_MAX_FILE_BYTES"@,
                u64::MAX as nat,
                500_000,
            ),
            r.chunk_size == number_setting(
                variables(vars@),
                "RAG_CHUNK_SIZE"@,
                usize::MAX as nat,
                1200,
            ),
            r.chunk_overlap == number_setting(
                variables(vars@),
                "RAG_CHUNK_OVERLAP"@,
                usize::MAX as nat,
                200,
            ),
            r.ollama_url@ == text_setting(
                variables(vars@),
                "OLLAMA_URL"@,
                "http://localhost:11434"@,
            ),
            r.embed_model@ == text_setting(
                variables(vars@),
                "OLLAMA_EMBED_MODEL"@,
                "nomic-embed-text"@,
            ),
            r.chat_model@ == text_setting(
                variables(vars@),
                "OLLAMA_CHAT_MODEL"@,
                "qwen2.5-coder:14b"@,
            ),
            r.qdrant_url@ == text_setting(variables(vars@), "QDRANT_URL"@, "http://localhost:6333"@),
            r.collection@ == text_setting(
                variables(vars@),
                "QDRANT_COLLECTION"@,
                default_collection(
                    match current_folder {
                        Some(f) => Some(f@),
                        None => None,
                    },
                ),
            ),
            r.distance@ == text_setting(variables(vars@), "QDRANT_DISTANCE"@, "Cosine"@),
            r.top_k == number_setting(variables(vars@), "RAG_TOP_K"@, usize::MAX as nat, 5),
            r.system_prompt@ == text_setting(
                variables(vars@),
                "RAG_SYSTEM_PROMPT"@,
                default_system_prompt(),
            ),
            r.hybrid_system_prompt@ == text_setting(
                variables(vars@),
                "RAG_HYBRID_SYSTEM_PROMPT"@,
                default_hybrid_prompt(),
            ),
            r.mcp_url@ == text_setting(variables(vars@), "MCP_URL"@, Seq::empty()),
            r.mcp_command@ == text_setting(variables(vars@), "MCP_COMMAND"@, Seq::empty()),
            texts(r.mcp_args@) == words(text_setting(variables(vars@), "MCP_ARGS"@, Seq::empty())),
            r.agent_max_steps == number_setting(
                variables(vars@),
                "RAG_AGENT_MAX_STEPS"@,
                usize::MAX as nat,
                10,
            ),
    {
        proof {
            reveal_strlit("");
        }
        let include_exts = text_or(
            vars,
            "RAG_INCLUDE_EXTS",
            ".rs,.md,.txt,.toml,.json,.yaml,.yml,.py,.js,.ts,.tsx,.html,.css",
        );
        let exclude_dirs = text_or(
            vars,
            "RAG_EXCLUDE_DIRS",
            ".git,target,node_modules,.idea,.vscode,dist,build,qdrant_storage,.qoder",
        );
        let folder = match current_folder {
            Some(f) => sanitize_collection_name(f),
            None => sanitize_collection_name("default"),
        };
        let fallback_collection = concat2(folder.as_str(), "_rag_chunks");
        let mcp_args = text_or(vars, "MCP_ARGS", "");
        Config {
            source_dir: text_or(vars, "RAG_SOURCE_DIR", "./"),
            include_exts: split_trimmed(include_exts.as_str(), ','),
            exclude_dirs: split_trimmed(exclude_dirs.as_str(), ','),
            max_file_bytes: number_or(vars, "RAG_MAX_FILE_BYTES", u64::MAX, 500_000),
            chunk_size: size_or(vars, "RAG_CHUNK_SIZE", 1200),
            chunk_overlap: size_or(vars, "RAG_CHUNK_OVERLAP", 200),
            ollama_url: text_or(vars, "OLLAMA_URL", "http://localhost:11434"),
            embed_model: text_or(vars, "OLLAMA_EMBED_MODEL", "nomic-embed-text"),
            chat_model: text_or(vars, "OLLAMA_CHAT_MODEL", "qwen2.5-coder:14b"),
            qdrant_url: text_or(vars, "QDRANT_URL", "http://localhost:6333"),
            collection: text_or(vars, "QDRANT_COLLECTION", fallback_collection.as_str()),
            distance: text_or(vars, "QDRANT_DISTANCE", "Cosine"),
            top_k: size_or(vars, "RAG_TOP_K", 5),
            system_prompt: text_or(
                vars,
                "RAG_SYSTEM_PROMPT",
                "You are a helpful coding assistant. Use only the provided context.",
            ),
            hybrid_system_prompt: text_or(
                vars,
                "RAG_HYBRID_SYSTEM_PROMPT",
                "You are a hybrid AI agent.\n\nYou can:\n- Retrieve knowledge from documents.\n- Call MCP tools.\n- Fetch MCP prompts.\n- Read MCP resources.\n- Answer directly if no external action is required.\n\nAlways respond in valid JSON with one action:\nretrieve | tool | prompt | resource | final\n\nDo not output plain text.",
            ),
            mcp_url: text_or(vars, "MCP_URL", ""),
            mcp_command: text_or(vars, "MCP_COMMAND", ""),
            mcp_args: split_words(mcp_args.as_str()),
            agent_max_steps: size_or(vars, "RAG_AGENT_MAX_STEPS", 10),
        }
    }
}

} // verus!
