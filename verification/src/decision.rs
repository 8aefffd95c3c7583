use crate::json::{decode_json, json_decode, value_result, Json, JsonModel};
use crate::text::{
    blank, chars_of, concat2, find_char, find_char_in, is_blank, lemma_find_char_from,
    lemma_rfind_char, opt_text, owned_text, rfind_char, rfind_char_in, same_text, string_of,
    to_lowercase, trim, trimmed, unicode_lowercase,
};
use vstd::prelude::*;
use vstd::string::StringExecFns;

verus! {

/// What the model asks for in one step.
#[derive(Debug, PartialEq)]
pub enum Decision {
    Retrieve { query: String },
    ToolCall { name: String, args: Json },
    PromptCall { name: String, args: Json },
    ResourceRead { uri: String },
    FinalAnswer(String),
}

/// A `Decision` as the contracts see it.
pub enum Directive {
    Retrieve { query: Seq<char> },
    ToolCall { name: Seq<char>, args: JsonModel },
    PromptCall { name: Seq<char>, args: JsonModel },
    ResourceRead { uri: Seq<char> },
    FinalAnswer(Seq<char>),
}

impl View for Decision {
    type V = Directive;

    open spec fn view(&self) -> Directive {
        match self {
            Decision::Retrieve { query } => Directive::Retrieve { query: query@ },
            Decision::ToolCall { name, args } => Directive::ToolCall { name: name@, args: args@ },
            Decision::PromptCall { name, args } => Directive::PromptCall {
                name: name@,
                args: args@,
            },
            Decision::ResourceRead { uri } => Directive::ResourceRead { uri: uri@ },
            Decision::FinalAnswer(text) => Directive::FinalAnswer(text@),
        }
    }
}

/// The fields of a decision object, before the action is looked at.
pub struct DecisionEnvelope {
    pub action: String,
    pub name: Option<String>,
    pub arguments: Json,
    pub answer: Option<String>,
    pub uri: Option<String>,
}

/// A `DecisionEnvelope` as the contracts see it.
pub struct Envelope {
    pub action: Seq<char>,
    pub name: Option<Seq<char>>,
    pub arguments: JsonModel,
    pub answer: Option<Seq<char>>,
    pub uri: Option<Seq<char>>,
}

impl View for DecisionEnvelope {
    type V = Envelope;

    open spec fn view(&self) -> Envelope {
        Envelope {
            action: self.action@,
            name: owned_text(self.name),
            arguments: self.arguments@,
            answer: owned_text(self.answer),
            uri: owned_text(self.uri),
        }
    }
}

/// The model of a parse result.
pub open spec fn outcome(r: Result<Decision, String>) -> Result<Directive, Seq<char>> {
    match r {
        Ok(d) => Ok(d@),
        Err(e) => Err(e@),
    }
}

/// The model of an envelope result.
pub open spec fn envelope_outcome(r: Result<DecisionEnvelope, String>) -> Result<
    Envelope,
    Seq<char>,
> {
    match r {
        Ok(d) => Ok(d@),
        Err(e) => Err(e@),
    }
}

/// `o` where it holds a text that is not blank, else `None`.
pub open spec fn non_blank(o: Option<Seq<char>>) -> Option<Seq<char>> {
    match o {
        Some(s) => if is_blank(s) {
            None
        } else {
            Some(s)
        },
        None => None,
    }
}

/// `a` where it holds something, else `b`.
pub open spec fn or_else(a: Option<Seq<char>>, b: Option<Seq<char>>) -> Option<Seq<char>> {
    if a is Some {
        a
    } else {
        b
    }
}

/// The part of a model's output from its first `{` to its last `}`, both
/// included, if the text has a `{` that a `}` follows.
pub open spec fn embedded_object(raw: Seq<char>) -> Option<Seq<char>> {
    match (find_char(raw, '{'), rfind_char(raw, '}')) {
        (Some(a), Some(b)) => if a <= b {
            Some(raw.subrange(a, b + 1))
        } else {
            None
        },
        _ => None,
    }
}

/// The JSON value that a model's output holds: the whole text where it parses,
/// else the embedded object.
pub open spec fn object_of(raw: Seq<char>) -> Result<JsonModel, Seq<char>> {
    object_from(json_decode(raw), raw)
}

/// `object_of`, given what parsing the whole text gave.
pub open spec fn object_from(whole: Result<JsonModel, Seq<char>>, raw: Seq<char>) -> Result<
    JsonModel,
    Seq<char>,
> {
    match whole {
        Ok(v) => Ok(v),
        Err(_) => match embedded_object(raw) {
            Some(part) => embedded_result(json_decode(part)),
            None => Err("No JSON object found in model output"@),
        },
    }
}

/// What parsing the embedded object gave, with a failure named as such.
pub open spec fn embedded_result(part: Result<JsonModel, Seq<char>>) -> Result<
    JsonModel,
    Seq<char>,
> {
    match part {
        Ok(v) => Ok(v),
        Err(e) => Err("Failed to parse JSON decision: "@ + e),
    }
}

/// Whether `data` has a member `key` that is neither a string nor `null`.
pub open spec fn ill_typed(data: JsonModel, key: Seq<char>) -> bool {
    match data.member(key) {
        Some(v) => !(v is Null) && !(v is Str),
        None => false,
    }
}

/// The envelope that a JSON value holds. The value must be an object whose
/// `action` is a string; `name`, `answer` and `uri` are strings, `null` or
/// absent; `arguments` is any value, `null` when absent.
pub open spec fn envelope_of(data: JsonModel) -> Result<Envelope, Seq<char>> {
    if !(data is Object) {
        Err("invalid type: expected a JSON object"@)
    } else if data.member("action"@) is Some && !(data.member("action"@)->Some_0 is Str) {
        Err("invalid type for field `action`: expected a string"@)
    } else if ill_typed(data, "answer"@) {
        Err("invalid type for field `answer`: expected a string"@)
    } else if ill_typed(data, "name"@) {
        Err("invalid type for field `name`: expected a string"@)
    } else if ill_typed(data, "uri"@) {
        Err("invalid type for field `uri`: expected a string"@)
    } else if data.member("action"@) is None {
        Err("missing field `action`"@)
    } else {
        Ok(
            Envelope {
                action: data.member("action"@)->Some_0->Str_0,
                name: data.member_text("name"@),
                arguments: match data.member("arguments"@) {
                    Some(v) => v,
                    None => JsonModel::Null,
                },
                answer: data.member_text("answer"@),
                uri: data.member_text("uri"@),
            },
        )
    }
}

/// The arguments of a tool or prompt call: an empty object in place of `null`.
pub open spec fn call_arguments(arguments: JsonModel) -> JsonModel {
    if arguments is Null {
        JsonModel::Object(Seq::empty())
    } else {
        arguments
    }
}

/// The address of a resource: the `uri` field, else `arguments.uri`, else `name`.
pub open spec fn resource_uri(env: Envelope) -> Option<Seq<char>> {
    non_blank(or_else(or_else(env.uri, env.arguments.member_text("uri"@)), env.name))
}

/// The text of a final answer: the first that is not blank among the
/// `answer` field, `arguments` itself, `arguments.answer`, `arguments.final`,
/// `arguments.text`, `arguments.response` and `name`.
pub open spec fn final_text(env: Envelope) -> Option<Seq<char>> {
    or_else(
        non_blank(env.answer),
        or_else(
            non_blank(env.arguments.text()),
            or_else(
                non_blank(env.arguments.member_text("answer"@)),
                or_else(
                    non_blank(env.arguments.member_text("final"@)),
                    or_else(
                        non_blank(env.arguments.member_text("text"@)),
                        or_else(
                            non_blank(env.arguments.member_text("response"@)),
                            non_blank(env.name),
                        ),
                    ),
                ),
            ),
        ),
    )
}

/// The directive that an envelope stands for, given its action in lower case.
pub open spec fn directive_of(action: Seq<char>, env: Envelope) -> Result<Directive, Seq<char>> {
    if action == "retrieve"@ {
        match env.arguments.member_text("query"@) {
            Some(query) => Ok(Directive::Retrieve { query }),
            None => Err("retrieve action requires arguments.query"@),
        }
    } else if action == "tool"@ {
        match non_blank(env.name) {
            Some(name) => Ok(Directive::ToolCall { name, args: call_arguments(env.arguments) }),
            None => Err("tool action requires name"@),
        }
    } else if action == "prompt"@ {
        match non_blank(env.name) {
            Some(name) => Ok(Directive::PromptCall { name, args: call_arguments(env.arguments) }),
            None => Err("prompt action requires name"@),
        }
    } else if action == "resource"@ {
        match resource_uri(env) {
            Some(uri) => Ok(Directive::ResourceRead { uri }),
            None => Err("resource action requires uri"@),
        }
    } else if action == "final"@ {
        match final_text(env) {
            Some(text) => Ok(Directive::FinalAnswer(text)),
            None => Err("final action requires answer"@),
        }
    } else {
        Err("unknown action: "@ + action)
    }
}

/// The action of an envelope as it is compared: trimmed, in lower case.
pub open spec fn action_of(env: Envelope) -> Seq<char> {
    unicode_lowercase(trim(env.action))
}

/// The directive that a JSON value stands for.
pub open spec fn directive_of_json(data: JsonModel) -> Result<Directive, Seq<char>> {
    match envelope_of(data) {
        Ok(env) => directive_of(action_of(env), env),
        Err(e) => Err(e),
    }
}

/// The directive that a model's output stands for.
pub open spec fn directive_of_text(raw: Seq<char>) -> Result<Directive, Seq<char>> {
    match object_of(raw) {
        Ok(data) => directive_of_json(data),
        Err(e) => Err(e),
    }
}

/// The part of a model's output from its first `{` to its last `}`.
pub fn extract_embedded(raw: &str) -> (r: Option<String>)
    ensures
        owned_text(r) == embedded_object(raw@),
{
    let v = chars_of(raw);
    assert(v@.subrange(0, v.len() as int) =~= v@);
    match find_char_in(&v, 0, v.len(), '{') {
        Some(a) => match rfind_char_in(&v, '}') {
            Some(b) => if a <= b {
                Some(string_of(&v, a, b + 1))
            } else {
                None
            },
            None => None,
        },
        None => None,
    }
}

/// The result of parsing the embedded object, with a failure named as such.
pub fn name_embedded_failure(part: Result<Json, String>) -> (r: Result<Json, String>)
    ensures
        value_result(r) == embedded_result(value_result(part)),
{
    match part {
        Ok(v) => Ok(v),
        Err(e) => Err(concat2("Failed to parse JSON decision: ", e.as_str())),
    }
}

/// The JSON value that a model's output holds.
pub fn parse_json_object(raw: &str) -> (r: Result<Json, String>)
    ensures
        value_result(r) == object_of(raw@),
{
    match decode_json(raw) {
        Ok(v) => Ok(v),
        Err(_) => match extract_embedded(raw) {
            Some(part) => name_embedded_failure(decode_json(part.as_str())),
            None => Err(String::from_str("No JSON object found in model output")),
        },
    }
}

fn optional_field(data: &Json, key: &str) -> (r: Option<String>)
    ensures
        owned_text(r) == data@.member_text(key@),
{
    match data.get_str(key) {
        Some(s) => Some(s.clone()),
        None => None,
    }
}

fn field_ill_typed(data: &Json, key: &str) -> (r: bool)
    ensures
        r == ill_typed(data@, key@),
{
    match data.get(key) {
        Some(v) => !v.is_null() && v.as_str().is_none(),
        None => false,
    }
}

/// The envelope that a JSON value holds.
pub fn read_envelope(data: &Json) -> (r: Result<DecisionEnvelope, String>)
    ensures
        envelope_outcome(r) == envelope_of(data@),
{
    match data {
        Json::Object(_) => {},
        _ => {
            return Err(String::from_str("invalid type: expected a JSON object"));
        },
    }
    let action = data.get("action");
    if action.is_some() && action.unwrap().as_str().is_none() {
        return Err(String::from_str("invalid type for field `action`: expected a string"));
    }
    if field_ill_typed(data, "answer") {
        return Err(String::from_str("invalid type for field `answer`: expected a string"));
    }
    if field_ill_typed(data, "name") {
        return Err(String::from_str("invalid type for field `name`: expected a string"));
    }
    if field_ill_typed(data, "uri") {
        return Err(String::from_str("invalid type for field `uri`: expected a string"));
    }
    match action {
        None => Err(String::from_str("missing field `action`")),
        Some(a) => {
            let arguments = match data.get("arguments") {
                Some(v) => v.clone(),
                None => Json::Null,
            };
            Ok(
                DecisionEnvelope {
                    action: a.as_str().unwrap().clone(),
                    name: optional_field(data, "name"),
                    arguments,
                    answer: optional_field(data, "answer"),
                    uri: optional_field(data, "uri"),
                },
            )
        },
    }
}

fn keep_non_blank(o: Option<String>) -> (r: Option<String>)
    ensures
        owned_text(r) == non_blank(owned_text(o)),
{
    match o {
        Some(s) => if blank(s.as_str()) {
            None
        } else {
            Some(s)
        },
        None => None,
    }
}

fn pick(found: Option<String>, next: Option<&String>) -> (r: Option<String>)
    ensures
        owned_text(r) == or_else(owned_text(found), non_blank(opt_text(next))),
{
    if found.is_some() {
        return found;
    }
    match next {
        Some(s) => if blank(s.as_str()) {
            None
        } else {
            Some(s.clone())
        },
        None => None,
    }
}

fn arguments_for_call(arguments: Json) -> (r: Json)
    ensures
        r@ == call_arguments(arguments@),
{
    if arguments.is_null() {
        let r = Json::Object(Vec::new());
        assert(r@->Object_0 =~= Seq::empty());
        r
    } else {
        arguments
    }
}

/// The decision that an envelope stands for, given its action in lower case.
pub fn decide(action: &str, env: DecisionEnvelope) -> (r: Result<Decision, String>)
    ensures
        outcome(r) == directive_of(action@, env@),
{
    if same_text(action, "retrieve") {
        match env.arguments.get_str("query") {
            Some(q) => Ok(Decision::Retrieve { query: q.clone() }),
            None => Err(String::from_str("retrieve action requires arguments.query")),
        }
    } else if same_text(action, "tool") {
        match keep_non_blank(env.name) {
            Some(name) => Ok(Decision::ToolCall { name, args: arguments_for_call(env.arguments) }),
            None => Err(String::from_str("tool action requires name")),
        }
    } else if same_text(action, "prompt") {
        match keep_non_blank(env.name) {
            Some(name) => Ok(
                Decision::PromptCall { name, args: arguments_for_call(env.arguments) },
            ),
            None => Err(String::from_str("prompt action requires name")),
        }
    } else if same_text(action, "resource") {
        let first = if env.uri.is_some() {
            env.uri
        } else {
            match env.arguments.get_str("uri") {
                Some(u) => Some(u.clone()),
                None => env.name,
            }
        };
        match keep_non_blank(first) {
            Some(uri) => Ok(Decision::ResourceRead { uri }),
            None => Err(String::from_str("resource action requires uri")),
        }
    } else if same_text(action, "final") {
        let found = keep_non_blank(env.answer);
        let found = pick(found, env.arguments.as_str());
        let found = pick(found, env.arguments.get_str("answer"));
        let found = pick(found, env.arguments.get_str("final"));
        let found = pick(found, env.arguments.get_str("text"));
        let found = pick(found, env.arguments.get_str("response"));
        let found = pick(found, env.name.as_ref());
        match found {
            Some(text) => Ok(Decision::FinalAnswer(text)),
            None => Err(String::from_str("final action requires answer")),
        }
    } else {
        Err(concat2("unknown action: ", action))
    }
}

/// The decision that a JSON value stands for.
pub fn decision_from_json(data: &Json) -> (r: Result<Decision, String>)
    ensures
        outcome(r) == directive_of_json(data@),
{
    match read_envelope(data) {
        Ok(env) => {
            let action = to_lowercase(trimmed(env.action.as_str()).as_str());
            decide(action.as_str(), env)
        },
        Err(e) => Err(e),
    }
}

/// Reads the decision out of a model's output: the text as a whole where it
/// is JSON, else the object embedded in it.
pub fn parse_decision(raw: &str) -> (r: Result<Decision, String>)
    ensures
        outcome(r) == directive_of_text(raw@),
{
    match parse_json_object(raw) {
        Ok(data) => decision_from_json(&data),
        Err(e) => Err(e),
    }
}

/// In `prefix + object + suffix`, where `object` starts with `{` and ends with
/// `}`, no `{` stands in `prefix` and no `}` in `suffix`, the embedded object
/// is `object`.
pub proof fn lemma_embedded_object(prefix: Seq<char>, object: Seq<char>, suffix: Seq<char>)
    requires
        object.len() > 0,
        object.first() == '{',
        object.last() == '}',
        !prefix.contains('{'),
        !suffix.contains('}'),
    ensures
        embedded_object(prefix + object + suffix) == Some(object),
{
    let raw = prefix + object + suffix;
    let a = prefix.len() as int;
    let b = prefix.len() + object.len() - 1;
    lemma_find_char_from(raw, '{', 0);
    lemma_rfind_char(raw, '}');
    assert(raw[a] == object[0]);
    assert(raw[b] == object[object.len() - 1]);
    assert forall|k: int| 0 <= k < a implies raw[k] != '{' by {}
    assert forall|k: int| b < k < raw.len() implies raw[k] != '}' by {}
}

/// A decision object that stands within prose is read as the object alone is.
/// This holds of a text `prefix + object + suffix` where `object` parses as
/// JSON, starts with `{` and ends with `}`, the prose before it holds no `{` and
/// the prose after it no `}`, and the text as a whole either is no JSON or
/// parses to what `object` parses to.
pub proof fn law_embedded_object_reads_as_bare(
    prefix: Seq<char>,
    object: Seq<char>,
    suffix: Seq<char>,
)
    requires
        object.len() > 0,
        object.first() == '{',
        object.last() == '}',
        !prefix.contains('{'),
        !suffix.contains('}'),
        json_decode(object) is Ok,
        json_decode(prefix + object + suffix) is Ok ==> json_decode(prefix + object + suffix)
            == json_decode(object),
    ensures
        directive_of_text(prefix + object + suffix) == directive_of_text(object),
{
    lemma_embedded_object(prefix, object, suffix);
}

} // verus!
