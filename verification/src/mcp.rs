use crate::config::Config;
use crate::json::{encode_json, json_encode, value_result, Json, JsonModel};
use crate::text::{blank, concat3, concat4, is_blank, texts};
use vstd::prelude::*;
use vstd::string::StringExecFns;

verus! {

/// What the capability server offers, and what went wrong while asking.
#[derive(Clone, Debug)]
pub struct McpCapabilities {
    pub tools: Vec<String>,
    pub prompts: Vec<String>,
    pub resources: Vec<String>,
    pub diagnostics: Vec<String>,
}

/// How the capability server is reached.
#[derive(Clone, Debug)]
pub enum McpTransport {
    Http { endpoint: String },
    Stdio { command: String, args: Vec<String> },
    Disabled,
}

/// A `McpTransport` as the contracts see it.
pub enum Channel {
    Http { endpoint: Seq<char> },
    Stdio { command: Seq<char>, args: Seq<Seq<char>> },
    Disabled,
}

impl View for McpTransport {
    type V = Channel;

    open spec fn view(&self) -> Channel {
        match self {
            McpTransport::Http { endpoint } => Channel::Http { endpoint: endpoint@ },
            McpTransport::Stdio { command, args } => Channel::Stdio {
                command: command@,
                args: texts(args@),
            },
            McpTransport::Disabled => Channel::Disabled,
        }
    }
}

/// The channel that a configuration asks for: the URL where one is set, else
/// the command, else none.
pub open spec fn channel_of(url: Seq<char>, command: Seq<char>, args: Seq<Seq<char>>) -> Channel {
    if !is_blank(url) {
        Channel::Http { endpoint: url }
    } else if !is_blank(command) {
        Channel::Stdio { command, args }
    } else {
        Channel::Disabled
    }
}

/// The client of the capability server.
#[derive(Clone, Debug)]
pub struct McpClient {
    transport: McpTransport,
}

impl View for McpClient {
    type V = Channel;

    closed spec fn view(&self) -> Channel {
        self.transport@
    }
}

impl McpClient {
    /// The client that a configuration asks for.
    pub fn from_config(cfg: &Config) -> (r: McpClient)
        ensures
            r@ == channel_of(cfg.mcp_url@, cfg.mcp_command@, texts(cfg.mcp_args@)),
    {
        if !blank(cfg.mcp_url.as_str()) {
            return McpClient { transport: McpTransport::Http { endpoint: cfg.mcp_url.clone() } };
        }
        if !blank(cfg.mcp_command.as_str()) {
            let args = cfg.mcp_args.clone();
            return McpClient {
                transport: McpTransport::Stdio { command: cfg.mcp_command.clone(), args },
            };
        }
        McpClient { transport: McpTransport::Disabled }
    }

    /// Whether a channel is configured.
    pub fn is_enabled(&self) -> (r: bool)
        ensures
            r == !(self@ is Disabled),
    {
        match self.transport {
            McpTransport::Disabled => false,
            _ => true,
        }
    }

    /// The configured channel.
    pub fn transport(&self) -> (r: &McpTransport)
        ensures
            r@ == self@,
    {
        &self.transport
    }
}

/// Why an exchange with the capability server gave no answer.
#[derive(Clone, Debug)]
pub enum CallError {
    /// The session with the server could not be set up; the text says why.
    Setup(String),
    /// The server was reached and the request failed; the text says how.
    Request(String),
}

/// One part of what the server sent: text, or data in base 64.
#[derive(Clone, Debug)]
pub enum ContentPart {
    Text(String),
    Blob(String),
}

/// What a tool call returned.
#[derive(Clone, Debug)]
pub struct ToolOutput {
    pub content: Vec<ContentPart>,
    pub is_error: Option<bool>,
}

/// What a resource holds.
#[derive(Clone, Debug)]
pub struct ResourceOutput {
    pub contents: Vec<ContentPart>,
}

/// One message of a prompt.
#[derive(Clone, Debug)]
pub struct PromptMessage {
    pub role: String,
    pub content: Vec<ContentPart>,
}

/// What a prompt holds.
#[derive(Clone, Debug)]
pub struct PromptOutput {
    pub messages: Vec<PromptMessage>,
}

/// The value that stands for one part: its kind and its payload.
pub open spec fn part_value(part: ContentPart) -> JsonModel {
    match part {
        ContentPart::Text(text) => JsonModel::Object(
            seq![("text"@, JsonModel::Str(text@)), ("type"@, JsonModel::Str("text"@))],
        ),
        ContentPart::Blob(blob) => JsonModel::Object(
            seq![("blob"@, JsonModel::Str(blob@)), ("type"@, JsonModel::Str("blob"@))],
        ),
    }
}

/// The values that stand for the parts of `parts`.
pub open spec fn part_values(parts: Seq<ContentPart>) -> Seq<JsonModel> {
    Seq::new(parts.len(), |i: int| part_value(parts[i]))
}

/// The value that stands for a tool's output: its parts, and whether the tool
/// reported an error (no, where it did not say).
pub open spec fn tool_value(output: ToolOutput) -> JsonModel {
    JsonModel::Object(
        seq![
            ("content"@, JsonModel::Array(part_values(output.content@))),
            (
                "isError"@,
                JsonModel::Bool(
                    match output.is_error {
                        Some(b) => b,
                        None => false,
                    },
                ),
            ),
        ],
    )
}

/// The value that stands for what a resource holds.
pub open spec fn resource_value(output: ResourceOutput) -> JsonModel {
    JsonModel::Object(seq![("contents"@, JsonModel::Array(part_values(output.contents@)))])
}

/// The value that stands for one message of a prompt.
pub open spec fn message_value(message: PromptMessage) -> JsonModel {
    JsonModel::Object(
        seq![
            ("content"@, JsonModel::Array(part_values(message.content@))),
            ("role"@, JsonModel::Str(message.role@)),
        ],
    )
}

/// The value that stands for what a prompt holds.
pub open spec fn prompt_value(output: PromptOutput) -> JsonModel {
    JsonModel::Object(
        seq![
            (
                "messages"@,
                JsonModel::Array(
                    Seq::new(output.messages@.len(), |i: int| message_value(output.messages@[i])),
                ),
            ),
        ],
    )
}

fn part_to_value(part: &ContentPart) -> (r: Json)
    ensures
        r@ == part_value(*part),
{
    match part {
        ContentPart::Text(text) => Json::object2(
            "text",
            Json::Str(text.clone()),
            "type",
            Json::string("text"),
        ),
        ContentPart::Blob(blob) => Json::object2(
            "blob",
            Json::Str(blob.clone()),
            "type",
            Json::string("blob"),
        ),
    }
}

fn parts_to_value(parts: &Vec<ContentPart>) -> (r: Json)
    ensures
        r@ == JsonModel::Array(part_values(parts@)),
{
    let mut items: Vec<Json> = Vec::new();
    let mut i: usize = 0;
    while i < parts.len()
        invariant
            i <= parts.len(),
            items.len() == i,
            forall|k: int| 0 <= k < i ==> items@[k]@ == part_value(parts@[k]),
        decreases parts.len() - i,
    {
        items.push(part_to_value(&parts[i]));
        i = i + 1;
    }
    let r = Json::Array(items);
    assert(r@->Array_0 =~= part_values(parts@));
    r
}

/// The value that stands for a tool's output.
pub fn tool_result_to_value(result: ToolOutput) -> (r: Json)
    ensures
        r@ == tool_value(result),
{
    let flag = match result.is_error {
        Some(b) => b,
        None => false,
    };
    let flagged = Json::Bool(flag);
    let content = parts_to_value(&result.content);
    let r = Json::object2("content", content, "isError", flagged);
    assert(r@->Object_0 =~= tool_value(result)->Object_0);
    r
}

/// The value that stands for what a resource holds.
pub fn resource_content_to_value(result: ResourceOutput) -> (r: Json)
    ensures
        r@ == resource_value(result),
{
    Json::object1("contents", parts_to_value(&result.contents))
}

/// The value that stands for what a prompt holds.
pub fn prompt_result_to_value(result: PromptOutput) -> (r: Json)
    ensures
        r@ == prompt_value(result),
{
    let mut items: Vec<Json> = Vec::new();
    let mut i: usize = 0;
    while i < result.messages.len()
        invariant
            i <= result.messages.len(),
            items.len() == i,
            forall|k: int| 0 <= k < i ==> items@[k]@ == message_value(result.messages@[k]),
        decreases result.messages.len() - i,
    {
        let message = &result.messages[i];
        items.push(
            Json::object2(
                "content",
                parts_to_value(&message.content),
                "role",
                Json::Str(message.role.clone()),
            ),
        );
        i = i + 1;
    }
    let list = Json::Array(items);
    assert(list@->Array_0 =~= Seq::new(
        result.messages@.len(),
        |i: int| message_value(result.messages@[i]),
    ));
    Json::object1("messages", list)
}

/// The arguments of a prompt as pairs of texts.
pub open spec fn pairs_of(v: Seq<(String, String)>) -> Seq<(Seq<char>, Seq<char>)> {
    Seq::new(v.len(), |i: int| (v[i].0@, v[i].1@))
}

/// A value as an argument of a prompt: a string as it is, any other value as
/// JSON text.
pub open spec fn argument_text(value: JsonModel) -> Seq<char> {
    match value {
        JsonModel::Str(s) => s,
        _ => json_encode(value),
    }
}

/// The arguments of a prompt: the members of an object, each value as a
/// text; none where the value is no object.
pub open spec fn prompt_arguments(args: JsonModel) -> Option<Seq<(Seq<char>, Seq<char>)>> {
    match args {
        JsonModel::Object(entries) => Some(
            Seq::new(entries.len(), |i: int| (entries[i].0, argument_text(entries[i].1))),
        ),
        _ => None,
    }
}

/// The model of optional prompt arguments.
pub open spec fn optional_pairs(o: Option<Vec<(String, String)>>) -> Option<
    Seq<(Seq<char>, Seq<char>)>,
> {
    match o {
        Some(v) => Some(pairs_of(v@)),
        None => None,
    }
}

/// The arguments of a prompt as pairs of name and text.
pub fn value_to_prompt_args(args: &Json) -> (r: Option<Vec<(String, String)>>)
    ensures
        optional_pairs(r) == prompt_arguments(args@),
{
    match args {
        Json::Object(members) => {
            let mut out: Vec<(String, String)> = Vec::new();
            let mut i: usize = 0;
            while i < members.len()
                invariant
                    i <= members.len(),
                    out.len() == i,
                    args@ is Object,
                    args@->Object_0.len() == members@.len(),
                    forall|k: int|
                        0 <= k < members@.len() ==> args@->Object_0[k] == (
                            members@[k].key@,
                            members@[k].value@,
                        ),
                    forall|k: int|
                        0 <= k < i ==> out@[k].0@ == members@[k].key@ && out@[k].1@
                            == argument_text(members@[k].value@),
                decreases members.len() - i,
            {
                let text = match &members[i].value {
                    Json::Str(s) => s.clone(),
                    other => encode_json(other),
                };
                out.push((members[i].key.clone(), text));
                i = i + 1;
            }
            Some(out)
        },
        _ => None,
    }
}

/// The result of a listing as its caller sees it: the names, or a failure
/// that names the request where the request itself failed.
pub open spec fn listing(
    channel: Channel,
    request: Seq<char>,
    reply: Result<Seq<Seq<char>>, CallError>,
) -> Result<Seq<Seq<char>>, Seq<char>> {
    if channel is Disabled {
        Err("MCP transport is disabled"@)
    } else {
        match reply {
            Ok(names) => Ok(names),
            Err(CallError::Setup(why)) => Err(why@),
            Err(CallError::Request(how)) => Err(request + " failed: "@ + how@),
        }
    }
}

/// The model of a listing that was handed in.
pub open spec fn names_reply(reply: Result<Vec<String>, CallError>) -> Result<
    Seq<Seq<char>>,
    CallError,
> {
    match reply {
        Ok(names) => Ok(texts(names@)),
        Err(e) => Err(e),
    }
}

/// The model of a listing result.
pub open spec fn names_result(r: Result<Vec<String>, String>) -> Result<Seq<Seq<char>>, Seq<char>> {
    match r {
        Ok(names) => Ok(texts(names@)),
        Err(e) => Err(e@),
    }
}

/// The result of a call as its caller sees it, where `what` names the request
/// and its target.
pub open spec fn call_result(
    channel: Channel,
    what: Seq<char>,
    reply: Result<JsonModel, CallError>,
) -> Result<JsonModel, Seq<char>> {
    if channel is Disabled {
        Err("MCP is not configured. Set MCP_URL or MCP_COMMAND."@)
    } else {
        match reply {
            Ok(value) => Ok(value),
            Err(CallError::Setup(why)) => Err(why@),
            Err(CallError::Request(how)) => Err(what + ": "@ + how@),
        }
    }
}

/// What discovery found: each list that could be had, an empty one in place
/// of each that could not, and a diagnostic for each failure.
pub open spec fn listed(r: Result<Seq<Seq<char>>, Seq<char>>) -> Seq<Seq<char>> {
    match r {
        Ok(names) => names,
        Err(_) => Seq::empty(),
    }
}

/// The diagnostic for a failed listing, if it failed.
pub open spec fn diagnostic(request: Seq<char>, r: Result<Seq<Seq<char>>, Seq<char>>) -> Seq<
    Seq<char>,
> {
    match r {
        Ok(_) => Seq::empty(),
        Err(e) => seq![request + " error: "@ + e],
    }
}

fn fail_listing(request: &str, e: CallError) -> (r: String)
    ensures
        r@ == match e {
            CallError::Setup(why) => why@,
            CallError::Request(how) => request@ + " failed: "@ + how@,
        },
{
    match e {
        CallError::Setup(why) => why,
        CallError::Request(how) => concat3(request, " failed: ", how.as_str()),
    }
}

fn fail_call(what: &str, target: &str, e: CallError) -> (r: String)
    ensures
        r@ == match e {
            CallError::Setup(why) => why@,
            CallError::Request(how) => what@ + target@ + ": "@ + how@,
        },
{
    match e {
        CallError::Setup(why) => why,
        CallError::Request(how) => concat4(what, target, ": ", how.as_str()),
    }
}

impl McpClient {
    /// The names of the tools, given what the server replied.
    pub fn list_tools(&self, reply: Result<Vec<String>, CallError>) -> (r: Result<
        Vec<String>,
        String,
    >)
        ensures
            names_result(r) == listing(self@, "tools/list"@, names_reply(reply)),
    {
        if !self.is_enabled() {
            return Err(String::from_str("MCP transport is disabled"));
        }
        match reply {
            Ok(names) => Ok(names),
            Err(e) => Err(fail_listing("tools/list", e)),
        }
    }

    /// The names of the prompts, given what the server replied.
    pub fn list_prompts(&self, reply: Result<Vec<String>, CallError>) -> (r: Result<
        Vec<String>,
        String,
    >)
        ensures
            names_result(r) == listing(self@, "prompts/list"@, names_reply(reply)),
    {
        if !self.is_enabled() {
            return Err(String::from_str("MCP transport is disabled"));
        }
        match reply {
            Ok(names) => Ok(names),
            Err(e) => Err(fail_listing("prompts/list", e)),
        }
    }

    /// The addresses of the resources, then those of the resource templates,
    /// given what the server replied.
    pub fn list_resources(&self, reply: Result<(Vec<String>, Vec<String>), CallError>) -> (r:
        Result<Vec<String>, String>)
        ensures
            names_result(r) == listing(
                self@,
                "resources/list"@,
                match reply {
                    Ok(found) => Ok(texts(found.0@) + texts(found.1@)),
                    Err(e) => Err(e),
                },
            ),
    {
        if !self.is_enabled() {
            return Err(String::from_str("MCP transport is disabled"));
        }
        match reply {
            Ok(found) => {
                let (mut items, mut templates) = found;
                let ghost first = texts(items@);
                let ghost second = texts(templates@);
                items.append(&mut templates);
                assert(texts(items@) =~= first + second);
                Ok(items)
            },
            Err(e) => Err(fail_listing("resources/list", e)),
        }
    }

    /// What the server offers, given the three listings.
    pub fn discover_capabilities(
        &self,
        tools: Result<Vec<String>, String>,
        prompts: Result<Vec<String>, String>,
        resources: Result<Vec<String>, String>,
    ) -> (r: McpCapabilities)
        ensures
            texts(r.tools@) == listed(names_result(tools)),
            texts(r.prompts@) == listed(names_result(prompts)),
            texts(r.resources@) == listed(names_result(resources)),
            texts(r.diagnostics@) == diagnostic("tools/list"@, names_result(tools)) + diagnostic(
                "prompts/list"@,
                names_result(prompts),
            ) + diagnostic("resources/list"@, names_result(resources)),
    {
        let mut diagnostics: Vec<String> = Vec::new();
        let tool_names = match tools {
            Ok(v) => v,
            Err(e) => {
                diagnostics.push(concat3("tools/list", " error: ", e.as_str()));
                Vec::new()
            },
        };
        let prompt_names = match prompts {
            Ok(v) => v,
            Err(e) => {
                diagnostics.push(concat3("prompts/list", " error: ", e.as_str()));
                Vec::new()
            },
        };
        let resource_names = match resources {
            Ok(v) => v,
            Err(e) => {
                diagnostics.push(concat3("resources/list", " error: ", e.as_str()));
                Vec::new()
            },
        };
        McpCapabilities {
            tools: tool_names,
            prompts: prompt_names,
            resources: resource_names,
            diagnostics,
        }
    }

    /// The outcome of a tool call, given what the server replied.
    pub fn call_tool(&self, name: &str, reply: Result<ToolOutput, CallError>) -> (r: Result<
        Json,
        String,
    >)
        ensures
            value_result(r) == call_result(
                self@,
                "tools/call failed for "@ + name@,
                match reply {
                    Ok(output) => Ok(tool_value(output)),
                    Err(e) => Err(e),
                },
            ),
    {
        if !self.is_enabled() {
            return Err(String::from_str("MCP is not configured. Set MCP_URL or MCP_COMMAND."));
        }
        match reply {
            Ok(output) => Ok(tool_result_to_value(output)),
            Err(e) => Err(fail_call("tools/call failed for ", name, e)),
        }
    }

    /// The outcome of a prompt fetch, given what the server replied.
    pub fn get_prompt(&self, name: &str, reply: Result<PromptOutput, CallError>) -> (r: Result<
        Json,
        String,
    >)
        ensures
            value_result(r) == call_result(
                self@,
                "prompts/get failed for "@ + name@,
                match reply {
                    Ok(output) => Ok(prompt_value(output)),
                    Err(e) => Err(e),
                },
            ),
    {
        if !self.is_enabled() {
            return Err(String::from_str("MCP is not configured. Set MCP_URL or MCP_COMMAND."));
        }
        match reply {
            Ok(output) => Ok(prompt_result_to_value(output)),
            Err(e) => Err(fail_call("prompts/get failed for ", name, e)),
        }
    }

    /// The outcome of a resource read, given what the server replied.
    pub fn read_resource(&self, uri: &str, reply: Result<ResourceOutput, CallError>) -> (r: Result<
        Json,
        String,
    >)
        ensures
            value_result(r) == call_result(
                self@,
                "resources/read failed for "@ + uri@,
                match reply {
                    Ok(output) => Ok(resource_value(output)),
                    Err(e) => Err(e),
                },
            ),
    {
        if !self.is_enabled() {
            return Err(String::from_str("MCP is not configured. Set MCP_URL or MCP_COMMAND."));
        }
        match reply {
            Ok(output) => Ok(resource_content_to_value(output)),
            Err(e) => Err(fail_call("resources/read failed for ", uri, e)),
        }
    }
}

} // verus!
