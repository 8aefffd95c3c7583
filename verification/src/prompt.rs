use crate::config::Config;
use crate::mcp::McpCapabilities;
use crate::text::{concat2, ends_with, join, join_strings, texts};
use vstd::prelude::*;
use vstd::string::StringExecFns;

verus! {

/// Each item with a bullet before it.
pub open spec fn bulleted(items: Seq<Seq<char>>) -> Seq<Seq<char>> {
    Seq::new(items.len(), |i: int| "- "@ + items[i])
}

/// A list of names as bullets, one to a line; `- (none)` for an empty list.
pub open spec fn bullet_list(items: Seq<Seq<char>>) -> Seq<char> {
    if items.len() == 0 {
        "- (none)"@
    } else {
        join(bulleted(items), "\n"@)
    }
}

/// What a session is told when no capability server is configured.
pub open spec fn restriction_text() -> Seq<char> {
    "\n\nMCP is currently unavailable. Do not choose tool/prompt/resource. Use retrieve and final only."@
}

/// What a session is told when the server offers nothing.
pub open spec fn steering_text() -> Seq<char> {
    "\n\nMCP is configured but capability discovery returned no tools/prompts/resources. Prefer retrieve/final unless user explicitly asks for MCP, and inspect MCP diagnostics."@
}

/// The instruction that closes the summary: the restriction where no server
/// is configured, else the steering where nothing was discovered, else none.
pub open spec fn closing_text(
    tools: Seq<Seq<char>>,
    prompts: Seq<Seq<char>>,
    resources: Seq<Seq<char>>,
    mcp_enabled: bool,
) -> Seq<char> {
    if !mcp_enabled {
        restriction_text()
    } else if tools.len() == 0 && prompts.len() == 0 && resources.len() == 0 {
        steering_text()
    } else {
        Seq::empty()
    }
}

/// The note on failed discoveries: the diagnostics, one to a line, under a heading.
pub open spec fn diagnostics_text(diagnostics: Seq<Seq<char>>) -> Seq<char> {
    if diagnostics.len() == 0 {
        Seq::empty()
    } else {
        "\n\nMCP Diagnostics:\n"@ + join(diagnostics, "\n"@)
    }
}

/// The lists of what the server offers, after the base instructions.
pub open spec fn capability_lists(
    base: Seq<char>,
    tools: Seq<Seq<char>>,
    prompts: Seq<Seq<char>>,
    resources: Seq<Seq<char>>,
) -> Seq<char> {
    base + "\n\nAvailable Tools:\n"@ + bullet_list(tools) + "\n\nAvailable Prompts:\n"@
        + bullet_list(prompts) + "\n\nAvailable Resources:\n"@ + bullet_list(resources)
}

/// The system instructions of a session: the base instructions, the lists of
/// tools, prompts and resources, the diagnostics, and the closing instruction.
pub open spec fn capability_summary(
    base: Seq<char>,
    tools: Seq<Seq<char>>,
    prompts: Seq<Seq<char>>,
    resources: Seq<Seq<char>>,
    diagnostics: Seq<Seq<char>>,
    mcp_enabled: bool,
) -> Seq<char> {
    capability_lists(base, tools, prompts, resources) + diagnostics_text(diagnostics)
        + closing_text(tools, prompts, resources, mcp_enabled)
}

/// A list of names as bullets, one to a line.
pub fn list_or_none(items: &Vec<String>) -> (r: String)
    ensures
        r@ == bullet_list(texts(items@)),
{
    if items.len() == 0 {
        return String::from_str("- (none)");
    }
    let mut lines: Vec<String> = Vec::new();
    let mut i: usize = 0;
    while i < items.len()
        invariant
            i <= items.len(),
            lines.len() == i,
            forall|k: int| 0 <= k < i ==> lines@[k]@ == "- "@ + items@[k]@,
        decreases items.len() - i,
    {
        lines.push(concat2("- ", items[i].as_str()));
        i = i + 1;
    }
    assert(texts(lines@) =~= bulleted(texts(items@)));
    join_strings(&lines, "\n")
}

/// The system instructions of a session.
pub fn build_hybrid_system_prompt(cfg: &Config, caps: &McpCapabilities, mcp_enabled: bool) -> (r:
    String)
    ensures
        r@ == capability_summary(
            cfg.hybrid_system_prompt@,
            texts(caps.tools@),
            texts(caps.prompts@),
            texts(caps.resources@),
            texts(caps.diagnostics@),
            mcp_enabled,
        ),
{
    let mut r = cfg.hybrid_system_prompt.clone();
    r.append("\n\nAvailable Tools:\n");
    r.append(list_or_none(&caps.tools).as_str());
    r.append("\n\nAvailable Prompts:\n");
    r.append(list_or_none(&caps.prompts).as_str());
    r.append("\n\nAvailable Resources:\n");
    r.append(list_or_none(&caps.resources).as_str());
    if caps.diagnostics.len() > 0 {
        r.append("\n\nMCP Diagnostics:\n");
        r.append(join_strings(&caps.diagnostics, "\n").as_str());
    }
    if !mcp_enabled {
        r.append(
            "\n\nMCP is currently unavailable. Do not choose tool/prompt/resource. Use retrieve and final only.",
        );
    } else if caps.tools.len() == 0 && caps.prompts.len() == 0 && caps.resources.len() == 0 {
        r.append(
            "\n\nMCP is configured but capability discovery returned no tools/prompts/resources. Prefer retrieve/final unless user explicitly asks for MCP, and inspect MCP diagnostics.",
        );
    }
    r
}

/// The summary of a session without a capability server ends with the
/// restriction; that of a session whose server offers nothing ends with the
/// steering; and no summary ends with both.
pub proof fn law_summary_closes_one_way(
    base: Seq<char>,
    tools: Seq<Seq<char>>,
    prompts: Seq<Seq<char>>,
    resources: Seq<Seq<char>>,
    diagnostics: Seq<Seq<char>>,
    mcp_enabled: bool,
)
    ensures
        !mcp_enabled ==> ends_with(
            capability_summary(base, tools, prompts, resources, diagnostics, mcp_enabled),
            restriction_text(),
        ),
        mcp_enabled && tools.len() == 0 && prompts.len() == 0 && resources.len() == 0 ==> ends_with(
            capability_summary(base, tools, prompts, resources, diagnostics, mcp_enabled),
            steering_text(),
        ),
        !(ends_with(
            capability_summary(base, tools, prompts, resources, diagnostics, mcp_enabled),
            restriction_text(),
        ) && ends_with(
            capability_summary(base, tools, prompts, resources, diagnostics, mcp_enabled),
            steering_text(),
        )),
{
    let summary = capability_summary(base, tools, prompts, resources, diagnostics, mcp_enabled);
    let body = capability_lists(base, tools, prompts, resources) + diagnostics_text(diagnostics);
    let r = restriction_text();
    let t = steering_text();
    reveal_strlit(
        "\n\nMCP is currently unavailable. Do not choose tool/prompt/resource. Use retrieve and final only.",
    );
    reveal_strlit(
        "\n\nMCP is configured but capability discovery returned no tools/prompts/resources. Prefer retrieve/final unless user explicitly asks for MCP, and inspect MCP diagnostics.",
    );
    if !mcp_enabled {
        assert(summary.subrange(summary.len() - r.len(), summary.len() as int) =~= r);
    }
    if mcp_enabled && tools.len() == 0 && prompts.len() == 0 && resources.len() == 0 {
        assert(summary.subrange(summary.len() - t.len(), summary.len() as int) =~= t);
    }
    if ends_with(summary, r) && ends_with(summary, t) {
        let a = summary.subrange(summary.len() - r.len(), summary.len() as int);
        let b = summary.subrange(summary.len() - t.len(), summary.len() as int);
        assert(r[r.len() - 2] == 'y');
        assert(t[t.len() - 2] == 's');
    }
}

} // verus!
