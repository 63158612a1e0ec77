//! The tool-invocation protocol: the immutable catalog of tools the model
//! may call, its rendering into instruction text, the parser that recovers a
//! structured call from a free-text reply, and the dispatch decision.
//!
//! The wire contract is a single JSON object with a string `tool` field and
//! an `args` field.  The parser deliberately tolerates prose around the
//! object — it takes the span from the first `{` to the last `}` — and is
//! deliberately brittle about several JSON-like fragments in one reply: the
//! outermost span is used, an accepted limitation.

use vstd::prelude::*;

use crate::text::{find_first, find_last, first_index_of, last_index_of, str_eq, trim, trim_spec};

verus! {

/// A tool the model can invoke: a unique name, a human-readable description,
/// and the JSON schema of its arguments, kept as text.
pub struct ToolDefinition {
    pub name: String,
    pub description: String,
    pub parameters: String,
}

/// A structured call parsed from a model reply: the tool's name and its
/// string-valued arguments as key/value pairs.
pub struct ToolCall {
    pub name: String,
    pub arguments: Vec<(String, String)>,
}

/// The argument pairs seen as character sequences.
pub open spec fn args_view(args: Seq<(String, String)>) -> Seq<(Seq<char>, Seq<char>)> {
    args.map_values(|p: (String, String)| (p.0@, p.1@))
}

/// What parsing a candidate JSON span yields: the value of its string-valued
/// `tool` field and its string-valued `args` entries, provided the span is
/// valid JSON carrying both a string `tool` field and an `args` field; and
/// nothing otherwise.  A function of the span's characters alone.
pub uninterp spec fn json_tool_call(s: Seq<char>) -> Option<(Seq<char>, Seq<(Seq<char>, Seq<char>)>)>;

/// Relies on serde_json::from_str for JSON validity and on the accessors
/// get, as_str and as_object of serde_json::Value to read the `tool` and
/// `args` fields out of the parsed value; `json_tool_call` names the result.
#[verifier::external_body]
fn extract_tool_json(s: &str) -> (r: Option<(String, Vec<(String, String)>)>)
    ensures
        match r {
            Some(p) => json_tool_call(s@) == Some((p.0@, args_view(p.1@))),
            None => json_tool_call(s@) is None,
        },
{
    let v: serde_json::Value = serde_json::from_str(s).ok()?;
    let tool = v.get("tool")?.as_str()?.to_string();
    let args = v.get("args")?;
    let mut pairs: Vec<(String, String)> = Vec::new();
    if let Some(obj) = args.as_object() {
        for (key, val) in obj {
            if let Some(sv) = val.as_str() {
                pairs.push((key.clone(), sv.to_string()));
            }
        }
    }
    Some((tool, pairs))
}

/// The span from the first `{` to the last `}`, when both exist in order.
pub open spec fn brace_span(t: Seq<char>) -> Option<Seq<char>> {
    match (first_index_of(t, '{'), last_index_of(t, '}')) {
        (Some(i), Some(j)) => if i <= j {
            Some(t.subrange(i, j + 1))
        } else {
            None
        },
        _ => None,
    }
}

/// What `parse_tool_call` recovers from a reply: the brace span of the
/// trimmed text, read as a tool call.
pub open spec fn spec_parse_tool_call(text: Seq<char>) -> Option<
    (Seq<char>, Seq<(Seq<char>, Seq<char>)>),
> {
    match brace_span(trim_spec(text)) {
        Some(span) => json_tool_call(span),
        None => None,
    }
}

/// Registry of the available tools; read-only after startup.
pub struct ToolRegistry {
    tools: Vec<ToolDefinition>,
}

/// One catalog entry rendered for the system prompt.
pub open spec fn tool_block(t: ToolDefinition) -> Seq<char> {
    "- **"@ + t.name@ + "**: "@ + t.description@ + "\n  Parameters: "@ + t.parameters@ + "\n\n"@
}

/// The whole catalog rendered, in registration order.
pub open spec fn catalog_text(ts: Seq<ToolDefinition>) -> Seq<char>
    decreases ts.len(),
{
    if ts.len() == 0 {
        Seq::empty()
    } else {
        catalog_text(ts.drop_last()) + tool_block(ts.last())
    }
}

impl ToolRegistry {
    /// The registered tools.
    pub closed spec fn catalog(&self) -> Seq<ToolDefinition> {
        self.tools@
    }

    /// The built-in catalog: command execution, a read-only web search, and
    /// the administrator-only persona update.
    pub fn new() -> (r: ToolRegistry)
        ensures
            r.catalog().len() == 3,
            r.catalog()[0].name@ == "run_command"@,
            r.catalog()[0].description@
                == "Execute a shell command on the server. Risky commands require admin approval."@,
            r.catalog()[0].parameters@
                == "{\"type\": \"object\", \"properties\": {\"command\": {\"type\": \"string\", \"description\": \"The shell command to execute\"}}, \"required\": [\"command\"]}"@,
            r.catalog()[1].name@ == "web_search"@,
            r.catalog()[1].description@
                == "Search the web for information. Returns a summary of results."@,
            r.catalog()[1].parameters@
                == "{\"type\": \"object\", \"properties\": {\"query\": {\"type\": \"string\", \"description\": \"The search query\"}}, \"required\": [\"query\"]}"@,
            r.catalog()[2].name@ == "update_persona"@,
            r.catalog()[2].description@
                == "Update a bot persona file (SOUL, IDENTITY, or SECURITY). Admin-only."@,
            r.catalog()[2].parameters@
                == "{\"type\": \"object\", \"properties\": {\"file_name\": {\"type\": \"string\", \"enum\": [\"SOUL\", \"IDENTITY\", \"SECURITY\"], \"description\": \"Which persona file to update\"}, \"new_content\": {\"type\": \"string\", \"description\": \"The new markdown content for the file\"}}, \"required\": [\"file_name\", \"new_content\"]}"@,
    {
        let mut tools: Vec<ToolDefinition> = Vec::new();
        tools.push(
            ToolDefinition {
                name: "run_command".to_owned(),
                description:
                    "Execute a shell command on the server. Risky commands require admin approval.".to_owned(),
                parameters:
                    "{\"type\": \"object\", \"properties\": {\"command\": {\"type\": \"string\", \"description\": \"The shell command to execute\"}}, \"required\": [\"command\"]}".to_owned(),
            },
        );
        tools.push(
            ToolDefinition {
                name: "web_search".to_owned(),
                description: "Search the web for information. Returns a summary of results.".to_owned(),
                parameters:
                    "{\"type\": \"object\", \"properties\": {\"query\": {\"type\": \"string\", \"description\": \"The search query\"}}, \"required\": [\"query\"]}".to_owned(),
            },
        );
        tools.push(
            ToolDefinition {
                name: "update_persona".to_owned(),
                description: "Update a bot persona file (SOUL, IDENTITY, or SECURITY). Admin-only.".to_owned(),
                parameters:
                    "{\"type\": \"object\", \"properties\": {\"file_name\": {\"type\": \"string\", \"enum\": [\"SOUL\", \"IDENTITY\", \"SECURITY\"], \"description\": \"Which persona file to update\"}, \"new_content\": {\"type\": \"string\", \"description\": \"The new markdown content for the file\"}}, \"required\": [\"file_name\", \"new_content\"]}".to_owned(),
            },
        );
        ToolRegistry { tools }
    }

    /// Render the catalog into the instruction text embedded in the model's
    /// operating instructions, wire contract included.
    pub fn describe_for_prompt(&self) -> (r: String)
        ensures
            r@ == "You have access to the following tools. To use a tool, respond with ONLY a JSON object in the format: {\"tool\": \"tool_name\", \"args\": {...}}\n\n"@
                + catalog_text(self.catalog()),
    {
        let mut out =
            "You have access to the following tools. To use a tool, respond with ONLY a JSON object in the format: {\"tool\": \"tool_name\", \"args\": {...}}\n\n".to_owned();
        let mut i: usize = 0;
        while i < self.tools.len()
            invariant
                i <= self.tools@.len(),
                out@
                    == "You have access to the following tools. To use a tool, respond with ONLY a JSON object in the format: {\"tool\": \"tool_name\", \"args\": {...}}\n\n"@
                    + catalog_text(self.tools@.take(i as int)),
            decreases self.tools@.len() - i,
        {
            proof {
                assert(self.tools@.take(i + 1).drop_last() =~= self.tools@.take(i as int));
            }
            out.append("- **");
            out.append(self.tools[i].name.as_str());
            out.append("**: ");
            out.append(self.tools[i].description.as_str());
            out.append("\n  Parameters: ");
            out.append(self.tools[i].parameters.as_str());
            out.append("\n\n");
            i = i + 1;
        }
        proof {
            assert(self.tools@.take(self.tools@.len() as int) =~= self.tools@);
        }
        out
    }

    /// Parse a model reply into a tool call, or nothing when the reply is a
    /// plain text answer.
    pub fn parse_tool_call(text: &str) -> (r: Option<ToolCall>)
        ensures
            match r {
                Some(c) => spec_parse_tool_call(text@) == Some((c.name@, args_view(c.arguments@))),
                None => spec_parse_tool_call(text@) is None,
            },
    {
        let trimmed = trim(text);
        let start = match find_first(trimmed, '{') {
            Some(i) => i,
            None => {
                return None;
            },
        };
        let end = match find_last(trimmed, '}') {
            Some(j) => j,
            None => {
                return None;
            },
        };
        if start > end {
            return None;
        }
        let tlen = trimmed.unicode_len();
        proof {
            assert(end < tlen);
        }
        let span = trimmed.substring_char(start, end + 1);
        match extract_tool_json(span) {
            Some(p) => Some(ToolCall { name: p.0, arguments: p.1 }),
            None => None,
        }
    }
}

/// The value under `key` among the argument pairs, first match.
pub open spec fn args_lookup(args: Seq<(String, String)>, key: Seq<char>) -> Option<String>
    decreases args.len(),
{
    if args.len() == 0 {
        None
    } else if args[0].0@ == key {
        Some(args[0].1)
    } else {
        args_lookup(args.drop_first(), key)
    }
}

/// Look an argument up by key.
pub fn args_get(args: &Vec<(String, String)>, key: &str) -> (r: Option<String>)
    ensures
        r == args_lookup(args@, key@),
{
    proof {
        assert(args@.skip(0) =~= args@);
    }
    let mut i: usize = 0;
    while i < args.len()
        invariant
            i <= args@.len(),
            args_lookup(args@, key@) == args_lookup(args@.skip(i as int), key@),
        decreases args@.len() - i,
    {
        if str_eq(args[i].0.as_str(), key) {
            proof {
                assert(args@.skip(i as int)[0] == args@[i as int]);
            }
            return Some(args[i].1.clone());
        }
        proof {
            assert(args@.skip(i as int).drop_first() =~= args@.skip(i + 1));
        }
        i = i + 1;
    }
    None
}

/// What dispatching a tool call must do.
pub enum ToolAction {
    /// Hand the command to the risk classifier and executor.
    RunCommand { command: String },
    /// Overwrite a persona file; only reached for an administrator.
    UpdatePersona { file_name: String, new_content: String },
    /// The persona update was requested by a non-administrator; refuse.
    NotAuthorized,
    /// The tool name is not in the fixed mapping; report it.
    NotImplemented { name: String },
    /// A known tool was called without its required arguments; do nothing.
    NoAction,
}

/// The fixed mapping from tool name to action: command execution, the
/// administrator-gated persona update, and a report for everything else.
pub open spec fn spec_dispatch(call: ToolCall, caller_is_admin: bool) -> ToolAction {
    if call.name@ == "run_command"@ {
        match args_lookup(call.arguments@, "command"@) {
            Some(c) => ToolAction::RunCommand { command: c },
            None => ToolAction::NoAction,
        }
    } else if call.name@ == "update_persona"@ {
        if !caller_is_admin {
            ToolAction::NotAuthorized
        } else {
            match (args_lookup(call.arguments@, "file_name"@), args_lookup(
                call.arguments@,
                "new_content"@,
            )) {
                (Some(f), Some(n)) => ToolAction::UpdatePersona {
                    file_name: f,
                    new_content: n,
                },
                _ => ToolAction::NoAction,
            }
        }
    } else {
        ToolAction::NotImplemented { name: call.name }
    }
}

/// Decide what a parsed tool call must do.
pub fn dispatch(call: &ToolCall, caller_is_admin: bool) -> (r: ToolAction)
    ensures
        r == spec_dispatch(*call, caller_is_admin),
{
    if str_eq(call.name.as_str(), "run_command") {
        match args_get(&call.arguments, "command") {
            Some(c) => ToolAction::RunCommand { command: c },
            None => ToolAction::NoAction,
        }
    } else if str_eq(call.name.as_str(), "update_persona") {
        if !caller_is_admin {
            ToolAction::NotAuthorized
        } else {
            let file_name = args_get(&call.arguments, "file_name");
            let new_content = args_get(&call.arguments, "new_content");
            match (file_name, new_content) {
                (Some(f), Some(n)) => ToolAction::UpdatePersona {
                    file_name: f,
                    new_content: n,
                },
                _ => ToolAction::NoAction,
            }
        }
    } else {
        ToolAction::NotImplemented { name: call.name.clone() }
    }
}

} // verus!
