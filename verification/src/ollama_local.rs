//! The data exchanged with the local chat collaborator: transcript messages,
//! model-issued tool calls with their untyped argument map, the tool
//! descriptors advertised to the model, and the chat response shape.
use vstd::prelude::*;

verus! {

use vstd::string::StringExecFns;

/// An assistant or user entry as sent to the chat endpoint.
#[derive(Debug)]
pub struct Message {
    pub role: String,
    pub content: String,
    pub tool_calls: Option<Vec<ToolCall>>,
}

/// A tool entry as sent to the chat endpoint.
#[derive(Debug)]
pub struct ToolMessage {
    pub role: String,
    pub content: String,
    pub tool_name: String,
}

/// A model-issued request to invoke a capability.
#[derive(Debug)]
pub struct ToolCall {
    pub function: FunctionCall,
}

#[derive(Debug)]
pub struct FunctionCall {
    pub name: String,
    pub arguments: ToolArgs,
}

/// One value of the model-issued argument map. Only string and unsigned
/// integer values are ever read; anything else is kept as `Opaque` so that a
/// lookup can tell a missing field from one of the wrong shape.
#[derive(Debug)]
pub enum ArgValue {
    Text(String),
    Uint(u64),
    Opaque,
}

/// The untyped argument map attached to a tool call, in the order the model
/// sent its fields.
#[derive(Debug)]
pub struct ToolArgs {
    pub entries: Vec<(String, ArgValue)>,
}

/// The value stored under `key`, taking the first entry whose key matches.
pub open spec fn spec_lookup(entries: Seq<(String, ArgValue)>, key: Seq<char>) -> Option<ArgValue>
    decreases entries.len(),
{
    if entries.len() == 0 {
        None
    } else if entries[0].0@ == key {
        Some(entries[0].1)
    } else {
        spec_lookup(entries.skip(1), key)
    }
}

impl ToolArgs {
    /// Looks `key` up in the argument map.
    pub fn get(&self, key: &str) -> (r: Option<&ArgValue>)
        ensures
            match r {
                Some(v) => spec_lookup(self.entries@, key@) == Some(*v),
                None => spec_lookup(self.entries@, key@) is None,
            },
    {
        proof {
            assert(self.entries@.skip(0) =~= self.entries@);
        }
        let n = self.entries.len();
        let mut i: usize = 0;
        while i < n
            invariant
                i <= n,
                n == self.entries@.len(),
                spec_lookup(self.entries@, key@) == spec_lookup(
                    self.entries@.skip(i as int),
                    key@,
                ),
            decreases n - i,
        {
            let (k, v) = &self.entries[i];
            if crate::text::str_eq(k.as_str(), key) {
                return Some(v);
            }
            proof {
                assert(self.entries@.skip(i as int).skip(1) =~= self.entries@.skip(i + 1));
            }
            i = i + 1;
        }
        None
    }
}

/// A capability descriptor advertised to the model.
#[derive(Debug)]
pub struct Tool {
    pub tool_type: String,
    pub function: ToolFunction,
}

/// The name, description and JSON-schema argument spec of one capability.
#[derive(Debug)]
pub struct ToolFunction {
    pub name: String,
    pub description: String,
    pub parameters: String,
}

/// One response from the chat endpoint.
#[derive(Debug)]
pub struct ChatResponse {
    pub message: ChatMessage,
    pub done: bool,
}

/// The message part of a chat response: final content, optional tool calls,
/// optional reasoning text.
#[derive(Debug)]
pub struct ChatMessage {
    pub role: String,
    pub content: String,
    pub tool_calls: Option<Vec<ToolCall>>,
    pub thinking: Option<String>,
}

/// The web search capability: a required `query` and an optional
/// `max_results`.
pub fn create_web_search_tool() -> (t: Tool)
    ensures
        t.tool_type@ == "function"@,
        t.function.name@ == "web_search"@,
        t.function.description@
            == "Search the web for information. Returns a list of search results with titles, URLs, and content snippets."@,
        t.function.parameters@
            == "{\"type\":\"object\",\"properties\":{\"query\":{\"type\":\"string\",\"description\":\"The search query to execute\"},\"max_results\":{\"type\":\"integer\",\"description\":\"Maximum number of results to return (optional)\"}},\"required\":[\"query\"]}"@,
{
    Tool {
        tool_type: String::from_str("function"),
        function: ToolFunction {
            name: String::from_str("web_search"),
            description: String::from_str(
                "Search the web for information. Returns a list of search results with titles, URLs, and content snippets.",
            ),
            parameters: String::from_str(
                "{\"type\":\"object\",\"properties\":{\"query\":{\"type\":\"string\",\"description\":\"The search query to execute\"},\"max_results\":{\"type\":\"integer\",\"description\":\"Maximum number of results to return (optional)\"}},\"required\":[\"query\"]}",
            ),
        },
    }
}

/// The web fetch capability: a required `url`.
pub fn create_web_fetch_tool() -> (t: Tool)
    ensures
        t.tool_type@ == "function"@,
        t.function.name@ == "web_fetch"@,
        t.function.description@
            == "Fetch and parse content from a specific URL. Returns the page title, content, and links."@,
        t.function.parameters@
            == "{\"type\":\"object\",\"properties\":{\"url\":{\"type\":\"string\",\"description\":\"The URL to fetch and parse\"}},\"required\":[\"url\"]}"@,
{
    Tool {
        tool_type: String::from_str("function"),
        function: ToolFunction {
            name: String::from_str("web_fetch"),
            description: String::from_str(
                "Fetch and parse content from a specific URL. Returns the page title, content, and links.",
            ),
            parameters: String::from_str(
                "{\"type\":\"object\",\"properties\":{\"url\":{\"type\":\"string\",\"description\":\"The URL to fetch and parse\"}},\"required\":[\"url\"]}",
            ),
        },
    }
}

} // verus!
