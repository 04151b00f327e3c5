//! The tool registry: the tools the model may call and how a tool call's
//! arguments are read.

use vstd::prelude::*;
use vstd::string::*;
use crate::message::{AgentError, ToolSpec, text_view};

verus! {

#[verifier::external_type_specification]
#[verifier::external_body]
pub struct ExJsonError(serde_json::Error);

/// What `serde_json` reads from `text` for member `key`: `None` when `text`
/// is not a JSON document; otherwise `Some` of the member's string value,
/// or `Some(None)` when the document has no such member or it is not a
/// string.
pub uninterp spec fn json_string_member(text: Seq<char>, key: Seq<char>) -> Option<
    Option<Seq<char>>,
>;

/// Relies on `serde_json::from_str::<Value>`, with `Value::get` and
/// `Value::as_str` reading member `key` of the parsed document as a string.
/// Parsing depends on the text alone.
#[verifier::external_body]
fn read_string_member(text: &str, key: &str) -> (r: Result<Option<String>, serde_json::Error>)
    ensures
        json_string_member(text@, key@) == match r {
            Ok(m) => Some(text_view(m)),
            Err(_) => None::<Option<Seq<char>>>,
        },
{
    serde_json::from_str::<serde_json::Value>(text).map(
        |v| v.get(key).and_then(|m| m.as_str()).map(|u| u.to_string()),
    )
}

/// The tools this agent can run.
#[derive(PartialEq, Eq, Structural, Clone, Copy, Debug)]
pub enum Tool {
    /// Fetches a web page and returns its trimmed text.
    FetchPageText,
}

/// The name under which a tool is declared to the model.
pub open spec fn tool_name(t: Tool) -> Seq<char> {
    match t {
        Tool::FetchPageText => "get_html_context"@,
    }
}

/// What a tool is declared to do.
pub open spec fn tool_description(t: Tool) -> Seq<char> {
    match t {
        Tool::FetchPageText => "Fetches the web page at the given url and returns its text content"@,
    }
}

/// The JSON Schema of a tool's arguments, as text.
pub open spec fn tool_schema(t: Tool) -> Seq<char> {
    match t {
        Tool::FetchPageText => "{\"type\":\"object\",\"properties\":{\"url\":{\"type\":\"string\",\"description\":\"url of the web page, e.g. https://www.google.com\"}},\"required\":[\"url\"]}"@,
    }
}

/// The tool a model-supplied name refers to, if any.
pub open spec fn tool_named(name: Seq<char>) -> Option<Tool> {
    if name == tool_name(Tool::FetchPageText) {
        Some(Tool::FetchPageText)
    } else {
        None
    }
}

/// The outcome of reading a tool's arguments once the `url` member has been
/// looked up: its string value, or an error when there was none.
pub open spec fn url_of_member(member: Option<Seq<char>>) -> Result<Seq<char>, AgentError> {
    match member {
        Some(u) => Ok(u),
        None => Err(AgentError::MalformedToolArguments),
    }
}

pub open spec fn url_view(r: Result<String, AgentError>) -> Result<Seq<char>, AgentError> {
    match r {
        Ok(u) => Ok(u@),
        Err(e) => Err(e),
    }
}

impl Tool {
    /// The name under which this tool is declared.
    pub fn name(&self) -> (r: String)
        ensures
            r@ == tool_name(*self),
    {
        match self {
            Tool::FetchPageText => String::from_str("get_html_context"),
        }
    }

    /// The declaration of this tool handed to the model.
    pub fn spec(&self) -> (r: ToolSpec)
        ensures
            r.name@ == tool_name(*self),
            r.description@ == tool_description(*self),
            r.parameter_schema@ == tool_schema(*self),
    {
        match self {
            Tool::FetchPageText => ToolSpec {
                name: self.name(),
                description: String::from_str("Fetches the web page at the given url and returns its text content"),
                parameter_schema: String::from_str(
                    "{\"type\":\"object\",\"properties\":{\"url\":{\"type\":\"string\",\"description\":\"url of the web page, e.g. https://www.google.com\"}},\"required\":[\"url\"]}",
                ),
            },
        }
    }

    /// Looks up the tool declared under `name`.
    pub fn resolve(name: &String) -> (r: Option<Tool>)
        ensures
            r == tool_named(name@),
    {
        let known = Tool::FetchPageText.name();
        if *name == known {
            Some(Tool::FetchPageText)
        } else {
            None
        }
    }
}

/// The declarations of every tool in the registry.
pub fn all_tools() -> (r: Vec<ToolSpec>)
    ensures
        r@.len() == 1,
        r@[0].name@ == tool_name(Tool::FetchPageText),
        r@[0].description@ == tool_description(Tool::FetchPageText),
        r@[0].parameter_schema@ == tool_schema(Tool::FetchPageText),
{
    let mut v: Vec<ToolSpec> = Vec::new();
    v.push(Tool::FetchPageText.spec());
    v
}

/// Reads the url out of the looked-up `url` member of a tool's arguments
/// (its string value), or fails when there was none.
pub fn url_from_member(member: Option<String>) -> (r: Result<String, AgentError>)
    ensures
        url_view(r) == url_of_member(text_view(member)),
{
    match member {
        Some(u) => Ok(u),
        None => Err(AgentError::MalformedToolArguments),
    }
}

/// The outcome of reading the `url` argument of a tool call with argument
/// text `args`: text that is not JSON, or has no string member `url`, is
/// rejected.
pub open spec fn arguments_url(args: Seq<char>) -> Result<Seq<char>, AgentError> {
    match json_string_member(args, "url"@) {
        Some(member) => url_of_member(member),
        None => Err(AgentError::MalformedToolArguments),
    }
}

/// Reads the `url` argument of a tool call.
pub fn url_argument(arguments: &str) -> (r: Result<String, AgentError>)
    ensures
        url_view(r) == arguments_url(arguments@),
{
    match read_string_member(arguments, "url") {
        Ok(member) => url_from_member(member),
        Err(_) => Err(AgentError::MalformedToolArguments),
    }
}

} // verus!
