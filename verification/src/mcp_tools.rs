//! MCP (Model Context Protocol) tools of MiniMax: `web_search` and
//! `understand_image`.
//!
//! The HTTP exchange itself happens outside the library; here are the tool
//! results, the client's request line, headers and bodies, and how a reply
//! of the tool endpoint becomes a tool result.

use vstd::prelude::*;

use crate::json::{json_member, json_member_text, json_quoted, json_string};
use crate::text::{chars_of, same_text, string_of};

verus! {

/// Represents the result of an MCP tool execution
#[derive(Debug, Clone)]
pub struct McpToolResult {
    /// The name of the tool that was executed
    pub name: String,
    /// Whether the tool execution was successful
    pub success: bool,
    /// The result content from the tool
    pub content: String,
    /// Error message if execution failed
    pub error: Option<String>,
}

impl McpToolResult {
    /// A successful result of tool `name` with `content`.
    pub open spec fn is_success_of(&self, name: Seq<char>, content: Seq<char>) -> bool {
        &&& self.name@ == name
        &&& self.success
        &&& self.content@ == content
        &&& self.error.is_none()
    }

    /// A failed result of tool `name` with the message `error`.
    pub open spec fn is_failure_of(&self, name: Seq<char>, error: Seq<char>) -> bool {
        &&& self.name@ == name
        &&& !self.success
        &&& self.content@.len() == 0
        &&& self.error matches Some(e) && e@ == error
    }

    /// Creates a successful tool result
    pub fn success(name: &str, content: String) -> (r: Self)
        ensures
            r.is_success_of(name@, content@),
    {
        McpToolResult { name: String::from_str(name), success: true, content, error: None }
    }

    /// Creates a failed tool result
    pub fn failure(name: &str, error: String) -> (r: Self)
        ensures
            r.is_failure_of(name@, error@),
    {
        McpToolResult {
            name: String::from_str(name),
            success: false,
            content: String::new(),
            error: Some(error),
        }
    }
}

/// Represents the available MCP tools
#[derive(Debug, Clone, Copy, PartialEq, Eq, Structural)]
pub enum McpTool {
    WebSearch,
    UnderstandImage,
}

/// The name under which each tool is called.
pub open spec fn tool_name(tool: McpTool) -> Seq<char> {
    match tool {
        McpTool::WebSearch => "web_search"@,
        McpTool::UnderstandImage => "understand_image"@,
    }
}

impl McpTool {
    /// Returns the tool name as a string
    pub fn name(&self) -> (r: &'static str)
        ensures
            r@ == tool_name(*self),
    {
        match self {
            McpTool::WebSearch => "web_search",
            McpTool::UnderstandImage => "understand_image",
        }
    }
}

/// `s` without its trailing slashes, as `trim_end_matches('/')` gives it.
pub open spec fn trim_end_slashes(s: Seq<char>) -> Seq<char>
    decreases s.len(),
{
    if s.len() > 0 && s.last() == '/' {
        trim_end_slashes(s.drop_last())
    } else {
        s
    }
}

/// The tool-call endpoint under a base URL.
pub open spec fn tool_call_url(base_url: Seq<char>) -> Seq<char> {
    trim_end_slashes(base_url) + "/mcp/tools/call"@
}

/// Trailing slashes of the base URL do not change the tool-call URL.
pub proof fn law_trailing_slash_ignored(base_url: Seq<char>)
    ensures
        tool_call_url(base_url.push('/')) == tool_call_url(base_url),
{
    assert(base_url.push('/').drop_last() =~= base_url);
}

/// A character that a header value may hold: from the `http` crate's
/// `is_valid` on the bytes of its UTF-8 encoding (every byte of a non-ASCII
/// character is at least 128).
pub open spec fn header_char_ok(c: char) -> bool {
    ((c as int) >= 32 && (c as int) != 127) || c == '\t'
}

/// Every character of `s` may stand in a header value.
pub open spec fn header_value_ok(s: Seq<char>) -> bool {
    forall|i: int| 0 <= i < s.len() ==> header_char_ok(#[trigger] s[i])
}

/// Calls `reqwest::header::HeaderValue::from_str` (the `http` crate's) and
/// keeps whether it succeeded. Per its source, it fails exactly when some
/// byte of the text is below 32 other than the tab, or is 127, and its
/// error displays as "failed to parse header value".
#[verifier::external_body]
fn check_header_value(s: &str) -> (r: Result<(), String>)
    ensures
        r is Ok <==> header_value_ok(s@),
        r matches Err(e) ==> e@ == "failed to parse header value"@,
{
    match reqwest::header::HeaderValue::from_str(s) {
        Ok(_) => Ok(()),
        Err(e) => Err(e.to_string()),
    }
}

/// The `Authorization` value for an API key, or the reason it cannot be sent.
pub open spec fn authorization_for(api_key: Seq<char>) -> Result<Seq<char>, Seq<char>> {
    let v = "Bearer "@ + api_key;
    if header_value_ok(v) {
        Ok(v)
    } else {
        Err("Invalid API key header value: "@ + "failed to parse header value"@)
    }
}

/// The body of a `web_search` call, as serde_json writes it (object keys in
/// order).
pub open spec fn web_search_body(query: Seq<char>) -> Seq<char> {
    "{\"arguments\":{\"query\":"@ + json_quoted(query) + "},\"name\":\"web_search\"}"@
}

/// The body of an `understand_image` call, as serde_json writes it (object
/// keys in order).
pub open spec fn understand_image_body(image: Seq<char>, prompt: Seq<char>) -> Seq<char> {
    "{\"arguments\":{\"image\":"@ + json_quoted(image) + ",\"prompt\":"@ + json_quoted(prompt)
        + "},\"name\":\"understand_image\"}"@
}

/// How a call of a tool endpoint ended, as the HTTP client saw it.
pub enum ToolCallOutcome {
    /// The headers could not be built; the reason, as `authorization` gives it
    HeaderError(String),
    /// The client could not be built; the client's error message
    ClientError(String),
    /// The request could not be sent; the client's error message
    RequestError(String),
    /// The endpoint answered with a status that is not a success; the status
    /// as displayed
    HttpStatus(String),
    /// The endpoint answered with success, but its body could not be read;
    /// the client's error message
    BodyError(String),
    /// The endpoint answered with success; the body
    Body(String),
}

/// The tool result for each outcome of a call of `tool`: the body's string
/// member "content" (empty when there is none) on success, else a failure
/// that says what went wrong (a body that is not JSON with the message of
/// the HTTP client's decoding error).
pub open spec fn result_of_outcome(tool: McpTool, outcome: ToolCallOutcome, r: McpToolResult) -> bool {
    let name = tool_name(tool);
    match outcome {
        ToolCallOutcome::HeaderError(e) => r.is_failure_of(name, e@),
        ToolCallOutcome::ClientError(e) => r.is_failure_of(name, "Failed to build client: "@ + e@),
        ToolCallOutcome::RequestError(e) => r.is_failure_of(name, "Request failed: "@ + e@),
        ToolCallOutcome::HttpStatus(s) => r.is_failure_of(
            name,
            "API request failed with status "@ + s@,
        ),
        ToolCallOutcome::BodyError(e) => r.is_failure_of(name, "Failed to parse response: "@ + e@),
        ToolCallOutcome::Body(b) => match json_member_text(b@, "content"@) {
            Ok(Some(c)) => r.is_success_of(name, c),
            Ok(None) => r.is_success_of(name, Seq::empty()),
            Err(_) => r.is_failure_of(
                name,
                "Failed to parse response: "@ + "error decoding response body"@,
            ),
        },
    }
}

fn concat(a: &str, b: &str) -> (r: String)
    ensures
        r@ == a@ + b@,
{
    let mut s = String::from_str(a);
    s.append(b);
    s
}

impl McpTool {
    /// The tool result of a call of this tool that ended with `outcome`.
    pub fn result_of(&self, outcome: ToolCallOutcome) -> (r: McpToolResult)
        ensures
            result_of_outcome(*self, outcome, r),
    {
        let name = self.name();
        match outcome {
            ToolCallOutcome::HeaderError(e) => McpToolResult::failure(name, e),
            ToolCallOutcome::ClientError(e) => McpToolResult::failure(
                name,
                concat("Failed to build client: ", e.as_str()),
            ),
            ToolCallOutcome::RequestError(e) => McpToolResult::failure(
                name,
                concat("Request failed: ", e.as_str()),
            ),
            ToolCallOutcome::HttpStatus(s) => McpToolResult::failure(
                name,
                concat("API request failed with status ", s.as_str()),
            ),
            ToolCallOutcome::BodyError(e) => McpToolResult::failure(
                name,
                concat("Failed to parse response: ", e.as_str()),
            ),
            ToolCallOutcome::Body(b) => match json_member(b.as_str(), "content") {
                Ok(Some(c)) => McpToolResult::success(name, c),
                Ok(None) => McpToolResult::success(name, String::new()),
                Err(_) => McpToolResult::failure(
                    name,
                    concat("Failed to parse response: ", "error decoding response body"),
                ),
            },
        }
    }
}

/// The string member of a lookup, or nothing when there is none.
pub open spec fn member_or_empty(r: Result<Option<Seq<char>>, Seq<char>>) -> Seq<char> {
    match r {
        Ok(Some(v)) => v,
        _ => Seq::empty(),
    }
}

fn member_string_or_empty(text: &str, key: &str) -> (r: String)
    ensures
        r@ == member_or_empty(json_member_text(text@, key@)),
{
    match json_member(text, key) {
        Ok(Some(v)) => v,
        _ => String::new(),
    }
}

/// A tool call requested by the model: the tool and its arguments.
pub enum McpToolRequest {
    /// Search the web for a query
    WebSearch { query: String },
    /// Analyze an image as an instruction asks
    UnderstandImage { image: String, prompt: String },
    /// A tool that is not known
    Unknown { name: String },
}

/// The request for a call of `name` whose arguments are the JSON text
/// `args`: the tool by its name, each argument the string member of that
/// name (empty when absent).
pub open spec fn request_of(name: Seq<char>, args: Seq<char>, r: McpToolRequest) -> bool {
    if name == "web_search"@ {
        r matches McpToolRequest::WebSearch { query } && query@ == member_or_empty(
            json_member_text(args, "query"@),
        )
    } else if name == "understand_image"@ {
        &&& r matches McpToolRequest::UnderstandImage { image, prompt }
        &&& image@ == member_or_empty(json_member_text(args, "image"@))
        &&& prompt@ == member_or_empty(json_member_text(args, "prompt"@))
    } else {
        r matches McpToolRequest::Unknown { name: n } && n@ == name
    }
}

/// The arguments are a JSON document.
pub open spec fn arguments_parse(args: Seq<char>) -> bool {
    json_member_text(args, "query"@) is Ok
}

impl McpToolRequest {
    /// The request to execute tool `tool_name` with the JSON `arguments`;
    /// `None` when the arguments are not JSON.
    pub fn from_call(tool_name: &str, arguments: &str) -> (r: Option<Self>)
        ensures
            arguments_parse(arguments@) ==> (r matches Some(req) && request_of(
                tool_name@,
                arguments@,
                req,
            )),
            !arguments_parse(arguments@) ==> r is None,
    {
        let query = match json_member(arguments, "query") {
            Ok(Some(q)) => q,
            Ok(None) => String::new(),
            Err(_) => {
                return None;
            },
        };
        if same_text(tool_name, "web_search") {
            Some(McpToolRequest::WebSearch { query })
        } else if same_text(tool_name, "understand_image") {
            let image = member_string_or_empty(arguments, "image");
            let prompt = member_string_or_empty(arguments, "prompt");
            Some(McpToolRequest::UnderstandImage { image, prompt })
        } else {
            Some(McpToolRequest::Unknown { name: String::from_str(tool_name) })
        }
    }
}

impl McpToolResult {
    /// The result of a call of a tool that is not known.
    pub fn unknown_tool(tool_name: &str) -> (r: Self)
        ensures
            r.is_failure_of(tool_name@, "Unknown tool: "@ + tool_name@),
    {
        McpToolResult::failure(tool_name, concat("Unknown tool: ", tool_name))
    }
}

/// Client for executing MCP tools on MiniMax API
pub struct MiniMaxMcpClient {
    api_key: String,
    base_url: String,
}

impl MiniMaxMcpClient {
    /// The API key the client sends.
    pub closed spec fn spec_api_key(&self) -> Seq<char> {
        self.api_key@
    }

    /// The base URL of the API.
    pub closed spec fn spec_base_url(&self) -> Seq<char> {
        self.base_url@
    }

    /// Creates a new MiniMax MCP client
    pub fn new(api_key: String) -> (r: Self)
        ensures
            r.spec_api_key() == api_key@,
            r.spec_base_url() == "https://api.minimax.chat/v1"@,
    {
        MiniMaxMcpClient { api_key, base_url: String::from_str("https://api.minimax.chat/v1") }
    }

    /// Creates a new MiniMax MCP client with custom base URL
    pub fn with_base_url(api_key: String, base_url: String) -> (r: Self)
        ensures
            r.spec_api_key() == api_key@,
            r.spec_base_url() == base_url@,
    {
        MiniMaxMcpClient { api_key, base_url }
    }

    /// The API key the client sends.
    pub fn api_key(&self) -> (r: &str)
        ensures
            r@ == self.spec_api_key(),
    {
        self.api_key.as_str()
    }

    /// The base URL of the API.
    pub fn base_url(&self) -> (r: &str)
        ensures
            r@ == self.spec_base_url(),
    {
        self.base_url.as_str()
    }

    /// The URL to which tool calls are posted: the base URL without trailing
    /// slashes, then "/mcp/tools/call".
    pub fn tool_call_url(&self) -> (r: String)
        ensures
            r@ == tool_call_url(self.spec_base_url()),
    {
        let v = chars_of(self.base_url.as_str());
        let mut n = v.len();
        assert(v@.take(n as int) =~= v@);
        while n > 0 && v[n - 1] == '/'
            invariant
                n <= v@.len(),
                trim_end_slashes(v@) == trim_end_slashes(v@.take(n as int)),
            decreases n,
        {
            let ghost t = v@.take(n as int);
            assert(t.drop_last() =~= v@.take(n - 1));
            n = n - 1;
        }
        let mut head: Vec<char> = Vec::new();
        let mut i: usize = 0;
        while i < n
            invariant
                n <= v@.len(),
                i <= n,
                head@ == v@.take(i as int),
            decreases n - i,
        {
            head.push(v[i]);
            assert(v@.take(i + 1) =~= v@.take(i as int).push(v@[i as int]));
            i = i + 1;
        }
        assert(trim_end_slashes(v@.take(n as int)) == v@.take(n as int));
        let mut s = string_of(&head);
        s.append("/mcp/tools/call");
        s
    }

    /// The `Authorization` header value ("Bearer " and the API key), or the
    /// reason the API key cannot be sent in a header.
    pub fn authorization(&self) -> (r: Result<String, String>)
        ensures
            match r {
                Ok(v) => authorization_for(self.spec_api_key()) == Ok::<Seq<char>, Seq<char>>(v@),
                Err(e) => authorization_for(self.spec_api_key()) == Err::<Seq<char>, Seq<char>>(e@),
            },
    {
        let value = concat("Bearer ", self.api_key.as_str());
        match check_header_value(value.as_str()) {
            Ok(()) => Ok(value),
            Err(e) => Err(concat("Invalid API key header value: ", e.as_str())),
        }
    }

    /// The JSON body that calls `web_search` with a query.
    pub fn web_search_request(&self, query: &str) -> (r: String)
        ensures
            r@ == web_search_body(query@),
    {
        let mut s = String::from_str("{\"arguments\":{\"query\":");
        s.append(json_string(query).as_str());
        s.append("},\"name\":\"web_search\"}");
        s
    }

    /// The JSON body that calls `understand_image` with an image and an
    /// instruction.
    pub fn understand_image_request(&self, image_data: &str, instruction: &str) -> (r: String)
        ensures
            r@ == understand_image_body(image_data@, instruction@),
    {
        let mut s = String::from_str("{\"arguments\":{\"image\":");
        s.append(json_string(image_data).as_str());
        s.append(",\"prompt\":");
        s.append(json_string(instruction).as_str());
        s.append("},\"name\":\"understand_image\"}");
        s
    }
}

} // verus!
