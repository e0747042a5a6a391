use post_processing::mcp_tools::{
    McpTool, McpToolRequest, McpToolResult, MiniMaxMcpClient, ToolCallOutcome,
};

#[test]
fn test_tool_names() {
    assert_eq!(McpTool::WebSearch.name(), "web_search");
    assert_eq!(McpTool::UnderstandImage.name(), "understand_image");
}

#[test]
fn test_mcp_tool_result_success() {
    let result = McpToolResult::success("test", "content".to_string());
    assert!(result.success);
    assert_eq!(result.content, "content");
    assert!(result.error.is_none());
}

#[test]
fn test_mcp_tool_result_failure() {
    let result = McpToolResult::failure("test", "error".to_string());
    assert!(!result.success);
    assert!(result.content.is_empty());
    assert_eq!(result.error, Some("error".to_string()));
}

#[test]
fn client_urls_and_headers() {
    let c = MiniMaxMcpClient::new("key".to_string());
    assert_eq!(c.base_url(), "https://api.minimax.chat/v1");
    assert_eq!(c.api_key(), "key");
    assert_eq!(c.tool_call_url(), "https://api.minimax.chat/v1/mcp/tools/call");
    assert_eq!(c.authorization(), Ok("Bearer key".to_string()));
    let d = MiniMaxMcpClient::with_base_url("k\n".to_string(), "http://h/api///".to_string());
    assert_eq!(d.tool_call_url(), "http://h/api/mcp/tools/call");
    assert_eq!(
        d.authorization(),
        Err("Invalid API key header value: failed to parse header value".to_string())
    );
}

#[test]
fn request_bodies() {
    let c = MiniMaxMcpClient::new(String::new());
    assert_eq!(
        c.web_search_request("say \"hi\"\n"),
        "{\"arguments\":{\"query\":\"say \\\"hi\\\"\\n\"},\"name\":\"web_search\"}"
    );
    assert_eq!(
        c.understand_image_request("data:x", "what\u{1}?"),
        "{\"arguments\":{\"image\":\"data:x\",\"prompt\":\"what\\u0001?\"},\"name\":\"understand_image\"}"
    );
}

#[test]
fn outcomes_to_results() {
    let ok = McpTool::WebSearch.result_of(ToolCallOutcome::Body("{\"content\":\"sunny\"}".to_string()));
    assert!(ok.success);
    assert_eq!(ok.name, "web_search");
    assert_eq!(ok.content, "sunny");
    let no_content = McpTool::UnderstandImage.result_of(ToolCallOutcome::Body("{\"x\":1}".to_string()));
    assert!(no_content.success);
    assert_eq!(no_content.content, "");
    let bad = McpTool::WebSearch.result_of(ToolCallOutcome::Body("not json".to_string()));
    assert!(!bad.success);
    assert_eq!(bad.error, Some("Failed to parse response: error decoding response body".to_string()));
    let header = McpTool::WebSearch.result_of(ToolCallOutcome::HeaderError(
        "Invalid API key header value: failed to parse header value".to_string(),
    ));
    assert!(!header.success);
    assert_eq!(header.error, Some("Invalid API key header value: failed to parse header value".to_string()));
    let status = McpTool::WebSearch.result_of(ToolCallOutcome::HttpStatus("500 Internal Server Error".to_string()));
    assert_eq!(status.error, Some("API request failed with status 500 Internal Server Error".to_string()));
    let req = McpTool::UnderstandImage.result_of(ToolCallOutcome::RequestError("timeout".to_string()));
    assert_eq!(req.error, Some("Request failed: timeout".to_string()));
    assert_eq!(req.name, "understand_image");
    let unread = McpTool::WebSearch.result_of(ToolCallOutcome::BodyError("reset".to_string()));
    assert_eq!(unread.error, Some("Failed to parse response: reset".to_string()));
    let client = McpTool::WebSearch.result_of(ToolCallOutcome::ClientError("tls".to_string()));
    assert_eq!(client.error, Some("Failed to build client: tls".to_string()));
}

#[test]
fn tool_requests_from_calls() {
    match McpToolRequest::from_call("web_search", "{\"query\":\"rust\"}") {
        Some(McpToolRequest::WebSearch { query }) => assert_eq!(query, "rust"),
        _ => panic!("expected a web search"),
    }
    match McpToolRequest::from_call("understand_image", "{\"image\":\"i\",\"prompt\":7}") {
        Some(McpToolRequest::UnderstandImage { image, prompt }) => {
            assert_eq!(image, "i");
            assert_eq!(prompt, "");
        }
        _ => panic!("expected an image request"),
    }
    match McpToolRequest::from_call("draw", "[]") {
        Some(McpToolRequest::Unknown { name }) => assert_eq!(name, "draw"),
        _ => panic!("expected an unknown tool"),
    }
    assert!(McpToolRequest::from_call("web_search", "{oops").is_none());
    let unknown = McpToolResult::unknown_tool("draw");
    assert!(!unknown.success);
    assert_eq!(unknown.error, Some("Unknown tool: draw".to_string()));
}
