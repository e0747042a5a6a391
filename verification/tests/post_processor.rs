use post_processing::intent_router::Intent;
use post_processing::mcp_tools::{McpToolRequest, McpToolResult};
use post_processing::post_processor::{
    completion_text, minimax_provider, McpStep, PostProcessor, Route, MINIMAX_DEFAULT_MODEL,
    MINIMAX_MCP_MODEL,
};
use post_processing::prompt_builder::POST_PROCESSING_SYSTEM_PROMPT;
use post_processing::selection_resolver::SelectionContext;
use post_processing::settings::{AppSettings, LlmPrompt, PostProcessProvider};

#[test]
fn test_minimax_model_constant() {
    assert_eq!(MINIMAX_MCP_MODEL, "minimax-m2.7");
}

fn provider(id: &str, base_url: &str) -> PostProcessProvider {
    PostProcessProvider {
        id: id.to_string(),
        label: id.to_uppercase(),
        base_url: base_url.to_string(),
        allow_base_url_edit: true,
        models_endpoint: None,
        supports_structured_output: false,
    }
}

fn settings(chosen: &str, model: &str) -> AppSettings {
    AppSettings {
        post_process_provider_id: chosen.to_string(),
        post_process_providers: vec![
            provider("openai", "https://api.openai.com/v1"),
            provider("minimax", "https://mm.example/v1/"),
        ],
        post_process_api_keys: vec![
            ("openai".to_string(), "sk-o".to_string()),
            ("minimax".to_string(), "sk-m".to_string()),
        ],
        post_process_models: vec![
            ("openai".to_string(), "gpt".to_string()),
            ("minimax".to_string(), model.to_string()),
        ],
        post_process_prompts: vec![LlmPrompt {
            id: "p1".to_string(),
            name: "Clean".to_string(),
            prompt: "Clean: ${output}".to_string(),
        }],
        post_process_selected_prompt_id: None,
        custom_instructions: Some("Be brief".to_string()),
    }
}

#[test]
fn minimax_gets_a_client() {
    let p = PostProcessor::new(settings("minimax", MINIMAX_DEFAULT_MODEL));
    let c = p.mcp_client().expect("client");
    assert_eq!(c.api_key(), "sk-m");
    assert_eq!(c.base_url(), "https://mm.example/v1/");
    assert_eq!(c.tool_call_url(), "https://mm.example/v1/mcp/tools/call");
    let q = PostProcessor::new(settings("openai", "m"));
    assert!(q.mcp_client().is_none());
}

#[test]
fn minimax_without_provider_uses_default_url() {
    let mut s = settings("minimax", "m");
    s.post_process_providers.clear();
    s.post_process_api_keys.clear();
    let p = PostProcessor::new(s);
    let c = p.mcp_client().expect("client");
    assert_eq!(c.base_url(), "https://api.minimax.chat/v1");
    assert_eq!(c.api_key(), "");
}

#[test]
fn plans() {
    let p = PostProcessor::new(settings("minimax", "minimax-m2.7"));
    let img = SelectionContext::image("data:i".to_string());
    let plan = p.plan("What is this picture", &img).expect("plan");
    assert_eq!(plan.intent, Intent::ImageAnalysis);
    assert_eq!(plan.route, Route::McpImageAnalysis);
    assert_eq!(plan.model, "minimax-m2.7");
    assert_eq!(plan.api_key, "sk-m");
    assert_eq!(plan.provider.id, "minimax");
    assert_eq!(plan.payload.user_custom_prompt, "Be brief");
    let web = p.plan("what is the weather", &SelectionContext::none()).expect("plan");
    assert_eq!(web.route, Route::McpWebSearch);
    let plain = p.plan("hello there", &SelectionContext::none()).expect("plan");
    assert_eq!(plain.route, Route::Llm);
    assert_eq!(plain.intent, Intent::PlainTranscription);

    let o = PostProcessor::new(settings("openai", "x"));
    let web = o.plan("what is the weather", &SelectionContext::none()).expect("plan");
    assert_eq!(web.intent, Intent::WebAssistedAnswering);
    assert_eq!(web.route, Route::Llm);
    assert_eq!(web.api_key, "sk-o");

    let blank = PostProcessor::new(settings("minimax", "   "));
    assert!(blank.plan("hello", &SelectionContext::none()).is_none());
    let unknown = PostProcessor::new(settings("mistral", "m"));
    assert!(unknown.plan("hello", &SelectionContext::none()).is_none());
}

#[test]
fn user_content_uses_selected_prompt() {
    let mut s = settings("openai", "gpt");
    s.post_process_selected_prompt_id = Some("p1".to_string());
    let p = PostProcessor::new(s);
    let plan = p.plan("hi all", &SelectionContext::none()).expect("plan");
    assert_eq!(p.llm_user_content(&plan.payload), "Clean: hi all");
    let mut s2 = settings("openai", "gpt");
    s2.post_process_selected_prompt_id = Some("missing".to_string());
    let p2 = PostProcessor::new(s2);
    let plan2 = p2.plan("hi", &SelectionContext::none()).expect("plan");
    assert_eq!(p2.llm_user_content(&plan2.payload), POST_PROCESSING_SYSTEM_PROMPT.replace("${output}", "hi").replace("${user_custom_prompt}", "Be brief").replace("${selected_text}", "").replace("${selected_image}", "").replace("${selection}", ""));
}

#[test]
fn steps_after_completion() {
    match PostProcessor::after_mcp_completion(Route::McpWebSearch, Ok("[TOOL_CALL:web_search:{\"query\":\"x\"}]".to_string())) {
        McpStep::ToolCall(info) => {
            assert_eq!(info, "web_search:{\"query\":\"x\"}]");
            match PostProcessor::parse_tool_call(&info) {
                Some(McpToolRequest::WebSearch { query }) => assert_eq!(query, "x"),
                _ => panic!("expected a web search"),
            }
        }
        _ => panic!("expected a tool call"),
    }
    match PostProcessor::after_mcp_completion(Route::McpWebSearch, Ok("Sunny".to_string())) {
        McpStep::Finish(Some(a)) => assert_eq!(a, "Sunny"),
        _ => panic!("expected an answer"),
    }
    assert!(matches!(
        PostProcessor::after_mcp_completion(Route::McpImageAnalysis, Err("down".to_string())),
        McpStep::Finish(None)
    ));
    assert!(matches!(
        PostProcessor::after_mcp_completion(Route::McpWebSearch, Err("down".to_string())),
        McpStep::FallbackToLlm
    ));
}

#[test]
fn tool_call_parsing() {
    assert!(PostProcessor::parse_tool_call("no colon here").is_none());
    assert!(PostProcessor::parse_tool_call("web_search:not json]").is_none());
    match PostProcessor::parse_tool_call("understand_image:{\"image\":\"d\",\"prompt\":\"p:q\"}]]") {
        Some(McpToolRequest::UnderstandImage { image, prompt }) => {
            assert_eq!(image, "d");
            assert_eq!(prompt, "p:q");
        }
        _ => panic!("expected an image request"),
    }
    match PostProcessor::parse_tool_call("x:{}") {
        Some(McpToolRequest::Unknown { name }) => assert_eq!(name, "x"),
        _ => panic!("expected an unknown tool"),
    }
}

#[test]
fn answers() {
    let ok = McpToolResult::success("web_search", "found".to_string());
    assert_eq!(PostProcessor::answer_after_tool(&ok, Ok("final".to_string())), Some("final".to_string()));
    assert_eq!(PostProcessor::answer_after_tool(&ok, Err("e".to_string())), Some("found".to_string()));
    let bad = McpToolResult::failure("web_search", "e".to_string());
    assert_eq!(PostProcessor::answer_after_tool(&bad, Ok("final".to_string())), None);
    assert_eq!(PostProcessor::tool_result_message(&ok), "Tool result: found");
    assert_eq!(PostProcessor::llm_answer(Ok(Some("a".to_string()))), Some("a".to_string()));
    assert_eq!(PostProcessor::llm_answer(Ok(None)), None);
    assert_eq!(PostProcessor::llm_answer(Err("e".to_string())), None);
    assert_eq!(completion_text(Ok(Some("a".to_string()))), Ok("a".to_string()));
    assert_eq!(completion_text(Ok(None)), Err("No content in response".to_string()));
    assert_eq!(completion_text(Err("x".to_string())), Err("x".to_string()));
}

#[test]
fn request_texts_and_provider() {
    let p = PostProcessor::new(settings("minimax", "m"));
    let plan = p.plan("describe it", &SelectionContext::none()).expect("plan");
    assert_eq!(
        PostProcessor::image_analysis_request(&plan.payload),
        "Please analyze this image based on the user's spoken request.\n\nUser's request: describe it"
    );
    assert_eq!(
        PostProcessor::web_search_request(&plan.payload),
        "Search the web for information related to this request and provide an answer:\n\ndescribe it"
    );
    let mp = minimax_provider("https://b");
    assert_eq!(mp.id, "minimax");
    assert_eq!(mp.label, "MiniMax");
    assert_eq!(mp.base_url, "https://b");
    assert!(!mp.allow_base_url_edit);
    assert!(mp.supports_structured_output);
    assert!(mp.models_endpoint.is_none());
}
