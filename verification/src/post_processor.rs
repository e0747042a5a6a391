//! The decisions of the post-processing pipeline.
//!
//! The pipeline detects the intent of a transcript, picks the provider, the
//! model and the route (an MCP-enabled completion with a tool, or a plain
//! completion with a prompt template), and turns the completions' replies
//! into the final text. The requests themselves are sent outside the
//! library; each step here takes what came back and says what comes next.

use vstd::prelude::*;

use crate::intent_router::{intent_of, Intent, IntentRouter};
use crate::mcp_tools::{arguments_parse, request_of, McpToolRequest, McpToolResult, MiniMaxMcpClient};
use crate::prompt_builder::{
    string_or_empty, text_or_empty, user_content, PostProcessingPayload, PromptBuilder,
    POST_PROCESSING_SYSTEM_PROMPT,
};
use crate::selection_resolver::SelectionContext;
use crate::settings::{provider_with_id, prompt_with_id, AppSettings, PostProcessProvider};
use crate::text::{chars_of, is_blank, is_blank_str, lowercase, same_text, starts_with, string_of};

verus! {

/// The MiniMax model that supports MCP tools
pub const MINIMAX_MCP_MODEL: &'static str = "minimax-m2.7";

/// Default MiniMax model
pub const MINIMAX_DEFAULT_MODEL: &'static str = "minimax-m2.7";

/// The characters of an optional text, or nothing when it is absent.
pub open spec fn or_empty(o: Option<Seq<char>>) -> Seq<char> {
    match o {
        Some(s) => s,
        None => Seq::empty(),
    }
}

/// The MCP client that suits the settings: one exists when the chosen
/// provider is "minimax"; it sends the API key stored for "minimax" (empty
/// when none is) to the base URL of the first provider "minimax" (the
/// MiniMax API when there is none).
pub open spec fn client_for(c: Option<MiniMaxMcpClient>, s: AppSettings) -> bool {
    if s.post_process_provider_id@ == "minimax"@ {
        &&& c matches Some(client)
        &&& client.spec_api_key() == or_empty(s.spec_api_key("minimax"@))
        &&& client.spec_base_url() == match provider_with_id(
            s.post_process_providers@,
            "minimax"@,
        ) {
            Some(p) => p.base_url@,
            None => "https://api.minimax.chat/v1"@,
        }
    } else {
        c is None
    }
}

/// The processor has an MCP client exactly when the chosen provider is
/// "minimax".
pub proof fn law_client_iff_minimax(c: Option<MiniMaxMcpClient>, s: AppSettings)
    requires
        client_for(c, s),
    ensures
        c is Some <==> s.post_process_provider_id@ == "minimax"@,
{
}

/// How a transcript is processed.
#[derive(Debug, Clone, Copy, PartialEq, Eq, Structural)]
pub enum Route {
    /// An MCP-enabled completion that may call `understand_image`
    McpImageAnalysis,
    /// An MCP-enabled completion that may call `web_search`
    McpWebSearch,
    /// A completion of the prompt template with the runtime variables
    Llm,
}

/// The route for an intent: the MCP tools serve image analysis and
/// web-assisted answering when the provider is "minimax" and an MCP client
/// exists; everything else goes through a plain completion.
pub open spec fn route_for(intent: Intent, provider_id: Seq<char>, has_client: bool) -> Route {
    if provider_id == "minimax"@ && has_client {
        match intent {
            Intent::ImageAnalysis => Route::McpImageAnalysis,
            Intent::WebAssistedAnswering => Route::McpWebSearch,
            _ => Route::Llm,
        }
    } else {
        Route::Llm
    }
}

/// The MCP tools serve only image analysis and web-assisted answering, only
/// for the provider "minimax" and only with an MCP client; text
/// transformation, text generation and plain transcription always go through
/// a plain completion.
pub proof fn law_mcp_routes(intent: Intent, provider_id: Seq<char>, has_client: bool)
    ensures
        route_for(intent, provider_id, has_client) == Route::McpImageAnalysis <==> (intent
            == Intent::ImageAnalysis && provider_id == "minimax"@ && has_client),
        route_for(intent, provider_id, has_client) == Route::McpWebSearch <==> (intent
            == Intent::WebAssistedAnswering && provider_id == "minimax"@ && has_client),
{
}

/// What processing a transcript takes.
pub struct ProcessPlan {
    /// The runtime variables
    pub payload: PostProcessingPayload,
    /// The detected intent
    pub intent: Intent,
    /// The chosen provider
    pub provider: PostProcessProvider,
    /// The model of the provider
    pub model: String,
    /// The API key of the provider
    pub api_key: String,
    /// How the transcript is processed
    pub route: Route,
}

/// What follows an MCP-enabled completion.
pub enum McpStep {
    /// Processing ends with this answer
    Finish(Option<String>),
    /// The model asked for a tool call, described by this text
    ToolCall(String),
    /// Processing continues with a plain completion
    FallbackToLlm,
}

/// The step after an MCP-enabled completion on `route` that replied `reply`:
/// a reply that starts with "[TOOL_CALL:" asks for the tool call that the
/// rest of it describes; any other reply is the answer. A failed completion
/// ends image analysis without an answer and makes web-assisted answering
/// fall back to a plain completion.
pub open spec fn step_after(route: Route, reply: Result<String, String>, r: McpStep) -> bool {
    match reply {
        Ok(s) => if starts_with(s@, "[TOOL_CALL:"@) {
            r matches McpStep::ToolCall(info) && info@ == s@.skip(11)
        } else {
            r matches McpStep::Finish(Some(a)) && a@ == s@
        },
        Err(_) => if route == Route::McpImageAnalysis {
            r matches McpStep::Finish(None)
        } else {
            r matches McpStep::FallbackToLlm
        },
    }
}

/// The position of the first ':' in `s`.
pub open spec fn colon_index(s: Seq<char>) -> Option<int>
    decreases s.len(),
{
    if s.len() == 0 {
        None
    } else if s[0] == ':' {
        Some(0)
    } else {
        match colon_index(s.skip(1)) {
            Some(i) => Some(i + 1),
            None => None,
        }
    }
}

/// `s` without its trailing ']' characters.
pub open spec fn trim_end_brackets(s: Seq<char>) -> Seq<char>
    decreases s.len(),
{
    if s.len() > 0 && s.last() == ']' {
        trim_end_brackets(s.drop_last())
    } else {
        s
    }
}

/// The tool call that a description "name:arguments]" asks for: the name
/// before the first ':', the JSON arguments after it without trailing ']';
/// none when there is no ':' or the arguments are not JSON.
pub open spec fn tool_call_of(info: Seq<char>, r: Option<McpToolRequest>) -> bool {
    match colon_index(info) {
        None => r is None,
        Some(k) => {
            let name = info.take(k);
            let args = trim_end_brackets(info.skip(k + 1));
            if arguments_parse(args) {
                r matches Some(req) && request_of(name, args, req)
            } else {
                r is None
            }
        },
    }
}

/// The template of the selected prompt, or the system prompt when no prompt
/// is selected or none has the selected id.
pub open spec fn prompt_template(s: AppSettings) -> Seq<char> {
    match s.post_process_selected_prompt_id {
        Some(id) => match prompt_with_id(s.post_process_prompts@, id@) {
            Some(p) => p,
            None => POST_PROCESSING_SYSTEM_PROMPT@,
        },
        None => POST_PROCESSING_SYSTEM_PROMPT@,
    }
}

proof fn lemma_prompt_with_id(ps: Seq<crate::settings::LlmPrompt>, id: Seq<char>, k: int)
    requires
        0 <= k < ps.len(),
        ps[k].id@ == id,
        forall|j: int| 0 <= j < k ==> ps[j].id@ != id,
    ensures
        prompt_with_id(ps, id) == Some(ps[k].prompt@),
    decreases k,
{
    if k > 0 {
        let t = ps.skip(1);
        assert forall|j: int| 0 <= j < k - 1 implies t[j].id@ != id by {
            assert(t[j] == ps[j + 1]);
        }
        lemma_prompt_with_id(t, id, k - 1);
    }
}

proof fn lemma_prompt_with_id_none(ps: Seq<crate::settings::LlmPrompt>, id: Seq<char>)
    requires
        forall|j: int| 0 <= j < ps.len() ==> ps[j].id@ != id,
    ensures
        prompt_with_id(ps, id) is None,
    decreases ps.len(),
{
    if ps.len() > 0 {
        let t = ps.skip(1);
        assert forall|j: int| 0 <= j < t.len() implies t[j].id@ != id by {
            assert(t[j] == ps[j + 1]);
        }
        lemma_prompt_with_id_none(t, id);
    }
}

/// Which template a plain completion fills: the built-in system prompt when
/// no prompt is selected or no prompt has the selected id; otherwise the
/// first prompt whose id is the selected id.
pub proof fn law_prompt_template_choice(s: AppSettings, k: int)
    ensures
        s.post_process_selected_prompt_id is None ==> prompt_template(s)
            == POST_PROCESSING_SYSTEM_PROMPT@,
        (s.post_process_selected_prompt_id matches Some(id) && forall|j: int|
            0 <= j < s.post_process_prompts@.len() ==> s.post_process_prompts@[j].id@ != id@)
            ==> prompt_template(s) == POST_PROCESSING_SYSTEM_PROMPT@,
        (s.post_process_selected_prompt_id matches Some(id) && 0 <= k
            < s.post_process_prompts@.len() && s.post_process_prompts@[k].id@ == id@ && forall|
            j: int,
        | 0 <= j < k ==> s.post_process_prompts@[j].id@ != id@) ==> prompt_template(s)
            == s.post_process_prompts@[k].prompt@,
{
    if let Some(id) = s.post_process_selected_prompt_id {
        let ps = s.post_process_prompts@;
        if forall|j: int| 0 <= j < ps.len() ==> ps[j].id@ != id@ {
            lemma_prompt_with_id_none(ps, id@);
        }
        if 0 <= k < ps.len() && ps[k].id@ == id@ && forall|j: int| 0 <= j < k ==> ps[j].id@ != id@ {
            lemma_prompt_with_id(ps, id@, k);
        }
    }
}

proof fn lemma_colon_index(s: Seq<char>)
    ensures
        match colon_index(s) {
            Some(k) => 0 <= k < s.len() && s[k] == ':' && forall|j: int| 0 <= j < k ==> s[j] != ':',
            None => forall|j: int| 0 <= j < s.len() ==> s[j] != ':',
        },
    decreases s.len(),
{
    if s.len() > 0 && s[0] != ':' {
        let t = s.skip(1);
        lemma_colon_index(t);
        match colon_index(t) {
            Some(k) => {
                assert forall|j: int| 0 <= j < k + 1 implies s[j] != ':' by {
                    if j > 0 {
                        assert(s[j] == t[j - 1]);
                    }
                }
            },
            None => {
                assert forall|j: int| 0 <= j < s.len() implies s[j] != ':' by {
                    if j > 0 {
                        assert(s[j] == t[j - 1]);
                    }
                }
            },
        }
    }
}

proof fn lemma_colon_index_unique(s: Seq<char>, k: int)
    requires
        0 <= k < s.len(),
        s[k] == ':',
        forall|j: int| 0 <= j < k ==> s[j] != ':',
    ensures
        colon_index(s) == Some(k),
{
    lemma_colon_index(s);
}

/// A reply that asks for `web_search` with JSON arguments becomes a web
/// search for the arguments' query, provided the arguments do not end with
/// ']' (trailing ']' are stripped from the arguments).
pub proof fn law_web_search_tool_call(
    route: Route,
    reply: String,
    args: Seq<char>,
    step: McpStep,
    request: Option<McpToolRequest>,
)
    requires
        reply@ == "[TOOL_CALL:web_search:"@ + args + "]"@,
        arguments_parse(args),
        !(args.len() > 0 && args.last() == ']'),
        step_after(route, Ok(reply), step),
    ensures
        step matches McpStep::ToolCall(info) && (tool_call_of(info@, request) ==> (request matches Some(
            McpToolRequest::WebSearch { query },
        ) && query@ == crate::mcp_tools::member_or_empty(
            crate::json::json_member_text(args, "query"@),
        ))),
{
    reveal_strlit("[TOOL_CALL:web_search:");
    reveal_strlit("[TOOL_CALL:");
    reveal_strlit("web_search");
    reveal_strlit("]");
    let s = reply@;
    assert(s.subrange(0, 11) =~= "[TOOL_CALL:"@);
    assert(starts_with(s, "[TOOL_CALL:"@));
    let info = s.skip(11);
    reveal_strlit("web_search:");
    assert(info =~= "web_search:"@ + args + "]"@);
    assert(info[10] == ':');
    assert forall|j: int| 0 <= j < 10 implies info[j] != ':' by {
        assert(info[j] == "web_search"@[j]);
    }
    lemma_colon_index_unique(info, 10);
    assert(info.take(10) =~= "web_search"@);
    let rest = info.skip(11);
    assert(rest =~= args.push(']'));
    assert(rest.drop_last() =~= args);
    assert(trim_end_brackets(rest) == trim_end_brackets(args));
    assert(trim_end_brackets(args) == args);
}

/// Main post-processor that orchestrates the pipeline
pub struct PostProcessor {
    settings: AppSettings,
    mcp_client: Option<MiniMaxMcpClient>,
}

impl PostProcessor {
    /// The settings the processor reads.
    pub closed spec fn spec_settings(&self) -> AppSettings {
        self.settings
    }

    /// The processor's MCP client, if it has one.
    pub closed spec fn spec_mcp_client(&self) -> Option<MiniMaxMcpClient> {
        self.mcp_client
    }

    /// Creates a new PostProcessor with the given settings
    pub fn new(settings: AppSettings) -> (r: Self)
        ensures
            r.spec_settings() == settings,
            client_for(r.spec_mcp_client(), settings),
    {
        let mcp_client = if same_text(settings.post_process_provider_id.as_str(), "minimax") {
            let api_key = match settings.api_key_for("minimax") {
                Some(k) => k,
                None => String::new(),
            };
            let base_url = match settings.provider_position("minimax") {
                Some(i) => settings.post_process_providers[i].base_url.clone(),
                None => String::from_str("https://api.minimax.chat/v1"),
            };
            Some(MiniMaxMcpClient::with_base_url(api_key, base_url))
        } else {
            None
        };
        PostProcessor { settings, mcp_client }
    }

    /// The settings the processor reads.
    pub fn settings(&self) -> (r: &AppSettings)
        ensures
            *r == self.spec_settings(),
    {
        &self.settings
    }

    /// The processor's MCP client, if it has one.
    pub fn mcp_client(&self) -> (r: Option<&MiniMaxMcpClient>)
        ensures
            match r {
                Some(c) => self.spec_mcp_client() == Some(*c),
                None => self.spec_mcp_client() is None,
            },
    {
        match &self.mcp_client {
            Some(c) => Some(c),
            None => None,
        }
    }

    /// The model configured for a provider (empty when none is).
    pub fn model_for_provider(&self, provider: &PostProcessProvider) -> (r: String)
        ensures
            r@ == or_empty(self.spec_settings().spec_model(provider.id@)),
    {
        match self.settings.model_for(provider.id.as_str()) {
            Some(m) => m,
            None => String::new(),
        }
    }

    /// What processing a transcription with a selection takes: `None` when
    /// no known provider has the chosen id or its model is blank.
    pub fn plan(&self, transcription: &str, selection: &SelectionContext) -> (r: Option<
        ProcessPlan,
    >)
        ensures
            match self.spec_settings().spec_active_provider() {
                None => r is None,
                Some(p) => {
                    let model = or_empty(self.spec_settings().spec_model(p.id@));
                    if is_blank(model) {
                        r is None
                    } else {
                        &&& r matches Some(plan)
                        &&& plan.payload.is_payload_of(
                            transcription@,
                            *selection,
                            text_or_empty(self.spec_settings().custom_instructions),
                        )
                        &&& plan.intent == intent_of(lowercase(transcription@), *selection)
                        &&& plan.provider == p
                        &&& plan.model@ == model
                        &&& plan.api_key@ == or_empty(self.spec_settings().spec_api_key(p.id@))
                        &&& plan.route == route_for(
                            plan.intent,
                            p.id@,
                            self.spec_mcp_client() is Some,
                        )
                    }
                },
            },
    {
        let payload = PostProcessingPayload::new(
            String::from_str(transcription),
            selection,
            string_or_empty(&self.settings.custom_instructions),
        );
        let intent = IntentRouter::detect(transcription, selection);
        let provider = match self.settings.active_post_process_provider() {
            Some(p) => p,
            None => {
                return None;
            },
        };
        let model = self.model_for_provider(&provider);
        if is_blank_str(model.as_str()) {
            return None;
        }
        let api_key = match self.settings.api_key_for(provider.id.as_str()) {
            Some(k) => k,
            None => String::new(),
        };
        let mcp = same_text(provider.id.as_str(), "minimax") && self.mcp_client.is_some();
        let route = if mcp {
            match intent {
                Intent::ImageAnalysis => Route::McpImageAnalysis,
                Intent::WebAssistedAnswering => Route::McpWebSearch,
                _ => Route::Llm,
            }
        } else {
            Route::Llm
        };
        Some(ProcessPlan { payload, intent, provider, model, api_key, route })
    }

    /// The user content of a plain completion: the selected prompt template
    /// with the payload's runtime variables injected.
    pub fn llm_user_content(&self, payload: &PostProcessingPayload) -> (r: String)
        ensures
            r@ == user_content(prompt_template(self.spec_settings()), *payload),
    {
        let template = match &self.settings.post_process_selected_prompt_id {
            Some(id) => match self.settings.prompt_for(id.as_str()) {
                Some(p) => p,
                None => String::from_str(POST_PROCESSING_SYSTEM_PROMPT),
            },
            None => String::from_str(POST_PROCESSING_SYSTEM_PROMPT),
        };
        PromptBuilder::build_user_content(template.as_str(), payload)
    }

    /// The step after an MCP-enabled completion on a route.
    pub fn after_mcp_completion(route: Route, reply: Result<String, String>) -> (r: McpStep)
        ensures
            step_after(route, reply, r),
    {
        match reply {
            Ok(s) => {
                let v = chars_of(s.as_str());
                let prefix = chars_of("[TOOL_CALL:");
                proof {
                    reveal_strlit("[TOOL_CALL:");
                }
                if crate::text::starts_with_chars(&v, &prefix) {
                    let mut rest: Vec<char> = Vec::new();
                    let mut i: usize = 11;
                    while i < v.len()
                        invariant
                            11 <= i <= v@.len(),
                            rest@ == v@.subrange(11, i as int),
                        decreases v@.len() - i,
                    {
                        rest.push(v[i]);
                        assert(v@.subrange(11, i + 1) =~= v@.subrange(11, i as int).push(
                            v@[i as int],
                        ));
                        i = i + 1;
                    }
                    assert(v@.subrange(11, v@.len() as int) =~= v@.skip(11));
                    McpStep::ToolCall(string_of(&rest))
                } else {
                    McpStep::Finish(Some(s))
                }
            },
            Err(_) => {
                if route == Route::McpImageAnalysis {
                    McpStep::Finish(None)
                } else {
                    McpStep::FallbackToLlm
                }
            },
        }
    }

    /// The tool call that a tool-call description asks for.
    pub fn parse_tool_call(tool_info: &str) -> (r: Option<McpToolRequest>)
        ensures
            tool_call_of(tool_info@, r),
    {
        let v = chars_of(tool_info);
        let n = v.len();
        let mut k: usize = 0;
        while k < n && v[k] != ':'
            invariant
                k <= n == v@.len(),
                forall|j: int| 0 <= j < k ==> v@[j] != ':',
            decreases n - k,
        {
            k = k + 1;
        }
        if k == n {
            proof {
                lemma_colon_index(v@);
            }
            return None;
        }
        proof {
            lemma_colon_index_unique(v@, k as int);
        }
        let name = string_of(&crate::text::slice_chars(&v, 0, k));
        let mut end = n;
        assert(v@.subrange(k + 1, end as int) =~= v@.skip(k + 1));
        while end > k + 1 && v[end - 1] == ']'
            invariant
                k + 1 <= end <= n == v@.len(),
                trim_end_brackets(v@.skip(k + 1)) == trim_end_brackets(
                    v@.subrange(k + 1, end as int),
                ),
            decreases end,
        {
            assert(v@.subrange(k + 1, end as int).drop_last() =~= v@.subrange(
                k + 1,
                end - 1,
            ));
            end = end - 1;
        }
        let args = crate::text::slice_chars(&v, k + 1, end);
        assert(trim_end_brackets(args@) == args@);
        assert(v@.subrange(0, k as int) =~= v@.take(k as int));
        McpToolRequest::from_call(name.as_str(), string_of(&args).as_str())
    }

    /// The text of an MCP-enabled image-analysis request.
    pub fn image_analysis_request(payload: &PostProcessingPayload) -> (r: String)
        ensures
            r@ == "Please analyze this image based on the user's spoken request.\n\nUser's request: "@
                + payload.output@,
    {
        let mut s = String::from_str(
            "Please analyze this image based on the user's spoken request.\n\nUser's request: ",
        );
        s.append(payload.output.as_str());
        s
    }

    /// The text of an MCP-enabled web-search request.
    pub fn web_search_request(payload: &PostProcessingPayload) -> (r: String)
        ensures
            r@
                == "Search the web for information related to this request and provide an answer:\n\n"@
                + payload.output@,
    {
        let mut s = String::from_str(
            "Search the web for information related to this request and provide an answer:\n\n",
        );
        s.append(payload.output.as_str());
        s
    }

    /// The message that hands a tool's result back to the model.
    pub fn tool_result_message(result: &McpToolResult) -> (r: String)
        ensures
            r@ == "Tool result: "@ + result.content@,
    {
        let mut s = String::from_str("Tool result: ");
        s.append(result.content.as_str());
        s
    }

    /// The answer after a tool call: none when the tool failed; otherwise the
    /// reply of the completion that continued with the tool's result, or the
    /// tool's result itself when that completion failed.
    pub fn answer_after_tool(result: &McpToolResult, continuation: Result<String, String>) -> (r:
        Option<String>)
        ensures
            !result.success ==> r is None,
            result.success ==> match continuation {
                Ok(a) => r matches Some(x) && x@ == a@,
                Err(_) => r matches Some(x) && x@ == result.content@,
            },
    {
        if !result.success {
            return None;
        }
        match continuation {
            Ok(a) => Some(a),
            Err(_) => Some(result.content.clone()),
        }
    }

    /// The answer of a plain completion: its content when it returned one.
    pub fn llm_answer(reply: Result<Option<String>, String>) -> (r: Option<String>)
        ensures
            match reply {
                Ok(Some(a)) => r matches Some(x) && x@ == a@,
                _ => r is None,
            },
    {
        match reply {
            Ok(Some(a)) => Some(a),
            _ => None,
        }
    }
}

/// The provider record under which MCP-enabled completions are sent to
/// MiniMax at a base URL.
pub fn minimax_provider(base_url: &str) -> (r: PostProcessProvider)
    ensures
        r.id@ == "minimax"@,
        r.label@ == "MiniMax"@,
        r.base_url@ == base_url@,
        !r.allow_base_url_edit,
        r.models_endpoint is None,
        r.supports_structured_output,
{
    PostProcessProvider {
        id: String::from_str("minimax"),
        label: String::from_str("MiniMax"),
        base_url: String::from_str(base_url),
        allow_base_url_edit: false,
        models_endpoint: None,
        supports_structured_output: true,
    }
}

/// The text of an MCP-enabled completion's reply: an error when the reply
/// had no content.
pub fn completion_text(reply: Result<Option<String>, String>) -> (r: Result<String, String>)
    ensures
        match reply {
            Ok(Some(a)) => r matches Ok(x) && x@ == a@,
            Ok(None) => r matches Err(e) && e@ == "No content in response"@,
            Err(e0) => r matches Err(e) && e@ == e0@,
        },
{
    match reply {
        Ok(Some(a)) => Ok(a),
        Ok(None) => Err(String::from_str("No content in response")),
        Err(e) => Err(e),
    }
}

} // verus!
