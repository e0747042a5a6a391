# post_processing

Post-processing of speech transcripts for a speech-to-text application,
written in Verus.

The library (`src/`) decides what happens to a transcript: it classifies the
user's selection, detects the intent of the transcript, builds the prompts
and the payload of runtime variables, sanitizes plain transcriptions, frames
the MCP tool calls of MiniMax (`web_search`, `understand_image`) and turns
the replies of the tool endpoint and of chat completions into results. Every
function states its result in its contract, and the properties the pipeline
keeps (intent priorities, what a sanitized transcript always satisfies, when
the MCP tools are used, how a tool-call reply is read) are proved as laws.

- `text`: character-sequence operations (trim, search, replacement) over the
  `Seq<char>` view of strings
- `selection_resolver`: selection kinds and how captured content resolves
- `intent_router`: keyword lists and the intent rules in priority order
- `prompt_builder`: the system prompt, the payload and variable injection
- `sanitize`: transcript sanitizing and its laws
- `json`: JSON string literals and string members through serde_json
- `mcp_tools`: tool results, the MiniMax client's requests and replies
- `settings`: the settings the pipeline reads
- `post_processor`: the plan of a transcript and the step after each reply

`app/` performs the HTTP requests with reqwest, holds the serde forms of the
library's types and runs the pipeline against the host application's
chat-completion client.
