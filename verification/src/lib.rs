//! Post-processing of speech transcripts: selection handling, intent routing,
//! prompt construction and the decisions of the post-processing pipeline.

pub mod intent_router;
pub mod json;
pub mod mcp_tools;
pub mod post_processor;
pub mod prompt_builder;
pub mod sanitize;
pub mod selection_resolver;
pub mod settings;
pub mod text;
