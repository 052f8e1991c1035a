//! A verified tool-dispatch router for a context-retrieval service.
//!
//! The library exposes one tool, `assistant_context`, over a
//! tool-invocation protocol: it validates call arguments, derives the
//! single backend HTTP request that answers the call, and maps the
//! backend's outcome (snippets, or one of a small taxonomy of failures)
//! into protocol-level content items and errors.

mod args;
mod config;
mod json;
mod pinecone;
mod router;
mod text;

pub use args::ArgValue;
pub use args::CallArguments;
pub use args::spec_lookup;
pub use args::spec_str_arg;
pub use args::spec_uint_arg;
pub use config::Config;
pub use config::default_host_text;
pub use config::default_log_level_text;
pub use json::json_quoted;
pub use pinecone::AssistantContext;
pub use pinecone::AssistantContextResponse;
pub use pinecone::BackendReply;
pub use pinecone::ContextRequestPlan;
pub use pinecone::PineconeClient;
pub use pinecone::PineconeError;
pub use pinecone::api_error_text;
pub use pinecone::context_body_text;
pub use pinecone::context_url_text;
pub use pinecone::decoded_context;
pub use pinecone::headers_ok;
pub use pinecone::json_error_text;
pub use pinecone::lemma_api_error_names_status_and_body;
pub use pinecone::lemma_not_found_names_assistant;
pub use pinecone::not_found_error_text;
pub use pinecone::not_found_resource_text;
pub use pinecone::request_error_text;
pub use router::Content;
pub use router::ContextCall;
pub use router::PineconeAssistantRouter;
pub use router::Prompt;
pub use router::PromptError;
pub use router::Resource;
pub use router::ResourceError;
pub use router::RouterError;
pub use router::ServerCapabilities;
pub use router::Tool;
pub use router::ToolError;
pub use router::dispatchable;
pub use router::instructions_text;
pub use router::lemma_advertised_tools_dispatchable;
pub use router::must_be_string_text;
pub use router::prompt_not_found_text;
pub use router::server_name_text;
pub use router::spec_top_k;
pub use router::tool_assistant_context_text;
pub use router::tool_description_text;
pub use router::tool_input_schema_text;
pub use router::tool_not_found_text;
pub use text::decimal_text;
pub use text::lemma_concat_starts_with;
pub use text::has_substring;
pub use text::lemma_concat_has_substring;
pub use text::starts_with;
pub use text::u64_to_string;
