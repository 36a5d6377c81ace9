//! Summarise the visible text of a web page: validate the target address,
//! bound the extracted page text to a token budget, build the two-message
//! prompt for a chat-completion service and map every stage's outcome to the
//! reply sent back to the caller.
pub mod address;
pub mod chat;
pub mod document;
pub mod pipeline;
pub mod render;
pub mod text;

pub use address::{classify_url, validate_url, InvalidUrl, TargetUrl, UrlParts};
pub use text::{bound, MAX_TOKENS};
pub use chat::{
    bearer_header, chat_request, first_choice, prompt_pair, summary_messages, summary_of,
    summary_prompt, ChatRequest, ChatResponse, Choice, Message, MODEL, SUMMARY_MAX_TOKENS,
    SYSTEM_PROMPT, USER_PROMPT_HEAD, USER_PROMPT_TAIL,
};
pub use document::{document_text, ExtractError};
pub use render::{render_plan, RenderPlan};
pub use pipeline::{after_document, after_summary, begin, empty_as_none, PipelineError, Step};
