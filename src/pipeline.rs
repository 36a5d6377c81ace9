//! The request pipeline as a sequence of decisions: validate the address,
//! render and read the document, summarise, and reply. The caller performs
//! each step's outside work and hands its outcome to the next decision.
use vstd::prelude::*;
use crate::address::{parsed_host, parsed_is_valid, url_parse_of, validate_url, TargetUrl};
use crate::chat::{is_prompt_pair, summary_messages, user_prompt_of, Message, SYSTEM_PROMPT};
use crate::document::{all_pages_read, document_text, page_views, ExtractError};
use crate::text::{bounded, join_spaced, MAX_TOKENS};

verus! {

/// The failure of one stage of the pipeline.
#[derive(Debug, Clone, Copy, PartialEq, Eq)]
pub enum PipelineError {
    /// The caller's text is not an absolute address with a host.
    InvalidUrl,
    /// The browser could not start, open a tab, load the page or print it.
    Render,
    /// The rendered document did not give its text.
    Extract(ExtractError),
    /// No summary came back from the completion service.
    Summarization,
}

/// The terse reply that the caller gets for a failure: rendering and
/// extraction failures are not told apart.
pub open spec fn reply_text(e: PipelineError) -> Seq<char> {
    match e {
        PipelineError::InvalidUrl => "parse target url failure"@,
        PipelineError::Render => "failed to get text from webpage"@,
        PipelineError::Extract(_) => "failed to get text from webpage"@,
        PipelineError::Summarization => "failed to create summary"@,
    }
}

impl PipelineError {
    /// The reply sent to the caller for this failure.
    pub fn user_message(&self) -> (r: String)
        ensures
            r@ == reply_text(*self),
    {
        match self {
            PipelineError::InvalidUrl => String::from_str("parse target url failure"),
            PipelineError::Render => String::from_str("failed to get text from webpage"),
            PipelineError::Extract(_) => String::from_str("failed to get text from webpage"),
            PipelineError::Summarization => String::from_str("failed to create summary"),
        }
    }
}

/// What the caller does next.
pub enum Step {
    /// Send this body back; the request is done.
    Reply(String),
    /// Render this address and read the text of each page of the document.
    Render(TargetUrl),
    /// Ask the completion service with these messages.
    Summarize(Vec<Message>),
}

/// The first decision: an address that fails validation is answered at once,
/// before any browser is started.
pub fn begin(url: &str) -> (r: Step)
    ensures
        parsed_is_valid(url_parse_of(url@)) ==> (r matches Step::Render(t) && t.address@ == url@
            && t.host@ == parsed_host(url_parse_of(url@))),
        !parsed_is_valid(url_parse_of(url@)) ==> (r matches Step::Reply(b) && b@ == reply_text(
            PipelineError::InvalidUrl,
        )),
        !url@.contains(':') ==> (r matches Step::Reply(b) && b@ == reply_text(
            PipelineError::InvalidUrl,
        )),
{
    match validate_url(url) {
        Ok(t) => Step::Render(t),
        Err(_) => Step::Reply(PipelineError::InvalidUrl.user_message()),
    }
}

/// The decision once the document was rendered and its pages read: a failure
/// is answered with its reply; otherwise the text of the pages, joined in page
/// order and bounded to the token budget, goes into the summary request.
pub fn after_document(pages: Result<Vec<Option<String>>, PipelineError>) -> (r: Step)
    ensures
        pages matches Err(e) ==> (r matches Step::Reply(b) && b@ == reply_text(e)),
        pages is Ok && !all_pages_read(pages->Ok_0@) ==> (r matches Step::Reply(b) && b@
            == reply_text(PipelineError::Extract(ExtractError::PageTextFailed))),
        pages is Ok && all_pages_read(pages->Ok_0@) ==> (r matches Step::Summarize(m)
            && is_prompt_pair(
            m@,
            SYSTEM_PROMPT@,
            user_prompt_of(bounded(join_spaced(page_views(pages->Ok_0@)), MAX_TOKENS as nat)),
        )),
{
    match pages {
        Err(e) => Step::Reply(e.user_message()),
        Ok(ps) => match document_text(&ps) {
            Err(e) => Step::Reply(PipelineError::Extract(e).user_message()),
            Ok(text) => Step::Summarize(summary_messages(text.as_str())),
        },
    }
}

/// The last decision: the summary itself, or the reply for a missing one.
pub fn after_summary(summary: Option<String>) -> (r: String)
    ensures
        summary is Some ==> r@ == summary->Some_0@,
        summary is None ==> r@ == reply_text(PipelineError::Summarization),
{
    match summary {
        Some(s) => s,
        None => PipelineError::Summarization.user_message(),
    }
}

/// A query value that is absent or empty counts as absent.
pub fn empty_as_none(value: Option<String>) -> (r: Option<String>)
    ensures
        value is Some && value->Some_0@.len() > 0 ==> r == value,
        value is Some && value->Some_0@.len() == 0 ==> r is None,
        value is None ==> r is None,
{
    match value {
        Some(s) => {
            if s.unicode_len() == 0 {
                None
            } else {
                Some(s)
            }
        },
        None => None,
    }
}

} // verus!
