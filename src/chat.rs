//! The chat-completion side: prompt messages, request parameters, and what is
//! taken from the service's answer.
use vstd::prelude::*;
use crate::text::{bound, bounded, MAX_TOKENS};

verus! {

/// The fixed system instruction of a summary request.
pub const SYSTEM_PROMPT: &'static str = "You're a news reporter AI.";

/// The text of the user instruction before the bounded page text.
pub const USER_PROMPT_HEAD: &'static str = "Given the news body text: ";

/// The text of the user instruction after the bounded page text.
pub const USER_PROMPT_TAIL: &'static str = ", which may include some irrelevant information, identify the key arguments and the article's conclusion. From these important elements, construct a succinct summary that encapsulates its news value, disregarding any unnecessary details.";

/// The model that summaries are asked of.
pub const MODEL: &'static str = "gpt-3.5-turbo";

/// The answer length asked for a summary.
pub const SUMMARY_MAX_TOKENS: u16 = 512;

/// A role-tagged chat message.
pub struct Message {
    pub role: String,
    pub content: String,
}

/// One candidate answer of the service.
pub struct Choice {
    pub index: u32,
    pub message: Message,
    pub finish_reason: String,
}

/// The service's answer to a completion request.
pub struct ChatResponse {
    pub id: String,
    pub choices: Vec<Choice>,
}

/// The parameters of a completion request. Sampling temperature is in tenths.
pub struct ChatRequest {
    pub model: String,
    pub messages: Vec<Message>,
    pub temperature_tenths: u32,
    pub top_p: u32,
    pub n: u32,
    pub stream: bool,
    pub max_tokens: u16,
    pub presence_penalty: u32,
    pub frequency_penalty: u32,
    pub stop: String,
}

/// The user instruction that embeds `body`.
pub open spec fn user_prompt_of(body: Seq<char>) -> Seq<char> {
    USER_PROMPT_HEAD@ + body + USER_PROMPT_TAIL@
}

/// Whether `m` is the message with this role and content.
pub open spec fn is_message(m: Message, role: Seq<char>, content: Seq<char>) -> bool {
    m.role@ == role && m.content@ == content
}

/// Whether `ms` is the system message `sys` followed by the user message `user`.
pub open spec fn is_prompt_pair(ms: Seq<Message>, sys: Seq<char>, user: Seq<char>) -> bool {
    &&& ms.len() == 2
    &&& is_message(ms[0], "system"@, sys)
    &&& is_message(ms[1], "user"@, user)
}

/// The two messages of a request: the system instruction first, then the user's.
pub fn prompt_pair(sys_prompt: &str, u_prompt: &str) -> (r: Vec<Message>)
    ensures
        is_prompt_pair(r@, sys_prompt@, u_prompt@),
{
    let mut r: Vec<Message> = Vec::new();
    r.push(Message { role: String::from_str("system"), content: String::from_str(sys_prompt) });
    r.push(Message { role: String::from_str("user"), content: String::from_str(u_prompt) });
    r
}

/// The user instruction asking for a summary of `news_body`.
pub fn summary_prompt(news_body: &str) -> (r: String)
    ensures
        r@ == user_prompt_of(news_body@),
{
    let mut r = String::from_str(USER_PROMPT_HEAD);
    r.append(news_body);
    r.append(USER_PROMPT_TAIL);
    r
}

/// The messages of a summary request for extracted page text: the text is
/// bounded to the token budget before it is embedded, so the unbounded text
/// never reaches the request.
pub fn summary_messages(page_text: &str) -> (r: Vec<Message>)
    ensures
        is_prompt_pair(r@, SYSTEM_PROMPT@, user_prompt_of(bounded(page_text@, MAX_TOKENS as nat))),
{
    let news_body = bound(page_text, MAX_TOKENS);
    let user = summary_prompt(news_body.as_str());
    prompt_pair(SYSTEM_PROMPT, user.as_str())
}

/// The request for `messages`, with the service's fixed sampling parameters
/// and a newline stop sequence.
pub fn chat_request(messages: Vec<Message>, m_token: u16) -> (r: ChatRequest)
    ensures
        r.model@ == MODEL@,
        r.messages@ == messages@,
        r.temperature_tenths == 7,
        r.top_p == 1,
        r.n == 1,
        !r.stream,
        r.max_tokens == m_token,
        r.presence_penalty == 0,
        r.frequency_penalty == 0,
        r.stop@ == "\n"@,
{
    ChatRequest {
        model: String::from_str(MODEL),
        messages,
        temperature_tenths: 7,
        top_p: 1,
        n: 1,
        stream: false,
        max_tokens: m_token,
        presence_penalty: 0,
        frequency_penalty: 0,
        stop: String::from_str("\n"),
    }
}

/// The value of the authorisation header for an API token.
pub fn bearer_header(api_token: &str) -> (r: String)
    ensures
        r@ == "Bearer "@ + api_token@,
{
    let mut r = String::from_str("Bearer ");
    r.append(api_token);
    r
}

/// The content and finish reason of the first choice; `None` when the
/// answer holds no choice.
pub fn first_choice(resp: &ChatResponse) -> (r: Option<(String, String)>)
    ensures
        r is None <==> resp.choices@.len() == 0,
        r matches Some((content, reason)) ==> content@ == resp.choices@[0].message.content@
            && reason@ == resp.choices@[0].finish_reason@,
{
    if resp.choices.len() == 0 {
        None
    } else {
        let c = &resp.choices[0];
        Some((c.message.content.clone(), c.finish_reason.clone()))
    }
}

/// The summary carried by an answer: the first choice's content, if any.
pub fn summary_of(resp: &ChatResponse) -> (r: Option<String>)
    ensures
        r is None <==> resp.choices@.len() == 0,
        r matches Some(s) ==> s@ == resp.choices@[0].message.content@,
{
    match first_choice(resp) {
        Some((content, _reason)) => Some(content),
        None => None,
    }
}

} // verus!
