use vstd::prelude::*;

use crate::chat_history::{entry, reset_text, seeded, ChatHistory, MessageChat, Role};
use crate::config_manager::ConfigManager;

verus! {

/// Why a completion could not be used.
#[derive(Clone, Copy, Debug, PartialEq, Eq, Structural)]
pub enum ApiError {
    /// The response held no choice to take.
    NoOutput,
}

impl ApiError {
    pub fn message(&self) -> (r: String)
        ensures
            r@ == "No output found."@,
    {
        String::from_str("No output found.")
    }
}

/// What is answered to a chat command without a prompt.
pub open spec fn chat_usage_text() -> Seq<char> {
    "Prompt is empty, usage: '/chat [PROMPT HERE]'"@
}

/// What is answered to an image command without a prompt.
pub open spec fn image_usage_text() -> Seq<char> {
    "Prompt is empty, usage: '/image [PROMPT HERE]'"@
}

/// The confirmation of a reset.
pub open spec fn purge_text(prompt: Seq<char>) -> Seq<char> {
    if prompt.len() == 0 {
        "Chat history purged without a custom prompt."@
    } else {
        "Chat history purged with prompt '"@ + prompt + "'."@
    }
}

/// The decimal digit `d`, for `d < 10`.
pub open spec fn digit_char(d: nat) -> char {
    "0123456789"@[d as int]
}

/// The decimal notation of `n`, most significant digit first.
pub open spec fn decimal(n: nat) -> Seq<char>
    decreases n,
{
    if n < 10 {
        seq![digit_char(n)]
    } else {
        decimal(n / 10).push(digit_char(n % 10))
    }
}

/// What a successful connection probe reports.
pub open spec fn summary_text(model_count: nat) -> Seq<char> {
    "Connection opened with "@ + decimal(model_count) + " models found!"@
}

/// Relies on the `Display` impl of `usize` (through `ToString`), which writes
/// the number in decimal digits.
#[verifier::external_body]
fn decimal_text(n: usize) -> (r: String)
    ensures
        r@ == decimal(n as nat),
{
    n.to_string()
}

/// A chat completion request: the model and the whole log, in order.
#[derive(Debug)]
pub struct ChatRequest {
    pub model: String,
    pub messages: Vec<MessageChat>,
}

/// An image generation request.
#[derive(Debug)]
pub struct ImageRequest {
    pub prompt: String,
    pub n: u8,
    pub size: String,
}

/// An interface to the remote completion API. Building it makes no request.
pub struct OpenAiApi {
    uri: String,
    auth_header: String,
}

impl OpenAiApi {
    pub closed spec fn spec_uri(&self) -> Seq<char> {
        self.uri@
    }

    pub closed spec fn spec_auth_header(&self) -> Seq<char> {
        self.auth_header@
    }

    /// An interface to the API at `uri`, authenticated with the bearer
    /// credential `token`.
    pub fn new(uri: String, token: &str) -> (r: OpenAiApi)
        ensures
            r.spec_uri() == uri@,
            r.spec_auth_header() == "Bearer "@ + token@,
    {
        let auth_header = String::from_str("Bearer ").concat(token);
        OpenAiApi { uri, auth_header }
    }

    pub fn uri(&self) -> (r: &str)
        ensures
            r@ == self.spec_uri(),
    {
        self.uri.as_str()
    }

    pub fn auth_header(&self) -> (r: &str)
        ensures
            r@ == self.spec_auth_header(),
    {
        self.auth_header.as_str()
    }

    /// The address of an endpoint of the API.
    pub fn endpoint(&self, path: &str) -> (r: String)
        ensures
            r@ == self.spec_uri() + "/"@ + path@,
    {
        self.uri.clone().concat("/").concat(path)
    }

    /// The fixed answer to a chat command without a prompt, or `None` where
    /// there is a prompt and the conversation goes on.
    pub fn chat_usage(prompt: &str) -> (r: Option<String>)
        ensures
            prompt@.len() == 0 <==> r is Some,
            r matches Some(u) ==> u@ == chat_usage_text(),
    {
        if prompt.is_empty() {
            Some(String::from_str("Prompt is empty, usage: '/chat [PROMPT HERE]'"))
        } else {
            None
        }
    }

    /// The fixed answer to an image command without a prompt, or `None`.
    pub fn image_usage(prompt: &str) -> (r: Option<String>)
        ensures
            prompt@.len() == 0 <==> r is Some,
            r matches Some(u) ==> u@ == image_usage_text(),
    {
        if prompt.is_empty() {
            Some(String::from_str("Prompt is empty, usage: '/image [PROMPT HERE]'"))
        } else {
            None
        }
    }

    /// The request that sends the whole log, in order, to the configured model.
    pub fn chat_request(config: &ConfigManager, history: &ChatHistory) -> (r: ChatRequest)
        ensures
            r.model@ == config.chat_model@,
            r.messages@.map_values(|m: MessageChat| m@) == history@,
    {
        let mut messages: Vec<MessageChat> = Vec::new();
        let mut i: usize = 0;
        while i < history.messages.len()
            invariant
                i <= history.messages.len(),
                messages@.len() == i,
                forall|j: int| 0 <= j < i ==> #[trigger] messages@[j]@ == history.messages@[j]@,
            decreases history.messages.len() - i,
        {
            let m = &history.messages[i];
            messages.push(MessageChat { role: m.role.clone(), content: m.content.clone() });
            i = i + 1;
        }
        assert(messages@.map_values(|m: MessageChat| m@) =~= history@);
        ChatRequest { model: config.chat_model.clone(), messages }
    }

    /// Starts a chat turn: the prompt is appended to the log as a user entry,
    /// and the request sends that whole log to the configured model. The
    /// caller persists the log before it sends the request.
    pub fn chat_turn(&self, config: &ConfigManager, history: ChatHistory, prompt: &str) -> (r: (
        ChatHistory,
        ChatRequest,
    ))
        ensures
            r.0@ == history@.push(entry(Role::User, prompt@)),
            history.wf() ==> r.0.wf(),
            r.1.model@ == config.chat_model@,
            r.1.messages@.map_values(|m: MessageChat| m@) == r.0@,
    {
        let h = history.add_entry(&Role::User, prompt);
        let request = OpenAiApi::chat_request(config, &h);
        (h, request)
    }

    /// The request for one image of the configured size.
    pub fn image_request(config: &ConfigManager, prompt: &str) -> (r: ImageRequest)
        ensures
            r.prompt@ == prompt@,
            r.n == 1,
            r.size@ == config.image_size@,
    {
        ImageRequest { prompt: String::from_str(prompt), n: 1, size: config.image_size.clone() }
    }

    /// Takes the completion's choices into the log: the first choice is
    /// appended as an assistant entry and returned. Where there is none, the
    /// log stays as it was and the error says so.
    pub fn chat_reply(&self, history: ChatHistory, choices: Vec<String>) -> (r: (
        ChatHistory,
        Result<String, ApiError>,
    ))
        ensures
            choices@.len() == 0 ==> r.0@ == history@ && r.1 == Err::<String, ApiError>(
                ApiError::NoOutput,
            ),
            choices@.len() > 0 ==> (r.1 matches Ok(text) && text@ == choices@[0]@),
            choices@.len() > 0 ==> r.0@ == history@.push(entry(Role::Assistant, choices@[0]@)),
            history.wf() ==> r.0.wf(),
    {
        if choices.len() == 0 {
            (history, Err(ApiError::NoOutput))
        } else {
            let text = choices[0].clone();
            let h = history.add_entry(&Role::Assistant, text.as_str());
            (h, Ok(text))
        }
    }

    /// The first address among those a generation returned.
    pub fn image_reply(urls: Vec<String>) -> (r: Result<String, ApiError>)
        ensures
            urls@.len() == 0 ==> r == Err::<String, ApiError>(ApiError::NoOutput),
            urls@.len() > 0 ==> (r matches Ok(u) && u@ == urls@[0]@),
    {
        if urls.len() == 0 {
            Err(ApiError::NoOutput)
        } else {
            Ok(urls[0].clone())
        }
    }

    /// The report of a connection probe that found `model_count` models.
    pub fn connection_summary(model_count: usize) -> (r: String)
        ensures
            r@ == summary_text(model_count as nat),
    {
        let count = decimal_text(model_count);
        String::from_str("Connection opened with ").concat(count.as_str()).concat(
            " models found!",
        )
    }

    /// Resets a conversation without contacting the API: the log becomes one
    /// system entry, `prompt` where it is not empty, else `base_prompt`. Also
    /// returns the confirmation, which says which of the two was used.
    pub fn chat_purge(&self, history: ChatHistory, prompt: &str, base_prompt: &str) -> (r: (
        ChatHistory,
        String,
    ))
        ensures
            r.0@ == seeded(reset_text(prompt@, base_prompt@)),
            r.0.wf(),
            r.1@ == purge_text(prompt@),
    {
        let h = history.purge(prompt, base_prompt);
        if prompt.is_empty() {
            (h, String::from_str("Chat history purged without a custom prompt."))
        } else {
            let text = String::from_str("Chat history purged with prompt '").concat(prompt).concat(
                "'.",
            );
            (h, text)
        }
    }
}

} // verus!
