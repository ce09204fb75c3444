//! The values that travel to and from the service: chat messages and
//! requests, chat responses and their streamed deltas, speech-to-text
//! requests and responses, and the errors a call can end in.
use vstd::prelude::*;
use crate::json::Json;

verus! {

/// Who wrote a chat message.
#[derive(Debug, Clone, Copy, PartialEq, Eq, Structural)]
pub enum ChatCompletionRoles {
    System,
    User,
    Assistant,
}

/// One message of a conversation sent to the service.
#[derive(Debug, Clone)]
pub struct ChatCompletionMessage {
    pub role: ChatCompletionRoles,
    pub content: String,
    /// Name of the participant, sent only when present.
    pub name: Option<String>,
}

/// A chat completion request.
///
/// Temperature and top-p are fixed-point decimals counted in thousandths:
/// `1000` stands for `1.0`, `700` for `0.7`.
#[derive(Debug, Clone)]
pub struct ChatCompletionRequest {
    pub model: String,
    pub messages: Vec<ChatCompletionMessage>,
    pub temperature: Option<u32>,
    pub max_tokens: Option<u32>,
    pub top_p: Option<u32>,
    pub stream: Option<bool>,
    pub stop: Option<Vec<String>>,
    pub seed: Option<u64>,
}

impl ChatCompletionRequest {
    /// A request for `model` over `messages`, with temperature 1.0, at most
    /// 1024 tokens, top-p 1.0, no streaming, and neither stop sequences nor
    /// a seed.
    pub fn new(model: &str, messages: Vec<ChatCompletionMessage>) -> (r: Self)
        ensures
            r.model@ == model@,
            r.messages == messages,
            r.temperature == Some(1000u32),
            r.max_tokens == Some(1024u32),
            r.top_p == Some(1000u32),
            r.stream == Some(false),
            r.stop is None,
            r.seed is None,
    {
        ChatCompletionRequest {
            model: String::from_str(model),
            messages,
            temperature: Some(1000),
            max_tokens: Some(1024),
            top_p: Some(1000),
            stream: Some(false),
            stop: None,
            seed: None,
        }
    }

    /// Sets the sampling temperature, in thousandths.
    pub fn temperature(self, temperature: u32) -> (r: Self)
        ensures
            r == (ChatCompletionRequest { temperature: Some(temperature), ..self }),
    {
        ChatCompletionRequest { temperature: Some(temperature), ..self }
    }

    /// Sets the largest number of tokens to generate.
    pub fn max_tokens(self, max_tokens: u32) -> (r: Self)
        ensures
            r == (ChatCompletionRequest { max_tokens: Some(max_tokens), ..self }),
    {
        ChatCompletionRequest { max_tokens: Some(max_tokens), ..self }
    }

    /// Sets the nucleus-sampling mass, in thousandths.
    pub fn top_p(self, top_p: u32) -> (r: Self)
        ensures
            r == (ChatCompletionRequest { top_p: Some(top_p), ..self }),
    {
        ChatCompletionRequest { top_p: Some(top_p), ..self }
    }

    /// Sets whether the answer comes back as a stream of deltas.
    pub fn stream(self, stream: bool) -> (r: Self)
        ensures
            r == (ChatCompletionRequest { stream: Some(stream), ..self }),
    {
        ChatCompletionRequest { stream: Some(stream), ..self }
    }

    /// Sets the sequences at which generation stops.
    pub fn stop(self, stop: Vec<String>) -> (r: Self)
        ensures
            r == (ChatCompletionRequest { stop: Some(stop), ..self }),
    {
        ChatCompletionRequest { stop: Some(stop), ..self }
    }

    /// Sets the seed of the sampler.
    pub fn seed(self, seed: u64) -> (r: Self)
        ensures
            r == (ChatCompletionRequest { seed: Some(seed), ..self }),
    {
        ChatCompletionRequest { seed: Some(seed), ..self }
    }
}

/// A complete chat answer.
#[derive(Debug, Clone)]
pub struct ChatCompletionResponse {
    pub choices: Vec<Choice>,
    pub created: u64,
    pub id: String,
    pub model: String,
    pub object: String,
    pub system_fingerprint: String,
    pub usage: Usage,
    pub x_groq: XGroq,
}

/// One alternative of a complete chat answer.
#[derive(Debug, Clone)]
pub struct Choice {
    pub finish_reason: String,
    pub index: u64,
    pub logprobs: Option<Json>,
    pub message: Message,
}

/// The message of a choice.
#[derive(Debug, Clone)]
pub struct Message {
    pub content: String,
    pub role: ChatCompletionRoles,
}

/// One event of a streamed chat answer.
#[derive(Debug, Clone)]
pub struct ChatCompletionDeltaResponse {
    pub id: String,
    pub object: String,
    pub created: u64,
    pub model: String,
    pub system_fingerprint: String,
    pub choices: Vec<ChoiceDelta>,
    pub x_groq: Option<XGroq>,
}

/// One alternative inside a streamed event.
#[derive(Debug, Clone)]
pub struct ChoiceDelta {
    pub index: u64,
    pub delta: Delta,
    pub logprobs: Option<Json>,
    pub finish_reason: Option<String>,
}

/// The fragment that a streamed event adds to an alternative.
#[derive(Debug, Clone)]
pub struct Delta {
    pub role: Option<ChatCompletionRoles>,
    pub content: Option<String>,
}

/// Token counts and timings of a call. The timings are kept as the decimal
/// text of seconds that the service wrote.
#[derive(Debug, Clone)]
pub struct Usage {
    pub completion_time: String,
    pub completion_tokens: u64,
    pub prompt_time: String,
    pub prompt_tokens: u64,
    pub total_time: String,
    pub total_tokens: u64,
}

/// Provider metadata attached to an answer.
#[derive(Debug, Clone)]
pub struct XGroq {
    pub id: String,
}

/// A speech-to-text request.
///
/// `temperature` is a fixed-point decimal counted in thousandths.
#[derive(Debug, Clone)]
pub struct SpeechToTextRequest {
    pub file: Vec<u8>,
    pub model: Option<String>,
    pub temperature: Option<u32>,
    pub language: Option<String>,
    /// When set, the audio is translated to English instead of transcribed.
    pub english_text: bool,
    pub prompt: Option<String>,
    pub response_format: Option<String>,
}

impl SpeechToTextRequest {
    /// A request over the audio bytes `file`, with every option unset and
    /// transcription selected.
    pub fn new(file: Vec<u8>) -> (r: Self)
        ensures
            r.file == file,
            r.model is None,
            r.temperature is None,
            r.language is None,
            !r.english_text,
            r.prompt is None,
            r.response_format is None,
    {
        SpeechToTextRequest {
            file,
            model: None,
            temperature: None,
            language: None,
            english_text: false,
            prompt: None,
            response_format: None,
        }
    }

    /// Sets the sampling temperature, in thousandths.
    pub fn temperature(self, temperature: u32) -> (r: Self)
        ensures
            r == (SpeechToTextRequest { temperature: Some(temperature), ..self }),
    {
        SpeechToTextRequest { temperature: Some(temperature), ..self }
    }

    /// Sets the language spoken in the audio.
    pub fn language(self, language: &str) -> (r: Self)
        ensures
            r.language is Some && r.language->0@ == language@,
            r == (SpeechToTextRequest { language: r.language, ..self }),
    {
        SpeechToTextRequest { language: Some(String::from_str(language)), ..self }
    }

    /// Chooses translation to English (`true`) or transcription (`false`).
    pub fn english_text(self, english_text: bool) -> (r: Self)
        ensures
            r == (SpeechToTextRequest { english_text, ..self }),
    {
        SpeechToTextRequest { english_text, ..self }
    }

    /// Sets the recognition model.
    pub fn model(self, model: &str) -> (r: Self)
        ensures
            r.model is Some && r.model->0@ == model@,
            r == (SpeechToTextRequest { model: r.model, ..self }),
    {
        SpeechToTextRequest { model: Some(String::from_str(model)), ..self }
    }

    /// Sets the text that gives the recognizer context.
    pub fn prompt(self, prompt: &str) -> (r: Self)
        ensures
            r.prompt is Some && r.prompt->0@ == prompt@,
            r == (SpeechToTextRequest { prompt: r.prompt, ..self }),
    {
        SpeechToTextRequest { prompt: Some(String::from_str(prompt)), ..self }
    }

    /// Sets the format of the answer (`text` or `json`).
    pub fn response_format(self, response_format: &str) -> (r: Self)
        ensures
            r.response_format is Some && r.response_format->0@ == response_format@,
            r == (SpeechToTextRequest { response_format: r.response_format, ..self }),
    {
        SpeechToTextRequest { response_format: Some(String::from_str(response_format)), ..self }
    }
}

/// The answer of a speech-to-text call.
#[derive(Debug, Clone)]
pub struct SpeechToTextResponse {
    pub text: String,
}

/// How a call can fail.
#[derive(Debug)]
pub enum GroqError {
    /// The request was refused before anything was sent.
    InvalidRequest(String),
    /// The transport failed; holds its description.
    RequestFailed(String),
    /// The body was not JSON; holds the parser's description.
    JsonParseError(String),
    /// The service answered with an error envelope.
    ApiError { message: String, type_: String },
    /// The body was JSON of another shape than the answer expected.
    DeserializationError { message: String, type_: String },
}

impl GroqError {
    /// The one-line description of the error.
    pub fn describe(&self) -> (r: String)
        ensures
            r@ == match self {
                GroqError::InvalidRequest(m) => "Invalid request: "@ + m@,
                GroqError::RequestFailed(m) => "API request failed: "@ + m@,
                GroqError::JsonParseError(m) => "Failed to parse JSON: "@ + m@,
                GroqError::ApiError { message, .. } => "API error: "@ + message@,
                GroqError::DeserializationError { message, .. } => "Deserialization error: "@
                    + message@,
            },
    {
        match self {
            GroqError::InvalidRequest(m) => String::from_str("Invalid request: ").concat(m.as_str()),
            GroqError::RequestFailed(m) => String::from_str("API request failed: ").concat(m.as_str()),
            GroqError::JsonParseError(m) => String::from_str("Failed to parse JSON: ").concat(m.as_str()),
            GroqError::ApiError { message, .. } => String::from_str("API error: ").concat(
                message.as_str(),
            ),
            GroqError::DeserializationError { message, .. } => String::from_str(
                "Deserialization error: ",
            ).concat(message.as_str()),
        }
    }
}

} // verus!
