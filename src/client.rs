//! What a client needs before it sends anything: its credential and base
//! endpoint, the address of each operation, the authorization header, and
//! the text fields of a speech-to-text form.
use vstd::prelude::*;
use crate::encode::milli_text;
use crate::message::SpeechToTextRequest;

verus! {

/// The production endpoint, used when no other is given.
pub const DEFAULT_ENDPOINT: &'static str = "https://api.groq.com/openai/v1";

/// Credential and base endpoint of a client; set once, read by every call.
#[derive(Debug, Clone)]
pub struct ClientConfig {
    pub api_key: String,
    pub endpoint: String,
}

/// The path of a speech-to-text call: translation to English or
/// transcription.
pub open spec fn speech_path(english_text: bool) -> Seq<char> {
    if english_text {
        "/audio/translations"@
    } else {
        "/audio/transcriptions"@
    }
}

/// The text fields of a speech-to-text form, in the order they are sent:
/// temperature, language, model and prompt, each only when set.
pub open spec fn speech_fields(r: SpeechToTextRequest) -> Seq<(Seq<char>, Seq<char>)> {
    (match r.temperature {
        Some(t) => seq![("temperature"@, milli_text(t as nat))],
        None => Seq::empty(),
    }) + match r.language {
        Some(l) => seq![("language"@, l@)],
        None => Seq::empty(),
    } + match r.model {
        Some(m) => seq![("model"@, m@)],
        None => Seq::empty(),
    } + match r.prompt {
        Some(p) => seq![("prompt"@, p@)],
        None => Seq::empty(),
    }
}

pub open spec fn pair_views(items: Seq<(String, String)>) -> Seq<(Seq<char>, Seq<char>)> {
    items.map_values(|p: (String, String)| (p.0@, p.1@))
}

impl ClientConfig {
    /// A configuration with `api_key`, on `endpoint` when given and on the
    /// production endpoint otherwise.
    pub fn new(api_key: String, endpoint: Option<String>) -> (r: Self)
        ensures
            r.api_key == api_key,
            r.endpoint@ == match endpoint {
                Some(e) => e@,
                None => DEFAULT_ENDPOINT@,
            },
    {
        let endpoint = match endpoint {
            Some(e) => e,
            None => String::from_str(DEFAULT_ENDPOINT),
        };
        ClientConfig { api_key, endpoint }
    }

    /// The address of a chat completion call.
    pub fn chat_url(&self) -> (r: String)
        ensures
            r@ == self.endpoint@ + "/chat/completions"@,
    {
        self.endpoint.clone().concat("/chat/completions")
    }

    /// The address of a speech-to-text call.
    pub fn speech_url(&self, english_text: bool) -> (r: String)
        ensures
            r@ == self.endpoint@ + speech_path(english_text),
    {
        let path = if english_text {
            "/audio/translations"
        } else {
            "/audio/transcriptions"
        };
        self.endpoint.clone().concat(path)
    }

    /// The value of the `Authorization` header.
    pub fn bearer(&self) -> (r: String)
        ensures
            r@ == "Bearer "@ + self.api_key@,
    {
        String::from_str("Bearer ").concat(self.api_key.as_str())
    }
}

/// The text fields of the form that carries a speech-to-text request.
pub fn speech_form_fields(req: &SpeechToTextRequest) -> (r: Vec<(String, String)>)
    ensures
        pair_views(r@) == speech_fields(*req),
{
    let mut r: Vec<(String, String)> = Vec::new();
    match req.temperature {
        Some(t) => r.push((String::from_str("temperature"), crate::encode::milli_plain_text(t))),
        None => {},
    }
    match &req.language {
        Some(l) => r.push((String::from_str("language"), l.clone())),
        None => {},
    }
    match &req.model {
        Some(m) => r.push((String::from_str("model"), m.clone())),
        None => {},
    }
    match &req.prompt {
        Some(p) => r.push((String::from_str("prompt"), p.clone())),
        None => {},
    }
    proof {
        assert(pair_views(r@) =~= speech_fields(*req));
    }
    r
}

} // verus!
