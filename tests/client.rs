use groq_client::{speech_form_fields, ClientConfig, SpeechToTextRequest, DEFAULT_ENDPOINT};

#[test]
fn speech_path_follows_english_flag() {
    let config = ClientConfig::new("key".to_string(), Some("http://localhost:8080".to_string()));
    let request = SpeechToTextRequest::new(vec![1, 2, 3]);
    assert!(!request.english_text);
    assert_eq!(config.speech_url(request.english_text), "http://localhost:8080/audio/transcriptions");
    let request = request.english_text(true);
    assert_eq!(config.speech_url(request.english_text), "http://localhost:8080/audio/translations");
}

#[test]
fn default_endpoint_and_chat_url() {
    let config = ClientConfig::new("secret".to_string(), None);
    assert_eq!(config.endpoint, DEFAULT_ENDPOINT);
    assert_eq!(config.chat_url(), "https://api.groq.com/openai/v1/chat/completions");
    assert_eq!(config.bearer(), "Bearer secret");
}

#[test]
fn speech_form_fields_in_order() {
    let request = SpeechToTextRequest::new(vec![0u8; 4])
        .prompt("context")
        .model("whisper-large-v3")
        .language("en")
        .temperature(700)
        .response_format("json");
    let fields = speech_form_fields(&request);
    let expected = vec![
        ("temperature".to_string(), "0.7".to_string()),
        ("language".to_string(), "en".to_string()),
        ("model".to_string(), "whisper-large-v3".to_string()),
        ("prompt".to_string(), "context".to_string()),
    ];
    assert_eq!(fields, expected);
    assert_eq!(request.response_format.as_deref(), Some("json"));
    assert_eq!(request.file, vec![0u8; 4]);
}

#[test]
fn speech_form_without_options() {
    let request = SpeechToTextRequest::new(vec![9]).temperature(1000);
    assert_eq!(speech_form_fields(&request), vec![("temperature".to_string(), "1".to_string())]);
    assert!(speech_form_fields(&SpeechToTextRequest::new(vec![])).is_empty());
}
