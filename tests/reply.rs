use groq_client::{
    chat_completion_reply, parse_u64, speech_to_text_reply, ChatCompletionRoles, GroqError, Json,
    Member,
};

fn tree(v: &serde_json::Value) -> Json {
    match v {
        serde_json::Value::Null => Json::Null,
        serde_json::Value::Bool(b) => Json::Bool(*b),
        serde_json::Value::Number(n) => Json::Number(n.to_string()),
        serde_json::Value::String(s) => Json::Str(s.clone()),
        serde_json::Value::Array(items) => Json::Array(items.iter().map(tree).collect()),
        serde_json::Value::Object(map) => Json::Object(
            map.iter().map(|(k, v)| Member { key: k.clone(), value: tree(v) }).collect(),
        ),
    }
}

fn body(text: &str) -> Result<Json, String> {
    serde_json::from_str::<serde_json::Value>(text).map(|v| tree(&v)).map_err(|e| e.to_string())
}

const SAMPLE: &str = "{\"id\":\"x\",\"object\":\"chat.completion\",\"created\":1,\"model\":\"m\",\
\"system_fingerprint\":\"fp\",\"choices\":[{\"index\":0,\"message\":{\"role\":\"assistant\",\
\"content\":\"hi\"},\"finish_reason\":\"stop\",\"logprobs\":null}],\"usage\":{\"prompt_tokens\":1,\
\"completion_tokens\":1,\"total_tokens\":2,\"prompt_time\":0.1,\"completion_time\":0.1,\
\"total_time\":0.2},\"x_groq\":{\"id\":\"g1\"}}";

#[test]
fn sample_chat_response_decodes() {
    let response = chat_completion_reply(200, body(SAMPLE)).unwrap();
    assert_eq!(response.choices.len(), 1);
    assert_eq!(response.choices[0].message.content, "hi");
    assert_eq!(response.choices[0].message.role, ChatCompletionRoles::Assistant);
    assert_eq!(response.choices[0].finish_reason, "stop");
    assert_eq!(response.choices[0].index, 0);
    assert!(response.choices[0].logprobs.is_none());
    assert_eq!(response.id, "x");
    assert_eq!(response.object, "chat.completion");
    assert_eq!(response.created, 1);
    assert_eq!(response.model, "m");
    assert_eq!(response.system_fingerprint, "fp");
    assert_eq!(response.usage.total_tokens, 2);
    assert_eq!(response.usage.prompt_time, "0.1");
    assert_eq!(response.usage.total_time, "0.2");
    assert_eq!(response.x_groq.id, "g1");
}

#[test]
fn api_error_carries_message_and_type() {
    let text = "{\"error\":{\"message\":\"bad model\",\"type\":\"invalid_request_error\"}}";
    match chat_completion_reply(400, body(text)) {
        Err(GroqError::ApiError { message, type_ }) => {
            assert_eq!(message, "bad model");
            assert_eq!(type_, "invalid_request_error");
        }
        other => panic!("unexpected result: {:?}", other),
    }
}

#[test]
fn api_error_defaults() {
    match chat_completion_reply(400, body("{\"error\":{}}")) {
        Err(GroqError::ApiError { message, type_ }) => {
            assert_eq!(message, "Unknown error");
            assert_eq!(type_, "unknown_error");
        }
        other => panic!("unexpected result: {:?}", other),
    }
}

#[test]
fn api_error_with_non_string_fields() {
    match chat_completion_reply(500, body("{\"error\":{\"message\":3,\"type\":null}}")) {
        Err(GroqError::ApiError { message, type_ }) => {
            assert_eq!(message, "Unknown error");
            assert_eq!(type_, "unknown_error");
        }
        other => panic!("unexpected result: {:?}", other),
    }
}

#[test]
fn error_field_on_success_is_not_an_api_error() {
    match chat_completion_reply(200, body("{\"error\":{\"message\":\"m\"}}")) {
        Err(GroqError::DeserializationError { message, type_ }) => {
            assert_eq!(message, "the response does not have the expected shape");
            assert_eq!(type_, "invalid_response");
        }
        other => panic!("unexpected result: {:?}", other),
    }
}

#[test]
fn body_that_is_not_json() {
    match chat_completion_reply(200, body("not json")) {
        Err(GroqError::JsonParseError(m)) => assert!(!m.is_empty()),
        other => panic!("unexpected result: {:?}", other),
    }
    match chat_completion_reply(200, Err("broken".to_string())) {
        Err(GroqError::JsonParseError(m)) => assert_eq!(m, "broken"),
        other => panic!("unexpected result: {:?}", other),
    }
}

#[test]
fn wrong_shapes_are_deserialization_errors() {
    let missing_id = SAMPLE.replace("\"id\":\"x\",", "");
    assert!(matches!(
        chat_completion_reply(200, body(&missing_id)),
        Err(GroqError::DeserializationError { .. })
    ));
    let bad_role = SAMPLE.replace("\"assistant\"", "\"robot\"");
    assert!(matches!(
        chat_completion_reply(200, body(&bad_role)),
        Err(GroqError::DeserializationError { .. })
    ));
    let negative = SAMPLE.replace("\"created\":1", "\"created\":-1");
    assert!(matches!(
        chat_completion_reply(200, body(&negative)),
        Err(GroqError::DeserializationError { .. })
    ));
    assert!(matches!(
        chat_completion_reply(200, body("[]")),
        Err(GroqError::DeserializationError { .. })
    ));
}

#[test]
fn logprobs_and_extra_fields_are_kept_or_ignored() {
    let text = SAMPLE
        .replace("\"logprobs\":null", "\"logprobs\":{\"content\":[]}")
        .replace("\"id\":\"x\",", "\"id\":\"x\",\"extra\":true,");
    let response = chat_completion_reply(200, body(&text)).unwrap();
    assert!(matches!(response.choices[0].logprobs, Some(Json::Object(_))));
}

#[test]
fn failed_status_without_envelope_is_an_api_error() {
    match chat_completion_reply(503, body(SAMPLE)) {
        Err(GroqError::ApiError { message, type_ }) => {
            assert_eq!(message, "Unknown error");
            assert_eq!(type_, "unknown_error");
        }
        other => panic!("unexpected result: {:?}", other),
    }
    match chat_completion_reply(404, body("\"gone\"")) {
        Err(GroqError::ApiError { message, .. }) => assert_eq!(message, "Unknown error"),
        other => panic!("unexpected result: {:?}", other),
    }
}

#[test]
fn responses_can_be_cloned() {
    let text = SAMPLE.replace("\"logprobs\":null", "\"logprobs\":{\"content\":[1,\"a\"]}");
    let response = chat_completion_reply(200, body(&text)).unwrap();
    let copy = response.clone();
    assert_eq!(copy.choices[0].message.content, "hi");
    assert_eq!(format!("{:?}", copy), format!("{:?}", response));
}

#[test]
fn speech_reply_cases() {
    assert_eq!(speech_to_text_reply(200, body("{\"text\":\"hello\"}")).unwrap().text, "hello");
    assert!(matches!(
        speech_to_text_reply(200, body("{\"words\":[]}")),
        Err(GroqError::DeserializationError { .. })
    ));
    assert!(matches!(
        speech_to_text_reply(401, body("{\"error\":{\"message\":\"no key\"}}")),
        Err(GroqError::ApiError { .. })
    ));
    assert!(matches!(
        speech_to_text_reply(500, body("{\"text\":\"hello\"}")),
        Err(GroqError::ApiError { .. })
    ));
}

#[test]
fn u64_parsing() {
    assert_eq!(parse_u64("0"), Some(0));
    assert_eq!(parse_u64("18446744073709551615"), Some(u64::MAX));
    assert_eq!(parse_u64("18446744073709551616"), None);
    assert_eq!(parse_u64(""), None);
    assert_eq!(parse_u64("1.5"), None);
}

#[test]
fn error_descriptions() {
    let e = GroqError::ApiError { message: "bad model".to_string(), type_: "t".to_string() };
    assert_eq!(e.describe(), "API error: bad model");
    assert_eq!(GroqError::InvalidRequest("x".to_string()).describe(), "Invalid request: x");
    assert_eq!(GroqError::RequestFailed("y".to_string()).describe(), "API request failed: y");
    assert_eq!(GroqError::JsonParseError("z".to_string()).describe(), "Failed to parse JSON: z");
    let d = GroqError::DeserializationError { message: "w".to_string(), type_: "t".to_string() };
    assert_eq!(d.describe(), "Deserialization error: w");
}
