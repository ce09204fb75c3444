use groq_client::{
    decimal_text, encode_request, encode_stream_request, message_to_json, milli_json_text, milli_plain_text,
    ChatCompletionMessage, ChatCompletionRequest, ChatCompletionRoles,
};

fn user(content: &str) -> ChatCompletionMessage {
    ChatCompletionMessage { role: ChatCompletionRoles::User, content: content.to_string(), name: None }
}

#[test]
fn default_request_writes_defaults() {
    let request = ChatCompletionRequest::new("llama3-70b-8192", vec![user("Hello")]);
    assert_eq!(
        encode_request(&request),
        "{\"model\":\"llama3-70b-8192\",\"messages\":[{\"role\":\"user\",\"content\":\"Hello\"}],\
         \"temperature\":1.0,\"max_tokens\":1024,\"top_p\":1.0,\"stream\":false}"
    );
}

#[test]
fn unset_parameters_take_defaults() {
    let mut request = ChatCompletionRequest::new("m", vec![user("Hi")]);
    request.temperature = None;
    request.max_tokens = None;
    request.top_p = None;
    request.stream = None;
    assert_eq!(
        encode_request(&request),
        "{\"model\":\"m\",\"messages\":[{\"role\":\"user\",\"content\":\"Hi\"}],\
         \"temperature\":1.0,\"max_tokens\":1024,\"top_p\":1.0,\"stream\":false}"
    );
}

#[test]
fn message_name_present_and_absent() {
    let named = ChatCompletionMessage {
        role: ChatCompletionRoles::Assistant,
        content: "Hi".to_string(),
        name: Some("bob".to_string()),
    };
    assert_eq!(message_to_json(&named), "{\"role\":\"assistant\",\"content\":\"Hi\",\"name\":\"bob\"}");
    let anonymous = ChatCompletionMessage {
        role: ChatCompletionRoles::System,
        content: "Be brief".to_string(),
        name: None,
    };
    let text = message_to_json(&anonymous);
    assert_eq!(text, "{\"role\":\"system\",\"content\":\"Be brief\"}");
    assert!(!text.contains("name"));
    assert!(!text.contains("null"));
}

#[test]
fn set_parameters_are_written() {
    let request = ChatCompletionRequest::new("m", vec![user("x")])
        .temperature(700)
        .max_tokens(50)
        .top_p(1250)
        .stream(true)
        .stop(vec!["END".to_string(), "STOP".to_string()])
        .seed(42);
    assert_eq!(
        encode_request(&request),
        "{\"model\":\"m\",\"messages\":[{\"role\":\"user\",\"content\":\"x\"}],\
         \"temperature\":0.7,\"max_tokens\":50,\"top_p\":1.25,\"stream\":true,\
         \"stop\":[\"END\",\"STOP\"],\"seed\":42}"
    );
}

#[test]
fn strings_are_escaped() {
    let request = ChatCompletionRequest::new("m", vec![user("say \"hi\"\nnow\\")]);
    let text = encode_request(&request);
    assert!(text.contains("\"content\":\"say \\\"hi\\\"\\nnow\\\\\""));
    let parsed: serde_json::Value = serde_json::from_str(&text).unwrap();
    assert_eq!(parsed["messages"][0]["content"], "say \"hi\"\nnow\\");
}

#[test]
fn empty_messages_and_stop() {
    let request = ChatCompletionRequest::new("m", vec![]).stop(vec![]);
    assert_eq!(
        encode_request(&request),
        "{\"model\":\"m\",\"messages\":[],\"temperature\":1.0,\"max_tokens\":1024,\
         \"top_p\":1.0,\"stream\":false,\"stop\":[]}"
    );
}

#[test]
fn encoding_twice_is_identical() {
    let request = ChatCompletionRequest::new("m", vec![user("a"), user("b")]).seed(7);
    let first = encode_request(&request);
    let second = encode_request(&request);
    assert_eq!(first, second);
    let copy = request.clone();
    assert_eq!(encode_request(&copy), first);
}

#[test]
fn encoded_request_is_json() {
    let request = ChatCompletionRequest::new("m", vec![user("a")]).seed(u64::MAX);
    let parsed: serde_json::Value = serde_json::from_str(&encode_request(&request)).unwrap();
    assert_eq!(parsed["seed"].as_u64(), Some(u64::MAX));
    assert_eq!(parsed["temperature"].as_f64(), Some(1.0));
    assert!(parsed.get("stop").is_none());
}

#[test]
fn decimal_texts() {
    assert_eq!(decimal_text(0), "0");
    assert_eq!(decimal_text(1024), "1024");
    assert_eq!(decimal_text(u64::MAX), "18446744073709551615");
}

#[test]
fn thousandths_texts() {
    assert_eq!(milli_json_text(0), "0.0");
    assert_eq!(milli_json_text(1000), "1.0");
    assert_eq!(milli_json_text(5), "0.005");
    assert_eq!(milli_json_text(2050), "2.05");
    assert_eq!(milli_plain_text(1000), "1");
    assert_eq!(milli_plain_text(700), "0.7");
    assert_eq!(milli_plain_text(1234), "1.234");
}

#[test]
fn control_characters_are_escaped() {
    let request = ChatCompletionRequest::new("m", vec![user("a\u{8}\t\u{c}\r\u{1}\u{1f}\u{7f}é")]);
    let text = encode_request(&request);
    assert!(text.contains("\"content\":\"a\\b\\t\\f\\r\\u0001\\u001f\u{7f}é\""));
}

#[test]
fn stream_request_switches_streaming_on() {
    let request = ChatCompletionRequest::new("m", vec![user("x")]).stream(false);
    assert_eq!(
        encode_stream_request(request),
        "{\"model\":\"m\",\"messages\":[{\"role\":\"user\",\"content\":\"x\"}],\
         \"temperature\":1.0,\"max_tokens\":1024,\"top_p\":1.0,\"stream\":true}"
    );
}
