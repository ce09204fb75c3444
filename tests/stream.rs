use groq_client::{
    line_payload, stream_event, stream_events, ChatCompletionDeltaResponse, ChatCompletionRoles, GroqError, Json,
    Member, SseDecoder, StreamInput,
};

fn delta_tree(v: &serde_json::Value) -> Json {
    match v {
        serde_json::Value::Null => Json::Null,
        serde_json::Value::Bool(b) => Json::Bool(*b),
        serde_json::Value::Number(n) => Json::Number(n.to_string()),
        serde_json::Value::String(s) => Json::Str(s.clone()),
        serde_json::Value::Array(items) => Json::Array(items.iter().map(delta_tree).collect()),
        serde_json::Value::Object(map) => Json::Object(
            map.iter().map(|(k, v)| Member { key: k.clone(), value: delta_tree(v) }).collect(),
        ),
    }
}

fn events(payloads: Vec<Vec<u8>>) -> Vec<ChatCompletionDeltaResponse> {
    payloads
        .into_iter()
        .filter_map(|p| {
            let text = String::from_utf8_lossy(&p).to_string();
            let parsed = serde_json::from_str::<serde_json::Value>(&text)
                .map(|v| delta_tree(&v))
                .map_err(|e| e.to_string());
            stream_event(parsed)
        })
        .collect()
}

fn delta_json(content: &str) -> String {
    format!(
        "{{\"id\":\"c1\",\"object\":\"chat.completion.chunk\",\"created\":5,\"model\":\"m\",\
         \"system_fingerprint\":\"fp\",\"choices\":[{{\"index\":0,\"delta\":{{\"content\":\"{}\"}},\
         \"logprobs\":null,\"finish_reason\":null}}]}}",
        content
    )
}

fn content_of(e: &ChatCompletionDeltaResponse) -> Option<String> {
    e.choices[0].delta.content.clone()
}

#[test]
fn two_chunks_give_two_events_in_order() {
    let mut decoder = SseDecoder::new();
    let mut out = Vec::new();
    for chunk in [format!("data: {}\n", delta_json("Hel")), format!("data: {}\n", delta_json("lo"))] {
        let step = decoder.step(StreamInput::Chunk(chunk.into_bytes()));
        assert!(step.error.is_none());
        assert!(!step.done);
        out.extend(events(step.payloads));
    }
    let end = decoder.step(StreamInput::End);
    assert!(end.done);
    assert!(end.payloads.is_empty());
    assert_eq!(out.len(), 2);
    assert_eq!(content_of(&out[0]).as_deref(), Some("Hel"));
    assert_eq!(content_of(&out[1]).as_deref(), Some("lo"));
    assert!(out[0].x_groq.is_none());
    assert_eq!(out[0].created, 5);
}

#[test]
fn malformed_payload_is_skipped() {
    let mut decoder = SseDecoder::new();
    let mut out = Vec::new();
    let chunks = vec![
        format!("data: {}\n", delta_json("a")),
        "data: {not json\n".to_string(),
        "data: {\"id\":\"only\"}\n".to_string(),
        format!("data: {}\n", delta_json("b")),
    ];
    for chunk in chunks {
        let step = decoder.step(StreamInput::Chunk(chunk.into_bytes()));
        assert!(!step.done);
        out.extend(events(step.payloads));
    }
    assert_eq!(out.len(), 2);
    assert_eq!(content_of(&out[0]).as_deref(), Some("a"));
    assert_eq!(content_of(&out[1]).as_deref(), Some("b"));
}

#[test]
fn lines_split_across_chunks_and_batched() {
    let body = format!("data: {}\n\ndata: {}\n", delta_json("x"), delta_json("y"));
    let bytes = body.into_bytes();
    let (a, b) = bytes.split_at(17);
    let mut decoder = SseDecoder::new();
    let first = decoder.feed(a);
    assert!(first.is_empty());
    let second = decoder.feed(b);
    let out = events(second);
    assert_eq!(out.len(), 2);
    assert_eq!(content_of(&out[0]).as_deref(), Some("x"));
    assert_eq!(content_of(&out[1]).as_deref(), Some("y"));
}

#[test]
fn unterminated_last_line_is_read_at_end() {
    let mut decoder = SseDecoder::new();
    let step = decoder.step(StreamInput::Chunk(format!("data:{}", delta_json("z")).into_bytes()));
    assert!(step.payloads.is_empty());
    let end = decoder.step(StreamInput::End);
    assert!(end.done);
    let out = events(end.payloads);
    assert_eq!(out.len(), 1);
    assert_eq!(content_of(&out[0]).as_deref(), Some("z"));
}

#[test]
fn read_failure_ends_the_stream() {
    let mut decoder = SseDecoder::new();
    let step = decoder.step(StreamInput::Failed("connection reset".to_string()));
    assert!(step.done);
    assert!(step.payloads.is_empty());
    match step.error {
        Some(GroqError::RequestFailed(m)) => assert_eq!(m, "connection reset"),
        other => panic!("unexpected error: {:?}", other),
    }
    let after = decoder.step(StreamInput::Chunk(format!("data: {}\n", delta_json("q")).into_bytes()));
    assert!(after.done);
    assert!(after.payloads.is_empty());
    assert!(after.error.is_none());
}

#[test]
fn line_payloads() {
    assert_eq!(line_payload(&b"data: {}".to_vec()), Some(b"{}".to_vec()));
    assert_eq!(line_payload(&b"data:\t  [1]\r".to_vec()), Some(b"[1]\r".to_vec()));
    assert_eq!(line_payload(&b"data:".to_vec()), Some(vec![]));
    assert_eq!(line_payload(&b"event: ping".to_vec()), None);
    assert_eq!(line_payload(&b"dat".to_vec()), None);
}

#[test]
fn delta_role_and_finish_reason() {
    let text = "{\"id\":\"c\",\"object\":\"o\",\"created\":1,\"model\":\"m\",\"system_fingerprint\":\"f\",\
                \"choices\":[{\"index\":2,\"delta\":{\"role\":\"assistant\"},\"finish_reason\":\"stop\"}],\
                \"x_groq\":{\"id\":\"g\"}}";
    let out = events(vec![format!("data: {}", text).into_bytes()].into_iter().map(|l| {
        line_payload(&l).unwrap()
    }).collect());
    assert_eq!(out.len(), 1);
    let choice = &out[0].choices[0];
    assert_eq!(choice.index, 2);
    assert_eq!(choice.delta.role, Some(ChatCompletionRoles::Assistant));
    assert!(choice.delta.content.is_none());
    assert_eq!(choice.finish_reason.as_deref(), Some("stop"));
    assert_eq!(out[0].x_groq.as_ref().map(|x| x.id.as_str()), Some("g"));
}

#[test]
fn stream_events_skip_what_does_not_decode() {
    let parsed = |t: &str| {
        serde_json::from_str::<serde_json::Value>(t).map(|v| delta_tree(&v)).map_err(|e| e.to_string())
    };
    let payloads = vec![
        parsed(&delta_json("one")),
        parsed("{not json"),
        parsed("{\"id\":1}"),
        parsed(&delta_json("three")),
    ];
    let out = stream_events(payloads);
    assert_eq!(out.len(), 2);
    assert_eq!(content_of(&out[0]).as_deref(), Some("one"));
    assert_eq!(content_of(&out[1]).as_deref(), Some("three"));
    assert!(stream_events(vec![]).is_empty());
}
