//! Turning what the service answered (a status and a parsed body) into the
//! result of a call.
use vstd::prelude::*;
use crate::decode::{
    decode_chat_response, decode_delta_response, decode_speech, delta_response_decodes,
    delta_response_of, response_decodes, response_of, speech_of,
};
use crate::json::{field, Json};
use crate::message::{
    ChatCompletionDeltaResponse, ChatCompletionResponse, GroqError, SpeechToTextResponse,
};

verus! {

/// A status in the 2xx range.
pub open spec fn is_success(status: u16) -> bool {
    200 <= status && status <= 299
}

/// The text of a string field, or `default` when the field is missing or
/// holds something else.
pub open spec fn text_or(o: Option<Json>, default: Seq<char>) -> Seq<char> {
    match o {
        Some(Json::Str(s)) => s@,
        _ => default,
    }
}

/// `e` is the `ApiError` that the error envelope `env` describes.
pub open spec fn is_api_error(e: GroqError, env: Json) -> bool {
    match e {
        GroqError::ApiError { message, type_ } => {
            &&& message@ == text_or(field(env, "message"@), "Unknown error"@)
            &&& type_@ == text_or(field(env, "type"@), "unknown_error"@)
        },
        _ => false,
    }
}

/// `e` reports a body whose shape is not the one expected.
pub open spec fn is_shape_error(e: GroqError) -> bool {
    match e {
        GroqError::DeserializationError { message, type_ } => {
            &&& message@ == "the response does not have the expected shape"@
            &&& type_@ == "invalid_response"@
        },
        _ => false,
    }
}

/// The error envelope of a failed call: the body's `error` member, or
/// `null` when it has none (so that both of its fields take their defaults).
pub open spec fn envelope_of(body: Json) -> Json {
    match field(body, "error"@) {
        Some(env) => env,
        None => Json::Null,
    }
}

/// The `ApiError` that an error envelope describes, with `Unknown error`
/// and `unknown_error` standing in for a missing message or type.
pub fn api_error(env: Json) -> (r: GroqError)
    ensures
        is_api_error(r, env),
{
    match env {
        Json::Object(ms) => {
            let names = vec!["message", "type"];
            proof {
                reveal_strlit("message");
                reveal_strlit("type");
                assert(names@[0]@.len() == 7 && names@[1]@.len() == 4);
            }
            let mut f = crate::json::take_fields(ms, &names);
            let type_ = match crate::json::next_field(&mut f) {
                Some(Json::Str(s)) => s,
                _ => String::from_str("unknown_error"),
            };
            let message = match crate::json::next_field(&mut f) {
                Some(Json::Str(s)) => s,
                _ => String::from_str("Unknown error"),
            };
            GroqError::ApiError { message, type_ }
        },
        _ => GroqError::ApiError {
            message: String::from_str("Unknown error"),
            type_: String::from_str("unknown_error"),
        },
    }
}

fn shape_error() -> (r: GroqError)
    ensures
        is_shape_error(r),
{
    GroqError::DeserializationError {
        message: String::from_str("the response does not have the expected shape"),
        type_: String::from_str("invalid_response"),
    }
}

/// Keeps the body of a successful call; a failed status gives the
/// `ApiError` that the body's error envelope describes, with the defaults
/// standing in for whatever it lacks.
pub fn check_status(status: u16, body: Json) -> (r: Result<Json, GroqError>)
    ensures
        !is_success(status) ==> (r matches Err(e) && is_api_error(e, envelope_of(body))),
        is_success(status) ==> r == Ok::<Json, GroqError>(body),
{
    if 200 <= status && status <= 299 {
        return Ok(body);
    }
    match body {
        Json::Object(ms) => {
            let names = vec!["error"];
            let mut f = crate::json::take_fields(ms, &names);
            match crate::json::next_field(&mut f) {
                Some(env) => Err(api_error(env)),
                None => Err(api_error(Json::Null)),
            }
        },
        _ => Err(api_error(Json::Null)),
    }
}

/// The result of a chat completion call, from the status and the body as
/// the JSON parser read it (`Err` holds the parser's description):
/// a body that is not JSON gives `JsonParseError`; a failed status gives the
/// `ApiError` of the body's error envelope; after a successful status, a
/// body of the answer's shape gives the answer and any other body gives
/// `DeserializationError`.
pub fn chat_completion_reply(status: u16, body: Result<Json, String>) -> (r: Result<
    ChatCompletionResponse,
    GroqError,
>)
    ensures
        match body {
            Err(m) => r matches Err(GroqError::JsonParseError(m2)) && m2 == m,
            Ok(j) => if !is_success(status) {
                r matches Err(e) && is_api_error(e, envelope_of(j))
            } else if response_decodes(j) {
                r matches Ok(x) && response_of(j, x)
            } else {
                r matches Err(e) && is_shape_error(e)
            },
        },
{
    let j = match body {
        Err(m) => return Err(GroqError::JsonParseError(m)),
        Ok(j) => j,
    };
    let j = match check_status(status, j) {
        Err(e) => return Err(e),
        Ok(j) => j,
    };
    match decode_chat_response(j) {
        Some(x) => Ok(x),
        None => Err(shape_error()),
    }
}

/// The result of a speech-to-text call, read as `chat_completion_reply`
/// reads a chat answer.
pub fn speech_to_text_reply(status: u16, body: Result<Json, String>) -> (r: Result<
    SpeechToTextResponse,
    GroqError,
>)
    ensures
        match body {
            Err(m) => r matches Err(GroqError::JsonParseError(m2)) && m2 == m,
            Ok(j) => if !is_success(status) {
                r matches Err(e) && is_api_error(e, envelope_of(j))
            } else {
                match speech_of(j) {
                    Some(x) => r == Ok::<SpeechToTextResponse, GroqError>(x),
                    None => r matches Err(e) && is_shape_error(e),
                }
            },
        },
{
    let j = match body {
        Err(m) => return Err(GroqError::JsonParseError(m)),
        Ok(j) => j,
    };
    let j = match check_status(status, j) {
        Err(e) => return Err(e),
        Ok(j) => j,
    };
    match decode_speech(j) {
        Some(x) => Ok(x),
        None => Err(shape_error()),
    }
}

/// The event that one `data:` payload of a stream carries, if any: a payload
/// that is not JSON, or JSON of another shape, carries none.
pub fn stream_event(payload: Result<Json, String>) -> (r: Option<ChatCompletionDeltaResponse>)
    ensures
        match payload {
            Err(_) => r is None,
            Ok(j) => (r is Some <==> delta_response_decodes(j)) && (r matches Some(x)
                ==> delta_response_of(j, x)),
        },
{
    match payload {
        Err(_) => None,
        Ok(j) => decode_delta_response(j),
    }
}


/// `out` is what the parsed payloads `ps` of a stream give, in order: one
/// event for each payload that parsed and decodes; the others give nothing.
pub open spec fn events_of(
    ps: Seq<Result<Json, String>>,
    out: Seq<ChatCompletionDeltaResponse>,
) -> bool
    decreases ps.len(),
{
    if ps.len() == 0 {
        out.len() == 0
    } else if ps.last() is Ok && delta_response_decodes(ps.last()->Ok_0) {
        &&& out.len() > 0
        &&& delta_response_of(ps.last()->Ok_0, out.last())
        &&& events_of(ps.drop_last(), out.drop_last())
    } else {
        events_of(ps.drop_last(), out)
    }
}

/// The events that a run of parsed payloads carries, in order; a payload
/// that is not JSON, or JSON of another shape, is skipped and the rest
/// still count.
pub fn stream_events(payloads: Vec<Result<Json, String>>) -> (r: Vec<ChatCompletionDeltaResponse>)
    ensures
        events_of(payloads@, r@),
{
    let ghost all = payloads@;
    let mut rest = payloads;
    let mut out: Vec<ChatCompletionDeltaResponse> = Vec::new();
    let ghost mut done: int = 0;
    proof {
        assert(all.take(0) =~= Seq::<Result<Json, String>>::empty());
    }
    while rest.len() > 0
        invariant
            0 <= done <= all.len(),
            rest@ == all.skip(done),
            events_of(all.take(done), out@),
        decreases rest@.len(),
    {
        let p = rest.remove(0);
        proof {
            assert(p == all[done]);
            assert(all.take(done + 1).drop_last() =~= all.take(done));
            assert(all.take(done + 1).last() == all[done]);
        }
        let ghost before = out@;
        match stream_event(p) {
            Some(x) => {
                out.push(x);
                proof {
                    assert(out@.drop_last() =~= before);
                }
            },
            None => {},
        }
        proof {
            done = done + 1;
            assert(rest@ =~= all.skip(done));
        }
    }
    proof {
        assert(all.take(done) =~= all);
    }
    out
}

/// A payload that carries no event (not JSON, or JSON of another shape)
/// changes nothing in what a stream gives: the events before it stand, and
/// those after it still follow.
pub proof fn lemma_undecodable_payload_skipped(
    ps: Seq<Result<Json, String>>,
    p: Result<Json, String>,
    qs: Seq<Result<Json, String>>,
    out: Seq<ChatCompletionDeltaResponse>,
)
    requires
        !(p is Ok && delta_response_decodes(p->Ok_0)),
    ensures
        events_of(ps + seq![p] + qs, out) == events_of(ps + qs, out),
    decreases qs.len(),
{
    if qs.len() == 0 {
        assert(ps + seq![p] + qs =~= ps.push(p));
        assert((ps + seq![p] + qs).drop_last() =~= ps);
        assert(ps + qs =~= ps);
    } else {
        let a = ps + seq![p] + qs;
        let b = ps + qs;
        assert(a.drop_last() =~= ps + seq![p] + qs.drop_last());
        assert(b.drop_last() =~= ps + qs.drop_last());
        assert(a.last() == b.last());
        lemma_undecodable_payload_skipped(ps, p, qs.drop_last(), out);
        if out.len() > 0 {
            lemma_undecodable_payload_skipped(ps, p, qs.drop_last(), out.drop_last());
        }
    }
}

} // verus!
