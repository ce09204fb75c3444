//! Reading the service's answers out of JSON trees: each shape has a spec
//! function that says what a tree decodes to, and an executable decoder
//! that meets it.
use vstd::prelude::*;
use crate::json::{field, next_field, take_fields, Json, Member};
use crate::message::{
    ChatCompletionDeltaResponse, ChatCompletionResponse, ChatCompletionRoles, Choice, ChoiceDelta,
    Delta, Message, SpeechToTextResponse, Usage, XGroq,
};

verus! {

pub open spec fn is_digit(c: char) -> bool {
    '0' <= c && c <= '9'
}

/// The number that a string of decimal digits writes.
pub open spec fn digits_value(s: Seq<char>) -> nat
    decreases s.len(),
{
    if s.len() == 0 {
        0
    } else {
        digits_value(s.drop_last()) * 10 + ((s.last() as u32) - ('0' as u32)) as nat
    }
}

/// The `u64` that the text of a JSON number writes, when it is a
/// non-negative integer in range.
pub open spec fn u64_text(t: Seq<char>) -> Option<u64> {
    if t.len() > 0 && (forall|i: int| 0 <= i < t.len() ==> is_digit(#[trigger] t[i]))
        && digits_value(t) <= u64::MAX {
        Some(digits_value(t) as u64)
    } else {
        None
    }
}

proof fn lemma_digits_value_grows(s: Seq<char>, k: int)
    requires
        0 <= k <= s.len(),
        forall|i: int| 0 <= i < s.len() ==> is_digit(#[trigger] s[i]),
    ensures
        digits_value(s.take(k)) <= digits_value(s),
    decreases s.len() - k,
{
    if k < s.len() {
        lemma_digits_value_grows(s, k + 1);
        assert(s.take(k + 1).drop_last() =~= s.take(k));
    } else {
        assert(s.take(k) =~= s);
    }
}

/// Reads a non-negative integer written in decimal.
pub fn parse_u64(t: &str) -> (r: Option<u64>)
    ensures
        r == u64_text(t@),
{
    let n = t.unicode_len();
    if n == 0 {
        return None;
    }
    let mut v: u64 = 0;
    let mut i: usize = 0;
    while i < n
        invariant
            n == t@.len(),
            i <= n,
            forall|k: int| 0 <= k < i ==> is_digit(#[trigger] t@[k]),
            v == digits_value(t@.take(i as int)),
        decreases n - i,
    {
        let c = t.get_char(i);
        if !('0' <= c && c <= '9') {
            return None;
        }
        let d = (c as u32 - '0' as u32) as u64;
        proof {
            assert(t@.take(i + 1).drop_last() =~= t@.take(i as int));
        }
        if v > (u64::MAX - d) / 10 {
            proof {
                assert(digits_value(t@.take(i + 1)) > u64::MAX);
                if forall|k: int| 0 <= k < t@.len() ==> is_digit(#[trigger] t@[k]) {
                    lemma_digits_value_grows(t@, i + 1);
                }
            }
            return None;
        }
        v = v * 10 + d;
        i += 1;
    }
    proof {
        assert(t@.take(n as int) =~= t@);
    }
    Some(v)
}


/// A required string field.
pub open spec fn req_str(o: Option<Json>) -> Option<String> {
    match o {
        Some(Json::Str(s)) => Some(s),
        _ => None,
    }
}

/// A required non-negative integer field.
pub open spec fn req_u64(o: Option<Json>) -> Option<u64> {
    match o {
        Some(Json::Number(t)) => u64_text(t@),
        _ => None,
    }
}

/// A required number field, kept as its text.
pub open spec fn req_number(o: Option<Json>) -> Option<String> {
    match o {
        Some(Json::Number(t)) => Some(t),
        _ => None,
    }
}

/// The role that a lowercase name denotes.
pub open spec fn role_named(s: Seq<char>) -> Option<ChatCompletionRoles> {
    if s == "system"@ {
        Some(ChatCompletionRoles::System)
    } else if s == "user"@ {
        Some(ChatCompletionRoles::User)
    } else if s == "assistant"@ {
        Some(ChatCompletionRoles::Assistant)
    } else {
        None
    }
}

/// A required role field.
pub open spec fn req_role(o: Option<Json>) -> Option<ChatCompletionRoles> {
    match o {
        Some(Json::Str(s)) => role_named(s@),
        _ => None,
    }
}

/// An optional string field: absent and `null` both give `None`; the outer
/// `None` says that the field holds something else.
pub open spec fn opt_str(o: Option<Json>) -> Option<Option<String>> {
    match o {
        None => Some(None),
        Some(Json::Null) => Some(None),
        Some(Json::Str(s)) => Some(Some(s)),
        _ => None,
    }
}

/// An optional role field, read as `opt_str` reads strings.
pub open spec fn opt_role(o: Option<Json>) -> Option<Option<ChatCompletionRoles>> {
    match o {
        None => Some(None),
        Some(Json::Null) => Some(None),
        Some(Json::Str(s)) => match role_named(s@) {
            Some(r) => Some(Some(r)),
            None => None,
        },
        _ => None,
    }
}

/// An optional field of any shape: absent and `null` give `None`.
pub open spec fn opt_value(o: Option<Json>) -> Option<Json> {
    match o {
        None => None,
        Some(Json::Null) => None,
        Some(v) => Some(v),
    }
}

fn take_str(o: Option<Json>) -> (r: Option<String>)
    ensures
        r == req_str(o),
{
    match o {
        Some(Json::Str(s)) => Some(s),
        _ => None,
    }
}

fn take_u64(o: Option<Json>) -> (r: Option<u64>)
    ensures
        r == req_u64(o),
{
    match o {
        Some(Json::Number(t)) => parse_u64(t.as_str()),
        _ => None,
    }
}

fn take_number(o: Option<Json>) -> (r: Option<String>)
    ensures
        r == req_number(o),
{
    match o {
        Some(Json::Number(t)) => Some(t),
        _ => None,
    }
}

/// The role that a lowercase name denotes.
pub fn parse_role(s: &String) -> (r: Option<ChatCompletionRoles>)
    ensures
        r == role_named(s@),
{
    if crate::json::key_is(s, "system") {
        Some(ChatCompletionRoles::System)
    } else if crate::json::key_is(s, "user") {
        Some(ChatCompletionRoles::User)
    } else if crate::json::key_is(s, "assistant") {
        Some(ChatCompletionRoles::Assistant)
    } else {
        None
    }
}

fn take_role(o: Option<Json>) -> (r: Option<ChatCompletionRoles>)
    ensures
        r == req_role(o),
{
    match o {
        Some(Json::Str(s)) => parse_role(&s),
        _ => None,
    }
}

fn take_opt_str(o: Option<Json>) -> (r: Option<Option<String>>)
    ensures
        r == opt_str(o),
{
    match o {
        None => Some(None),
        Some(Json::Null) => Some(None),
        Some(Json::Str(s)) => Some(Some(s)),
        _ => None,
    }
}

fn take_opt_role(o: Option<Json>) -> (r: Option<Option<ChatCompletionRoles>>)
    ensures
        r == opt_role(o),
{
    match o {
        None => Some(None),
        Some(Json::Null) => Some(None),
        Some(Json::Str(s)) => match parse_role(&s) {
            Some(r) => Some(Some(r)),
            None => None,
        },
        _ => None,
    }
}

fn take_opt_value(o: Option<Json>) -> (r: Option<Json>)
    ensures
        r == opt_value(o),
{
    match o {
        None => None,
        Some(Json::Null) => None,
        Some(v) => Some(v),
    }
}

/// What a `message` object decodes to.
pub open spec fn message_of(j: Json) -> Option<Message> {
    match (req_str(field(j, "content"@)), req_role(field(j, "role"@))) {
        (Some(content), Some(role)) => Some(Message { content, role }),
        _ => None,
    }
}

/// The members of an object; `None` for any other value.
fn members_of(j: Json) -> (r: Option<Vec<Member>>)
    ensures
        match r {
            Some(ms) => j == Json::Object(ms),
            None => !(j is Object),
        },
{
    match j {
        Json::Object(ms) => Some(ms),
        _ => None,
    }
}

/// Decodes a `message` object.
pub fn decode_message(j: Json) -> (r: Option<Message>)
    ensures
        r == message_of(j),
{
    let ms = match members_of(j) {
        Some(ms) => ms,
        None => return None,
    };
    let names = vec!["content", "role"];
    proof {
        reveal_strlit("content");
        reveal_strlit("role");
        assert(names@[0]@.len() == 7 && names@[1]@.len() == 4);
    }
    let mut f = take_fields(ms, &names);
    let role = take_role(next_field(&mut f));
    let content = take_str(next_field(&mut f));
    match (content, role) {
        (Some(content), Some(role)) => Some(Message { content, role }),
        _ => None,
    }
}


/// What an `x_groq` object decodes to.
pub open spec fn xgroq_of(j: Json) -> Option<XGroq> {
    match req_str(field(j, "id"@)) {
        Some(id) => Some(XGroq { id }),
        None => None,
    }
}

/// An optional `x_groq` field.
pub open spec fn opt_xgroq(o: Option<Json>) -> Option<Option<XGroq>> {
    match o {
        None => Some(None),
        Some(Json::Null) => Some(None),
        Some(v) => match xgroq_of(v) {
            Some(x) => Some(Some(x)),
            None => None,
        },
    }
}

/// What a `usage` object decodes to.
pub open spec fn usage_of(j: Json) -> Option<Usage> {
    match (
        req_number(field(j, "completion_time"@)),
        req_u64(field(j, "completion_tokens"@)),
        req_number(field(j, "prompt_time"@)),
        req_u64(field(j, "prompt_tokens"@)),
        req_number(field(j, "total_time"@)),
        req_u64(field(j, "total_tokens"@)),
    ) {
        (
            Some(completion_time),
            Some(completion_tokens),
            Some(prompt_time),
            Some(prompt_tokens),
            Some(total_time),
            Some(total_tokens),
        ) => Some(
            Usage {
                completion_time,
                completion_tokens,
                prompt_time,
                prompt_tokens,
                total_time,
                total_tokens,
            },
        ),
        _ => None,
    }
}

/// What a `delta` object decodes to; both of its fields may be missing.
pub open spec fn delta_of(j: Json) -> Option<Delta> {
    match (opt_role(field(j, "role"@)), opt_str(field(j, "content"@))) {
        (Some(role), Some(content)) if j is Object => Some(Delta { role, content }),
        _ => None,
    }
}

/// What one alternative of a complete answer decodes to.
pub open spec fn choice_of(j: Json) -> Option<Choice> {
    match (
        req_str(field(j, "finish_reason"@)),
        req_u64(field(j, "index"@)),
        match field(j, "message"@) {
            Some(m) => message_of(m),
            None => None,
        },
    ) {
        (Some(finish_reason), Some(index), Some(message)) => Some(
            Choice { finish_reason, index, logprobs: opt_value(field(j, "logprobs"@)), message },
        ),
        _ => None,
    }
}

/// What one alternative of a streamed event decodes to.
pub open spec fn choice_delta_of(j: Json) -> Option<ChoiceDelta> {
    match (
        req_u64(field(j, "index"@)),
        match field(j, "delta"@) {
            Some(d) => delta_of(d),
            None => None,
        },
        opt_str(field(j, "finish_reason"@)),
    ) {
        (Some(index), Some(delta), Some(finish_reason)) => Some(
            ChoiceDelta { index, delta, logprobs: opt_value(field(j, "logprobs"@)), finish_reason },
        ),
        _ => None,
    }
}

/// What a speech-to-text answer decodes to.
pub open spec fn speech_of(j: Json) -> Option<SpeechToTextResponse> {
    match req_str(field(j, "text"@)) {
        Some(text) => Some(SpeechToTextResponse { text }),
        None => None,
    }
}

/// Decodes an `x_groq` object.
pub fn decode_xgroq(j: Json) -> (r: Option<XGroq>)
    ensures
        r == xgroq_of(j),
{
    let ms = match members_of(j) {
        Some(ms) => ms,
        None => return None,
    };
    let names = vec!["id"];
    let mut f = take_fields(ms, &names);
    match take_str(next_field(&mut f)) {
        Some(id) => Some(XGroq { id }),
        None => None,
    }
}

fn take_opt_xgroq(o: Option<Json>) -> (r: Option<Option<XGroq>>)
    ensures
        r == opt_xgroq(o),
{
    match o {
        None => Some(None),
        Some(Json::Null) => Some(None),
        Some(v) => match decode_xgroq(v) {
            Some(x) => Some(Some(x)),
            None => None,
        },
    }
}

/// Decodes a `usage` object.
pub fn decode_usage(j: Json) -> (r: Option<Usage>)
    ensures
        r == usage_of(j),
{
    let ms = match members_of(j) {
        Some(ms) => ms,
        None => return None,
    };
    let names = vec![
        "completion_time",
        "completion_tokens",
        "prompt_time",
        "prompt_tokens",
        "total_time",
        "total_tokens",
    ];
    proof {
        reveal_strlit("completion_time");
        reveal_strlit("completion_tokens");
        reveal_strlit("prompt_time");
        reveal_strlit("prompt_tokens");
        reveal_strlit("total_time");
        reveal_strlit("total_tokens");
        assert(names@[0]@.len() == 15 && names@[1]@.len() == 17 && names@[2]@.len() == 11);
        assert(names@[3]@.len() == 13 && names@[4]@.len() == 10 && names@[5]@.len() == 12);
    }
    let mut f = take_fields(ms, &names);
    let total_tokens = take_u64(next_field(&mut f));
    let total_time = take_number(next_field(&mut f));
    let prompt_tokens = take_u64(next_field(&mut f));
    let prompt_time = take_number(next_field(&mut f));
    let completion_tokens = take_u64(next_field(&mut f));
    let completion_time = take_number(next_field(&mut f));
    match (completion_time, completion_tokens, prompt_time, prompt_tokens, total_time, total_tokens) {
        (
            Some(completion_time),
            Some(completion_tokens),
            Some(prompt_time),
            Some(prompt_tokens),
            Some(total_time),
            Some(total_tokens),
        ) => Some(
            Usage {
                completion_time,
                completion_tokens,
                prompt_time,
                prompt_tokens,
                total_time,
                total_tokens,
            },
        ),
        _ => None,
    }
}

/// Decodes a `delta` object.
pub fn decode_delta(j: Json) -> (r: Option<Delta>)
    ensures
        r == delta_of(j),
{
    let ms = match members_of(j) {
        Some(ms) => ms,
        None => return None,
    };
    let names = vec!["role", "content"];
    proof {
        reveal_strlit("content");
        reveal_strlit("role");
        assert(names@[0]@.len() == 4 && names@[1]@.len() == 7);
    }
    let mut f = take_fields(ms, &names);
    let content = take_opt_str(next_field(&mut f));
    let role = take_opt_role(next_field(&mut f));
    match (role, content) {
        (Some(role), Some(content)) => Some(Delta { role, content }),
        _ => None,
    }
}

/// Decodes one alternative of a complete answer.
pub fn decode_choice(j: Json) -> (r: Option<Choice>)
    ensures
        r == choice_of(j),
{
    let ms = match members_of(j) {
        Some(ms) => ms,
        None => return None,
    };
    let names = vec!["finish_reason", "index", "logprobs", "message"];
    proof {
        reveal_strlit("finish_reason");
        reveal_strlit("index");
        reveal_strlit("logprobs");
        reveal_strlit("message");
        assert(names@[0]@.len() == 13 && names@[1]@.len() == 5);
        assert(names@[2]@.len() == 8 && names@[3]@.len() == 7);
    }
    let mut f = take_fields(ms, &names);
    let message = match next_field(&mut f) {
        Some(m) => decode_message(m),
        None => None,
    };
    let logprobs = take_opt_value(next_field(&mut f));
    let index = take_u64(next_field(&mut f));
    let finish_reason = take_str(next_field(&mut f));
    match (finish_reason, index, message) {
        (Some(finish_reason), Some(index), Some(message)) => Some(
            Choice { finish_reason, index, logprobs, message },
        ),
        _ => None,
    }
}

/// Decodes one alternative of a streamed event.
pub fn decode_choice_delta(j: Json) -> (r: Option<ChoiceDelta>)
    ensures
        r == choice_delta_of(j),
{
    let ms = match members_of(j) {
        Some(ms) => ms,
        None => return None,
    };
    let names = vec!["index", "delta", "logprobs", "finish_reason"];
    proof {
        reveal_strlit("finish_reason");
        reveal_strlit("index");
        reveal_strlit("logprobs");
        reveal_strlit("delta");
        assert(names@[0]@.len() == 5 && names@[1]@.len() == 5 && names@[0]@[0] != names@[1]@[0]);
        assert(names@[2]@.len() == 8 && names@[3]@.len() == 13);
    }
    let mut f = take_fields(ms, &names);
    let finish_reason = take_opt_str(next_field(&mut f));
    let logprobs = take_opt_value(next_field(&mut f));
    let delta = match next_field(&mut f) {
        Some(d) => decode_delta(d),
        None => None,
    };
    let index = take_u64(next_field(&mut f));
    match (index, delta, finish_reason) {
        (Some(index), Some(delta), Some(finish_reason)) => Some(
            ChoiceDelta { index, delta, logprobs, finish_reason },
        ),
        _ => None,
    }
}

/// Decodes a speech-to-text answer.
pub fn decode_speech(j: Json) -> (r: Option<SpeechToTextResponse>)
    ensures
        r == speech_of(j),
{
    let ms = match members_of(j) {
        Some(ms) => ms,
        None => return None,
    };
    let names = vec!["text"];
    let mut f = take_fields(ms, &names);
    match take_str(next_field(&mut f)) {
        Some(text) => Some(SpeechToTextResponse { text }),
        None => None,
    }
}


/// `out` is what the alternatives `items` decode to, one for one.
pub open spec fn choices_of(items: Seq<Json>, out: Seq<Choice>) -> bool {
    &&& out.len() == items.len()
    &&& forall|i: int| 0 <= i < items.len() ==> choice_of(#[trigger] items[i]) == Some(out[i])
}

/// `out` is what the streamed alternatives `items` decode to, one for one.
pub open spec fn choice_deltas_of(items: Seq<Json>, out: Seq<ChoiceDelta>) -> bool {
    &&& out.len() == items.len()
    &&& forall|i: int| 0 <= i < items.len() ==> choice_delta_of(#[trigger] items[i]) == Some(out[i])
}

/// The `choices` array of `j` holds only alternatives that decode.
pub open spec fn choices_decode(j: Json) -> bool {
    match field(j, "choices"@) {
        Some(Json::Array(items)) => forall|i: int|
            0 <= i < items@.len() ==> (#[trigger] choice_of(items@[i])) is Some,
        _ => false,
    }
}

/// The `choices` array of `j` holds only streamed alternatives that decode.
pub open spec fn choice_deltas_decode(j: Json) -> bool {
    match field(j, "choices"@) {
        Some(Json::Array(items)) => forall|i: int|
            0 <= i < items@.len() ==> (#[trigger] choice_delta_of(items@[i])) is Some,
        _ => false,
    }
}

/// `j` has the shape of a complete chat answer.
pub open spec fn response_decodes(j: Json) -> bool {
    &&& choices_decode(j)
    &&& req_u64(field(j, "created"@)) is Some
    &&& req_str(field(j, "id"@)) is Some
    &&& req_str(field(j, "model"@)) is Some
    &&& req_str(field(j, "object"@)) is Some
    &&& req_str(field(j, "system_fingerprint"@)) is Some
    &&& match field(j, "usage"@) {
        Some(u) => usage_of(u) is Some,
        None => false,
    }
    &&& match field(j, "x_groq"@) {
        Some(x) => xgroq_of(x) is Some,
        None => false,
    }
}

/// `r` is what the complete chat answer `j` decodes to.
pub open spec fn response_of(j: Json, r: ChatCompletionResponse) -> bool {
    &&& match field(j, "choices"@) {
        Some(Json::Array(items)) => choices_of(items@, r.choices@),
        _ => false,
    }
    &&& req_u64(field(j, "created"@)) == Some(r.created)
    &&& req_str(field(j, "id"@)) == Some(r.id)
    &&& req_str(field(j, "model"@)) == Some(r.model)
    &&& req_str(field(j, "object"@)) == Some(r.object)
    &&& req_str(field(j, "system_fingerprint"@)) == Some(r.system_fingerprint)
    &&& match field(j, "usage"@) {
        Some(u) => usage_of(u) == Some(r.usage),
        None => false,
    }
    &&& match field(j, "x_groq"@) {
        Some(x) => xgroq_of(x) == Some(r.x_groq),
        None => false,
    }
}

/// `j` has the shape of one streamed event.
pub open spec fn delta_response_decodes(j: Json) -> bool {
    &&& req_str(field(j, "id"@)) is Some
    &&& req_str(field(j, "object"@)) is Some
    &&& req_u64(field(j, "created"@)) is Some
    &&& req_str(field(j, "model"@)) is Some
    &&& req_str(field(j, "system_fingerprint"@)) is Some
    &&& choice_deltas_decode(j)
    &&& opt_xgroq(field(j, "x_groq"@)) is Some
}

/// `r` is what the streamed event `j` decodes to.
pub open spec fn delta_response_of(j: Json, r: ChatCompletionDeltaResponse) -> bool {
    &&& req_str(field(j, "id"@)) == Some(r.id)
    &&& req_str(field(j, "object"@)) == Some(r.object)
    &&& req_u64(field(j, "created"@)) == Some(r.created)
    &&& req_str(field(j, "model"@)) == Some(r.model)
    &&& req_str(field(j, "system_fingerprint"@)) == Some(r.system_fingerprint)
    &&& match field(j, "choices"@) {
        Some(Json::Array(items)) => choice_deltas_of(items@, r.choices@),
        _ => false,
    }
    &&& opt_xgroq(field(j, "x_groq"@)) == Some(r.x_groq)
}

fn decode_choices(o: Option<Json>) -> (r: Option<Vec<Choice>>)
    ensures
        match o {
            Some(Json::Array(items)) => match r {
                Some(out) => choices_of(items@, out@),
                None => !(forall|i: int|
                    0 <= i < items@.len() ==> (#[trigger] choice_of(items@[i])) is Some),
            },
            _ => r is None,
        },
{
    let mut items = match o {
        Some(Json::Array(items)) => items,
        _ => return None,
    };
    let ghost all = items@;
    let mut out: Vec<Choice> = Vec::new();
    while items.len() > 0
        invariant
            o matches Some(Json::Array(v)) && v@ == all,
            out@.len() <= all.len(),
            items@ == all.skip(out@.len() as int),
            forall|i: int| 0 <= i < out@.len() ==> choice_of(#[trigger] all[i]) == Some(out@[i]),
        decreases items@.len(),
    {
        let ghost k = out@.len() as int;
        let item = items.remove(0);
        assert(item == all[k]);
        match decode_choice(item) {
            Some(c) => out.push(c),
            None => {
                assert(choice_of(all[k]) is None);
                return None;
            },
        }
        assert(items@ =~= all.skip(out@.len() as int));
    }
    Some(out)
}

fn decode_choice_deltas(o: Option<Json>) -> (r: Option<Vec<ChoiceDelta>>)
    ensures
        match o {
            Some(Json::Array(items)) => match r {
                Some(out) => choice_deltas_of(items@, out@),
                None => !(forall|i: int|
                    0 <= i < items@.len() ==> (#[trigger] choice_delta_of(items@[i])) is Some),
            },
            _ => r is None,
        },
{
    let mut items = match o {
        Some(Json::Array(items)) => items,
        _ => return None,
    };
    let ghost all = items@;
    let mut out: Vec<ChoiceDelta> = Vec::new();
    while items.len() > 0
        invariant
            o matches Some(Json::Array(v)) && v@ == all,
            out@.len() <= all.len(),
            items@ == all.skip(out@.len() as int),
            forall|i: int|
                0 <= i < out@.len() ==> choice_delta_of(#[trigger] all[i]) == Some(out@[i]),
        decreases items@.len(),
    {
        let ghost k = out@.len() as int;
        let item = items.remove(0);
        assert(item == all[k]);
        match decode_choice_delta(item) {
            Some(c) => out.push(c),
            None => {
                assert(choice_delta_of(all[k]) is None);
                return None;
            },
        }
        assert(items@ =~= all.skip(out@.len() as int));
    }
    Some(out)
}

/// Decodes a complete chat answer.
pub fn decode_chat_response(j: Json) -> (r: Option<ChatCompletionResponse>)
    ensures
        r is Some <==> response_decodes(j),
        r matches Some(x) ==> response_of(j, x),
{
    let ms = match members_of(j) {
        Some(ms) => ms,
        None => return None,
    };
    let names = vec![
        "choices",
        "created",
        "id",
        "model",
        "object",
        "system_fingerprint",
        "usage",
        "x_groq",
    ];
    proof {
        reveal_strlit("choices");
        reveal_strlit("created");
        reveal_strlit("id");
        reveal_strlit("model");
        reveal_strlit("object");
        reveal_strlit("system_fingerprint");
        reveal_strlit("usage");
        reveal_strlit("x_groq");
        assert(names@[0]@.len() == 7 && names@[1]@.len() == 7 && names@[0]@[1] != names@[1]@[1]);
        assert(names@[2]@.len() == 2 && names@[5]@.len() == 18);
        assert(names@[3]@.len() == 5 && names@[6]@.len() == 5 && names@[3]@[0] != names@[6]@[0]);
        assert(names@[4]@.len() == 6 && names@[7]@.len() == 6 && names@[4]@[0] != names@[7]@[0]);
    }
    let mut f = take_fields(ms, &names);
    let x_groq = match next_field(&mut f) {
        Some(x) => decode_xgroq(x),
        None => None,
    };
    let usage = match next_field(&mut f) {
        Some(u) => decode_usage(u),
        None => None,
    };
    let system_fingerprint = take_str(next_field(&mut f));
    let object = take_str(next_field(&mut f));
    let model = take_str(next_field(&mut f));
    let id = take_str(next_field(&mut f));
    let created = take_u64(next_field(&mut f));
    let choices = decode_choices(next_field(&mut f));
    match (choices, created, id, model, object, system_fingerprint, usage, x_groq) {
        (
            Some(choices),
            Some(created),
            Some(id),
            Some(model),
            Some(object),
            Some(system_fingerprint),
            Some(usage),
            Some(x_groq),
        ) => Some(
            ChatCompletionResponse {
                choices,
                created,
                id,
                model,
                object,
                system_fingerprint,
                usage,
                x_groq,
            },
        ),
        _ => None,
    }
}

/// Decodes one streamed event.
pub fn decode_delta_response(j: Json) -> (r: Option<ChatCompletionDeltaResponse>)
    ensures
        r is Some <==> delta_response_decodes(j),
        r matches Some(x) ==> delta_response_of(j, x),
{
    let ms = match members_of(j) {
        Some(ms) => ms,
        None => return None,
    };
    let names = vec!["id", "object", "created", "model", "system_fingerprint", "choices", "x_groq"];
    proof {
        reveal_strlit("choices");
        reveal_strlit("created");
        reveal_strlit("id");
        reveal_strlit("model");
        reveal_strlit("object");
        reveal_strlit("system_fingerprint");
        reveal_strlit("x_groq");
        assert(names@[5]@.len() == 7 && names@[2]@.len() == 7 && names@[5]@[1] != names@[2]@[1]);
        assert(names@[0]@.len() == 2 && names@[4]@.len() == 18 && names@[3]@.len() == 5);
        assert(names@[1]@.len() == 6 && names@[6]@.len() == 6 && names@[1]@[0] != names@[6]@[0]);
    }
    let mut f = take_fields(ms, &names);
    let x_groq = take_opt_xgroq(next_field(&mut f));
    let choices = decode_choice_deltas(next_field(&mut f));
    let system_fingerprint = take_str(next_field(&mut f));
    let model = take_str(next_field(&mut f));
    let created = take_u64(next_field(&mut f));
    let object = take_str(next_field(&mut f));
    let id = take_str(next_field(&mut f));
    match (id, object, created, model, system_fingerprint, choices, x_groq) {
        (
            Some(id),
            Some(object),
            Some(created),
            Some(model),
            Some(system_fingerprint),
            Some(choices),
            Some(x_groq),
        ) => Some(
            ChatCompletionDeltaResponse {
                id,
                object,
                created,
                model,
                system_fingerprint,
                choices,
                x_groq,
            },
        ),
        _ => None,
    }
}

} // verus!
