//! A client library for a hosted chat-completion and speech-to-text API.
//!
//! The library builds what is sent (the JSON text of a chat request, the
//! address and form of each call) and reads what comes back (a status and a
//! JSON tree, or a streamed body in chunks) into typed answers or errors.
//! Moving bytes over the network is left to the caller's HTTP client.

mod client;
mod decode;
mod encode;
mod json;
mod message;
mod reply;
mod stream;

pub use client::{
    pair_views, speech_fields, speech_form_fields, speech_path, ClientConfig, DEFAULT_ENDPOINT,
};
pub use decode::{
    choice_delta_of, choice_deltas_decode, choice_deltas_of, choice_of, choices_decode, choices_of,
    decode_chat_response, decode_choice, decode_choice_delta, decode_delta, decode_delta_response,
    decode_message, decode_speech, decode_usage, decode_xgroq, delta_of, delta_response_decodes,
    delta_response_of, digits_value, is_digit, message_of, opt_role, opt_str, opt_value,
    opt_xgroq, parse_role, parse_u64, req_number, req_role, req_str, req_u64, response_decodes,
    response_of, role_named, speech_of, u64_text, usage_of, xgroq_of,
};
pub use encode::{
    array_text, bool_json, decimal, decimal_text, digit_char, encode_request,
    encode_stream_request, escaped, escaped_char, fraction, hex_digit, join,
    json_quoted, lemma_default_request_json, lemma_message_name_member,
    lemma_request_json_deterministic, member_text, message_json, message_members,
    message_to_json, messages_json, milli_json, milli_json_text, milli_plain_text, milli_text,
    object_text, request_json, request_members, role_name, same_message, same_request,
    strings_json, views,
};
pub use json::{
    distinct_names, field, key_is, lookup, next_field, take_fields, Json, Member,
};
pub use message::{
    ChatCompletionDeltaResponse, ChatCompletionMessage, ChatCompletionRequest,
    ChatCompletionResponse, ChatCompletionRoles, Choice, ChoiceDelta, Delta, GroqError, Message,
    SpeechToTextRequest, SpeechToTextResponse, Usage, XGroq,
};
pub use reply::{
    api_error, chat_completion_reply, check_status, envelope_of, events_of, is_api_error,
    lemma_undecodable_payload_skipped, stream_events, is_shape_error,
    is_success, speech_to_text_reply, stream_event, text_or,
};
pub use stream::{
    byte_views, data_line, data_lines, data_tag, is_blank, lemma_data_lines_in_order, lemma_scan_split,
    plain_payload, line_payload, payload_of, scan, skip_blanks,
    SseDecoder, StreamInput, StreamStep,
};
