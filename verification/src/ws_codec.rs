//! The transport-level MessagePack codec of WebSocket messages, and when
//! application-level compression applies.

use vstd::prelude::*;
use crate::ws_config::{ApplicationCompressionConfig, WsClientConfig};

verus! {

/// The MessagePack encoding of a JSON text, or none when the text is not
/// JSON (or the value cannot be encoded).
pub uninterp spec fn json_as_msgpack(text: Seq<char>) -> Option<Seq<u8>>;

/// The JSON text of a MessagePack value, or none when the bytes are not
/// MessagePack (or the value has no JSON form).
pub uninterp spec fn msgpack_as_json(bytes: Seq<u8>) -> Option<Seq<char>>;

/// Transcodes a JSON text to MessagePack: `serde_json::from_str` into a
/// `serde_json::Value`, then `rmp_serde::to_vec`. The result is named
/// `json_as_msgpack`, a function of the text alone.
#[verifier::external_body]
fn transcode_json_to_msgpack(text: &str) -> (r: Option<Vec<u8>>)
    ensures
        match r {
            Some(b) => json_as_msgpack(text@) == Some(b@),
            None => json_as_msgpack(text@) is None,
        },
{
    let value: serde_json::Value = serde_json::from_str(text).ok()?;
    rmp_serde::to_vec(&value).ok()
}

/// Transcodes MessagePack to a JSON text: `rmp_serde::from_slice` into a
/// `serde_json::Value`, then `serde_json::to_string`. The result is named
/// `msgpack_as_json`, a function of the bytes alone.
#[verifier::external_body]
fn transcode_msgpack_to_json(bytes: &[u8]) -> (r: Option<String>)
    ensures
        match r {
            Some(s) => msgpack_as_json(bytes@) == Some(s@),
            None => msgpack_as_json(bytes@) is None,
        },
{
    let value: serde_json::Value = rmp_serde::from_slice(bytes).ok()?;
    serde_json::to_string(&value).ok()
}

/// The UTF-8 encoding of a text.
pub open spec fn utf8(s: Seq<char>) -> Seq<u8> {
    vstd::utf8::encode_utf8(s)
}

/// What an outgoing text message becomes before compression: with the
/// MessagePack codec on and valid JSON, its MessagePack bytes as a binary
/// message; otherwise its UTF-8 bytes as a text message.
pub open spec fn spec_text_payload(text: Seq<char>, msgpack: bool) -> (Seq<u8>, bool) {
    if msgpack && json_as_msgpack(text) is Some {
        (json_as_msgpack(text)->0, true)
    } else {
        (utf8(text), false)
    }
}

/// The payload of an outgoing text message before compression, and whether
/// it goes out as binary.
pub fn text_payload(text: &str, config: &WsClientConfig) -> (r: (Vec<u8>, bool))
    ensures
        (r.0@, r.1) == spec_text_payload(text@, config.msgpack),
{
    if config.msgpack {
        if let Some(bin) = transcode_json_to_msgpack(text) {
            return (bin, true);
        }
    }
    let bytes = text.as_bytes();
    let mut v: Vec<u8> = Vec::new();
    let mut i: usize = 0;
    while i < bytes.len()
        invariant
            i <= bytes@.len(),
            v@ =~= bytes@.take(i as int),
        decreases bytes@.len() - i,
    {
        v.push(bytes[i]);
        i = i + 1;
    }
    assert(v@ =~= bytes@);
    assert(bytes@ == utf8(text@));
    (v, false)
}

/// The application-compression settings that apply to outgoing messages:
/// the configured ones, unless permessage-deflate is on (it takes
/// precedence, so that nothing is compressed twice).
pub fn active_compression(config: &WsClientConfig) -> (r: Option<ApplicationCompressionConfig>)
    ensures
        r == (if config.per_message_deflate { None } else { config.application_compression }),
{
    if config.per_message_deflate {
        None
    } else {
        config.application_compression
    }
}

/// What an incoming message becomes after the compression envelope is
/// removed: with the MessagePack codec on, a binary payload that decodes is
/// delivered as JSON text; anything else is delivered as it is.
pub open spec fn spec_decoded_message(payload: Seq<u8>, is_binary: bool, msgpack: bool) -> (Seq<u8>, bool) {
    if msgpack && is_binary && msgpack_as_json(payload) is Some {
        (utf8(msgpack_as_json(payload)->0), false)
    } else {
        (payload, is_binary)
    }
}

/// The message delivered for an incoming payload, and whether it is binary.
pub fn decoded_message(payload: Vec<u8>, is_binary: bool, config: &WsClientConfig) -> (r: (Vec<u8>, bool))
    ensures
        (r.0@, r.1) == spec_decoded_message(payload@, is_binary, config.msgpack),
{
    if config.msgpack && is_binary {
        if let Some(json) = transcode_msgpack_to_json(payload.as_slice()) {
            let bytes = json.as_str().as_bytes();
            let mut v: Vec<u8> = Vec::new();
            let mut i: usize = 0;
            while i < bytes.len()
                invariant
                    i <= bytes@.len(),
                    v@ =~= bytes@.take(i as int),
                decreases bytes@.len() - i,
            {
                v.push(bytes[i]);
                i = i + 1;
            }
            assert(v@ =~= bytes@);
            return (v, false);
        }
    }
    (payload, is_binary)
}

/// The frame an outgoing payload goes out as, given what application
/// compression made of it: the compression envelope, as a binary frame,
/// when there is one; otherwise the payload itself, binary or text as it is.
pub fn outgoing_frame(payload: Vec<u8>, is_binary: bool, envelope: Option<Vec<u8>>) -> (r: (Vec<u8>, bool))
    ensures
        match envelope {
            Some(e) => r.0@ == e@ && r.1,
            None => r.0@ == payload@ && r.1 == is_binary,
        },
{
    match envelope {
        Some(e) => (e, true),
        None => (payload, is_binary),
    }
}

/// What an incoming binary frame is delivered as, given what the
/// compression envelope decoder made of it: the payload inside the envelope,
/// binary or text as the envelope says, or, without an envelope, the frame's
/// data as binary; then as `decoded_message` delivers it.
pub open spec fn spec_incoming_binary(data: Seq<u8>, envelope: Option<(Seq<u8>, bool)>, msgpack: bool) -> (Seq<u8>, bool) {
    match envelope {
        Some(pb) => spec_decoded_message(pb.0, pb.1, msgpack),
        None => spec_decoded_message(data, true, msgpack),
    }
}

/// The message delivered for an incoming binary frame `data`, given the
/// payload and kind found inside its compression envelope, if any.
pub fn incoming_binary(data: Vec<u8>, envelope: Option<(Vec<u8>, bool)>, config: &WsClientConfig) -> (r: (Vec<u8>, bool))
    ensures
        (r.0@, r.1) == spec_incoming_binary(data@, match envelope {
            Some(pb) => Some((pb.0@, pb.1)),
            None => None,
        }, config.msgpack),
{
    match envelope {
        Some((payload, is_binary)) => decoded_message(payload, is_binary, config),
        None => decoded_message(data, true, config),
    }
}

} // verus!
