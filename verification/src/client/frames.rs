//! What the transport hands over, frame by frame, and the text of a frame
//! as a batch of messages.

use serde_json::Value;
use vstd::prelude::*;

use crate::client::ArchipelagoError;
use crate::json::{
    array_value, as_items, as_text, json_of, json_parse, json_text, jsons_of, member, parse, print,
    shape_error, Json,
};
use crate::protocol::{kind_named, ServerMessageKind};

verus! {

/// A failure of the transport, as its caller reports it.
#[derive(Debug, Clone)]
pub struct NetworkFailure {
    /// Whether the failure arose in the encryption layer of the handshake.
    pub encryption: bool,
    /// The failure in words.
    pub detail: String,
}

/// One frame of the transport.
#[derive(Debug, Clone)]
pub enum Frame {
    Text(String),
    Binary(Vec<u8>),
    Ping(Vec<u8>),
    Pong(Vec<u8>),
    Close,
    Raw(Vec<u8>),
}

/// What to do with what the transport handed over.
#[derive(Debug)]
pub enum Reading {
    /// A text arrived, which holds a batch of messages.
    Batch(String),
    /// Nothing for the session arrived: read on.
    Skip,
    /// The stream of frames is over.
    End,
    /// The read failed.
    Failed(ArchipelagoError),
}

/// Decides what to do with what the transport handed over: a text frame
/// holds a batch; pings and pongs are passed over; a close frame means that
/// the connection was closed; any other frame is an error that holds the
/// frame; a failure of the transport is a network error; and where the
/// transport has nothing more, the stream is over.
pub fn recv_messages(event: Option<Result<Frame, NetworkFailure>>) -> (reading: Reading)
    ensures
        reading == (match event {
            None => Reading::End,
            Some(Err(failure)) => Reading::Failed(ArchipelagoError::NetworkError(failure)),
            Some(Ok(Frame::Text(text))) => Reading::Batch(text),
            Some(Ok(Frame::Close)) => Reading::Failed(ArchipelagoError::ConnectionClosed),
            Some(Ok(Frame::Ping(_))) => Reading::Skip,
            Some(Ok(Frame::Pong(_))) => Reading::Skip,
            Some(Ok(frame)) => Reading::Failed(ArchipelagoError::NonTextWebsocketResult(frame)),
        }),
{
    match event {
        None => Reading::End,
        Some(Err(failure)) => Reading::Failed(ArchipelagoError::NetworkError(failure)),
        Some(Ok(Frame::Text(text))) => Reading::Batch(text),
        Some(Ok(Frame::Close)) => Reading::Failed(ArchipelagoError::ConnectionClosed),
        Some(Ok(Frame::Ping(_))) => Reading::Skip,
        Some(Ok(Frame::Pong(_))) => Reading::Skip,
        Some(Ok(frame)) => Reading::Failed(ArchipelagoError::NonTextWebsocketResult(frame)),
    }
}

/// The messages that a document of a frame holds: the elements of an
/// array, and a document of any other shape as the one message.
pub open spec fn frame_messages(frame: Json) -> Seq<Json> {
    match frame {
        Json::Array(messages) => messages,
        other => seq![other],
    }
}

/// The name that a document is marked with: its member `cmd`, where the
/// document is an object with such a member that is a string.
pub open spec fn cmd_of_json(message: Json) -> Option<Seq<char>> {
    match message {
        Json::Object(members) => if members.contains_key("cmd"@) {
            match members["cmd"@] {
                Json::Text(name) => Some(name),
                _ => None,
            }
        } else {
            None
        },
        _ => None,
    }
}

/// The kind that a document is marked as: the kind that the name names
/// with which it is marked.
pub open spec fn kind_of_json(message: Json) -> Option<ServerMessageKind> {
    match cmd_of_json(message) {
        Some(name) => kind_named(name),
        None => None,
    }
}

/// Returns the name that a document is marked with, as [`cmd_of_json`]
/// states it.
pub fn message_cmd(message: &Value) -> (cmd: Option<String>)
    ensures
        (match cmd {
            Some(cmd) => Some(cmd@),
            None => None,
        }) == cmd_of_json(json_of(*message)),
{
    match member(message, "cmd") {
        Some(name) => as_text(name),
        None => None,
    }
}

/// Returns the kind that a document is marked as, as [`kind_of_json`]
/// states it.
pub fn message_kind(message: &Value) -> (kind: Option<ServerMessageKind>)
    ensures
        kind == kind_of_json(json_of(*message)),
{
    match message_cmd(message) {
        Some(name) => ServerMessageKind::from_name(name.as_str()),
        None => None,
    }
}

/// Every message of a batch is marked with a name.
pub open spec fn all_tagged(messages: Seq<Json>) -> bool {
    forall|i: int| 0 <= i < messages.len() ==> cmd_of_json(#[trigger] messages[i]) is Some
}

/// Every message of a batch is marked as a kind.
pub open spec fn all_marked(messages: Seq<Json>) -> bool {
    forall|i: int| 0 <= i < messages.len() ==> kind_of_json(#[trigger] messages[i]) is Some
}

/// Reads the document of a frame as a batch of messages, each still a JSON
/// document, with the kind that it is marked as. An array gives its
/// elements in order; a single message that stands bare, without an array
/// around it, is a batch of one. A document that holds a message that is
/// not marked as a kind is an error that holds `text`, the text that the
/// document was read from.
pub fn read_frame(frame: Value, text: String) -> (batch: Result<
    Vec<(ServerMessageKind, Value)>,
    ArchipelagoError,
>)
    ensures
        batch is Ok <==> all_marked(frame_messages(json_of(frame))),
        match batch {
            Ok(messages) => {
                &&& messages@.len() == frame_messages(json_of(frame)).len()
                &&& forall|i: int|
                    0 <= i < messages@.len() ==> json_of((#[trigger] messages@[i]).1)
                        == frame_messages(json_of(frame))[i] && kind_of_json(
                        json_of(messages@[i].1),
                    ) == Some(messages@[i].0)
            },
            Err(error) => error matches ArchipelagoError::FailedDeserialize { json, .. } && json
                == text,
        },
{
    let mut messages: Vec<(ServerMessageKind, Value)> = Vec::new();
    match as_items(&frame) {
        Some(items) => {
            let mut i: usize = 0;
            while i < items.len()
                invariant
                    i <= items@.len(),
                    messages@.len() == i,
                    json_of(frame) == Json::Array(jsons_of(items@)),
                    forall|j: int|
                        0 <= j < i ==> (#[trigger] messages@[j]).1 == items@[j] && kind_of_json(
                            json_of(items@[j]),
                        ) == Some(messages@[j].0),
                decreases items@.len() - i,
            {
                match message_kind(&items[i]) {
                    Some(kind) => {
                        messages.push((kind, items[i].clone()));
                    },
                    None => {
                        assert(kind_of_json(jsons_of(items@)[i as int]) is None);
                        return Err(
                            ArchipelagoError::FailedDeserialize {
                                json: text,
                                error: shape_error("a message is not marked as a known kind"),
                            },
                        );
                    },
                }
                i += 1;
            }
            assert forall|j: int| 0 <= j < jsons_of(items@).len() implies kind_of_json(
                #[trigger] jsons_of(items@)[j],
            ) is Some by {
                assert(messages@[j].1 == items@[j]);
            }
        },
        None => {
            match message_kind(&frame) {
                Some(kind) => {
                    messages.push((kind, frame));
                },
                None => {
                    assert(kind_of_json(frame_messages(json_of(frame))[0]) is None);
                    return Err(
                        ArchipelagoError::FailedDeserialize {
                            json: text,
                            error: shape_error("a message is not marked as a known kind"),
                        },
                    );
                },
            }
        },
    }
    Ok(messages)
}

/// Reads the text of a frame as a batch of messages: the text is read as a
/// JSON document, and the document as [`read_frame`] reads it. Text that is
/// not JSON, or that holds a message that is not marked as a kind, is an
/// error that holds the text.
pub fn decode_frame(text: String) -> (batch: Result<
    Vec<(ServerMessageKind, Value)>,
    ArchipelagoError,
>)
    ensures
        match batch {
            Ok(messages) => {
                &&& json_parse(text@) matches Some(frame)
                &&& messages@.len() == frame_messages(frame).len()
                &&& forall|i: int|
                    0 <= i < messages@.len() ==> json_of((#[trigger] messages@[i]).1)
                        == frame_messages(frame)[i] && kind_of_json(json_of(messages@[i].1))
                        == Some(messages@[i].0)
            },
            Err(error) => {
                &&& error matches ArchipelagoError::FailedDeserialize { json, .. }
                &&& json == text
                &&& match json_parse(text@) {
                    Some(frame) => !all_marked(frame_messages(frame)),
                    None => true,
                }
            },
        },
{
    match parse(text.as_str()) {
        Ok(frame) => read_frame(frame, text),
        Err(error) => Err(ArchipelagoError::FailedDeserialize { json: text, error }),
    }
}

/// Writes a batch of messages, each a JSON document, as the text of one
/// frame: always an array, also around a single message. A batch in which
/// every message is marked with a name is written; a batch with a message
/// that is not is refused.
pub fn encode_frame(messages: Vec<Value>) -> (text: Result<String, ArchipelagoError>)
    ensures
        text is Ok <==> all_tagged(jsons_of(messages@)),
        match text {
            Ok(text) => exists|frame: Value|
                json_of(frame) == Json::Array(jsons_of(messages@)) && text@ == json_text(frame),
            Err(error) => error is FailedSerialize,
        },
{
    let mut i: usize = 0;
    while i < messages.len()
        invariant
            i <= messages@.len(),
            forall|j: int| 0 <= j < i ==> cmd_of_json(#[trigger] jsons_of(messages@)[j]) is Some,
        decreases messages@.len() - i,
    {
        if message_cmd(&messages[i]).is_none() {
            assert(cmd_of_json(jsons_of(messages@)[i as int]) is None);
            return Err(
                ArchipelagoError::FailedSerialize(
                    shape_error("a message is not marked with a name"),
                ),
            );
        }
        i += 1;
    }
    let frame = array_value(messages);
    match print(&frame) {
        Ok(text) => Ok(text),
        Err(error) => Err(ArchipelagoError::FailedSerialize(error)),
    }
}

} // verus!
