//! The session with a server: what to do with each thing that arrives, and
//! which message to send for each request. The session reads and writes no
//! socket. Its caller does, and tells the session what came in.

use std::collections::VecDeque;
use vstd::prelude::*;
use vstd::string::StringExecFns;

pub mod buffer;
pub mod death_link_options;
pub mod frames;

use crate::client::buffer::{
    append_batch, lemma_position_of, next_message, recv_from, recv_step, select, take_kind,
    Progress,
};
use crate::client::death_link_options::{death_link_of, DeathLinkOptions};
use crate::client::frames::{all_tagged, cmd_of_json, encode_frame, Frame, NetworkFailure};
use crate::json::{error_text, json_error_text, json_of, json_text, jsons_of, Json};
use crate::protocol::bounce::{death_link_json, death_link_tag, listed_texts, texts_of};
use crate::protocol::data_package::DataPackageObject;
use crate::protocol::flags::ItemsHandlingFlags;
use crate::protocol::{
    network_version, ClientMessage, ClientStatus, Connect, Connected, DataStorageOperation, Get,
    GetDataPackage, LocationChecks, LocationInfo, LocationScouts, ReceivedItems, Retrieved,
    RoomInfo, Say, ServerMessage, ServerMessageKind, SetReply, SetRequest, StatusUpdate,
};
use serde_json::Value;

verus! {

/// What can go wrong in a session.
#[derive(Debug)]
pub enum ArchipelagoError {
    /// A message of one kind was required and one of another kind arrived.
    IllegalResponse { expected: &'static str, received: &'static str },
    /// The connection was closed.
    ConnectionClosed,
    /// A message could not be written as JSON.
    FailedSerialize(serde_json::Error),
    /// Text that arrived could not be read; `json` is that text.
    FailedDeserialize { json: String, error: serde_json::Error },
    /// A frame arrived that holds no text.
    NonTextWebsocketResult(Frame),
    /// The transport failed.
    NetworkError(NetworkFailure),
}

impl ArchipelagoError {
    /// The words in which the error reports itself.
    pub open spec fn spec_text(&self) -> Seq<char> {
        match self {
            ArchipelagoError::IllegalResponse { .. } => "illegal response"@,
            ArchipelagoError::ConnectionClosed => "connection closed by server"@,
            ArchipelagoError::FailedSerialize(error) => "data failed to serialize ("@
                + json_error_text(*error) + ")"@,
            ArchipelagoError::FailedDeserialize { json, error } =>
                "failed to deserialize server data ("@ + json_error_text(*error) + ")\n"@ + json@,
            ArchipelagoError::NonTextWebsocketResult(_) =>
                "unexpected non-text result from websocket"@,
            ArchipelagoError::NetworkError(_) => "network error"@,
        }
    }

    /// Returns the words in which the error reports itself.
    pub fn to_text(&self) -> (text: String)
        ensures
            text@ == self.spec_text(),
    {
        match self {
            ArchipelagoError::IllegalResponse { .. } => String::from_str("illegal response"),
            ArchipelagoError::ConnectionClosed => String::from_str("connection closed by server"),
            ArchipelagoError::FailedSerialize(error) => {
                let mut text = String::from_str("data failed to serialize (");
                text.append(error_text(error).as_str());
                text.append(")");
                text
            },
            ArchipelagoError::FailedDeserialize { json, error } => {
                let mut text = String::from_str("failed to deserialize server data (");
                text.append(error_text(error).as_str());
                text.append(")\n");
                text.append(json.as_str());
                text
            },
            ArchipelagoError::NonTextWebsocketResult(_) => String::from_str(
                "unexpected non-text result from websocket",
            ),
            ArchipelagoError::NetworkError(_) => String::from_str("network error"),
        }
    }
}

/// The two ways to reach a server.
#[derive(Debug, Clone, Copy, PartialEq, Eq, Structural)]
pub enum Transport {
    /// An encrypted connection, which is tried first.
    Secure,
    /// A connection without encryption.
    Plain,
}

impl Transport {
    /// The prefix of the addresses of this transport.
    pub open spec fn spec_scheme(self) -> Seq<char> {
        match self {
            Transport::Secure => "wss://"@,
            Transport::Plain => "ws://"@,
        }
    }

    /// Returns the address to connect to: the scheme of the transport
    /// before the address of the server.
    pub fn url(self, address: &str) -> (url: String)
        ensures
            url@ == self.spec_scheme() + address@,
    {
        let mut url = match self {
            Transport::Secure => String::from_str("wss://"),
            Transport::Plain => String::from_str("ws://"),
        };
        url.append(address);
        url
    }

    /// Decides what follows a failed attempt to connect. Where the
    /// encrypted handshake failed in the encryption layer, the connection
    /// is tried once more without encryption. Every other failure ends the
    /// attempt with a network error that holds the failure.
    pub fn after_failure(self, failure: NetworkFailure) -> (next: Result<
        Transport,
        ArchipelagoError,
    >)
        ensures
            next == (if self == Transport::Secure && failure.encryption {
                Ok::<Transport, ArchipelagoError>(Transport::Plain)
            } else {
                Err(ArchipelagoError::NetworkError(failure))
            }),
    {
        match self {
            Transport::Secure => {
                if failure.encryption {
                    Ok(Transport::Plain)
                } else {
                    Err(ArchipelagoError::NetworkError(failure))
                }
            },
            Transport::Plain => Err(ArchipelagoError::NetworkError(failure)),
        }
    }
}

/// Returns the error for a message of the wrong kind.
fn illegal_response<S>(expected: &'static str, received: &ServerMessage<S>) -> (error:
    ArchipelagoError)
    ensures
        error matches ArchipelagoError::IllegalResponse { expected: wanted, received: got }
            && wanted == expected && got@ == received.spec_kind().spec_name(),
{
    ArchipelagoError::IllegalResponse { expected, received: received.kind_name() }
}

/// The request to join a slot.
fn connect_message(
    game: &str,
    name: &str,
    password: Option<&str>,
    items_handling: ItemsHandlingFlags,
    tags: Vec<String>,
) -> (message: ClientMessage)
    ensures
        message matches ClientMessage::Connect(connect) && {
            &&& connect.game@ == game@
            &&& connect.name@ == name@
            &&& connect.uuid@ == Seq::<char>::empty()
            &&& match password {
                Some(password) => connect.password matches Some(sent) && sent@ == password@,
                None => connect.password is None,
            }
            &&& connect.version.major == 0
            &&& connect.version.minor == 6
            &&& connect.version.build == 0
            &&& connect.version.class@ == "Version"@
            &&& connect.items_handling == ItemsHandlingFlags::spec_normalized_bits(
                items_handling.spec_bits(),
            )
            &&& connect.tags == tags
            &&& connect.slot_data
        },
{
    let password = match password {
        Some(password) => Some(String::from_str(password)),
        None => None,
    };
    ClientMessage::Connect(
        Connect {
            game: String::from_str(game),
            name: String::from_str(name),
            uuid: String::new(),
            password,
            version: network_version(),
            items_handling: items_handling.normalized().bits(),
            tags,
            slot_data: true,
        },
    )
}

/// The message that says `text` in the chat.
fn say_message(text: &str) -> (message: ClientMessage)
    ensures
        message matches ClientMessage::Say(say) && say.text@ == text@,
{
    ClientMessage::Say(Say { text: String::from_str(text) })
}

/// The message that forwards `data` to the clients that the games, slots
/// and tags describe.
fn bounce_message(
    games: Option<Vec<String>>,
    slots: Option<Vec<String>>,
    tags: Option<Vec<String>>,
    data: Value,
) -> (message: ClientMessage)
    ensures
        message == ClientMessage::Bounce(crate::protocol::Bounce { games, slots, tags, data }),
{
    ClientMessage::Bounce(crate::protocol::Bounce { games, slots, tags, data })
}

/// The message that tells the players who share deaths of a death.
fn death_link_message(options: DeathLinkOptions, now: i64, slot_name: &str) -> (message:
    ClientMessage)
    ensures
        message matches ClientMessage::Bounce(bounce) && {
            &&& listed_texts(bounce.games) == listed_texts(options.spec_games())
            &&& listed_texts(bounce.slots) == listed_texts(options.spec_slots())
            &&& listed_texts(bounce.tags) == Some(seq![death_link_tag()])
            &&& json_of(bounce.data) == death_link_json(death_link_of(options, now, slot_name@))
        },
{
    let bounce = options.into_bounce(now, slot_name);
    let wire = bounce.to_wire();
    proof {
        assert(texts_of(bounce.tags@) =~= Seq::<Seq<char>>::empty());
        assert(Seq::<Seq<char>>::empty().push(death_link_tag()) =~= seq![death_link_tag()]);
    }
    ClientMessage::Bounce(wire)
}

/// The session with a server whose room is known. It holds what the server
/// announced of the room, the messages that arrived and were not yet
/// received, oldest first, and the data package once it was fetched.
///
/// `S` is the shape in which the caller wants the slot data.
pub struct ArchipelagoClient<S> {
    room_info: RoomInfo,
    message_buffer: VecDeque<ServerMessage<S>>,
    data_package: Option<DataPackageObject>,
    closed: bool,
    joined: bool,
}

/// The half of a session that sends. It holds a copy of what the session
/// knew of the room and of its data package when it was parted.
pub struct ArchipelagoClientSender {
    room_info: RoomInfo,
    data_package: Option<DataPackageObject>,
}

/// The half of a session that receives. It holds what the session held.
pub struct ArchipelagoClientReceiver<S> {
    room_info: RoomInfo,
    message_buffer: VecDeque<ServerMessage<S>>,
    data_package: Option<DataPackageObject>,
    closed: bool,
}

impl<S> ArchipelagoClient<S> {
    /// What the server announced of the room.
    pub closed spec fn spec_room_info(&self) -> RoomInfo {
        self.room_info
    }

    /// The messages that arrived and were not yet received, oldest first.
    pub closed spec fn spec_buffer(&self) -> Seq<ServerMessage<S>> {
        self.message_buffer@
    }

    /// The data package, once it was fetched.
    pub closed spec fn spec_data_package(&self) -> Option<DataPackageObject> {
        self.data_package
    }

    /// Whether the transport has ended.
    pub closed spec fn spec_closed(&self) -> bool {
        self.closed
    }

    /// Whether the session has joined a slot.
    pub closed spec fn spec_joined(&self) -> bool {
        self.joined
    }

    /// Begins a session from what the transport delivered first.
    ///
    /// The first message must be the server's announcement of the room. The
    /// session then holds it, and holds the messages that came with it in
    /// its buffer, in their order. Any other first message is refused, with
    /// its kind named. Where the transport ended or delivered no message,
    /// the connection counts as closed. A failed read is passed on.
    pub fn new(first: Option<Result<Vec<ServerMessage<S>>, ArchipelagoError>>) -> (session: Result<
        ArchipelagoClient<S>,
        ArchipelagoError,
    >)
        ensures
            match first {
                None => session matches Err(ArchipelagoError::ConnectionClosed),
                Some(Err(error)) => session matches Err(passed) && passed == error,
                Some(Ok(batch)) => if batch@.len() == 0 {
                    session matches Err(ArchipelagoError::ConnectionClosed)
                } else {
                    match batch@[0] {
                        ServerMessage::RoomInfo(room) => {
                            &&& session matches Ok(client)
                            &&& client.spec_room_info() == room
                            &&& client.spec_buffer() == batch@.skip(1)
                            &&& client.spec_data_package() is None
                            &&& !client.spec_closed()
                            &&& !client.spec_joined()
                        },
                        other => {
                            &&& session matches Err(
                                ArchipelagoError::IllegalResponse { expected, received },
                            )
                            &&& expected@ == "RoomInfo"@
                            &&& received@ == other.spec_kind().spec_name()
                        },
                    }
                },
            },
    {
        let mut batch = match first {
            None => {
                return Err(ArchipelagoError::ConnectionClosed);
            },
            Some(Err(error)) => {
                return Err(error);
            },
            Some(Ok(batch)) => batch,
        };
        if batch.len() == 0 {
            return Err(ArchipelagoError::ConnectionClosed);
        }
        let ghost all = batch@;
        let first = batch.remove(0);
        assert(batch@ =~= all.skip(1));
        match first {
            ServerMessage::RoomInfo(room_info) => {
                let mut message_buffer = VecDeque::new();
                append_batch(&mut message_buffer, batch);
                assert(message_buffer@ =~= all.skip(1));
                Ok(
                    ArchipelagoClient {
                        room_info,
                        message_buffer,
                        data_package: None,
                        closed: false,
                        joined: false,
                    },
                )
            },
            received => Err(illegal_response("RoomInfo", &received)),
        }
    }

    /// Returns what the server announced of the room.
    pub fn room_info(&self) -> (room_info: &RoomInfo)
        ensures
            *room_info == self.spec_room_info(),
    {
        &self.room_info
    }

    /// Returns the data package, once it was fetched.
    pub fn data_package(&self) -> (data_package: Option<&DataPackageObject>)
        ensures
            match data_package {
                Some(held) => self.spec_data_package() == Some(*held),
                None => self.spec_data_package() is None,
            },
    {
        self.data_package.as_ref()
    }

    /// Tells whether the session has joined a slot.
    pub fn is_joined(&self) -> (joined: bool)
        ensures
            joined == self.spec_joined(),
    {
        self.joined
    }

    /// Takes in what the transport delivered. A batch of messages goes
    /// behind the messages of the buffer, in its order. The end of the
    /// stream is noted. A failed read changes nothing and is passed on.
    pub fn deliver(
        &mut self,
        inbound: Option<Result<Vec<ServerMessage<S>>, ArchipelagoError>>,
    ) -> (taken: Result<(), ArchipelagoError>)
        ensures
            final(self).spec_room_info() == old(self).spec_room_info(),
            final(self).spec_data_package() == old(self).spec_data_package(),
            final(self).spec_joined() == old(self).spec_joined(),
            match inbound {
                Some(Ok(batch)) => {
                    &&& taken is Ok
                    &&& final(self).spec_buffer() == old(self).spec_buffer() + batch@
                    &&& final(self).spec_closed() == old(self).spec_closed()
                },
                Some(Err(error)) => {
                    &&& taken == Err::<(), ArchipelagoError>(error)
                    &&& final(self).spec_buffer() == old(self).spec_buffer()
                    &&& final(self).spec_closed() == old(self).spec_closed()
                },
                None => {
                    &&& taken is Ok
                    &&& final(self).spec_buffer() == old(self).spec_buffer()
                    &&& final(self).spec_closed()
                },
            },
    {
        match inbound {
            Some(Ok(batch)) => {
                append_batch(&mut self.message_buffer, batch);
                Ok(())
            },
            Some(Err(error)) => Err(error),
            None => {
                self.closed = true;
                Ok(())
            },
        }
    }

    /// Returns the text of the frame that carries `message`, a message
    /// written as a JSON document: an array around the one message. A
    /// message that is marked with a name is written; one that is not is
    /// refused.
    pub fn send(&self, message: Value) -> (text: Result<String, ArchipelagoError>)
        ensures
            text is Ok <==> cmd_of_json(json_of(message)) is Some,
            match text {
                Ok(text) => exists|frame: Value|
                    json_of(frame) == Json::Array(seq![json_of(message)]) && text@ == json_text(
                        frame,
                    ),
                Err(error) => error is FailedSerialize,
            },
    {
        let mut messages: Vec<Value> = Vec::new();
        messages.push(message);
        proof {
            let jsons = jsons_of(messages@);
            assert(jsons =~= seq![json_of(message)]);
            assert(jsons[0] == json_of(message));
            assert(all_tagged(jsons) <==> cmd_of_json(json_of(message)) is Some);
        }
        encode_frame(messages)
    }

    /// Returns the next message: the oldest of the buffer. With an empty
    /// buffer the caller is told to wait, or, where the transport has
    /// ended, that there is no message any more.
    pub fn recv(&mut self) -> (progress: Progress<Option<ServerMessage<S>>>)
        ensures
            (progress, final(self).spec_buffer()) == recv_step(
                old(self).spec_buffer(),
                old(self).spec_closed(),
            ),
            final(self).spec_room_info() == old(self).spec_room_info(),
            final(self).spec_data_package() == old(self).spec_data_package(),
            final(self).spec_closed() == old(self).spec_closed(),
            final(self).spec_joined() == old(self).spec_joined(),
    {
        recv_from(&mut self.message_buffer, self.closed)
    }

    /// Returns the request to join a slot: for the game and the player's
    /// name, with the password if there is one, the protocol version of
    /// this client, the items to be sent (completed as
    /// [`ItemsHandlingFlags::normalized`] says) and the tags, and with the
    /// wish for the slot data.
    pub fn connect(
        &self,
        game: &str,
        name: &str,
        password: Option<&str>,
        items_handling: ItemsHandlingFlags,
        tags: Vec<String>,
    ) -> (message: ClientMessage)
        ensures
            message matches ClientMessage::Connect(connect) && {
                &&& connect.game@ == game@
                &&& connect.name@ == name@
                &&& connect.uuid@ == Seq::<char>::empty()
                &&& match password {
                    Some(password) => connect.password matches Some(sent) && sent@ == password@,
                    None => connect.password is None,
                }
                &&& connect.version.major == 0
                &&& connect.version.minor == 6
                &&& connect.version.build == 0
                &&& connect.version.class@ == "Version"@
                &&& connect.items_handling == ItemsHandlingFlags::spec_normalized_bits(
                    items_handling.spec_bits(),
                )
                &&& connect.tags == tags
                &&& connect.slot_data
            },
    {
        connect_message(game, name, password, items_handling, tags)
    }

    /// Answers the request to join a slot from the next message. The
    /// server's acceptance is returned, and the session has then joined. A
    /// message of any other kind is taken from the buffer and refused, with
    /// its kind named. With an empty buffer the caller is told to wait, or,
    /// where the transport has ended, that the connection is closed.
    pub fn connect_reply(&mut self) -> (progress: Progress<Result<Connected<S>, ArchipelagoError>>)
        ensures
            final(self).spec_room_info() == old(self).spec_room_info(),
            final(self).spec_data_package() == old(self).spec_data_package(),
            final(self).spec_closed() == old(self).spec_closed(),
            final(self).spec_buffer() == next_message(old(self).spec_buffer()).1,
            match next_message(old(self).spec_buffer()).0 {
                Some(ServerMessage::Connected(connected)) => {
                    &&& progress == Progress::Done(
                        Ok::<Connected<S>, ArchipelagoError>(connected),
                    )
                    &&& final(self).spec_joined()
                },
                Some(other) => {
                    &&& progress matches Progress::Done(
                        Err(ArchipelagoError::IllegalResponse { expected, received }),
                    )
                    &&& expected@ == "Connected"@
                    &&& received@ == other.spec_kind().spec_name()
                    &&& final(self).spec_joined() == old(self).spec_joined()
                },
                None => {
                    &&& final(self).spec_joined() == old(self).spec_joined()
                    &&& if old(self).spec_closed() {
                        progress matches Progress::Done(Err(ArchipelagoError::ConnectionClosed))
                    } else {
                        progress is Waiting
                    }
                },
            },
    {
        match self.message_buffer.pop_front() {
            Some(ServerMessage::Connected(connected)) => {
                self.joined = true;
                Progress::Done(Ok(connected))
            },
            Some(received) => Progress::Done(Err(illegal_response("Connected", &received))),
            None => if self.closed {
                Progress::Done(Err(ArchipelagoError::ConnectionClosed))
            } else {
                Progress::Waiting
            },
        }
    }

    /// Returns the message that says `message` in the chat.
    pub fn say(&self, message: &str) -> (request: ClientMessage)
        ensures
            request matches ClientMessage::Say(say) && say.text@ == message@,
    {
        say_message(message)
    }

    /// Returns the request for the items that the client has received.
    pub fn sync(&self) -> (request: ClientMessage)
        ensures
            request is Sync,
    {
        ClientMessage::Sync
    }

    /// Answers the request for the received items by a selective wait: the
    /// oldest message of that kind is taken from the buffer, and the
    /// messages of other kinds stay, in their order. Without such a message
    /// the caller is told to wait, or, where the transport has ended, that
    /// the connection is closed.
    pub fn sync_reply(&mut self) -> (progress: Progress<Result<ReceivedItems, ArchipelagoError>>)
        ensures
            final(self).spec_room_info() == old(self).spec_room_info(),
            final(self).spec_data_package() == old(self).spec_data_package(),
            final(self).spec_closed() == old(self).spec_closed(),
            final(self).spec_joined() == old(self).spec_joined(),
            final(self).spec_buffer() == select(
                old(self).spec_buffer(),
                ServerMessageKind::ReceivedItems,
            ).1,
            match select(old(self).spec_buffer(), ServerMessageKind::ReceivedItems).0 {
                Some(message) => progress matches Progress::Done(Ok(items)) && message
                    == ServerMessage::<S>::ReceivedItems(items),
                None => if old(self).spec_closed() {
                    progress matches Progress::Done(Err(ArchipelagoError::ConnectionClosed))
                } else {
                    progress is Waiting
                },
            },
    {
        proof {
            lemma_position_of(self.message_buffer@, ServerMessageKind::ReceivedItems);
        }
        match take_kind(&mut self.message_buffer, ServerMessageKind::ReceivedItems) {
            Some(ServerMessage::ReceivedItems(items)) => Progress::Done(Ok(items)),
            _ => if self.closed {
                Progress::Done(Err(ArchipelagoError::ConnectionClosed))
            } else {
                Progress::Waiting
            },
        }
    }

    /// Returns the report of the locations that the client has checked.
    pub fn location_checks(&self, locations: Vec<i64>) -> (request: ClientMessage)
        ensures
            request == ClientMessage::LocationChecks(LocationChecks { locations }),
    {
        ClientMessage::LocationChecks(LocationChecks { locations })
    }

    /// Returns the request to learn what lies at the locations.
    pub fn location_scouts(&self, locations: Vec<i64>, create_as_hint: u8) -> (request:
        ClientMessage)
        ensures
            request == ClientMessage::LocationScouts(LocationScouts { locations, create_as_hint }),
    {
        ClientMessage::LocationScouts(LocationScouts { locations, create_as_hint })
    }

    /// Answers the request to scout locations by a selective wait, as
    /// [`ArchipelagoClient::sync_reply`] does for its kind.
    pub fn location_scouts_reply(&mut self) -> (progress: Progress<
        Result<LocationInfo, ArchipelagoError>,
    >)
        ensures
            final(self).spec_room_info() == old(self).spec_room_info(),
            final(self).spec_data_package() == old(self).spec_data_package(),
            final(self).spec_closed() == old(self).spec_closed(),
            final(self).spec_joined() == old(self).spec_joined(),
            final(self).spec_buffer() == select(
                old(self).spec_buffer(),
                ServerMessageKind::LocationInfo,
            ).1,
            match select(old(self).spec_buffer(), ServerMessageKind::LocationInfo).0 {
                Some(message) => progress matches Progress::Done(Ok(info)) && message
                    == ServerMessage::<S>::LocationInfo(info),
                None => if old(self).spec_closed() {
                    progress matches Progress::Done(Err(ArchipelagoError::ConnectionClosed))
                } else {
                    progress is Waiting
                },
            },
    {
        proof {
            lemma_position_of(self.message_buffer@, ServerMessageKind::LocationInfo);
        }
        match take_kind(&mut self.message_buffer, ServerMessageKind::LocationInfo) {
            Some(ServerMessage::LocationInfo(info)) => Progress::Done(Ok(info)),
            _ => if self.closed {
                Progress::Done(Err(ArchipelagoError::ConnectionClosed))
            } else {
                Progress::Waiting
            },
        }
    }

    /// Returns the report of where the client stands in its game.
    pub fn status_update(&self, status: ClientStatus) -> (request: ClientMessage)
        ensures
            request == ClientMessage::StatusUpdate(StatusUpdate { status }),
    {
        ClientMessage::StatusUpdate(StatusUpdate { status })
    }

    /// Returns the message that forwards `data` to the clients that the
    /// games, slots and tags describe.
    pub fn bounce(
        &self,
        games: Option<Vec<String>>,
        slots: Option<Vec<String>>,
        tags: Option<Vec<String>>,
        data: Value,
    ) -> (request: ClientMessage)
        ensures
            request == ClientMessage::Bounce(crate::protocol::Bounce { games, slots, tags, data }),
    {
        bounce_message(games, slots, tags, data)
    }

    /// Returns the message that tells the players who share deaths of a
    /// death. The time is that of the options, or else `now`; the player who
    /// died is that of the options, or else `slot_name`. The message
    /// travels with the tag `DeathLink`.
    pub fn death_link(&self, options: DeathLinkOptions, now: i64, slot_name: &str) -> (request:
        ClientMessage)
        ensures
            request matches ClientMessage::Bounce(bounce) && {
                &&& listed_texts(bounce.games) == listed_texts(options.spec_games())
                &&& listed_texts(bounce.slots) == listed_texts(options.spec_slots())
                &&& listed_texts(bounce.tags) == Some(seq![death_link_tag()])
                &&& json_of(bounce.data) == death_link_json(
                    death_link_of(options, now, slot_name@),
                )
            },
    {
        death_link_message(options, now, slot_name)
    }

    /// Returns the request to read keys of the shared storage.
    pub fn get(&self, keys: Vec<String>) -> (request: ClientMessage)
        ensures
            request == ClientMessage::Get(Get { keys }),
    {
        ClientMessage::Get(Get { keys })
    }

    /// Answers the request to read keys by a selective wait, as
    /// [`ArchipelagoClient::sync_reply`] does for its kind.
    pub fn get_reply(&mut self) -> (progress: Progress<Result<Retrieved, ArchipelagoError>>)
        ensures
            final(self).spec_room_info() == old(self).spec_room_info(),
            final(self).spec_data_package() == old(self).spec_data_package(),
            final(self).spec_closed() == old(self).spec_closed(),
            final(self).spec_joined() == old(self).spec_joined(),
            final(self).spec_buffer() == select(
                old(self).spec_buffer(),
                ServerMessageKind::Retrieved,
            ).1,
            match select(old(self).spec_buffer(), ServerMessageKind::Retrieved).0 {
                Some(message) => progress matches Progress::Done(Ok(retrieved)) && message
                    == ServerMessage::<S>::Retrieved(retrieved),
                None => if old(self).spec_closed() {
                    progress matches Progress::Done(Err(ArchipelagoError::ConnectionClosed))
                } else {
                    progress is Waiting
                },
            },
    {
        proof {
            lemma_position_of(self.message_buffer@, ServerMessageKind::Retrieved);
        }
        match take_kind(&mut self.message_buffer, ServerMessageKind::Retrieved) {
            Some(ServerMessage::Retrieved(retrieved)) => Progress::Done(Ok(retrieved)),
            _ => if self.closed {
                Progress::Done(Err(ArchipelagoError::ConnectionClosed))
            } else {
                Progress::Waiting
            },
        }
    }

    /// Returns the request to change a key of the shared storage.
    pub fn set(
        &self,
        key: String,
        default: Value,
        want_reply: bool,
        operations: Vec<DataStorageOperation>,
    ) -> (request: ClientMessage)
        ensures
            request == ClientMessage::SetRequest(
                SetRequest { key, default, want_reply, operations },
            ),
    {
        ClientMessage::SetRequest(SetRequest { key, default, want_reply, operations })
    }

    /// Answers the request to change a key by a selective wait, as
    /// [`ArchipelagoClient::sync_reply`] does for its kind.
    pub fn set_reply(&mut self) -> (progress: Progress<Result<SetReply, ArchipelagoError>>)
        ensures
            final(self).spec_room_info() == old(self).spec_room_info(),
            final(self).spec_data_package() == old(self).spec_data_package(),
            final(self).spec_closed() == old(self).spec_closed(),
            final(self).spec_joined() == old(self).spec_joined(),
            final(self).spec_buffer() == select(
                old(self).spec_buffer(),
                ServerMessageKind::SetReply,
            ).1,
            match select(old(self).spec_buffer(), ServerMessageKind::SetReply).0 {
                Some(message) => progress matches Progress::Done(Ok(reply)) && message
                    == ServerMessage::<S>::SetReply(reply),
                None => if old(self).spec_closed() {
                    progress matches Progress::Done(Err(ArchipelagoError::ConnectionClosed))
                } else {
                    progress is Waiting
                },
            },
    {
        proof {
            lemma_position_of(self.message_buffer@, ServerMessageKind::SetReply);
        }
        match take_kind(&mut self.message_buffer, ServerMessageKind::SetReply) {
            Some(ServerMessage::SetReply(reply)) => Progress::Done(Ok(reply)),
            _ => if self.closed {
                Progress::Done(Err(ArchipelagoError::ConnectionClosed))
            } else {
                Progress::Waiting
            },
        }
    }

    /// Returns the request for the data package of `games`. Where no games
    /// are given, the request names none, and the server answers with the
    /// package of every game of the room.
    pub fn with_data_package(&self, games: Option<Vec<String>>) -> (request: ClientMessage)
        ensures
            request == ClientMessage::GetDataPackage(GetDataPackage { games }),
    {
        ClientMessage::GetDataPackage(GetDataPackage { games })
    }

    /// Answers the request for the data package by a selective wait: the
    /// oldest data package of the buffer is taken from it and kept by the
    /// session, in place of the one that it held; the messages of other
    /// kinds stay, in their order. Without a data package in the buffer the
    /// caller is told to wait, or, where the transport has ended, that the
    /// connection is closed.
    pub fn with_data_package_reply(&mut self) -> (progress: Progress<Result<(), ArchipelagoError>>)
        ensures
            final(self).spec_room_info() == old(self).spec_room_info(),
            final(self).spec_closed() == old(self).spec_closed(),
            final(self).spec_joined() == old(self).spec_joined(),
            final(self).spec_buffer() == select(
                old(self).spec_buffer(),
                ServerMessageKind::DataPackage,
            ).1,
            match select(old(self).spec_buffer(), ServerMessageKind::DataPackage).0 {
                Some(message) => {
                    &&& progress matches Progress::Done(Ok(_))
                    &&& final(self).spec_data_package() matches Some(data)
                    &&& message == ServerMessage::<S>::DataPackage(
                        crate::protocol::DataPackage { data },
                    )
                },
                None => {
                    &&& final(self).spec_data_package() == old(self).spec_data_package()
                    &&& if old(self).spec_closed() {
                        progress matches Progress::Done(Err(ArchipelagoError::ConnectionClosed))
                    } else {
                        progress is Waiting
                    }
                },
            },
    {
        proof {
            lemma_position_of(self.message_buffer@, ServerMessageKind::DataPackage);
        }
        match take_kind(&mut self.message_buffer, ServerMessageKind::DataPackage) {
            Some(ServerMessage::DataPackage(package)) => {
                self.data_package = Some(package.data);
                Progress::Done(Ok(()))
            },
            _ => if self.closed {
                Progress::Done(Err(ArchipelagoError::ConnectionClosed))
            } else {
                Progress::Waiting
            },
        }
    }

    /// Parts the session into a half that sends and a half that receives.
    /// The receiving half holds what the session held: the room, the
    /// buffer with its messages in their order, and the data package. The
    /// sending half holds a copy of the room and of the data package.
    pub fn split(self) -> (halves: (ArchipelagoClientSender, ArchipelagoClientReceiver<S>))
        ensures
            halves.1.spec_room_info() == self.spec_room_info(),
            halves.1.spec_buffer() == self.spec_buffer(),
            halves.1.spec_data_package() == self.spec_data_package(),
            halves.1.spec_closed() == self.spec_closed(),
            halves.0.spec_room_info().spec_same(&self.spec_room_info()),
            match self.spec_data_package() {
                Some(held) => halves.0.spec_data_package() matches Some(copy) && copy@ == held@,
                None => halves.0.spec_data_package() is None,
            },
    {
        let ArchipelagoClient { room_info, message_buffer, data_package, closed, joined: _ } = self;
        let sender = ArchipelagoClientSender {
            room_info: room_info.copy(),
            data_package: match &data_package {
                Some(held) => Some(held.copy()),
                None => None,
            },
        };
        (sender, ArchipelagoClientReceiver { room_info, message_buffer, data_package, closed })
    }

    /// Returns the data package for use and change, once it was fetched:
    /// the session holds it as the caller leaves it.
    pub fn data_package_mut(&mut self) -> (data_package: Option<&mut DataPackageObject>)
        ensures
            final(self).spec_room_info() == old(self).spec_room_info(),
            final(self).spec_buffer() == old(self).spec_buffer(),
            final(self).spec_closed() == old(self).spec_closed(),
            final(self).spec_joined() == old(self).spec_joined(),
            match old(self).spec_data_package() {
                Some(held) => {
                    &&& data_package is Some
                    &&& *data_package.unwrap() == held
                    &&& final(self).spec_data_package() == Some(*final(data_package.unwrap()))
                },
                None => data_package is None && final(self).spec_data_package() is None,
            },
    {
        self.data_package.as_mut()
    }
}

impl ArchipelagoClientSender {
    /// What the session knew of the room when it was parted.
    pub closed spec fn spec_room_info(&self) -> RoomInfo {
        self.room_info
    }

    /// The data package that the session held when it was parted.
    pub closed spec fn spec_data_package(&self) -> Option<DataPackageObject> {
        self.data_package
    }

    /// Returns what the session knew of the room when it was parted.
    pub fn room_info(&self) -> (room_info: &RoomInfo)
        ensures
            *room_info == self.spec_room_info(),
    {
        &self.room_info
    }

    /// Returns the data package that the session held when it was parted.
    pub fn data_package(&self) -> (data_package: Option<&DataPackageObject>)
        ensures
            match data_package {
                Some(held) => self.spec_data_package() == Some(*held),
                None => self.spec_data_package() is None,
            },
    {
        self.data_package.as_ref()
    }

    /// Returns the data package for use and change: the half holds it as
    /// the caller leaves it.
    pub fn data_package_mut(&mut self) -> (data_package: Option<&mut DataPackageObject>)
        ensures
            final(self).spec_room_info() == old(self).spec_room_info(),
            match old(self).spec_data_package() {
                Some(held) => {
                    &&& data_package is Some
                    &&& *data_package.unwrap() == held
                    &&& final(self).spec_data_package() == Some(*final(data_package.unwrap()))
                },
                None => data_package is None && final(self).spec_data_package() is None,
            },
    {
        self.data_package.as_mut()
    }

    /// Returns the text of the frame that carries `message`, a message
    /// written as a JSON document: an array around the one message. A
    /// message that is marked with a name is written; one that is not is
    /// refused.
    pub fn send(&self, message: Value) -> (text: Result<String, ArchipelagoError>)
        ensures
            text is Ok <==> cmd_of_json(json_of(message)) is Some,
            match text {
                Ok(text) => exists|frame: Value|
                    json_of(frame) == Json::Array(seq![json_of(message)]) && text@ == json_text(
                        frame,
                    ),
                Err(error) => error is FailedSerialize,
            },
    {
        let mut messages: Vec<Value> = Vec::new();
        messages.push(message);
        proof {
            let jsons = jsons_of(messages@);
            assert(jsons =~= seq![json_of(message)]);
            assert(jsons[0] == json_of(message));
            assert(all_tagged(jsons) <==> cmd_of_json(json_of(message)) is Some);
        }
        encode_frame(messages)
    }

    /// Returns the message that says `message` in the chat.
    pub fn say(&self, message: &str) -> (request: ClientMessage)
        ensures
            request matches ClientMessage::Say(say) && say.text@ == message@,
    {
        say_message(message)
    }

    /// Returns the report of the locations that the client has checked.
    pub fn location_checks(&self, locations: Vec<i64>) -> (request: ClientMessage)
        ensures
            request == ClientMessage::LocationChecks(LocationChecks { locations }),
    {
        ClientMessage::LocationChecks(LocationChecks { locations })
    }

    /// Returns the report of where the client stands in its game.
    pub fn status_update(&self, status: ClientStatus) -> (request: ClientMessage)
        ensures
            request == ClientMessage::StatusUpdate(StatusUpdate { status }),
    {
        ClientMessage::StatusUpdate(StatusUpdate { status })
    }

    /// Returns the message that forwards `data` to the clients that the
    /// games, slots and tags describe.
    pub fn bounce(
        &self,
        games: Option<Vec<String>>,
        slots: Option<Vec<String>>,
        tags: Option<Vec<String>>,
        data: Value,
    ) -> (request: ClientMessage)
        ensures
            request == ClientMessage::Bounce(crate::protocol::Bounce { games, slots, tags, data }),
    {
        bounce_message(games, slots, tags, data)
    }
}

impl<S> ArchipelagoClientReceiver<S> {
    /// What the server announced of the room.
    pub closed spec fn spec_room_info(&self) -> RoomInfo {
        self.room_info
    }

    /// The messages that arrived and were not yet received, oldest first.
    pub closed spec fn spec_buffer(&self) -> Seq<ServerMessage<S>> {
        self.message_buffer@
    }

    /// The data package, if the session had fetched it.
    pub closed spec fn spec_data_package(&self) -> Option<DataPackageObject> {
        self.data_package
    }

    /// Whether the transport has ended.
    pub closed spec fn spec_closed(&self) -> bool {
        self.closed
    }

    /// Returns what the server announced of the room.
    pub fn room_info(&self) -> (room_info: &RoomInfo)
        ensures
            *room_info == self.spec_room_info(),
    {
        &self.room_info
    }

    /// Returns the data package, if the session had fetched it.
    pub fn data_package(&self) -> (data_package: Option<&DataPackageObject>)
        ensures
            match data_package {
                Some(held) => self.spec_data_package() == Some(*held),
                None => self.spec_data_package() is None,
            },
    {
        self.data_package.as_ref()
    }

    /// Returns the data package for use and change: the half holds it as
    /// the caller leaves it.
    pub fn data_package_mut(&mut self) -> (data_package: Option<&mut DataPackageObject>)
        ensures
            final(self).spec_room_info() == old(self).spec_room_info(),
            final(self).spec_buffer() == old(self).spec_buffer(),
            final(self).spec_closed() == old(self).spec_closed(),
            match old(self).spec_data_package() {
                Some(held) => {
                    &&& data_package is Some
                    &&& *data_package.unwrap() == held
                    &&& final(self).spec_data_package() == Some(*final(data_package.unwrap()))
                },
                None => data_package is None && final(self).spec_data_package() is None,
            },
    {
        self.data_package.as_mut()
    }

    /// Takes in what the transport delivered, as
    /// [`ArchipelagoClient::deliver`] does.
    pub fn deliver(
        &mut self,
        inbound: Option<Result<Vec<ServerMessage<S>>, ArchipelagoError>>,
    ) -> (taken: Result<(), ArchipelagoError>)
        ensures
            final(self).spec_room_info() == old(self).spec_room_info(),
            final(self).spec_data_package() == old(self).spec_data_package(),
            match inbound {
                Some(Ok(batch)) => {
                    &&& taken is Ok
                    &&& final(self).spec_buffer() == old(self).spec_buffer() + batch@
                    &&& final(self).spec_closed() == old(self).spec_closed()
                },
                Some(Err(error)) => {
                    &&& taken == Err::<(), ArchipelagoError>(error)
                    &&& final(self).spec_buffer() == old(self).spec_buffer()
                    &&& final(self).spec_closed() == old(self).spec_closed()
                },
                None => {
                    &&& taken is Ok
                    &&& final(self).spec_buffer() == old(self).spec_buffer()
                    &&& final(self).spec_closed()
                },
            },
    {
        match inbound {
            Some(Ok(batch)) => {
                append_batch(&mut self.message_buffer, batch);
                Ok(())
            },
            Some(Err(error)) => Err(error),
            None => {
                self.closed = true;
                Ok(())
            },
        }
    }

    /// Returns the next message, as [`ArchipelagoClient::recv`] does.
    pub fn recv(&mut self) -> (progress: Progress<Option<ServerMessage<S>>>)
        ensures
            (progress, final(self).spec_buffer()) == recv_step(
                old(self).spec_buffer(),
                old(self).spec_closed(),
            ),
            final(self).spec_room_info() == old(self).spec_room_info(),
            final(self).spec_data_package() == old(self).spec_data_package(),
            final(self).spec_closed() == old(self).spec_closed(),
    {
        recv_from(&mut self.message_buffer, self.closed)
    }
}

} // verus!
