use archipelago_rs::client::frames::{
    decode_frame, encode_frame, message_cmd, message_kind, read_frame, recv_messages, Frame,
    NetworkFailure, Reading,
};
use archipelago_rs::client::{ArchipelagoClient, ArchipelagoError, Transport};
use archipelago_rs::protocol::{RoomInfo, ServerMessage, ServerMessageKind};
use serde_json::Value;

fn document(text: &str) -> Value {
    serde_json::from_str(text).unwrap()
}

fn failure(encryption: bool) -> NetworkFailure {
    NetworkFailure { encryption, detail: "handshake".to_string() }
}

#[test]
fn urls_carry_the_scheme_of_the_transport() {
    assert_eq!(Transport::Secure.url("archipelago.gg:38281"), "wss://archipelago.gg:38281");
    assert_eq!(Transport::Plain.url("archipelago.gg:38281"), "ws://archipelago.gg:38281");
    assert_eq!(Transport::Plain.url(""), "ws://");
}

#[test]
fn a_failed_encryption_is_retried_in_plain() {
    assert!(matches!(Transport::Secure.after_failure(failure(true)), Ok(Transport::Plain)));
}

#[test]
fn every_other_failure_is_final() {
    assert!(matches!(
        Transport::Secure.after_failure(failure(false)),
        Err(ArchipelagoError::NetworkError(NetworkFailure { encryption: false, .. }))
    ));
    assert!(matches!(
        Transport::Plain.after_failure(failure(true)),
        Err(ArchipelagoError::NetworkError(NetworkFailure { encryption: true, .. }))
    ));
    assert!(matches!(
        Transport::Plain.after_failure(failure(false)),
        Err(ArchipelagoError::NetworkError(failure)) if failure.detail == "handshake"
    ));
}

#[test]
fn text_frames_hold_batches() {
    let reading = recv_messages(Some(Ok(Frame::Text("[]".to_string()))));
    assert!(matches!(reading, Reading::Batch(text) if text == "[]"));
}

#[test]
fn pings_and_pongs_are_passed_over() {
    assert!(matches!(recv_messages(Some(Ok(Frame::Ping(vec![1])))), Reading::Skip));
    assert!(matches!(recv_messages(Some(Ok(Frame::Pong(vec![])))), Reading::Skip));
}

#[test]
fn a_close_frame_closes_the_connection() {
    assert!(matches!(
        recv_messages(Some(Ok(Frame::Close))),
        Reading::Failed(ArchipelagoError::ConnectionClosed)
    ));
}

#[test]
fn other_frames_are_errors_that_hold_the_frame() {
    assert!(matches!(
        recv_messages(Some(Ok(Frame::Binary(vec![1, 2])))),
        Reading::Failed(ArchipelagoError::NonTextWebsocketResult(Frame::Binary(bytes)))
            if bytes == vec![1, 2]
    ));
    assert!(matches!(
        recv_messages(Some(Ok(Frame::Raw(vec![3])))),
        Reading::Failed(ArchipelagoError::NonTextWebsocketResult(Frame::Raw(_)))
    ));
}

#[test]
fn transport_failures_and_the_end_of_the_stream() {
    assert!(matches!(
        recv_messages(Some(Err(failure(false)))),
        Reading::Failed(ArchipelagoError::NetworkError(_))
    ));
    assert!(matches!(recv_messages(None), Reading::End));
}

#[test]
fn an_array_is_a_batch_of_its_elements() {
    let batch = decode_frame(
        r#"[{"cmd":"Print","text":"a"}, {"cmd":"RoomUpdate"}, {"text":"b","cmd":"Print"}]"#
            .to_string(),
    )
    .ok()
    .unwrap();
    assert_eq!(
        batch,
        vec![
            (ServerMessageKind::Print, document(r#"{"cmd":"Print","text":"a"}"#)),
            (ServerMessageKind::RoomUpdate, document(r#"{"cmd":"RoomUpdate"}"#)),
            (ServerMessageKind::Print, document(r#"{"cmd":"Print","text":"b"}"#)),
        ]
    );
    assert!(decode_frame("[]".to_string()).ok().unwrap().is_empty());
}

#[test]
fn a_bare_message_is_a_batch_of_one() {
    let batch = decode_frame(r#"{"cmd":"Print","text":"a"}"#.to_string()).ok().unwrap();
    assert_eq!(batch, vec![(ServerMessageKind::Print, document(r#"{"cmd":"Print","text":"a"}"#))]);
}

#[test]
fn malformed_text_is_an_error_that_holds_the_text() {
    for text in ["", "[", "{\"cmd\":", "[1,]", "hello"] {
        match decode_frame(text.to_string()) {
            Err(ArchipelagoError::FailedDeserialize { json, .. }) => assert_eq!(json, text),
            other => panic!("{:?}", other),
        }
    }
}

#[test]
fn a_message_of_no_known_kind_is_an_error_that_holds_the_text() {
    for text in [
        r#"[{"cmd":"Print","text":"a"}, {"cmd":"Sync"}]"#,
        r#"[{"cmd":"print"}]"#,
        r#"[{"cmd":"Print "}]"#,
        r#"[{"cmd":7}]"#,
        r#"[{"text":"a"}]"#,
        r#"[3]"#,
        r#"[[{"cmd":"Print"}]]"#,
        r#"{"cmd":"Unknown"}"#,
        "null",
    ] {
        match decode_frame(text.to_string()) {
            Err(ArchipelagoError::FailedDeserialize { json, .. }) => assert_eq!(json, text),
            other => panic!("{:?}", other),
        }
    }
}

#[test]
fn every_kind_is_found_by_its_name() {
    let names = [
        "RoomInfo", "ConnectionRefused", "Connected", "ReceivedItems", "LocationInfo",
        "RoomUpdate", "Print", "PrintJSON", "DataPackage", "Bounced", "InvalidPacket",
        "Retrieved", "SetReply",
    ];
    for name in names {
        let kind = ServerMessageKind::from_name(name).unwrap();
        assert_eq!(kind.name(), name);
        let text = format!(r#"{{"cmd":"{}"}}"#, name);
        assert_eq!(message_kind(&document(&text)), Some(kind));
    }
    assert_eq!(ServerMessageKind::from_name("Connect"), None);
    assert_eq!(ServerMessageKind::from_name(""), None);
    assert_eq!(ServerMessageKind::from_name("RoomInfo2"), None);
    assert_eq!(message_kind(&document(r#"{"cmd":null}"#)), None);
    assert_eq!(message_kind(&document(r#""Print""#)), None);
}

#[test]
fn a_batch_is_written_as_an_array() {
    assert_eq!(encode_frame(vec![]).ok().unwrap(), "[]");
    assert_eq!(
        encode_frame(vec![document(r#"{"cmd":"Sync"}"#)]).ok().unwrap(),
        r#"[{"cmd":"Sync"}]"#
    );
    assert_eq!(
        encode_frame(vec![
            document(r#"{"cmd":"Say","text":"hi"}"#),
            document(r#"{"cmd":"Sync"}"#),
            document(r#"{"cmd":"Anything"}"#),
        ])
        .ok()
        .unwrap(),
        r#"[{"cmd":"Say","text":"hi"},{"cmd":"Sync"},{"cmd":"Anything"}]"#
    );
}

#[test]
fn a_message_without_a_name_is_not_written() {
    for text in [r#"{"text":"hi"}"#, r#"{"cmd":7}"#, r#"{"cmd":null}"#, "1", r#""Sync""#, "[]"] {
        let batch = vec![document(r#"{"cmd":"Sync"}"#), document(text)];
        assert!(matches!(encode_frame(batch), Err(ArchipelagoError::FailedSerialize(_))), "{}", text);
    }
}

#[test]
fn the_name_of_a_message_is_its_cmd() {
    assert_eq!(message_cmd(&document(r#"{"cmd":"Say","text":"hi"}"#)), Some("Say".to_string()));
    assert_eq!(message_cmd(&document(r#"{"cmd":""}"#)), Some(String::new()));
    assert_eq!(message_cmd(&document(r#"{"Cmd":"Say"}"#)), None);
    assert_eq!(message_cmd(&document(r#"{"cmd":["Say"]}"#)), None);
    assert_eq!(message_cmd(&document(r#"["cmd"]"#)), None);
}

#[test]
fn a_written_batch_is_read_back() {
    let batch = vec![document(r#"{"cmd":"Print","text":"hi"}"#), document(r#"{"cmd":"Bounced"}"#)];
    let text = encode_frame(batch.clone()).ok().unwrap();
    let read: Vec<Value> =
        decode_frame(text).ok().unwrap().into_iter().map(|(_, message)| message).collect();
    assert_eq!(read, batch);
}

#[test]
fn send_writes_one_message_in_an_array() {
    let room: Result<ArchipelagoClient<Value>, _> = ArchipelagoClient::new(Some(Ok(vec![
        ServerMessage::RoomInfo(RoomInfo {
            version: archipelago_rs::protocol::network_version(),
            generator_version: archipelago_rs::protocol::network_version(),
            tags: vec![],
            password_required: false,
            permissions: Default::default(),
            hint_cost: 0,
            location_check_points: 0,
            games: vec![],
            datapackage_versions: Default::default(),
            datapackage_checksums: Default::default(),
            seed_name: String::new(),
            time: 0,
        }),
    ])));
    let client = room.ok().unwrap();
    assert_eq!(
        client.send(document(r#"{"cmd":"Say","text":"hi"}"#)).ok().unwrap(),
        r#"[{"cmd":"Say","text":"hi"}]"#
    );
}

#[test]
fn errors_report_themselves() {
    let illegal = ArchipelagoError::IllegalResponse { expected: "Connected", received: "Print" };
    assert_eq!(illegal.to_text(), "illegal response");
    assert_eq!(ArchipelagoError::ConnectionClosed.to_text(), "connection closed by server");
    assert_eq!(
        ArchipelagoError::NonTextWebsocketResult(Frame::Close).to_text(),
        "unexpected non-text result from websocket"
    );
    assert_eq!(ArchipelagoError::NetworkError(failure(true)).to_text(), "network error");
    let error = serde_json::from_str::<Value>("[1,").unwrap_err();
    let words = error.to_string();
    assert_eq!(
        ArchipelagoError::FailedSerialize(error).to_text(),
        format!("data failed to serialize ({})", words)
    );
    match decode_frame("[1,".to_string()) {
        Err(error) => assert_eq!(
            error.to_text(),
            format!("failed to deserialize server data ({})\n[1,", words)
        ),
        Ok(_) => panic!("read"),
    }
}

#[test]
fn a_document_is_read_as_a_batch() {
    let frame = document(r#"[{"cmd":"Print","text":"a"},{"cmd":"Bounced","data":1.5}]"#);
    let batch = read_frame(frame, "the text".to_string()).ok().unwrap();
    assert_eq!(
        batch,
        vec![
            (ServerMessageKind::Print, document(r#"{"cmd":"Print","text":"a"}"#)),
            (ServerMessageKind::Bounced, document(r#"{"cmd":"Bounced","data":1.5}"#)),
        ]
    );
    let bare = read_frame(document(r#"{"cmd":"Retrieved"}"#), String::new()).ok().unwrap();
    assert_eq!(bare, vec![(ServerMessageKind::Retrieved, document(r#"{"cmd":"Retrieved"}"#))]);
    assert!(read_frame(document("[]"), String::new()).ok().unwrap().is_empty());
}

#[test]
fn a_document_with_an_unmarked_message_holds_the_text_in_its_error() {
    for frame in [r#"[{"cmd":"Print"},{"cmd":"Say"}]"#, r#"{"text":"a"}"#, "7", r#"[[]]"#] {
        match read_frame(document(frame), "the text".to_string()) {
            Err(ArchipelagoError::FailedDeserialize { json, .. }) => assert_eq!(json, "the text"),
            other => panic!("{:?}", other),
        }
    }
}

#[test]
fn a_batch_of_marked_messages_is_always_written() {
    let batch = vec![
        document(r#"{"cmd":"Set","default":1.25,"key":"k"}"#),
        document(r#"{"cmd":"x","deep":[[[{"a":null}]]],"big":18446744073709551615}"#),
        document(r#"{"cmd":"","text":"\u00e9\n\"quoted\""}"#),
    ];
    let text = encode_frame(batch.clone()).ok().unwrap();
    assert_eq!(serde_json::from_str::<Value>(&text).unwrap(), Value::Array(batch));
}
