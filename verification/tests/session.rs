use std::collections::HashMap;

use archipelago_rs::client::death_link_options::DeathLinkOptions;
use archipelago_rs::client::buffer::Progress;
use archipelago_rs::client::frames::{decode_frame, NetworkFailure};
use archipelago_rs::client::{ArchipelagoClient, ArchipelagoError};
use archipelago_rs::protocol::data_package::{DataPackageObject, GameData, NameTable};
use archipelago_rs::protocol::flags::{ItemsHandlingFlags, NetworkItemFlags};
use archipelago_rs::protocol::print_json::{PrintJSON, RawMessagePart, RawPrint};
use archipelago_rs::protocol::rich_message::{RichMessagePart, RichPrint};
use archipelago_rs::protocol::{
    ClientMessage, ClientStatus, Connected, DataPackage, DataStorageOperation, LocationInfo,
    NetworkSlot, NetworkVersion, Permission, Print, ReceivedItems, Retrieved, RoomInfo,
    ServerMessage, ServerMessageKind, SetReply, SlotType,
};
use serde_json::Value;

type Message = ServerMessage<Value>;

fn version() -> NetworkVersion {
    NetworkVersion { major: 0, minor: 6, build: 1, class: "Version".to_string() }
}

fn room() -> RoomInfo {
    let mut permissions = HashMap::new();
    permissions.insert("release".to_string(), Permission::Goal);
    RoomInfo {
        version: version(),
        generator_version: version(),
        tags: vec!["AP".to_string()],
        password_required: false,
        permissions,
        hint_cost: 10,
        location_check_points: 1,
        games: vec!["Zelda".to_string(), "Mario".to_string()],
        datapackage_versions: HashMap::new(),
        datapackage_checksums: HashMap::new(),
        seed_name: "seed".to_string(),
        time: 1.5f64.to_bits(),
    }
}

fn print(text: &str) -> Message {
    ServerMessage::Print(Print { text: text.to_string() })
}

fn items(index: i64) -> Message {
    ServerMessage::ReceivedItems(ReceivedItems { index, items: vec![] })
}

fn connected(slot: i64) -> Message {
    ServerMessage::Connected(Connected {
        team: 0,
        slot,
        players: vec![],
        missing_locations: vec![],
        checked_locations: vec![],
        slot_data: serde_json::from_str("{}").unwrap(),
        slot_info: HashMap::new(),
        hint_points: 0,
    })
}

fn session(rest: Vec<Message>) -> ArchipelagoClient<Value> {
    let mut batch = vec![ServerMessage::RoomInfo(room())];
    batch.extend(rest);
    ArchipelagoClient::new(Some(Ok(batch))).ok().unwrap()
}

fn text_of(message: &Message) -> String {
    match message {
        ServerMessage::Print(print) => print.text.clone(),
        other => other.kind_name().to_string(),
    }
}

fn drain(client: &mut ArchipelagoClient<Value>) -> Vec<String> {
    let mut texts = vec![];
    while let Progress::Done(Some(message)) = client.recv() {
        texts.push(text_of(&message));
    }
    texts
}

#[test]
fn session_begins_with_the_room_announcement() {
    let client = session(vec![]);
    let info = client.room_info();
    assert_eq!(info.seed_name, "seed");
    assert_eq!(info.hint_cost, 10);
    assert_eq!(info.location_check_points, 1);
    assert_eq!(info.games, vec!["Zelda".to_string(), "Mario".to_string()]);
    assert_eq!(info.tags, vec!["AP".to_string()]);
    assert_eq!(info.version.build, 1);
    assert_eq!(info.permissions["release"], Permission::Goal);
    assert_eq!(f64::from_bits(info.time), 1.5);
    assert!(!info.password_required);
    assert!(client.data_package().is_none());
    assert!(!client.is_joined());
}

#[test]
fn session_refuses_another_first_message() {
    let result: Result<ArchipelagoClient<Value>, _> =
        ArchipelagoClient::new(Some(Ok(vec![print("hello"), ServerMessage::RoomInfo(room())])));
    assert!(matches!(
        result,
        Err(ArchipelagoError::IllegalResponse { expected: "RoomInfo", received: "Print" })
    ));
    let result: Result<ArchipelagoClient<Value>, _> =
        ArchipelagoClient::new(Some(Ok(vec![connected(1)])));
    assert!(matches!(
        result,
        Err(ArchipelagoError::IllegalResponse { expected: "RoomInfo", received: "Connected" })
    ));
}

#[test]
fn session_without_a_first_message_is_closed() {
    let result: Result<ArchipelagoClient<Value>, _> = ArchipelagoClient::new(None);
    assert!(matches!(result, Err(ArchipelagoError::ConnectionClosed)));
    let result: Result<ArchipelagoClient<Value>, _> = ArchipelagoClient::new(Some(Ok(vec![])));
    assert!(matches!(result, Err(ArchipelagoError::ConnectionClosed)));
}

#[test]
fn session_passes_on_a_failed_first_read() {
    let failure = NetworkFailure { encryption: false, detail: "reset".to_string() };
    let result: Result<ArchipelagoClient<Value>, _> =
        ArchipelagoClient::new(Some(Err(ArchipelagoError::NetworkError(failure))));
    assert!(matches!(
        result,
        Err(ArchipelagoError::NetworkError(NetworkFailure { encryption: false, detail }))
            if detail == "reset"
    ));
}

#[test]
fn messages_that_came_with_the_room_are_kept_in_order() {
    let mut client = session(vec![print("a"), print("b"), print("c")]);
    assert_eq!(drain(&mut client), vec!["a", "b", "c"]);
    assert!(matches!(client.recv(), Progress::Waiting));
}

#[test]
fn messages_are_received_in_order_whatever_the_frames() {
    let texts = ["a", "b", "c", "d", "e", "f"];
    let cuts: Vec<Vec<usize>> =
        vec![vec![6], vec![1, 1, 1, 1, 1, 1], vec![2, 4], vec![0, 3, 0, 3], vec![5, 1, 0]];
    for cut in cuts {
        let mut client = session(vec![]);
        let mut frames = vec![];
        let mut at = 0;
        for size in cut {
            frames.push(texts[at..at + size].iter().map(|text| print(text)).collect::<Vec<_>>());
            at += size;
        }
        let mut received = vec![];
        let mut frames = frames.into_iter();
        loop {
            match client.recv() {
                Progress::Done(Some(message)) => received.push(text_of(&message)),
                Progress::Done(None) => break,
                Progress::Waiting => {
                    client.deliver(frames.next().map(Ok)).ok().unwrap();
                }
            }
        }
        assert_eq!(received, texts);
    }
}

#[test]
fn recv_waits_on_an_empty_buffer_and_ends_after_the_stream() {
    let mut client = session(vec![]);
    assert!(matches!(client.recv(), Progress::Waiting));
    client.deliver(Some(Ok(vec![print("a")]))).ok().unwrap();
    client.deliver(None).ok().unwrap();
    assert!(matches!(client.recv(), Progress::Done(Some(ServerMessage::Print(_)))));
    assert!(matches!(client.recv(), Progress::Done(None)));
    assert!(matches!(client.recv(), Progress::Done(None)));
}

#[test]
fn deliver_passes_on_a_failed_read_and_keeps_the_buffer() {
    let mut client = session(vec![print("a")]);
    let taken = client.deliver(Some(Err(ArchipelagoError::ConnectionClosed)));
    assert!(matches!(taken, Err(ArchipelagoError::ConnectionClosed)));
    assert_eq!(drain(&mut client), vec!["a"]);
    assert!(matches!(client.recv(), Progress::Waiting));
}

#[test]
fn connect_request_holds_what_was_asked() {
    let client = session(vec![]);
    let request = client.connect(
        "Zelda",
        "Ann",
        Some("secret"),
        ItemsHandlingFlags::own_world(),
        vec!["AP".to_string()],
    );
    match request {
        ClientMessage::Connect(connect) => {
            assert_eq!(connect.game, "Zelda");
            assert_eq!(connect.name, "Ann");
            assert_eq!(connect.uuid, "");
            assert_eq!(connect.password.as_deref(), Some("secret"));
            assert_eq!(connect.version.to_text(), "0.6.0");
            assert_eq!(connect.version.class, "Version");
            assert_eq!(connect.items_handling, 0b011);
            assert_eq!(connect.tags, vec!["AP".to_string()]);
            assert!(connect.slot_data);
        }
        other => panic!("{:?}", other),
    }
}

#[test]
fn connect_request_completes_the_items_handling() {
    let client = session(vec![]);
    let cases = [(0b000u8, 0b000u8), (0b001, 0b001), (0b010, 0b011), (0b100, 0b101), (0b110, 0b111)];
    for (given, sent) in cases {
        let flags = ItemsHandlingFlags::from_bits_retain(given);
        match client.connect("Zelda", "Ann", None, flags, vec![]) {
            ClientMessage::Connect(connect) => {
                assert_eq!(connect.items_handling, sent);
                assert_eq!(connect.password, None);
            }
            other => panic!("{:?}", other),
        }
    }
}

#[test]
fn connect_reply_returns_the_acceptance() {
    let mut client = session(vec![]);
    assert!(matches!(client.connect_reply(), Progress::Waiting));
    client.deliver(Some(Ok(vec![connected(1), print("later")]))).ok().unwrap();
    match client.connect_reply() {
        Progress::Done(Ok(connected)) => {
            assert_eq!(connected.slot, 1);
            assert_eq!(connected.team, 0);
            assert_eq!(connected.hint_points, 0);
            assert!(connected.players.is_empty());
        }
        other => panic!("{:?}", other),
    }
    assert!(client.is_joined());
    assert_eq!(drain(&mut client), vec!["later"]);
    assert_eq!(client.room_info().seed_name, "seed");
}

#[test]
fn connect_reply_refuses_another_message() {
    let mut client = session(vec![print("first"), connected(1)]);
    assert!(matches!(
        client.connect_reply(),
        Progress::Done(Err(ArchipelagoError::IllegalResponse {
            expected: "Connected",
            received: "Print"
        }))
    ));
    assert!(!client.is_joined());
    assert!(matches!(client.connect_reply(), Progress::Done(Ok(_))));
    assert!(client.is_joined());
}

#[test]
fn connect_reply_on_a_closed_connection_fails() {
    let mut client = session(vec![]);
    client.deliver(None).ok().unwrap();
    assert!(matches!(
        client.connect_reply(),
        Progress::Done(Err(ArchipelagoError::ConnectionClosed))
    ));
}

#[test]
fn selective_wait_passes_over_unrelated_messages() {
    let mut client = session(vec![print("a"), print("b")]);
    assert!(matches!(client.sync(), ClientMessage::Sync));
    assert!(matches!(client.sync_reply(), Progress::Waiting));
    client.deliver(Some(Ok(vec![print("c")]))).ok().unwrap();
    assert!(matches!(client.sync_reply(), Progress::Waiting));
    client.deliver(Some(Ok(vec![print("d"), items(7)]))).ok().unwrap();
    match client.sync_reply() {
        Progress::Done(Ok(items)) => assert_eq!(items.index, 7),
        other => panic!("{:?}", other),
    }
    assert_eq!(drain(&mut client), vec!["a", "b", "c", "d"]);
}

#[test]
fn selective_wait_takes_the_oldest_reply_and_keeps_what_follows() {
    let mut client = session(vec![print("a"), items(1), print("b"), items(2), print("c")]);
    match client.sync_reply() {
        Progress::Done(Ok(items)) => assert_eq!(items.index, 1),
        other => panic!("{:?}", other),
    }
    assert_eq!(drain(&mut client), vec!["a", "b", "ReceivedItems", "c"]);
}

#[test]
fn selective_wait_on_a_closed_connection_fails_and_keeps_the_buffer() {
    let mut client = session(vec![print("a")]);
    client.deliver(None).ok().unwrap();
    assert!(matches!(
        client.sync_reply(),
        Progress::Done(Err(ArchipelagoError::ConnectionClosed))
    ));
    assert!(matches!(
        client.get_reply(),
        Progress::Done(Err(ArchipelagoError::ConnectionClosed))
    ));
    assert_eq!(drain(&mut client), vec!["a"]);
}

#[test]
fn each_selective_wait_takes_its_own_kind() {
    let info = ServerMessage::LocationInfo(LocationInfo { locations: vec![] });
    let retrieved = ServerMessage::Retrieved(Retrieved { keys: Value::from(5) });
    let reply = ServerMessage::SetReply(SetReply {
        key: "k".to_string(),
        value: Value::from(1),
        original_value: None,
    });
    let mut client = session(vec![print("a"), reply, items(3), retrieved, info, print("b")]);
    assert!(matches!(client.location_scouts_reply(), Progress::Done(Ok(_))));
    match client.get_reply() {
        Progress::Done(Ok(retrieved)) => assert_eq!(retrieved.keys, Value::from(5)),
        other => panic!("{:?}", other),
    }
    match client.set_reply() {
        Progress::Done(Ok(reply)) => assert_eq!(reply.key, "k"),
        other => panic!("{:?}", other),
    }
    assert!(matches!(client.set_reply(), Progress::Waiting));
    assert_eq!(drain(&mut client), vec!["a", "ReceivedItems", "b"]);
}

#[test]
fn requests_hold_what_was_asked() {
    let client = session(vec![]);
    assert!(matches!(client.say("hello"), ClientMessage::Say(say) if say.text == "hello"));
    assert!(matches!(
        client.location_checks(vec![1, 2]),
        ClientMessage::LocationChecks(checks) if checks.locations == vec![1, 2]
    ));
    assert!(matches!(
        client.location_scouts(vec![3], 2),
        ClientMessage::LocationScouts(scouts) if scouts.locations == vec![3] && scouts.create_as_hint == 2
    ));
    assert!(matches!(
        client.status_update(ClientStatus::ClientGoal),
        ClientMessage::StatusUpdate(update) if update.status == ClientStatus::ClientGoal
    ));
    assert!(matches!(
        client.get(vec!["k".to_string()]),
        ClientMessage::Get(get) if get.keys == vec!["k".to_string()]
    ));
    let set = client.set(
        "k".to_string(),
        Value::from(0),
        true,
        vec![DataStorageOperation::Add(Value::from(2)), DataStorageOperation::Floor],
    );
    assert!(matches!(
        set,
        ClientMessage::SetRequest(set)
            if set.key == "k" && set.default == Value::from(0) && set.want_reply
                && set.operations.len() == 2
    ));
    let bounce = client.bounce(None, Some(vec!["Ann".to_string()]), None, Value::from("x"));
    assert!(matches!(
        bounce,
        ClientMessage::Bounce(bounce)
            if bounce.games.is_none() && bounce.slots == Some(vec!["Ann".to_string()])
                && bounce.tags.is_none() && bounce.data == Value::from("x")
    ));
}

#[test]
fn death_link_request_travels_tagged() {
    let client = session(vec![]);
    let options = DeathLinkOptions::new().cause("Ann fell".to_string());
    match client.death_link(options, 77, "Ann") {
        ClientMessage::Bounce(bounce) => {
            assert_eq!(bounce.tags, Some(vec!["DeathLink".to_string()]));
            assert_eq!(bounce.games, None);
            assert_eq!(bounce.slots, None);
            let expected: Value =
                serde_json::from_str(r#"{"time":77,"cause":"Ann fell","source":"Ann"}"#).unwrap();
            assert_eq!(bounce.data, expected);
        }
        other => panic!("{:?}", other),
    }
}

#[test]
fn data_package_request_names_the_games() {
    let client = session(vec![]);
    assert!(matches!(
        client.with_data_package(Some(vec!["Metroid".to_string()])),
        ClientMessage::GetDataPackage(get) if get.games == Some(vec!["Metroid".to_string()])
    ));
    assert!(matches!(
        client.with_data_package(None),
        ClientMessage::GetDataPackage(get) if get.games.is_none()
    ));
    assert!(matches!(
        client.with_data_package(Some(vec![])),
        ClientMessage::GetDataPackage(get) if get.games == Some(vec![])
    ));
}

#[test]
fn data_package_reply_is_kept_by_the_session() {
    let mut items = NameTable::new();
    items.insert("Sword".to_string(), 42);
    let mut data = DataPackageObject::new();
    data.insert("Zelda".to_string(), GameData::new(items, NameTable::new(), "z".to_string()));
    let package = ServerMessage::DataPackage(DataPackage { data });

    let mut client = session(vec![print("a")]);
    assert!(matches!(client.with_data_package_reply(), Progress::Waiting));
    assert!(client.data_package().is_none());
    client.deliver(Some(Ok(vec![package, print("b")]))).ok().unwrap();
    assert!(matches!(client.with_data_package_reply(), Progress::Done(Ok(()))));
    let held = client.data_package().unwrap();
    assert_eq!(held.len(), 1);
    assert_eq!(held.get("Zelda").unwrap().item_name_to_id().get("Sword"), Some(42));
    assert_eq!(drain(&mut client), vec!["a", "b"]);
}

#[test]
fn split_hands_the_state_to_the_receiver() {
    let mut client = session(vec![print("a"), print("b")]);
    client.deliver(Some(Ok(vec![print("c")]))).ok().unwrap();
    let (sender, mut receiver) = client.split();
    assert_eq!(receiver.room_info().seed_name, "seed");
    assert!(receiver.data_package().is_none());
    assert!(receiver.data_package_mut().is_none());
    assert_eq!(format!("{:?}", sender.room_info()), format!("{:?}", room()));
    assert!(sender.data_package().is_none());
    let mut texts = vec![];
    while let Progress::Done(Some(message)) = receiver.recv() {
        texts.push(text_of(&message));
    }
    assert_eq!(texts, vec!["a", "b", "c"]);
    assert!(matches!(receiver.recv(), Progress::Waiting));
    receiver.deliver(Some(Ok(vec![print("d")]))).ok().unwrap();
    receiver.deliver(None).ok().unwrap();
    assert!(matches!(receiver.recv(), Progress::Done(Some(ServerMessage::Print(print))) if print.text == "d"));
    assert!(matches!(receiver.recv(), Progress::Done(None)));
    let taken = receiver.deliver(Some(Err(ArchipelagoError::ConnectionClosed)));
    assert!(matches!(taken, Err(ArchipelagoError::ConnectionClosed)));

    assert!(matches!(sender.say("hi"), ClientMessage::Say(say) if say.text == "hi"));
    assert!(matches!(
        sender.location_checks(vec![9]),
        ClientMessage::LocationChecks(checks) if checks.locations == vec![9]
    ));
    assert!(matches!(
        sender.status_update(ClientStatus::ClientReady),
        ClientMessage::StatusUpdate(update) if update.status == ClientStatus::ClientReady
    ));
    assert!(matches!(
        sender.bounce(Some(vec![]), None, Some(vec!["t".to_string()]), Value::Null),
        ClientMessage::Bounce(bounce)
            if bounce.games == Some(vec![]) && bounce.tags == Some(vec!["t".to_string()])
    ));
    let say: Value = serde_json::from_str(r#"{"cmd":"Say","text":"hi"}"#).unwrap();
    assert_eq!(sender.send(say).ok().unwrap(), r#"[{"cmd":"Say","text":"hi"}]"#);
    assert!(matches!(sender.send(Value::from(1)), Err(ArchipelagoError::FailedSerialize(_))));
}

#[test]
fn end_to_end_room_then_slot() {
    let mut client: ArchipelagoClient<Value> =
        ArchipelagoClient::new(Some(Ok(vec![ServerMessage::RoomInfo(room())]))).ok().unwrap();
    assert_eq!(format!("{:?}", client.room_info()), format!("{:?}", room()));
    let request = client.connect("Zelda", "Ann", None, ItemsHandlingFlags::all(), vec![]);
    assert!(matches!(request, ClientMessage::Connect(_)));
    assert!(matches!(client.connect_reply(), Progress::Waiting));
    client.deliver(Some(Ok(vec![connected(1)]))).ok().unwrap();
    match client.connect_reply() {
        Progress::Done(Ok(connected)) => assert_eq!(connected.slot, 1),
        other => panic!("{:?}", other),
    }
}

#[test]
fn split_copies_the_data_package_for_the_sender() {
    let mut items = NameTable::new();
    items.insert("Sword".to_string(), 42);
    let mut data = DataPackageObject::new();
    data.insert("Zelda".to_string(), GameData::new(items, NameTable::new(), "z".to_string()));
    let mut client = session(vec![ServerMessage::DataPackage(DataPackage { data })]);
    assert!(matches!(client.with_data_package_reply(), Progress::Done(Ok(()))));
    assert_eq!(
        client.data_package_mut().unwrap().item_name("Zelda", 42),
        Some("Sword".to_string())
    );
    let (mut sender, mut receiver) = client.split();
    for held in [sender.data_package_mut().unwrap(), receiver.data_package_mut().unwrap()] {
        assert_eq!(held.len(), 1);
        assert_eq!(held.games(), vec!["Zelda".to_string()]);
        assert_eq!(held.item_name("Zelda", 42), Some("Sword".to_string()));
        assert_eq!(held.get("Zelda").unwrap().checksum(), "z");
    }
}

#[test]
fn room_copy_says_the_same() {
    let copy = room().copy();
    assert_eq!(format!("{:?}", copy), format!("{:?}", room()));
    assert_eq!(copy.permissions, room().permissions);
    assert_eq!(version().copy().to_text(), "0.6.1");
}

#[test]
fn end_to_end_rich_print_is_resolved_once_the_data_package_is_fetched() {
    let raw = RawPrint {
        kind: Some("ItemSend".to_string()),
        data: vec![RawMessagePart {
            kind: Some("item_id".to_string()),
            text: Some("42".to_string()),
            color: None,
            flags: Some(NetworkItemFlags::progression()),
            player: Some(1),
        }],
        receiving: Some(1),
        item: Some(archipelago_rs::protocol::NetworkItem {
            item: 42,
            location: 7,
            player: 1,
            flags: NetworkItemFlags::progression(),
        }),
        found: None,
        team: None,
        slot: None,
        tags: None,
        message: None,
        countdown: None,
    };
    let print = PrintJSON::from_raw(raw).unwrap();

    let mut items = NameTable::new();
    items.insert("Sword".to_string(), 42);
    let mut data = DataPackageObject::new();
    data.insert("Zelda".to_string(), GameData::new(items, NameTable::new(), "z".to_string()));

    let mut client = session(vec![]);
    client.deliver(Some(Ok(vec![connected(1)]))).ok().unwrap();
    let mut joined = match client.connect_reply() {
        Progress::Done(Ok(joined)) => joined,
        other => panic!("{:?}", other),
    };
    joined.slot_info.insert(
        1,
        NetworkSlot {
            name: "Ann".to_string(),
            game: "Zelda".to_string(),
            slot_type: SlotType::Player,
            group_members: vec![],
        },
    );

    client.deliver(Some(Ok(vec![ServerMessage::PrintJSON(print)]))).ok().unwrap();
    let mut rich = match client.recv() {
        Progress::Done(Some(ServerMessage::PrintJSON(print))) => RichPrint::from_wire(print),
        other => panic!("{:?}", other),
    };
    assert!(client.data_package().is_none());
    rich.add_names(&joined, &mut DataPackageObject::new());
    assert!(matches!(
        &rich.data()[0],
        RichMessagePart::ItemId { id: 42, player: 1, name: None, .. }
    ));
    assert_eq!(rich.to_text(), "<item 1:42>");

    let request = client.with_data_package(Some(vec!["Zelda".to_string()]));
    assert!(matches!(request, ClientMessage::GetDataPackage(_)));
    client
        .deliver(Some(Ok(vec![ServerMessage::DataPackage(DataPackage { data })])))
        .ok()
        .unwrap();
    assert!(matches!(client.with_data_package_reply(), Progress::Done(Ok(()))));
    rich.add_names(&joined, client.data_package_mut().unwrap());
    assert!(matches!(
        &rich.data()[0],
        RichMessagePart::ItemId { id: 42, player: 1, name: Some(name), .. } if name == "Sword"
    ));
    assert_eq!(rich.to_text(), "Sword");
}

fn version_of(document: &Value) -> NetworkVersion {
    NetworkVersion {
        major: document["major"].as_i64().unwrap(),
        minor: document["minor"].as_i64().unwrap(),
        build: document["build"].as_i64().unwrap(),
        class: document["class"].as_str().unwrap().to_string(),
    }
}

fn texts_of(document: &Value) -> Vec<String> {
    document.as_array().unwrap().iter().map(|text| text.as_str().unwrap().to_string()).collect()
}

fn numbers_of(document: &Value) -> Vec<i64> {
    document.as_array().unwrap().iter().map(|number| number.as_i64().unwrap()).collect()
}

fn message_of(kind: ServerMessageKind, document: Value) -> Message {
    match kind {
        ServerMessageKind::RoomInfo => ServerMessage::RoomInfo(RoomInfo {
            version: version_of(&document["version"]),
            generator_version: version_of(&document["generator_version"]),
            tags: texts_of(&document["tags"]),
            password_required: document["password"].as_bool().unwrap(),
            permissions: HashMap::new(),
            hint_cost: document["hint_cost"].as_i64().unwrap(),
            location_check_points: document["location_check_points"].as_i64().unwrap(),
            games: texts_of(&document["games"]),
            datapackage_versions: HashMap::new(),
            datapackage_checksums: HashMap::new(),
            seed_name: document["seed_name"].as_str().unwrap().to_string(),
            time: document["time"].as_f64().unwrap().to_bits(),
        }),
        ServerMessageKind::Connected => ServerMessage::Connected(Connected {
            team: document["team"].as_i64().unwrap(),
            slot: document["slot"].as_i64().unwrap(),
            players: vec![],
            missing_locations: numbers_of(&document["missing_locations"]),
            checked_locations: numbers_of(&document["checked_locations"]),
            slot_data: document["slot_data"].clone(),
            slot_info: HashMap::new(),
            hint_points: document["hint_points"].as_i64().unwrap(),
        }),
        other => panic!("{:?}", other),
    }
}

fn batch_of(text: &str) -> Vec<Message> {
    decode_frame(text.to_string())
        .ok()
        .unwrap()
        .into_iter()
        .map(|(kind, document)| message_of(kind, document))
        .collect()
}

#[test]
fn end_to_end_from_the_text_of_the_frames() {
    let announcement = r#"[{"cmd":"RoomInfo","version":{"major":0,"minor":6,"build":2,"class":"Version"},"generator_version":{"major":0,"minor":6,"build":1,"class":"Version"},"tags":["AP"],"password":false,"permissions":{},"hint_cost":10,"location_check_points":1,"games":["Zelda"],"datapackage_checksums":{},"seed_name":"seed","time":1700000000.5}]"#;
    let mut client: ArchipelagoClient<Value> =
        ArchipelagoClient::new(Some(Ok(batch_of(announcement)))).ok().unwrap();
    let info = client.room_info();
    assert_eq!(info.version.to_text(), "0.6.2");
    assert_eq!(info.generator_version.to_text(), "0.6.1");
    assert_eq!(info.tags, vec!["AP".to_string()]);
    assert!(!info.password_required);
    assert_eq!(info.hint_cost, 10);
    assert_eq!(info.location_check_points, 1);
    assert_eq!(info.games, vec!["Zelda".to_string()]);
    assert_eq!(info.seed_name, "seed");
    assert_eq!(f64::from_bits(info.time), 1700000000.5);

    let request = client.connect("Zelda", "Ann", None, ItemsHandlingFlags::all(), vec![]);
    assert!(matches!(request, ClientMessage::Connect(connect) if connect.items_handling == 0b111));
    let acceptance = r#"[{"cmd":"Connected","team":0,"slot":1,"players":[],"missing_locations":[],"checked_locations":[],"slot_data":{},"slot_info":{},"hint_points":0}]"#;
    client.deliver(Some(Ok(batch_of(acceptance)))).ok().unwrap();
    match client.connect_reply() {
        Progress::Done(Ok(connected)) => {
            assert_eq!(connected.slot, 1);
            assert_eq!(connected.team, 0);
            assert_eq!(connected.slot_data, serde_json::from_str::<Value>("{}").unwrap());
        }
        other => panic!("{:?}", other),
    }
    assert!(client.is_joined());
}
