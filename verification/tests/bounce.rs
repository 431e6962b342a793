use archipelago_rs::client::death_link_options::DeathLinkOptions;
use archipelago_rs::protocol::bounce::{holds_tag, Bounce, BounceData, Bounced, DeathLink};
use serde_json::Value;

fn death() -> DeathLink {
    DeathLink { time: 1700000000, cause: Some("Ann fell".to_string()), source: "Ann".to_string() }
}

fn document(text: &str) -> Value {
    serde_json::from_str(text).unwrap()
}

fn arrived(tags: Option<Vec<&str>>, data: Option<Value>) -> archipelago_rs::protocol::Bounced {
    archipelago_rs::protocol::Bounced {
        games: Some(vec!["Zelda".to_string()]),
        slots: Some(vec![1, 2]),
        tags: tags.map(|tags| tags.into_iter().map(String::from).collect()),
        data,
    }
}

#[test]
fn holds_tag_finds_an_exact_tag() {
    let tags = vec!["AP".to_string(), "DeathLink".to_string()];
    assert!(holds_tag(&tags, "DeathLink"));
    assert!(holds_tag(&tags, "AP"));
    assert!(!holds_tag(&tags, "deathlink"));
    assert!(!holds_tag(&tags, "Death"));
    assert!(!holds_tag(&vec![], "DeathLink"));
}

#[test]
fn death_link_travels_as_an_object() {
    let value = death().to_value();
    assert_eq!(value, document(r#"{"time":1700000000,"cause":"Ann fell","source":"Ann"}"#));
}

#[test]
fn death_link_without_a_cause_travels_with_null() {
    let death_link = DeathLink { time: -5, cause: None, source: String::new() };
    assert_eq!(death_link.to_value(), document(r#"{"time":-5,"cause":null,"source":""}"#));
}

#[test]
fn death_link_is_read_from_an_object() {
    let read = DeathLink::from_value(&document(
        r#"{"time":12,"cause":"x","source":"Bob","extra":[1,2]}"#,
    ))
    .unwrap();
    assert_eq!(read.time, 12);
    assert_eq!(read.cause.as_deref(), Some("x"));
    assert_eq!(read.source, "Bob");
}

#[test]
fn death_link_cause_may_be_absent_or_null() {
    let read = DeathLink::from_value(&document(r#"{"time":12,"source":"Bob"}"#)).unwrap();
    assert_eq!(read.cause, None);
    let read =
        DeathLink::from_value(&document(r#"{"time":12,"cause":null,"source":"Bob"}"#)).unwrap();
    assert_eq!(read.cause, None);
}

#[test]
fn death_link_of_another_shape_is_refused() {
    for text in [
        r#"{"cause":"x","source":"Bob"}"#,
        r#"{"time":12,"cause":"x"}"#,
        r#"{"time":"12","source":"Bob"}"#,
        r#"{"time":12.5,"source":"Bob"}"#,
        r#"{"time":18446744073709551615,"source":"Bob"}"#,
        r#"{"time":12,"source":7}"#,
        r#"{"time":12,"cause":3,"source":"Bob"}"#,
        r#"[12,null,"Bob"]"#,
        r#""DeathLink""#,
        "null",
    ] {
        assert!(DeathLink::from_value(&document(text)).is_none(), "{}", text);
    }
}

#[test]
fn death_link_is_read_back_from_what_it_travels_as() {
    for death_link in [
        death(),
        DeathLink { time: i64::MIN, cause: None, source: "".to_string() },
        DeathLink { time: i64::MAX, cause: Some("".to_string()), source: "time".to_string() },
    ] {
        let read = DeathLink::from_value(&death_link.to_value()).unwrap();
        assert_eq!(read.time, death_link.time);
        assert_eq!(read.cause, death_link.cause);
        assert_eq!(read.source, death_link.source);
    }
}

#[test]
fn death_link_bounce_always_travels_with_the_tag() {
    let bounce = Bounce {
        games: None,
        slots: None,
        tags: vec![],
        data: BounceData::DeathLink(death()),
    };
    assert_eq!(bounce.wire_tags(), Some(vec!["DeathLink".to_string()]));
    let bounce = Bounce {
        games: None,
        slots: None,
        tags: vec!["AP".to_string()],
        data: BounceData::DeathLink(death()),
    };
    assert_eq!(bounce.wire_tags(), Some(vec!["AP".to_string(), "DeathLink".to_string()]));
    let bounce = Bounce {
        games: None,
        slots: None,
        tags: vec!["DeathLink".to_string(), "AP".to_string()],
        data: BounceData::DeathLink(death()),
    };
    assert_eq!(bounce.wire_tags(), Some(vec!["DeathLink".to_string(), "AP".to_string()]));
}

#[test]
fn generic_bounce_travels_with_its_tags_or_without_the_member() {
    let bounce = Bounce {
        games: None,
        slots: None,
        tags: vec![],
        data: BounceData::Generic(document("1")),
    };
    assert_eq!(bounce.wire_tags(), None);
    let bounce = Bounce {
        games: None,
        slots: None,
        tags: vec!["AP".to_string()],
        data: BounceData::Generic(document("1")),
    };
    assert_eq!(bounce.wire_tags(), Some(vec!["AP".to_string()]));
}

#[test]
fn bounce_to_wire_keeps_targets_and_writes_the_payload() {
    let bounce = Bounce {
        games: Some(vec!["Zelda".to_string()]),
        slots: Some(vec!["Ann".to_string(), "Bob".to_string()]),
        tags: vec!["AP".to_string()],
        data: BounceData::DeathLink(death()),
    };
    let wire = bounce.to_wire();
    assert_eq!(wire.games, Some(vec!["Zelda".to_string()]));
    assert_eq!(wire.slots, Some(vec!["Ann".to_string(), "Bob".to_string()]));
    assert_eq!(wire.tags, Some(vec!["AP".to_string(), "DeathLink".to_string()]));
    assert_eq!(wire.data, document(r#"{"time":1700000000,"cause":"Ann fell","source":"Ann"}"#));

    let generic = Bounce {
        games: None,
        slots: None,
        tags: vec![],
        data: BounceData::Generic(document(r#"{"a":[1,2,3]}"#)),
    };
    let wire = generic.to_wire();
    assert_eq!(wire.games, None);
    assert_eq!(wire.slots, None);
    assert_eq!(wire.tags, None);
    assert_eq!(wire.data, document(r#"{"a":[1,2,3]}"#));
}

#[test]
fn bounced_with_the_tag_is_read_as_a_death_link() {
    let wire = arrived(
        Some(vec!["AP", "DeathLink"]),
        Some(document(r#"{"time":5,"cause":"lava","source":"Bob"}"#)),
    );
    let bounced = Bounced::from_wire(wire).unwrap();
    assert_eq!(bounced.games, Some(vec!["Zelda".to_string()]));
    assert_eq!(bounced.slots, Some(vec![1, 2]));
    assert_eq!(bounced.tags, vec!["AP".to_string(), "DeathLink".to_string()]);
    match bounced.data {
        BounceData::DeathLink(death_link) => {
            assert_eq!(death_link.time, 5);
            assert_eq!(death_link.cause.as_deref(), Some("lava"));
            assert_eq!(death_link.source, "Bob");
        }
        BounceData::Generic(_) => panic!("read as a generic payload"),
    }
}

#[test]
fn bounced_without_the_tag_keeps_its_data() {
    let data = document(r#"{"time":5,"cause":"lava","source":"Bob"}"#);
    let bounced = Bounced::from_wire(arrived(Some(vec!["AP"]), Some(data.clone()))).unwrap();
    assert!(matches!(&bounced.data, BounceData::Generic(value) if *value == data));
    let bounced = Bounced::from_wire(arrived(None, Some(data.clone()))).unwrap();
    assert!(bounced.tags.is_empty());
    assert!(matches!(&bounced.data, BounceData::Generic(value) if *value == data));
    let bounced = Bounced::from_wire(arrived(None, None)).unwrap();
    assert!(matches!(&bounced.data, BounceData::Generic(Value::Null)));
}

#[test]
fn bounced_with_the_tag_and_other_data_is_refused() {
    assert!(Bounced::from_wire(arrived(Some(vec!["DeathLink"]), Some(document("17")))).is_err());
    assert!(Bounced::from_wire(arrived(Some(vec!["DeathLink"]), None)).is_err());
    assert!(Bounced::from_wire(arrived(
        Some(vec!["DeathLink"]),
        Some(document(r#"{"time":5,"cause":"lava"}"#))
    ))
    .is_err());
}

#[test]
fn death_link_bounce_round_trip() {
    let bounce = Bounce {
        games: Some(vec!["Zelda".to_string()]),
        slots: None,
        tags: vec![],
        data: BounceData::DeathLink(death()),
    };
    let sent = bounce.to_wire();
    let text = serde_json::to_string(&sent.data).unwrap();
    let received = archipelago_rs::protocol::Bounced {
        games: sent.games,
        slots: Some(vec![3]),
        tags: sent.tags,
        data: Some(serde_json::from_str(&text).unwrap()),
    };
    let bounced = Bounced::from_wire(received).unwrap();
    assert!(holds_tag(&bounced.tags, "DeathLink"));
    match bounced.data {
        BounceData::DeathLink(death_link) => {
            assert_eq!(death_link.time, 1700000000);
            assert_eq!(death_link.cause.as_deref(), Some("Ann fell"));
            assert_eq!(death_link.source, "Ann");
        }
        BounceData::Generic(_) => panic!("read as a generic payload"),
    }
}

#[test]
fn death_link_options_start_empty_and_keep_what_is_set() {
    let options = DeathLinkOptions::new();
    assert_eq!(format!("{:?}", options), format!("{:?}", DeathLinkOptions::default()));
    let bounce = options.into_bounce(100, "Ann");
    assert_eq!(bounce.games, None);
    assert_eq!(bounce.slots, None);
    assert!(bounce.tags.is_empty());
    assert!(matches!(
        &bounce.data,
        BounceData::DeathLink(DeathLink { time: 100, cause: None, source }) if source == "Ann"
    ));

    let options = DeathLinkOptions::new()
        .games(vec!["Zelda".to_string()])
        .slots(vec!["Bob".to_string()])
        .time(5)
        .cause("Ann fell".to_string())
        .source("Annie".to_string());
    let bounce = options.into_bounce(100, "Ann");
    assert_eq!(bounce.games, Some(vec!["Zelda".to_string()]));
    assert_eq!(bounce.slots, Some(vec!["Bob".to_string()]));
    assert!(matches!(
        &bounce.data,
        BounceData::DeathLink(DeathLink { time: 5, cause: Some(cause), source })
            if cause == "Ann fell" && source == "Annie"
    ));
}

#[test]
fn death_link_options_setters_replace_only_their_option() {
    let options = DeathLinkOptions::new().time(5).time(6).cause("a".to_string());
    let bounce = options.into_bounce(100, "Ann");
    assert!(matches!(
        &bounce.data,
        BounceData::DeathLink(DeathLink { time: 6, cause: Some(cause), source })
            if cause == "a" && source == "Ann"
    ));
    assert_eq!(bounce.games, None);
}

#[test]
fn generic_payload_travels_as_the_document_that_it_is() {
    let data = document(r#"{"ratio":0.1,"big":1e300,"list":[1.5,-2.25,null]}"#);
    let bounce = Bounce {
        games: None,
        slots: None,
        tags: vec!["AP".to_string()],
        data: BounceData::Generic(data.clone()),
    };
    assert_eq!(bounce.to_wire().data, data);
    let bounced = Bounced::from_wire(arrived(Some(vec!["AP"]), Some(data.clone()))).unwrap();
    assert!(matches!(&bounced.data, BounceData::Generic(value) if *value == data));
}
