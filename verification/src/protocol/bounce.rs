//! Forwarded messages whose payload has been read: a death link where the
//! tags say so, any other document otherwise.

use serde_json::Value;
use vstd::prelude::*;

use crate::json::{
    as_integer, as_text, integer_value, is_null, json_of, member, members_of, null_value,
    object_value, shape_error, text_value, Json,
};
use crate::protocol::same_text;

verus! {

/// The news that a player has died, sent to the players who share deaths.
#[derive(Debug, Clone)]
pub struct DeathLink {
    /// When the player died, in seconds since the Unix epoch.
    pub time: i64,
    /// What the player died of, in words.
    pub cause: Option<String>,
    /// The name of the player who died.
    pub source: String,
}

/// What a death link holds.
pub struct DeathLinkView {
    pub time: i64,
    pub cause: Option<Seq<char>>,
    pub source: Seq<char>,
}

impl View for DeathLink {
    type V = DeathLinkView;

    open spec fn view(&self) -> DeathLinkView {
        DeathLinkView {
            time: self.time,
            cause: match self.cause {
                Some(cause) => Some(cause@),
                None => None,
            },
            source: self.source@,
        }
    }
}

/// The payload of a forwarded message.
#[derive(Debug, Clone)]
pub enum BounceData {
    DeathLink(DeathLink),
    Generic(Value),
}

/// What a payload holds.
pub enum BounceDataView {
    DeathLink(DeathLinkView),
    Generic(Json),
}

impl View for BounceData {
    type V = BounceDataView;

    open spec fn view(&self) -> BounceDataView {
        match self {
            BounceData::DeathLink(death_link) => BounceDataView::DeathLink(death_link@),
            BounceData::Generic(value) => BounceDataView::Generic(json_of(*value)),
        }
    }
}

/// A message for the server to forward, with its payload read.
#[derive(Debug, Clone)]
pub struct Bounce {
    pub games: Option<Vec<String>>,
    pub slots: Option<Vec<String>>,
    pub tags: Vec<String>,
    pub data: BounceData,
}

/// A forwarded message as it arrived, with its payload read.
#[derive(Debug, Clone)]
pub struct Bounced {
    pub games: Option<Vec<String>>,
    pub slots: Option<Vec<i64>>,
    pub tags: Vec<String>,
    pub data: BounceData,
}

/// The characters of each text of a sequence.
pub open spec fn texts_of(texts: Seq<String>) -> Seq<Seq<char>> {
    texts.map_values(|text: String| text@)
}

/// The characters of each text of a list that may be absent.
pub open spec fn listed_texts(texts: Option<Vec<String>>) -> Option<Seq<Seq<char>>> {
    match texts {
        Some(texts) => Some(texts_of(texts@)),
        None => None,
    }
}

/// The tag that marks a forwarded message as a death link.
pub open spec fn death_link_tag() -> Seq<char> {
    "DeathLink"@
}

/// The document that a death link travels as: an object with the members
/// `time`, `cause` (`null` where there is none) and `source`.
pub open spec fn death_link_json(death_link: DeathLinkView) -> Json {
    Json::Object(
        Map::<Seq<char>, Json>::empty().insert("time"@, Json::Int(death_link.time as int)).insert(
            "cause"@,
            match death_link.cause {
                Some(cause) => Json::Text(cause),
                None => Json::Null,
            },
        ).insert("source"@, Json::Text(death_link.source)),
    )
}

/// The cause that an object's member `cause` gives: none where the member
/// is absent or `null`, the text where it is a string. The outer `None`
/// stands for a member of another shape.
pub open spec fn cause_from_json(members: Map<Seq<char>, Json>) -> Option<Option<Seq<char>>> {
    if !members.contains_key("cause"@) {
        Some(None)
    } else {
        match members["cause"@] {
            Json::Null => Some(None),
            Json::Text(cause) => Some(Some(cause)),
            _ => None,
        }
    }
}

/// The death link that a document is read as: the document must be an
/// object whose member `time` is an integer of 64 bits, whose member
/// `source` is a string, and whose member `cause`, if it is there, is a
/// string or `null`.
pub open spec fn death_link_from_json(json: Json) -> Option<DeathLinkView> {
    match json {
        Json::Object(members) => {
            if members.contains_key("time"@) && members.contains_key("source"@) {
                match (members["time"@], members["source"@], cause_from_json(members)) {
                    (Json::Int(time), Json::Text(source), Some(cause)) => {
                        if i64::MIN <= time <= i64::MAX {
                            Some(DeathLinkView { time: time as i64, cause, source })
                        } else {
                            None
                        }
                    },
                    _ => None,
                }
            } else {
                None
            }
        },
        _ => None,
    }
}

/// The three member names of a death link differ.
proof fn lemma_member_names()
    ensures
        "time"@ != "cause"@,
        "time"@ != "source"@,
        "cause"@ != "source"@,
{
    reveal_strlit("time");
    reveal_strlit("cause");
    reveal_strlit("source");
    assert("time"@.len() == 4);
    assert("cause"@.len() == 5);
    assert("source"@.len() == 6);
}

/// A death link is read back from the document that it travels as.
pub proof fn lemma_death_link_round_trip(death_link: DeathLinkView)
    ensures
        death_link_from_json(death_link_json(death_link)) == Some(death_link),
{
    lemma_member_names();
}

/// Some text of `tags` is `tag`.
pub open spec fn has_tag(tags: Seq<Seq<char>>, tag: Seq<char>) -> bool {
    exists|i: int| 0 <= i < tags.len() && #[trigger] tags[i] == tag
}

/// The tags that a message travels with. A death link always travels with
/// its tags and the tag `DeathLink`, which is added where the tags lack it.
/// Any other payload travels with its tags, and without the member where
/// there are none.
pub open spec fn wire_tags(tags: Seq<Seq<char>>, death_link: bool) -> Option<Seq<Seq<char>>> {
    if death_link {
        if has_tag(tags, death_link_tag()) {
            Some(tags)
        } else {
            Some(tags.push(death_link_tag()))
        }
    } else if tags.len() > 0 {
        Some(tags)
    } else {
        None
    }
}

/// The payload that a message is read with. Where the tags hold
/// `DeathLink`, the data must be there and be a death link. Otherwise the
/// data is taken as it is, `null` where it is absent. `None` stands for a
/// message that cannot be read.
pub open spec fn payload_from_json(tags: Seq<Seq<char>>, data: Option<Json>) -> Option<
    BounceDataView,
> {
    if has_tag(tags, death_link_tag()) {
        match data {
            Some(json) => match death_link_from_json(json) {
                Some(death_link) => Some(BounceDataView::DeathLink(death_link)),
                None => None,
            },
            None => None,
        }
    } else {
        match data {
            Some(json) => Some(BounceDataView::Generic(json)),
            None => Some(BounceDataView::Generic(Json::Null)),
        }
    }
}

/// A death link always travels with the tag `DeathLink`, whatever tags the
/// caller gave, and a message that arrives with the tags and the document
/// that it travelled with is read as that death link, not as a document of
/// unknown shape.
pub proof fn lemma_death_link_travels_tagged(tags: Seq<Seq<char>>, death_link: DeathLinkView)
    ensures
        wire_tags(tags, true) matches Some(sent) && has_tag(sent, death_link_tag())
            && payload_from_json(sent, Some(death_link_json(death_link))) == Some(
            BounceDataView::DeathLink(death_link),
        ),
{
    lemma_death_link_round_trip(death_link);
    if !has_tag(tags, death_link_tag()) {
        let sent = tags.push(death_link_tag());
        assert(sent[tags.len() as int] == death_link_tag());
    }
}

/// Returns a copy of a list of texts.
pub(crate) fn copy_texts(texts: &Vec<String>) -> (copy: Vec<String>)
    ensures
        copy@ == texts@,
{
    let mut copy: Vec<String> = Vec::new();
    let mut i: usize = 0;
    while i < texts.len()
        invariant
            i <= texts@.len(),
            copy@ == texts@.take(i as int),
        decreases texts@.len() - i,
    {
        copy.push(texts[i].clone());
        assert(texts@.take(i + 1) == texts@.take(i as int).push(texts@[i as int]));
        i += 1;
    }
    assert(texts@.take(i as int) == texts@);
    copy
}

/// Returns a copy of a list of texts that may be absent.
pub(crate) fn copy_listed(texts: &Option<Vec<String>>) -> (copy: Option<Vec<String>>)
    ensures
        listed_texts(copy) == listed_texts(*texts),
{
    match texts {
        Some(texts) => Some(copy_texts(texts)),
        None => None,
    }
}

/// Tells whether `tags` holds `tag`.
pub fn holds_tag(tags: &Vec<String>, tag: &str) -> (held: bool)
    ensures
        held == has_tag(texts_of(tags@), tag@),
{
    let mut i: usize = 0;
    while i < tags.len()
        invariant
            i <= tags@.len(),
            forall|j: int| 0 <= j < i ==> #[trigger] texts_of(tags@)[j] != tag@,
        decreases tags@.len() - i,
    {
        if same_text(tags[i].as_str(), tag) {
            assert(texts_of(tags@)[i as int] == tag@);
            return true;
        }
        i += 1;
    }
    false
}

impl DeathLink {
    /// Returns the document that the death link travels as.
    pub fn to_value(&self) -> (value: Value)
        ensures
            json_of(value) == death_link_json(self@),
    {
        let cause = match &self.cause {
            Some(cause) => text_value(cause.clone()),
            None => null_value(),
        };
        let mut entries: Vec<(String, Value)> = Vec::new();
        entries.push(("time".to_string(), integer_value(self.time)));
        entries.push(("cause".to_string(), cause));
        entries.push(("source".to_string(), text_value(self.source.clone())));
        proof {
            lemma_member_names();
            let all = entries@;
            let two = all.drop_last();
            let one = two.drop_last();
            assert(one.drop_last().len() == 0);
            reveal_with_fuel(members_of, 4);
            assert(members_of(all) == members_of(two).insert(all.last().0@, json_of(all.last().1)));
            assert(members_of(two) == members_of(one).insert(two.last().0@, json_of(two.last().1)));
            assert(members_of(one) == Map::<Seq<char>, Json>::empty().insert(
                one.last().0@,
                json_of(one.last().1),
            ));
        }
        object_value(entries)
    }

    /// Reads a death link from a document; `None` where the document has
    /// not the shape of one.
    pub fn from_value(value: &Value) -> (death_link: Option<DeathLink>)
        ensures
            (match death_link {
                Some(death_link) => Some(death_link@),
                None => None,
            }) == death_link_from_json(json_of(*value)),
    {
        let time = match member(value, "time") {
            Some(time) => match as_integer(time) {
                Some(time) => time,
                None => {
                    return None;
                },
            },
            None => {
                return None;
            },
        };
        let source = match member(value, "source") {
            Some(source) => match as_text(source) {
                Some(source) => source,
                None => {
                    return None;
                },
            },
            None => {
                return None;
            },
        };
        let cause = match member(value, "cause") {
            Some(cause) => {
                if is_null(cause) {
                    None
                } else {
                    match as_text(cause) {
                        Some(cause) => Some(cause),
                        None => {
                            return None;
                        },
                    }
                }
            },
            None => None,
        };
        Some(DeathLink { time, cause, source })
    }
}

impl Bounce {
    /// Returns the tags that the message travels with, as [`wire_tags`]
    /// states them; `None` where it travels without the member.
    pub fn wire_tags(&self) -> (tags: Option<Vec<String>>)
        ensures
            listed_texts(tags) == wire_tags(texts_of(self.tags@), self.data is DeathLink),
    {
        match &self.data {
            BounceData::DeathLink(_) => {
                let mut tags = copy_texts(&self.tags);
                if !holds_tag(&tags, "DeathLink") {
                    let tag = "DeathLink".to_string();
                    tags.push(tag);
                    assert(texts_of(tags@) == texts_of(self.tags@).push(death_link_tag()));
                }
                Some(tags)
            },
            BounceData::Generic(_) => {
                if self.tags.len() > 0 {
                    Some(copy_texts(&self.tags))
                } else {
                    None
                }
            },
        }
    }

    /// Returns the message as it travels: the games and slots that it is
    /// aimed at, the tags as [`wire_tags`] states them, and the payload as a
    /// document: a death link as [`death_link_json`] states it, any other
    /// payload as the document that it is.
    pub fn to_wire(&self) -> (wire: crate::protocol::Bounce)
        ensures
            listed_texts(wire.games) == listed_texts(self.games),
            listed_texts(wire.slots) == listed_texts(self.slots),
            listed_texts(wire.tags) == wire_tags(texts_of(self.tags@), self.data is DeathLink),
            match self.data {
                BounceData::DeathLink(death_link) => json_of(wire.data) == death_link_json(
                    death_link@,
                ),
                BounceData::Generic(value) => wire.data == value,
            },
    {
        let data = match &self.data {
            BounceData::DeathLink(death_link) => death_link.to_value(),
            BounceData::Generic(value) => value.clone(),
        };
        crate::protocol::Bounce {
            games: copy_listed(&self.games),
            slots: copy_listed(&self.slots),
            tags: self.wire_tags(),
            data,
        }
    }
}

/// The tags of a message as it arrived: none where the member is absent.
pub open spec fn arrived_tags(tags: Option<Vec<String>>) -> Seq<Seq<char>> {
    match tags {
        Some(tags) => texts_of(tags@),
        None => Seq::empty(),
    }
}

/// What the data of a message as it arrived holds.
pub open spec fn arrived_data(data: Option<Value>) -> Option<Json> {
    match data {
        Some(value) => Some(json_of(value)),
        None => None,
    }
}

impl Bounced {
    /// Reads the payload of a message as it arrived. The tags decide how:
    /// with the tag `DeathLink` the data is read as a death link, and the
    /// message is refused where the data is absent or has not that shape;
    /// without the tag the data is kept as the document that it is, `null`
    /// where it is absent. The games, slots and tags are those of the
    /// message.
    pub fn from_wire(wire: crate::protocol::Bounced) -> (read: Result<Bounced, serde_json::Error>)
        ensures
            match read {
                Ok(bounced) => {
                    &&& bounced.games == wire.games
                    &&& bounced.slots == wire.slots
                    &&& texts_of(bounced.tags@) == arrived_tags(wire.tags)
                    &&& payload_from_json(arrived_tags(wire.tags), arrived_data(wire.data))
                        == Some(bounced.data@)
                    &&& match wire.data {
                        Some(value) => has_tag(arrived_tags(wire.tags), death_link_tag())
                            || bounced.data == BounceData::Generic(value),
                        None => true,
                    }
                },
                Err(_) => payload_from_json(arrived_tags(wire.tags), arrived_data(wire.data))
                    is None,
            },
    {
        let crate::protocol::Bounced { games, slots, tags, data } = wire;
        let tags = match tags {
            Some(tags) => tags,
            None => Vec::new(),
        };
        let data = if holds_tag(&tags, "DeathLink") {
            let read = match &data {
                Some(value) => DeathLink::from_value(value),
                None => None,
            };
            match read {
                Some(death_link) => BounceData::DeathLink(death_link),
                None => {
                    return Err(shape_error("the data of a DeathLink bounce is no death link"));
                },
            }
        } else {
            match data {
                Some(value) => BounceData::Generic(value),
                None => BounceData::Generic(null_value()),
            }
        };
        Ok(Bounced { games, slots, tags, data })
    }
}

} // verus!
