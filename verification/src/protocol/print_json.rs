//! Notifications made of text fragments, as the wire carries them, and how
//! they are read: the member `type` says what a notification or a fragment
//! is, and what it does not settle falls back to the plainest shape.

use vstd::prelude::*;
use vstd::string::StringExecFns;

use crate::decimal::{parse_decimal, parse_decimal_spec};
use crate::protocol::flags::NetworkItemFlags;
use crate::protocol::{same_text, NetworkItem};

verus! {

/// The texts of `texts` one after the other.
pub open spec fn joined(texts: Seq<Seq<char>>) -> Seq<char>
    decreases texts.len(),
{
    if texts.len() == 0 {
        Seq::empty()
    } else {
        joined(texts.drop_last()) + texts.last()
    }
}

/// A notification made of text fragments, each as the wire carries it: a
/// fragment that refers to a player, an item or a location holds the id as
/// text.
#[derive(Debug, Clone)]
#[allow(inconsistent_fields)]
pub enum PrintJSON {
    ItemSend { data: Vec<JSONMessagePart>, receiving: i64, item: NetworkItem },
    ItemCheat { data: Vec<JSONMessagePart>, receiving: i64, item: NetworkItem, team: i64 },
    Hint { data: Vec<JSONMessagePart>, receiving: i64, item: NetworkItem, found: bool },
    Join { data: Vec<JSONMessagePart>, team: i64, slot: i64, tags: Vec<String> },
    Part { data: Vec<JSONMessagePart>, team: i64, slot: i64 },
    Chat {
        data: Vec<JSONMessagePart>,
        team: Option<i64>,
        slot: Option<i64>,
        message: Option<String>,
    },
    ServerChat { data: Vec<JSONMessagePart>, message: String },
    Tutorial { data: Vec<JSONMessagePart> },
    TagsChanged { data: Vec<JSONMessagePart>, team: i64, slot: i64, tags: Vec<String> },
    CommandResult { data: Vec<JSONMessagePart> },
    AdminCommandResult { data: Vec<JSONMessagePart> },
    Goal { data: Vec<JSONMessagePart>, team: i64, slot: i64 },
    Release { data: Vec<JSONMessagePart>, team: i64, slot: i64 },
    Collect { data: Vec<JSONMessagePart>, team: i64, slot: i64 },
    Countdown { data: Vec<JSONMessagePart>, countdown: i64 },
    Unknown { data: Vec<JSONMessagePart> },
    Text { data: Vec<JSONMessagePart> },
}

impl PrintJSON {
    /// The fragments of the notification, whatever its type.
    pub open spec fn spec_data(&self) -> Vec<JSONMessagePart> {
        match self {
            PrintJSON::ItemSend { data, .. } => *data,
            PrintJSON::ItemCheat { data, .. } => *data,
            PrintJSON::Hint { data, .. } => *data,
            PrintJSON::Join { data, .. } => *data,
            PrintJSON::Part { data, .. } => *data,
            PrintJSON::Chat { data, .. } => *data,
            PrintJSON::ServerChat { data, .. } => *data,
            PrintJSON::Tutorial { data } => *data,
            PrintJSON::TagsChanged { data, .. } => *data,
            PrintJSON::CommandResult { data } => *data,
            PrintJSON::AdminCommandResult { data } => *data,
            PrintJSON::Goal { data, .. } => *data,
            PrintJSON::Release { data, .. } => *data,
            PrintJSON::Collect { data, .. } => *data,
            PrintJSON::Countdown { data, .. } => *data,
            PrintJSON::Unknown { data } => *data,
            PrintJSON::Text { data } => *data,
        }
    }

    /// The text of the notification: the texts of its fragments in order.
    pub open spec fn spec_text(&self) -> Seq<char> {
        joined(self.spec_data()@.map_values(|part: JSONMessagePart| part.spec_text()@))
    }

    /// A notification of unknown type that holds `text` as its one
    /// unformatted fragment.
    pub fn message(text: String) -> (print: PrintJSON)
        ensures
            print is Unknown,
            print.spec_data()@ == seq![(JSONMessagePart::Text { text })],
    {
        let mut data = Vec::new();
        data.push(JSONMessagePart::Text { text });
        PrintJSON::Unknown { data }
    }

    /// Returns the fragments of the notification, whatever its type.
    pub fn data(&self) -> (data: &Vec<JSONMessagePart>)
        ensures
            *data == self.spec_data(),
    {
        match self {
            PrintJSON::ItemSend { data, .. } => data,
            PrintJSON::ItemCheat { data, .. } => data,
            PrintJSON::Hint { data, .. } => data,
            PrintJSON::Join { data, .. } => data,
            PrintJSON::Part { data, .. } => data,
            PrintJSON::Chat { data, .. } => data,
            PrintJSON::ServerChat { data, .. } => data,
            PrintJSON::Tutorial { data } => data,
            PrintJSON::TagsChanged { data, .. } => data,
            PrintJSON::CommandResult { data } => data,
            PrintJSON::AdminCommandResult { data } => data,
            PrintJSON::Goal { data, .. } => data,
            PrintJSON::Release { data, .. } => data,
            PrintJSON::Collect { data, .. } => data,
            PrintJSON::Countdown { data, .. } => data,
            PrintJSON::Unknown { data } => data,
            PrintJSON::Text { data } => data,
        }
    }

    /// Renders the notification as plain text: the texts of its fragments
    /// one after the other.
    pub fn to_text(&self) -> (text: String)
        ensures
            text@ == self.spec_text(),
    {
        let data = self.data();
        let ghost texts = data@.map_values(|part: JSONMessagePart| part.spec_text()@);
        let mut text = String::new();
        let mut i: usize = 0;
        while i < data.len()
            invariant
                i <= data.len(),
                texts == data@.map_values(|part: JSONMessagePart| part.spec_text()@),
                text@ == joined(texts.take(i as int)),
            decreases data.len() - i,
        {
            proof {
                assert(texts.take(i + 1).drop_last() == texts.take(i as int));
            }
            text.append(data[i].text().as_str());
            i += 1;
        }
        proof {
            assert(texts.take(i as int) == texts);
        }
        text
    }
}

/// One fragment of a [`PrintJSON`].
#[derive(Debug, Clone)]
pub enum JSONMessagePart {
    PlayerId { text: String, player: i64 },
    PlayerName { text: String },
    ItemId { text: String, flags: NetworkItemFlags, player: i64 },
    ItemName { text: String, flags: NetworkItemFlags, player: i64 },
    LocationId { text: String, player: i64 },
    LocationName { text: String, player: i64 },
    EntranceName { text: String },
    Color { text: String, color: JSONColor },
    Text { text: String },
}

impl JSONMessagePart {
    /// The text of the fragment, whatever its type.
    pub open spec fn spec_text(&self) -> String {
        match self {
            JSONMessagePart::PlayerId { text, .. } => *text,
            JSONMessagePart::PlayerName { text } => *text,
            JSONMessagePart::ItemId { text, .. } => *text,
            JSONMessagePart::ItemName { text, .. } => *text,
            JSONMessagePart::LocationId { text, .. } => *text,
            JSONMessagePart::LocationName { text, .. } => *text,
            JSONMessagePart::EntranceName { text } => *text,
            JSONMessagePart::Color { text, .. } => *text,
            JSONMessagePart::Text { text } => *text,
        }
    }

    /// Returns the text of the fragment, whatever its type.
    pub fn text(&self) -> (text: &String)
        ensures
            *text == self.spec_text(),
    {
        match self {
            JSONMessagePart::PlayerId { text, .. } => text,
            JSONMessagePart::PlayerName { text } => text,
            JSONMessagePart::ItemId { text, .. } => text,
            JSONMessagePart::ItemName { text, .. } => text,
            JSONMessagePart::LocationId { text, .. } => text,
            JSONMessagePart::LocationName { text, .. } => text,
            JSONMessagePart::EntranceName { text } => text,
            JSONMessagePart::Color { text, .. } => text,
            JSONMessagePart::Text { text } => text,
        }
    }
}

/// A colour or style that a fragment is shown in.
#[derive(Debug, Clone, Copy, PartialEq, Eq, Structural)]
pub enum JSONColor {
    Bold,
    Underline,
    Black,
    Red,
    Green,
    Yellow,
    Blue,
    Magenta,
    Cyan,
    White,
    BlackBg,
    RedBg,
    GreenBg,
    YellowBg,
    BlueBg,
    MagentaBg,
    CyanBg,
    WhiteBg,
}

/// A fragment as the wire carries it: an object whose members are each
/// present or absent.
#[derive(Debug, Clone)]
pub struct RawMessagePart {
    /// The member `type`, which says what the fragment is.
    pub kind: Option<String>,
    pub text: Option<String>,
    pub color: Option<String>,
    pub flags: Option<NetworkItemFlags>,
    pub player: Option<i64>,
}

/// A notification as the wire carries it: its fragments, and beside them
/// members that are each present or absent.
#[derive(Debug, Clone)]
pub struct RawPrint {
    /// The member `type`, which says what the notification is about.
    pub kind: Option<String>,
    pub data: Vec<RawMessagePart>,
    pub receiving: Option<i64>,
    pub item: Option<NetworkItem>,
    pub found: Option<bool>,
    pub team: Option<i64>,
    pub slot: Option<i64>,
    pub tags: Option<Vec<String>>,
    pub message: Option<String>,
    pub countdown: Option<i64>,
}

/// The colour that a name stands for, if it stands for one.
pub open spec fn color_named(name: Seq<char>) -> Option<JSONColor> {
    if name == "bold"@ {
        Some(JSONColor::Bold)
    } else if name == "underline"@ {
        Some(JSONColor::Underline)
    } else if name == "black"@ {
        Some(JSONColor::Black)
    } else if name == "red"@ {
        Some(JSONColor::Red)
    } else if name == "green"@ {
        Some(JSONColor::Green)
    } else if name == "yellow"@ {
        Some(JSONColor::Yellow)
    } else if name == "blue"@ {
        Some(JSONColor::Blue)
    } else if name == "magenta"@ {
        Some(JSONColor::Magenta)
    } else if name == "cyan"@ {
        Some(JSONColor::Cyan)
    } else if name == "white"@ {
        Some(JSONColor::White)
    } else if name == "black_bg"@ {
        Some(JSONColor::BlackBg)
    } else if name == "red_bg"@ {
        Some(JSONColor::RedBg)
    } else if name == "green_bg"@ {
        Some(JSONColor::GreenBg)
    } else if name == "yellow_bg"@ {
        Some(JSONColor::YellowBg)
    } else if name == "blue_bg"@ {
        Some(JSONColor::BlueBg)
    } else if name == "magenta_bg"@ {
        Some(JSONColor::MagentaBg)
    } else if name == "cyan_bg"@ {
        Some(JSONColor::CyanBg)
    } else if name == "white_bg"@ {
        Some(JSONColor::WhiteBg)
    } else {
        None
    }
}

/// The fragment that a fragment of the wire is read as, for its text
/// `text`. The member `type` names the type; the fragment is of that type
/// where the members that the type needs are there. A fragment that refers
/// to a player needs no member `player`: without it, the player is the one
/// that the text names by number. Where `type` is absent or names no type,
/// where a member is missing, and where the colour is no colour, the
/// fragment is plain text.
pub open spec fn part_of_raw(raw: RawMessagePart, text: String) -> JSONMessagePart {
    let plain = JSONMessagePart::Text { text };
    match raw.kind {
        Some(kind) => {
            if kind@ == "player_id"@ {
                match raw.player {
                    Some(player) => JSONMessagePart::PlayerId { text, player },
                    None => match parse_decimal_spec(text@) {
                        Some(player) => JSONMessagePart::PlayerId { text, player },
                        None => plain,
                    },
                }
            } else if kind@ == "player_name"@ {
                JSONMessagePart::PlayerName { text }
            } else if kind@ == "item_id"@ {
                match (raw.flags, raw.player) {
                    (Some(flags), Some(player)) => JSONMessagePart::ItemId { text, flags, player },
                    _ => plain,
                }
            } else if kind@ == "item_name"@ {
                match (raw.flags, raw.player) {
                    (Some(flags), Some(player)) => JSONMessagePart::ItemName {
                        text,
                        flags,
                        player,
                    },
                    _ => plain,
                }
            } else if kind@ == "location_id"@ {
                match raw.player {
                    Some(player) => JSONMessagePart::LocationId { text, player },
                    None => plain,
                }
            } else if kind@ == "location_name"@ {
                match raw.player {
                    Some(player) => JSONMessagePart::LocationName { text, player },
                    None => plain,
                }
            } else if kind@ == "entrance_name"@ {
                JSONMessagePart::EntranceName { text }
            } else if kind@ == "color"@ {
                match raw.color {
                    Some(name) => match color_named(name@) {
                        Some(color) => JSONMessagePart::Color { text, color },
                        None => plain,
                    },
                    None => plain,
                }
            } else {
                plain
            }
        },
        None => plain,
    }
}

/// The notification that a notification of the wire is read as, with
/// `data` as its fragments. The member `type` names the type; the
/// notification is of that type where the members that the type needs are
/// there. Where `type` is absent or names no type, and where a member is
/// missing, the notification is of unknown type.
pub open spec fn print_of_raw(raw: RawPrint, data: Vec<JSONMessagePart>) -> PrintJSON {
    let unknown = PrintJSON::Unknown { data };
    match raw.kind {
        Some(kind) => {
            if kind@ == "ItemSend"@ {
                match (raw.receiving, raw.item) {
                    (Some(receiving), Some(item)) => PrintJSON::ItemSend { data, receiving, item },
                    _ => unknown,
                }
            } else if kind@ == "ItemCheat"@ {
                match (raw.receiving, raw.item, raw.team) {
                    (Some(receiving), Some(item), Some(team)) => PrintJSON::ItemCheat {
                        data,
                        receiving,
                        item,
                        team,
                    },
                    _ => unknown,
                }
            } else if kind@ == "Hint"@ {
                match (raw.receiving, raw.item, raw.found) {
                    (Some(receiving), Some(item), Some(found)) => PrintJSON::Hint {
                        data,
                        receiving,
                        item,
                        found,
                    },
                    _ => unknown,
                }
            } else if kind@ == "Join"@ {
                match (raw.team, raw.slot, raw.tags) {
                    (Some(team), Some(slot), Some(tags)) => PrintJSON::Join {
                        data,
                        team,
                        slot,
                        tags,
                    },
                    _ => unknown,
                }
            } else if kind@ == "Part"@ {
                match (raw.team, raw.slot) {
                    (Some(team), Some(slot)) => PrintJSON::Part { data, team, slot },
                    _ => unknown,
                }
            } else if kind@ == "Chat"@ {
                PrintJSON::Chat { data, team: raw.team, slot: raw.slot, message: raw.message }
            } else if kind@ == "ServerChat"@ {
                match raw.message {
                    Some(message) => PrintJSON::ServerChat { data, message },
                    None => unknown,
                }
            } else if kind@ == "Tutorial"@ {
                PrintJSON::Tutorial { data }
            } else if kind@ == "TagsChanged"@ {
                match (raw.team, raw.slot, raw.tags) {
                    (Some(team), Some(slot), Some(tags)) => PrintJSON::TagsChanged {
                        data,
                        team,
                        slot,
                        tags,
                    },
                    _ => unknown,
                }
            } else if kind@ == "CommandResult"@ {
                PrintJSON::CommandResult { data }
            } else if kind@ == "AdminCommandResult"@ {
                PrintJSON::AdminCommandResult { data }
            } else if kind@ == "Goal"@ {
                match (raw.team, raw.slot) {
                    (Some(team), Some(slot)) => PrintJSON::Goal { data, team, slot },
                    _ => unknown,
                }
            } else if kind@ == "Release"@ {
                match (raw.team, raw.slot) {
                    (Some(team), Some(slot)) => PrintJSON::Release { data, team, slot },
                    _ => unknown,
                }
            } else if kind@ == "Collect"@ {
                match (raw.team, raw.slot) {
                    (Some(team), Some(slot)) => PrintJSON::Collect { data, team, slot },
                    _ => unknown,
                }
            } else if kind@ == "Countdown"@ {
                match raw.countdown {
                    Some(countdown) => PrintJSON::Countdown { data, countdown },
                    None => unknown,
                }
            } else {
                unknown
            }
        },
        None => unknown,
    }
}

/// Every fragment of `parts` has a text.
pub open spec fn all_have_text(parts: Seq<RawMessagePart>) -> bool {
    forall|i: int| 0 <= i < parts.len() ==> (#[trigger] parts[i]).text is Some
}

impl JSONColor {
    /// Returns the colour that a name stands for; `None` for a name that
    /// stands for no colour.
    pub fn from_name(name: &str) -> (color: Option<JSONColor>)
        ensures
            color == color_named(name@),
    {
        if same_text(name, "bold") {
            Some(JSONColor::Bold)
        } else if same_text(name, "underline") {
            Some(JSONColor::Underline)
        } else if same_text(name, "black") {
            Some(JSONColor::Black)
        } else if same_text(name, "red") {
            Some(JSONColor::Red)
        } else if same_text(name, "green") {
            Some(JSONColor::Green)
        } else if same_text(name, "yellow") {
            Some(JSONColor::Yellow)
        } else if same_text(name, "blue") {
            Some(JSONColor::Blue)
        } else if same_text(name, "magenta") {
            Some(JSONColor::Magenta)
        } else if same_text(name, "cyan") {
            Some(JSONColor::Cyan)
        } else if same_text(name, "white") {
            Some(JSONColor::White)
        } else if same_text(name, "black_bg") {
            Some(JSONColor::BlackBg)
        } else if same_text(name, "red_bg") {
            Some(JSONColor::RedBg)
        } else if same_text(name, "green_bg") {
            Some(JSONColor::GreenBg)
        } else if same_text(name, "yellow_bg") {
            Some(JSONColor::YellowBg)
        } else if same_text(name, "blue_bg") {
            Some(JSONColor::BlueBg)
        } else if same_text(name, "magenta_bg") {
            Some(JSONColor::MagentaBg)
        } else if same_text(name, "cyan_bg") {
            Some(JSONColor::CyanBg)
        } else if same_text(name, "white_bg") {
            Some(JSONColor::WhiteBg)
        } else {
            None
        }
    }
}

impl JSONMessagePart {
    /// Reads a fragment of the wire, as [`part_of_raw`] states it. A
    /// fragment without a text cannot be read.
    pub fn from_raw(raw: RawMessagePart) -> (part: Option<JSONMessagePart>)
        ensures
            part == (match raw.text {
                Some(text) => Some(part_of_raw(raw, text)),
                None => None,
            }),
    {
        let RawMessagePart { kind, text, color, flags, player } = raw;
        let text = match text {
            Some(text) => text,
            None => {
                return None;
            },
        };
        let kind = match kind {
            Some(kind) => kind,
            None => {
                return Some(JSONMessagePart::Text { text });
            },
        };
        let kind = kind.as_str();
        let part = if same_text(kind, "player_id") {
            let player = match player {
                Some(player) => Some(player),
                None => parse_decimal(text.as_str()),
            };
            match player {
                Some(player) => JSONMessagePart::PlayerId { text, player },
                None => JSONMessagePart::Text { text },
            }
        } else if same_text(kind, "player_name") {
            JSONMessagePart::PlayerName { text }
        } else if same_text(kind, "item_id") {
            match (flags, player) {
                (Some(flags), Some(player)) => JSONMessagePart::ItemId { text, flags, player },
                _ => JSONMessagePart::Text { text },
            }
        } else if same_text(kind, "item_name") {
            match (flags, player) {
                (Some(flags), Some(player)) => JSONMessagePart::ItemName { text, flags, player },
                _ => JSONMessagePart::Text { text },
            }
        } else if same_text(kind, "location_id") {
            match player {
                Some(player) => JSONMessagePart::LocationId { text, player },
                None => JSONMessagePart::Text { text },
            }
        } else if same_text(kind, "location_name") {
            match player {
                Some(player) => JSONMessagePart::LocationName { text, player },
                None => JSONMessagePart::Text { text },
            }
        } else if same_text(kind, "entrance_name") {
            JSONMessagePart::EntranceName { text }
        } else if same_text(kind, "color") {
            let color = match &color {
                Some(name) => JSONColor::from_name(name.as_str()),
                None => None,
            };
            match color {
                Some(color) => JSONMessagePart::Color { text, color },
                None => JSONMessagePart::Text { text },
            }
        } else {
            JSONMessagePart::Text { text }
        };
        Some(part)
    }
}

/// Reads the fragments of the wire in order; `None` where one of them
/// cannot be read.
fn parts_from_raw(parts: Vec<RawMessagePart>) -> (read: Option<Vec<JSONMessagePart>>)
    ensures
        match read {
            Some(read) => {
                &&& all_have_text(parts@)
                &&& read@.len() == parts@.len()
                &&& forall|i: int|
                    0 <= i < parts@.len() ==> #[trigger] read@[i] == part_of_raw(
                        parts@[i],
                        parts@[i].text->0,
                    )
            },
            None => !all_have_text(parts@),
        },
{
    let ghost all = parts@;
    let mut rest = parts;
    let mut reversed: Vec<JSONMessagePart> = Vec::new();
    assert(rest@ == all.take(rest@.len() as int));
    while rest.len() > 0
        invariant
            all == parts@,
            rest@.len() <= all.len(),
            rest@ == all.take(rest@.len() as int),
            reversed@.len() == all.len() - rest@.len(),
            forall|i: int|
                rest@.len() <= i < all.len() ==> (#[trigger] all[i]).text is Some
                    && reversed@[all.len() - 1 - i] == part_of_raw(all[i], all[i].text->0),
        decreases rest@.len(),
    {
        let ghost at = rest@.len() - 1;
        match rest.pop() {
            Some(raw) => {
                assert(raw == all[at]);
                match JSONMessagePart::from_raw(raw) {
                    Some(part) => {
                        reversed.push(part);
                    },
                    None => {
                        assert(all[at].text is None);
                        return None;
                    },
                }
                assert(rest@ == all.take(at));
            },
            None => {},
        }
    }
    let ghost turned = reversed@;
    let mut read: Vec<JSONMessagePart> = Vec::new();
    assert(reversed@ == turned.take(reversed@.len() as int));
    while reversed.len() > 0
        invariant
            turned.len() == all.len(),
            reversed@ == turned.take(reversed@.len() as int),
            read@.len() == turned.len() - reversed@.len(),
            forall|i: int|
                0 <= i < read@.len() ==> #[trigger] read@[i] == turned[turned.len() - 1 - i],
        decreases reversed@.len(),
    {
        let ghost at = reversed@.len() - 1;
        match reversed.pop() {
            Some(part) => {
                assert(part == turned[at]);
                read.push(part);
                assert(reversed@ == turned.take(at));
            },
            None => {},
        }
    }
    Some(read)
}

impl PrintJSON {
    /// Reads a notification of the wire: its frame as [`print_of_raw`]
    /// states it, and each of its fragments, in their order, as
    /// [`part_of_raw`] states it. A notification with a fragment that has
    /// no text cannot be read.
    pub fn from_raw(raw: RawPrint) -> (print: Option<PrintJSON>)
        ensures
            match print {
                Some(print) => {
                    &&& all_have_text(raw.data@)
                    &&& print == print_of_raw(raw, print.spec_data())
                    &&& print.spec_data()@.len() == raw.data@.len()
                    &&& forall|i: int|
                        0 <= i < raw.data@.len() ==> #[trigger] print.spec_data()@[i]
                            == part_of_raw(raw.data@[i], raw.data@[i].text->0)
                },
                None => !all_have_text(raw.data@),
            },
    {
        let RawPrint { kind, data, receiving, item, found, team, slot, tags, message, countdown } =
            raw;
        let data = match parts_from_raw(data) {
            Some(data) => data,
            None => {
                return None;
            },
        };
        let kind = match kind {
            Some(kind) => kind,
            None => {
                return Some(PrintJSON::Unknown { data });
            },
        };
        let kind = kind.as_str();
        let print = if same_text(kind, "ItemSend") {
            match (receiving, item) {
                (Some(receiving), Some(item)) => PrintJSON::ItemSend { data, receiving, item },
                _ => PrintJSON::Unknown { data },
            }
        } else if same_text(kind, "ItemCheat") {
            match (receiving, item, team) {
                (Some(receiving), Some(item), Some(team)) => PrintJSON::ItemCheat {
                    data,
                    receiving,
                    item,
                    team,
                },
                _ => PrintJSON::Unknown { data },
            }
        } else if same_text(kind, "Hint") {
            match (receiving, item, found) {
                (Some(receiving), Some(item), Some(found)) => PrintJSON::Hint {
                    data,
                    receiving,
                    item,
                    found,
                },
                _ => PrintJSON::Unknown { data },
            }
        } else if same_text(kind, "Join") {
            match (team, slot, tags) {
                (Some(team), Some(slot), Some(tags)) => PrintJSON::Join { data, team, slot, tags },
                _ => PrintJSON::Unknown { data },
            }
        } else if same_text(kind, "Part") {
            match (team, slot) {
                (Some(team), Some(slot)) => PrintJSON::Part { data, team, slot },
                _ => PrintJSON::Unknown { data },
            }
        } else if same_text(kind, "Chat") {
            PrintJSON::Chat { data, team, slot, message }
        } else if same_text(kind, "ServerChat") {
            match message {
                Some(message) => PrintJSON::ServerChat { data, message },
                None => PrintJSON::Unknown { data },
            }
        } else if same_text(kind, "Tutorial") {
            PrintJSON::Tutorial { data }
        } else if same_text(kind, "TagsChanged") {
            match (team, slot, tags) {
                (Some(team), Some(slot), Some(tags)) => PrintJSON::TagsChanged {
                    data,
                    team,
                    slot,
                    tags,
                },
                _ => PrintJSON::Unknown { data },
            }
        } else if same_text(kind, "CommandResult") {
            PrintJSON::CommandResult { data }
        } else if same_text(kind, "AdminCommandResult") {
            PrintJSON::AdminCommandResult { data }
        } else if same_text(kind, "Goal") {
            match (team, slot) {
                (Some(team), Some(slot)) => PrintJSON::Goal { data, team, slot },
                _ => PrintJSON::Unknown { data },
            }
        } else if same_text(kind, "Release") {
            match (team, slot) {
                (Some(team), Some(slot)) => PrintJSON::Release { data, team, slot },
                _ => PrintJSON::Unknown { data },
            }
        } else if same_text(kind, "Collect") {
            match (team, slot) {
                (Some(team), Some(slot)) => PrintJSON::Collect { data, team, slot },
                _ => PrintJSON::Unknown { data },
            }
        } else if same_text(kind, "Countdown") {
            match countdown {
                Some(countdown) => PrintJSON::Countdown { data, countdown },
                None => PrintJSON::Unknown { data },
            }
        } else {
            PrintJSON::Unknown { data }
        };
        Some(print)
    }
}

} // verus!
