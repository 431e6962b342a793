//! Notifications whose fragments refer to players, items and locations by
//! id, and the step that fills in their names.

use vstd::prelude::*;
use vstd::std_specs::hash::*;
use vstd::string::StringExecFns;

use crate::decimal::{decimal, format_decimal, parse_decimal, parse_decimal_spec};
use crate::protocol::data_package::{
    item_name_in, location_name_in, text_of, DataPackageObject, GameDataView,
};
use crate::protocol::flags::NetworkItemFlags;
use crate::protocol::print_json::{joined, JSONColor, JSONMessagePart, PrintJSON};
use crate::protocol::{Connected, NetworkItem, NetworkPlayer, NetworkSlot};

verus! {

broadcast use vstd::std_specs::hash::group_hash_axioms;

/// A notification made of typed text fragments.
///
/// As it arrives, the fragments that refer to a player, an item or a
/// location hold an id and no name. [`RichPrint::add_names`] fills the names
/// in.
#[derive(Debug, Clone)]
pub enum RichPrint {
    ItemSend { data: Vec<RichMessagePart>, receiving: i64, item: NetworkItem },
    ItemCheat { data: Vec<RichMessagePart>, receiving: i64, item: NetworkItem, team: i64 },
    Hint { data: Vec<RichMessagePart>, receiving: i64, item: NetworkItem, found: bool },
    Join { data: Vec<RichMessagePart>, team: i64, slot: i64, tags: Vec<String> },
    Part { data: Vec<RichMessagePart>, team: i64, slot: i64 },
    Chat { data: Vec<RichMessagePart>, team: i64, slot: i64, message: String },
    ServerChat { data: Vec<RichMessagePart>, message: String },
    Tutorial { data: Vec<RichMessagePart> },
    TagsChanged { data: Vec<RichMessagePart>, team: i64, slot: i64, tags: Vec<String> },
    CommandResult { data: Vec<RichMessagePart> },
    AdminCommandResult { data: Vec<RichMessagePart> },
    Goal { data: Vec<RichMessagePart>, team: i64, slot: i64 },
    Release { data: Vec<RichMessagePart>, team: i64, slot: i64 },
    Collect { data: Vec<RichMessagePart>, team: i64, slot: i64 },
    Countdown { data: Vec<RichMessagePart>, countdown: i64 },
    Unknown { data: Vec<RichMessagePart> },
}

/// One fragment of a [`RichPrint`].
#[derive(Debug, Clone)]
pub enum RichMessagePart {
    PlayerId {
        /// The slot of the player that the fragment refers to.
        id: i64,
        /// The player's alias, once it has been filled in.
        name: Option<String>,
    },
    PlayerName { text: String },
    ItemId {
        id: i64,
        flags: NetworkItemFlags,
        player: i64,
        /// The item's name, once it has been filled in.
        name: Option<String>,
    },
    ItemName { text: String, flags: NetworkItemFlags, player: i64 },
    LocationId {
        id: i64,
        player: i64,
        /// The location's name, once it has been filled in.
        name: Option<String>,
    },
    LocationName { text: String, player: i64 },
    EntranceName { text: String },
    Color { text: String, color: RichMessageColor },
    Text { text: String },
}

/// A colour or style that a fragment is shown in.
#[derive(Debug, Clone, Copy, PartialEq, Eq, Structural)]
pub enum RichMessageColor {
    Bold,
    Underline,
    Black,
    Red,
    Green,
    Yellow,
    Blue,
    Magenta,
    Cyan,
    White,
    BlackBg,
    RedBg,
    GreenBg,
    YellowBg,
    BlueBg,
    MagentaBg,
    CyanBg,
    WhiteBg,
}

/// What a fragment holds, with its texts as sequences of characters.
pub enum RichPartView {
    PlayerId { id: i64, name: Option<Seq<char>> },
    PlayerName { text: Seq<char> },
    ItemId { id: i64, flags: NetworkItemFlags, player: i64, name: Option<Seq<char>> },
    ItemName { text: Seq<char>, flags: NetworkItemFlags, player: i64 },
    LocationId { id: i64, player: i64, name: Option<Seq<char>> },
    LocationName { text: Seq<char>, player: i64 },
    EntranceName { text: Seq<char> },
    Color { text: Seq<char>, color: RichMessageColor },
    Text { text: Seq<char> },
}

impl View for RichMessagePart {
    type V = RichPartView;

    open spec fn view(&self) -> RichPartView {
        match self {
            RichMessagePart::PlayerId { id, name } => RichPartView::PlayerId {
                id: *id,
                name: text_of(*name),
            },
            RichMessagePart::PlayerName { text } => RichPartView::PlayerName { text: text@ },
            RichMessagePart::ItemId { id, flags, player, name } => RichPartView::ItemId {
                id: *id,
                flags: *flags,
                player: *player,
                name: text_of(*name),
            },
            RichMessagePart::ItemName { text, flags, player } => RichPartView::ItemName {
                text: text@,
                flags: *flags,
                player: *player,
            },
            RichMessagePart::LocationId { id, player, name } => RichPartView::LocationId {
                id: *id,
                player: *player,
                name: text_of(*name),
            },
            RichMessagePart::LocationName { text, player } => RichPartView::LocationName {
                text: text@,
                player: *player,
            },
            RichMessagePart::EntranceName { text } => RichPartView::EntranceName { text: text@ },
            RichMessagePart::Color { text, color } => RichPartView::Color {
                text: text@,
                color: *color,
            },
            RichMessagePart::Text { text } => RichPartView::Text { text: text@ },
        }
    }
}

/// The alias of the first player of the roster whose slot is `slot`.
pub open spec fn alias_of(players: Seq<NetworkPlayer>, slot: i64) -> Option<Seq<char>>
    decreases players.len(),
{
    if players.len() == 0 {
        None
    } else if players[0].slot == slot {
        Some(players[0].alias@)
    } else {
        alias_of(players.drop_first(), slot)
    }
}

/// The game that the slot `slot` plays, if the room knows the slot.
pub open spec fn game_of(slots: Map<i64, NetworkSlot>, slot: i64) -> Option<Seq<char>> {
    if slots.contains_key(slot) {
        Some(slots[slot].game@)
    } else {
        None
    }
}

/// The name of the item `id` of the player `player`: found if the room
/// knows the player's slot, the catalogue covers the game of that slot, and
/// the game's table of item names holds the id.
pub open spec fn item_name_for(
    slots: Map<i64, NetworkSlot>,
    catalogue: Map<Seq<char>, GameDataView>,
    player: i64,
    id: i64,
) -> Option<Seq<char>> {
    match game_of(slots, player) {
        Some(game) => item_name_in(catalogue, game, id),
        None => None,
    }
}

/// The name of the location `id` of the player `player`, found as an item's
/// name is, in the game's table of location names.
pub open spec fn location_name_for(
    slots: Map<i64, NetworkSlot>,
    catalogue: Map<Seq<char>, GameDataView>,
    player: i64,
    id: i64,
) -> Option<Seq<char>> {
    match game_of(slots, player) {
        Some(game) => location_name_in(catalogue, game, id),
        None => None,
    }
}

/// The name that was found, or else the name that was there.
pub open spec fn found_or(found: Option<Seq<char>>, before: Option<Seq<char>>) -> Option<
    Seq<char>,
> {
    match found {
        Some(name) => Some(name),
        None => before,
    }
}

/// A fragment after its name has been looked up: a fragment that refers to
/// a player gets the player's alias from the roster, one that refers to an
/// item or a location gets the name from the catalogue. Where nothing is
/// found, and for every other fragment, the fragment stays as it is.
pub open spec fn resolve(
    part: RichPartView,
    players: Seq<NetworkPlayer>,
    slots: Map<i64, NetworkSlot>,
    catalogue: Map<Seq<char>, GameDataView>,
) -> RichPartView {
    match part {
        RichPartView::PlayerId { id, name } => RichPartView::PlayerId {
            id,
            name: found_or(alias_of(players, id), name),
        },
        RichPartView::ItemId { id, flags, player, name } => RichPartView::ItemId {
            id,
            flags,
            player,
            name: found_or(item_name_for(slots, catalogue, player, id), name),
        },
        RichPartView::LocationId { id, player, name } => RichPartView::LocationId {
            id,
            player,
            name: found_or(location_name_for(slots, catalogue, player, id), name),
        },
        other => other,
    }
}

/// Looking the names up twice gives what looking them up once gives.
pub proof fn lemma_resolve_idempotent(
    part: RichPartView,
    players: Seq<NetworkPlayer>,
    slots: Map<i64, NetworkSlot>,
    catalogue: Map<Seq<char>, GameDataView>,
)
    ensures
        resolve(resolve(part, players, slots, catalogue), players, slots, catalogue) == resolve(
            part,
            players,
            slots,
            catalogue,
        ),
{
}

impl RichPartView {
    /// The text that a fragment is shown as: its name or text where it has
    /// one, else a placeholder made of the id and the player concerned.
    pub open spec fn text(self) -> Seq<char> {
        match self {
            RichPartView::PlayerId { id, name } => match name {
                Some(name) => name,
                None => "<player "@ + decimal(id as int) + ">"@,
            },
            RichPartView::ItemId { id, player, name, .. } => match name {
                Some(name) => name,
                None => "<item "@ + decimal(player as int) + ":"@ + decimal(id as int) + ">"@,
            },
            RichPartView::LocationId { id, player, name } => match name {
                Some(name) => name,
                None => "<loc "@ + decimal(player as int) + ":"@ + decimal(id as int) + ">"@,
            },
            RichPartView::PlayerName { text } => text,
            RichPartView::ItemName { text, .. } => text,
            RichPartView::LocationName { text, .. } => text,
            RichPartView::EntranceName { text } => text,
            RichPartView::Color { text, .. } => text,
            RichPartView::Text { text } => text,
        }
    }
}

/// Returns a copy of the alias of the first player whose slot is `slot`.
fn find_alias(players: &Vec<NetworkPlayer>, slot: i64) -> (alias: Option<String>)
    ensures
        text_of(alias) == alias_of(players@, slot),
{
    let mut i: usize = 0;
    assert(players@.skip(0) == players@);
    while i < players.len()
        invariant
            i <= players@.len(),
            alias_of(players@, slot) == alias_of(players@.skip(i as int), slot),
        decreases players@.len() - i,
    {
        proof {
            assert(players@.skip(i as int)[0] == players@[i as int]);
            assert(players@.skip(i as int).drop_first() == players@.skip(i + 1));
        }
        if players[i].slot == slot {
            return Some(players[i].alias.clone());
        }
        i += 1;
    }
    None
}

/// Returns the placeholder for a fragment without a name.
fn placeholder(label: &str, player: Option<i64>, id: i64) -> (text: String)
    ensures
        text@ == label@ + (match player {
            Some(player) => decimal(player as int) + ":"@,
            None => Seq::empty(),
        }) + decimal(id as int) + ">"@,
{
    let mut text = String::from_str(label);
    match player {
        Some(player) => {
            text.append(format_decimal(player).as_str());
            text.append(":");
        },
        None => {},
    }
    text.append(format_decimal(id).as_str());
    text.append(">");
    text
}

impl RichMessagePart {
    /// Fills in the name of a fragment that refers to a player, an item or
    /// a location, where the roster and the catalogue have it.
    ///
    /// A player's name is the alias of the first player of the roster with
    /// that slot. The name of an item or a location is looked up in the
    /// catalogue, under the game of the slot of the player concerned; the
    /// catalogue must cover that game. A name that is not found leaves the
    /// fragment as it is. The catalogue keeps what it holds; its indexes
    /// are made where this is their first use.
    pub fn add_name<S>(&mut self, connected: &Connected<S>, data_package: &mut DataPackageObject)
        ensures
            final(data_package).wf(),
            final(data_package)@ == old(data_package)@,
            final(self)@ == resolve(
                old(self)@,
                connected.players@,
                connected.slot_info@,
                old(data_package)@,
            ),
    {
        proof {
            use_type_invariant(&*data_package);
        }
        match self {
            RichMessagePart::PlayerId { id, name } => {
                match find_alias(&connected.players, *id) {
                    Some(alias) => {
                        *name = Some(alias);
                    },
                    None => {},
                }
            },
            RichMessagePart::ItemId { id, player, name, .. } => {
                match connected.slot_info.get(player) {
                    Some(slot) => {
                        match data_package.item_name(slot.game.as_str(), *id) {
                            Some(item) => {
                                *name = Some(item);
                            },
                            None => {},
                        }
                    },
                    None => {},
                }
            },
            RichMessagePart::LocationId { id, player, name } => {
                match connected.slot_info.get(player) {
                    Some(slot) => {
                        match data_package.location_name(slot.game.as_str(), *id) {
                            Some(location) => {
                                *name = Some(location);
                            },
                            None => {},
                        }
                    },
                    None => {},
                }
            },
            _ => {},
        }
    }

    /// Renders the fragment as text: its name or text where it has one,
    /// else a placeholder made of the id and the player concerned.
    pub fn to_text(&self) -> (text: String)
        ensures
            text@ == self@.text(),
    {
        match self {
            RichMessagePart::PlayerId { id, name } => match name {
                Some(name) => name.clone(),
                None => placeholder("<player ", None, *id),
            },
            RichMessagePart::ItemId { id, player, name, .. } => match name {
                Some(name) => name.clone(),
                None => placeholder("<item ", Some(*player), *id),
            },
            RichMessagePart::LocationId { id, player, name } => match name {
                Some(name) => name.clone(),
                None => placeholder("<loc ", Some(*player), *id),
            },
            RichMessagePart::PlayerName { text } => text.clone(),
            RichMessagePart::ItemName { text, .. } => text.clone(),
            RichMessagePart::LocationName { text, .. } => text.clone(),
            RichMessagePart::EntranceName { text } => text.clone(),
            RichMessagePart::Color { text, .. } => text.clone(),
            RichMessagePart::Text { text } => text.clone(),
        }
    }
}

impl RichPrint {
    /// The fragments of the notification, whatever its type.
    pub open spec fn spec_data(&self) -> Vec<RichMessagePart> {
        match self {
            RichPrint::ItemSend { data, .. } => *data,
            RichPrint::ItemCheat { data, .. } => *data,
            RichPrint::Hint { data, .. } => *data,
            RichPrint::Join { data, .. } => *data,
            RichPrint::Part { data, .. } => *data,
            RichPrint::Chat { data, .. } => *data,
            RichPrint::ServerChat { data, .. } => *data,
            RichPrint::Tutorial { data } => *data,
            RichPrint::TagsChanged { data, .. } => *data,
            RichPrint::CommandResult { data } => *data,
            RichPrint::AdminCommandResult { data } => *data,
            RichPrint::Goal { data, .. } => *data,
            RichPrint::Release { data, .. } => *data,
            RichPrint::Collect { data, .. } => *data,
            RichPrint::Countdown { data, .. } => *data,
            RichPrint::Unknown { data } => *data,
        }
    }

    /// The notification with `data` in place of its fragments.
    pub open spec fn spec_with_data(self, data: Vec<RichMessagePart>) -> RichPrint {
        match self {
            RichPrint::ItemSend { receiving, item, .. } => RichPrint::ItemSend {
                data,
                receiving,
                item,
            },
            RichPrint::ItemCheat { receiving, item, team, .. } => RichPrint::ItemCheat {
                data,
                receiving,
                item,
                team,
            },
            RichPrint::Hint { receiving, item, found, .. } => RichPrint::Hint {
                data,
                receiving,
                item,
                found,
            },
            RichPrint::Join { team, slot, tags, .. } => RichPrint::Join { data, team, slot, tags },
            RichPrint::Part { team, slot, .. } => RichPrint::Part { data, team, slot },
            RichPrint::Chat { team, slot, message, .. } => RichPrint::Chat {
                data,
                team,
                slot,
                message,
            },
            RichPrint::ServerChat { message, .. } => RichPrint::ServerChat { data, message },
            RichPrint::Tutorial { .. } => RichPrint::Tutorial { data },
            RichPrint::TagsChanged { team, slot, tags, .. } => RichPrint::TagsChanged {
                data,
                team,
                slot,
                tags,
            },
            RichPrint::CommandResult { .. } => RichPrint::CommandResult { data },
            RichPrint::AdminCommandResult { .. } => RichPrint::AdminCommandResult { data },
            RichPrint::Goal { team, slot, .. } => RichPrint::Goal { data, team, slot },
            RichPrint::Release { team, slot, .. } => RichPrint::Release { data, team, slot },
            RichPrint::Collect { team, slot, .. } => RichPrint::Collect { data, team, slot },
            RichPrint::Countdown { countdown, .. } => RichPrint::Countdown { data, countdown },
            RichPrint::Unknown { .. } => RichPrint::Unknown { data },
        }
    }

    /// The text of the notification: the texts of its fragments in order.
    pub open spec fn spec_text(&self) -> Seq<char> {
        joined(self.spec_data()@.map_values(|part: RichMessagePart| part@.text()))
    }

    /// A notification of unknown type that holds `text` as its one
    /// unformatted fragment.
    pub fn message(text: String) -> (print: RichPrint)
        ensures
            print is Unknown,
            print.spec_data()@ == seq![(RichMessagePart::Text { text })],
    {
        let mut data = Vec::new();
        data.push(RichMessagePart::Text { text });
        RichPrint::Unknown { data }
    }

    /// Returns the fragments of the notification, whatever its type.
    pub fn data(&self) -> (data: &Vec<RichMessagePart>)
        ensures
            *data == self.spec_data(),
    {
        match self {
            RichPrint::ItemSend { data, .. } => data,
            RichPrint::ItemCheat { data, .. } => data,
            RichPrint::Hint { data, .. } => data,
            RichPrint::Join { data, .. } => data,
            RichPrint::Part { data, .. } => data,
            RichPrint::Chat { data, .. } => data,
            RichPrint::ServerChat { data, .. } => data,
            RichPrint::Tutorial { data } => data,
            RichPrint::TagsChanged { data, .. } => data,
            RichPrint::CommandResult { data } => data,
            RichPrint::AdminCommandResult { data } => data,
            RichPrint::Goal { data, .. } => data,
            RichPrint::Release { data, .. } => data,
            RichPrint::Collect { data, .. } => data,
            RichPrint::Countdown { data, .. } => data,
            RichPrint::Unknown { data } => data,
        }
    }

    /// Returns the fragments of the notification for changing them. The
    /// notification is then what it was, with the fragments as they are
    /// left.
    pub fn data_mut(&mut self) -> (data: &mut Vec<RichMessagePart>)
        ensures
            *data == old(self).spec_data(),
            *final(self) == old(self).spec_with_data(*final(data)),
    {
        match self {
            RichPrint::ItemSend { data, .. } => data,
            RichPrint::ItemCheat { data, .. } => data,
            RichPrint::Hint { data, .. } => data,
            RichPrint::Join { data, .. } => data,
            RichPrint::Part { data, .. } => data,
            RichPrint::Chat { data, .. } => data,
            RichPrint::ServerChat { data, .. } => data,
            RichPrint::Tutorial { data } => data,
            RichPrint::TagsChanged { data, .. } => data,
            RichPrint::CommandResult { data } => data,
            RichPrint::AdminCommandResult { data } => data,
            RichPrint::Goal { data, .. } => data,
            RichPrint::Release { data, .. } => data,
            RichPrint::Collect { data, .. } => data,
            RichPrint::Countdown { data, .. } => data,
            RichPrint::Unknown { data } => data,
        }
    }

    /// Fills in the names of all fragments that refer to a player, an item
    /// or a location, each as [`RichMessagePart::add_name`] does. Nothing
    /// else of the notification changes, and the catalogue keeps what it
    /// holds.
    pub fn add_names<S>(&mut self, connected: &Connected<S>, data_package: &mut DataPackageObject)
        ensures
            final(data_package).wf(),
            final(data_package)@ == old(data_package)@,
            *final(self) == old(self).spec_with_data(final(self).spec_data()),
            final(self).spec_data()@.len() == old(self).spec_data()@.len(),
            forall|i: int|
                0 <= i < old(self).spec_data()@.len() ==> (#[trigger] final(self).spec_data()@[i])@
                    == resolve(
                    old(self).spec_data()@[i]@,
                    connected.players@,
                    connected.slot_info@,
                    old(data_package)@,
                ),
    {
        proof {
            use_type_invariant(&*data_package);
        }
        let ghost before = self.spec_data()@;
        let ghost catalogue = data_package@;
        let data = self.data_mut();
        let mut i: usize = 0;
        while i < data.len()
            invariant
                i <= data@.len(),
                data@.len() == before.len(),
                data_package.wf(),
                data_package@ == catalogue,
                forall|j: int| i <= j < before.len() ==> data@[j] == before[j],
                forall|j: int|
                    0 <= j < i ==> (#[trigger] data@[j])@ == resolve(
                        before[j]@,
                        connected.players@,
                        connected.slot_info@,
                        catalogue,
                    ),
            decreases data@.len() - i,
        {
            data[i].add_name(connected, data_package);
            i += 1;
        }
    }

    /// Renders the notification as text: the texts of its fragments one
    /// after the other.
    pub fn to_text(&self) -> (text: String)
        ensures
            text@ == self.spec_text(),
    {
        let data = self.data();
        let ghost texts = data@.map_values(|part: RichMessagePart| part@.text());
        let mut text = String::new();
        let mut i: usize = 0;
        while i < data.len()
            invariant
                i <= data.len(),
                texts == data@.map_values(|part: RichMessagePart| part@.text()),
                text@ == joined(texts.take(i as int)),
            decreases data.len() - i,
        {
            proof {
                assert(texts.take(i + 1).drop_last() == texts.take(i as int));
            }
            text.append(data[i].to_text().as_str());
            i += 1;
        }
        proof {
            assert(texts.take(i as int) == texts);
        }
        text
    }
}

/// The colour of a typed fragment for the colour of a fragment as it
/// arrived: the same colour.
pub open spec fn rich_color_of(color: JSONColor) -> RichMessageColor {
    match color {
        JSONColor::Bold => RichMessageColor::Bold,
        JSONColor::Underline => RichMessageColor::Underline,
        JSONColor::Black => RichMessageColor::Black,
        JSONColor::Red => RichMessageColor::Red,
        JSONColor::Green => RichMessageColor::Green,
        JSONColor::Yellow => RichMessageColor::Yellow,
        JSONColor::Blue => RichMessageColor::Blue,
        JSONColor::Magenta => RichMessageColor::Magenta,
        JSONColor::Cyan => RichMessageColor::Cyan,
        JSONColor::White => RichMessageColor::White,
        JSONColor::BlackBg => RichMessageColor::BlackBg,
        JSONColor::RedBg => RichMessageColor::RedBg,
        JSONColor::GreenBg => RichMessageColor::GreenBg,
        JSONColor::YellowBg => RichMessageColor::YellowBg,
        JSONColor::BlueBg => RichMessageColor::BlueBg,
        JSONColor::MagentaBg => RichMessageColor::MagentaBg,
        JSONColor::CyanBg => RichMessageColor::CyanBg,
        JSONColor::WhiteBg => RichMessageColor::WhiteBg,
    }
}

/// The typed fragment for a fragment as it arrived. A fragment that refers
/// to a player, an item or a location holds its id as text: where that text
/// is an integer, as `parse_decimal_spec` reads it, the typed fragment holds
/// the id and no name yet; where it is not, the fragment falls back to plain
/// text. Every other fragment keeps its type and what it holds.
pub open spec fn rich_part_of(part: JSONMessagePart) -> RichPartView {
    match part {
        JSONMessagePart::PlayerId { text, .. } => match parse_decimal_spec(text@) {
            Some(id) => RichPartView::PlayerId { id, name: None },
            None => RichPartView::Text { text: text@ },
        },
        JSONMessagePart::PlayerName { text } => RichPartView::PlayerName { text: text@ },
        JSONMessagePart::ItemId { text, flags, player } => match parse_decimal_spec(text@) {
            Some(id) => RichPartView::ItemId { id, flags, player, name: None },
            None => RichPartView::Text { text: text@ },
        },
        JSONMessagePart::ItemName { text, flags, player } => RichPartView::ItemName {
            text: text@,
            flags,
            player,
        },
        JSONMessagePart::LocationId { text, player } => match parse_decimal_spec(text@) {
            Some(id) => RichPartView::LocationId { id, player, name: None },
            None => RichPartView::Text { text: text@ },
        },
        JSONMessagePart::LocationName { text, player } => RichPartView::LocationName {
            text: text@,
            player,
        },
        JSONMessagePart::EntranceName { text } => RichPartView::EntranceName { text: text@ },
        JSONMessagePart::Color { text, color } => RichPartView::Color {
            text: text@,
            color: rich_color_of(color),
        },
        JSONMessagePart::Text { text } => RichPartView::Text { text: text@ },
    }
}

/// The typed notification for a notification as it arrived, with `data` as
/// its fragments: it keeps its type and what it holds beside the fragments.
/// A chat message that lacks its team, its slot or its message, and a
/// notification of text alone, are of unknown type.
pub open spec fn rich_frame_of(print: PrintJSON, data: Vec<RichMessagePart>) -> RichPrint {
    match print {
        PrintJSON::ItemSend { receiving, item, .. } => RichPrint::ItemSend {
            data,
            receiving,
            item,
        },
        PrintJSON::ItemCheat { receiving, item, team, .. } => RichPrint::ItemCheat {
            data,
            receiving,
            item,
            team,
        },
        PrintJSON::Hint { receiving, item, found, .. } => RichPrint::Hint {
            data,
            receiving,
            item,
            found,
        },
        PrintJSON::Join { team, slot, tags, .. } => RichPrint::Join { data, team, slot, tags },
        PrintJSON::Part { team, slot, .. } => RichPrint::Part { data, team, slot },
        PrintJSON::ServerChat { message, .. } => RichPrint::ServerChat { data, message },
        PrintJSON::Tutorial { .. } => RichPrint::Tutorial { data },
        PrintJSON::TagsChanged { team, slot, tags, .. } => RichPrint::TagsChanged {
            data,
            team,
            slot,
            tags,
        },
        PrintJSON::CommandResult { .. } => RichPrint::CommandResult { data },
        PrintJSON::AdminCommandResult { .. } => RichPrint::AdminCommandResult { data },
        PrintJSON::Goal { team, slot, .. } => RichPrint::Goal { data, team, slot },
        PrintJSON::Release { team, slot, .. } => RichPrint::Release { data, team, slot },
        PrintJSON::Collect { team, slot, .. } => RichPrint::Collect { data, team, slot },
        PrintJSON::Countdown { countdown, .. } => RichPrint::Countdown { data, countdown },
        PrintJSON::Chat { team: Some(team), slot: Some(slot), message: Some(message), .. } => {
            RichPrint::Chat { data, team, slot, message }
        },
        PrintJSON::Chat { .. } => RichPrint::Unknown { data },
        PrintJSON::Unknown { .. } => RichPrint::Unknown { data },
        PrintJSON::Text { .. } => RichPrint::Unknown { data },
    }
}

impl RichMessageColor {
    /// Returns the colour of a typed fragment for the colour of a fragment
    /// as it arrived.
    pub fn from_wire(color: JSONColor) -> (rich: RichMessageColor)
        ensures
            rich == rich_color_of(color),
    {
        match color {
            JSONColor::Bold => RichMessageColor::Bold,
            JSONColor::Underline => RichMessageColor::Underline,
            JSONColor::Black => RichMessageColor::Black,
            JSONColor::Red => RichMessageColor::Red,
            JSONColor::Green => RichMessageColor::Green,
            JSONColor::Yellow => RichMessageColor::Yellow,
            JSONColor::Blue => RichMessageColor::Blue,
            JSONColor::Magenta => RichMessageColor::Magenta,
            JSONColor::Cyan => RichMessageColor::Cyan,
            JSONColor::White => RichMessageColor::White,
            JSONColor::BlackBg => RichMessageColor::BlackBg,
            JSONColor::RedBg => RichMessageColor::RedBg,
            JSONColor::GreenBg => RichMessageColor::GreenBg,
            JSONColor::YellowBg => RichMessageColor::YellowBg,
            JSONColor::BlueBg => RichMessageColor::BlueBg,
            JSONColor::MagentaBg => RichMessageColor::MagentaBg,
            JSONColor::CyanBg => RichMessageColor::CyanBg,
            JSONColor::WhiteBg => RichMessageColor::WhiteBg,
        }
    }
}

impl RichMessagePart {
    /// Returns the typed fragment for a fragment as it arrived, as
    /// [`rich_part_of`] states it.
    pub fn from_wire(part: &JSONMessagePart) -> (rich: RichMessagePart)
        ensures
            rich@ == rich_part_of(*part),
    {
        match part {
            JSONMessagePart::PlayerId { text, .. } => match parse_decimal(text.as_str()) {
                Some(id) => RichMessagePart::PlayerId { id, name: None },
                None => RichMessagePart::Text { text: text.clone() },
            },
            JSONMessagePart::PlayerName { text } => RichMessagePart::PlayerName {
                text: text.clone(),
            },
            JSONMessagePart::ItemId { text, flags, player } => match parse_decimal(text.as_str()) {
                Some(id) => RichMessagePart::ItemId {
                    id,
                    flags: *flags,
                    player: *player,
                    name: None,
                },
                None => RichMessagePart::Text { text: text.clone() },
            },
            JSONMessagePart::ItemName { text, flags, player } => RichMessagePart::ItemName {
                text: text.clone(),
                flags: *flags,
                player: *player,
            },
            JSONMessagePart::LocationId { text, player } => match parse_decimal(text.as_str()) {
                Some(id) => RichMessagePart::LocationId { id, player: *player, name: None },
                None => RichMessagePart::Text { text: text.clone() },
            },
            JSONMessagePart::LocationName { text, player } => RichMessagePart::LocationName {
                text: text.clone(),
                player: *player,
            },
            JSONMessagePart::EntranceName { text } => RichMessagePart::EntranceName {
                text: text.clone(),
            },
            JSONMessagePart::Color { text, color } => RichMessagePart::Color {
                text: text.clone(),
                color: RichMessageColor::from_wire(*color),
            },
            JSONMessagePart::Text { text } => RichMessagePart::Text { text: text.clone() },
        }
    }
}

/// Returns the typed fragments for fragments as they arrived.
fn parts_from_wire(parts: &Vec<JSONMessagePart>) -> (rich: Vec<RichMessagePart>)
    ensures
        rich@.len() == parts@.len(),
        forall|i: int| 0 <= i < parts@.len() ==> (#[trigger] rich@[i])@ == rich_part_of(parts@[i]),
{
    let mut rich: Vec<RichMessagePart> = Vec::new();
    let mut i: usize = 0;
    while i < parts.len()
        invariant
            i <= parts@.len(),
            rich@.len() == i,
            forall|j: int| 0 <= j < i ==> (#[trigger] rich@[j])@ == rich_part_of(parts@[j]),
        decreases parts@.len() - i,
    {
        rich.push(RichMessagePart::from_wire(&parts[i]));
        i += 1;
    }
    rich
}

impl RichPrint {
    /// Returns the typed notification for a notification as it arrived: its
    /// frame as [`rich_frame_of`] states it, and each of its fragments as
    /// [`rich_part_of`] states it, in their order.
    pub fn from_wire(print: PrintJSON) -> (rich: RichPrint)
        ensures
            rich == rich_frame_of(print, rich.spec_data()),
            rich.spec_data()@.len() == print.spec_data()@.len(),
            forall|i: int|
                0 <= i < print.spec_data()@.len() ==> (#[trigger] rich.spec_data()@[i])@
                    == rich_part_of(print.spec_data()@[i]),
    {
        let data = parts_from_wire(print.data());
        match print {
            PrintJSON::ItemSend { receiving, item, .. } => RichPrint::ItemSend {
                data,
                receiving,
                item,
            },
            PrintJSON::ItemCheat { receiving, item, team, .. } => RichPrint::ItemCheat {
                data,
                receiving,
                item,
                team,
            },
            PrintJSON::Hint { receiving, item, found, .. } => RichPrint::Hint {
                data,
                receiving,
                item,
                found,
            },
            PrintJSON::Join { team, slot, tags, .. } => RichPrint::Join { data, team, slot, tags },
            PrintJSON::Part { team, slot, .. } => RichPrint::Part { data, team, slot },
            PrintJSON::ServerChat { message, .. } => RichPrint::ServerChat { data, message },
            PrintJSON::Tutorial { .. } => RichPrint::Tutorial { data },
            PrintJSON::TagsChanged { team, slot, tags, .. } => RichPrint::TagsChanged {
                data,
                team,
                slot,
                tags,
            },
            PrintJSON::CommandResult { .. } => RichPrint::CommandResult { data },
            PrintJSON::AdminCommandResult { .. } => RichPrint::AdminCommandResult { data },
            PrintJSON::Goal { team, slot, .. } => RichPrint::Goal { data, team, slot },
            PrintJSON::Release { team, slot, .. } => RichPrint::Release { data, team, slot },
            PrintJSON::Collect { team, slot, .. } => RichPrint::Collect { data, team, slot },
            PrintJSON::Countdown { countdown, .. } => RichPrint::Countdown { data, countdown },
            PrintJSON::Chat { team: Some(team), slot: Some(slot), message: Some(message), .. } => {
                RichPrint::Chat { data, team, slot, message }
            },
            PrintJSON::Chat { .. } => RichPrint::Unknown { data },
            PrintJSON::Unknown { .. } => RichPrint::Unknown { data },
            PrintJSON::Text { .. } => RichPrint::Unknown { data },
        }
    }
}

} // verus!
