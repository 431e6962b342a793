//! The two message alphabets of the protocol and the data they carry.

use serde_json::Value;
use std::collections::HashMap;
use vstd::prelude::*;
use vstd::string::{StringExecFns, StringSliceAdditionalSpecFns};
use vstd::utf8::{encode_utf8, encode_utf8_decode_utf8};

pub mod bounce;
pub mod data_package;
pub mod flags;
pub mod print_json;
pub mod rich_message;

use crate::decimal::{decimal, format_decimal};
use crate::protocol::data_package::DataPackageObject;
use crate::protocol::flags::NetworkItemFlags;
use crate::protocol::print_json::PrintJSON;

verus! {

/// A message that the client sends to the server.
#[derive(Debug, Clone)]
pub enum ClientMessage {
    Connect(Connect),
    ConnectUpdate(ConnectUpdate),
    Sync,
    LocationChecks(LocationChecks),
    LocationScouts(LocationScouts),
    UpdateHint(UpdateHint),
    StatusUpdate(StatusUpdate),
    Say(Say),
    GetDataPackage(GetDataPackage),
    Bounce(Bounce),
    Get(Get),
    SetRequest(SetRequest),
    SetNotify(SetNotify),
}

/// A message that the server sends to the client. `S` is the shape in which
/// the caller wants the slot data of [`Connected`].
#[derive(Debug, Clone)]
pub enum ServerMessage<S> {
    RoomInfo(RoomInfo),
    ConnectionRefused(ConnectionRefused),
    Connected(Connected<S>),
    ReceivedItems(ReceivedItems),
    LocationInfo(LocationInfo),
    RoomUpdate(RoomUpdate),
    Print(Print),
    PrintJSON(PrintJSON),
    DataPackage(DataPackage),
    Bounced(Bounced),
    InvalidPacket(InvalidPacket),
    Retrieved(Retrieved),
    SetReply(SetReply),
}

/// The kind of a server message: its variant without its payload.
#[derive(Debug, Clone, Copy, PartialEq, Eq, Structural)]
pub enum ServerMessageKind {
    RoomInfo,
    ConnectionRefused,
    Connected,
    ReceivedItems,
    LocationInfo,
    RoomUpdate,
    Print,
    PrintJSON,
    DataPackage,
    Bounced,
    InvalidPacket,
    Retrieved,
    SetReply,
}

/// The kind that a value of the `cmd` field marks, if it marks one.
pub open spec fn kind_named(name: Seq<char>) -> Option<ServerMessageKind> {
    if name == "RoomInfo"@ {
        Some(ServerMessageKind::RoomInfo)
    } else if name == "ConnectionRefused"@ {
        Some(ServerMessageKind::ConnectionRefused)
    } else if name == "Connected"@ {
        Some(ServerMessageKind::Connected)
    } else if name == "ReceivedItems"@ {
        Some(ServerMessageKind::ReceivedItems)
    } else if name == "LocationInfo"@ {
        Some(ServerMessageKind::LocationInfo)
    } else if name == "RoomUpdate"@ {
        Some(ServerMessageKind::RoomUpdate)
    } else if name == "Print"@ {
        Some(ServerMessageKind::Print)
    } else if name == "PrintJSON"@ {
        Some(ServerMessageKind::PrintJSON)
    } else if name == "DataPackage"@ {
        Some(ServerMessageKind::DataPackage)
    } else if name == "Bounced"@ {
        Some(ServerMessageKind::Bounced)
    } else if name == "InvalidPacket"@ {
        Some(ServerMessageKind::InvalidPacket)
    } else if name == "Retrieved"@ {
        Some(ServerMessageKind::Retrieved)
    } else if name == "SetReply"@ {
        Some(ServerMessageKind::SetReply)
    } else {
        None
    }
}

/// Each kind is the kind that its own name marks, so that no two kinds
/// share a name.
pub proof fn lemma_kind_named(kind: ServerMessageKind)
    ensures
        kind_named(kind.spec_name()) == Some(kind),
{
    reveal_strlit("RoomInfo");
    reveal_strlit("ConnectionRefused");
    reveal_strlit("Connected");
    reveal_strlit("ReceivedItems");
    reveal_strlit("LocationInfo");
    reveal_strlit("RoomUpdate");
    reveal_strlit("Print");
    reveal_strlit("PrintJSON");
    reveal_strlit("DataPackage");
    reveal_strlit("Bounced");
    reveal_strlit("InvalidPacket");
    reveal_strlit("Retrieved");
    reveal_strlit("SetReply");
    assert("RoomInfo"@.len() == 8);
    assert("ConnectionRefused"@.len() == 17);
    assert("Connected"@.len() == 9);
    assert("ReceivedItems"@.len() == 13);
    assert("LocationInfo"@.len() == 12);
    assert("RoomUpdate"@.len() == 10);
    assert("Print"@.len() == 5);
    assert("PrintJSON"@.len() == 9);
    assert("DataPackage"@.len() == 11);
    assert("Bounced"@.len() == 7);
    assert("InvalidPacket"@.len() == 13);
    assert("Retrieved"@.len() == 9);
    assert("SetReply"@.len() == 8);
    assert("RoomInfo"@[0] == 'R');
    assert("SetReply"@[0] == 'S');
    assert("Connected"@[0] == 'C');
    assert("PrintJSON"@[0] == 'P');
    assert("Retrieved"@[0] == 'R');
    assert("ReceivedItems"@[0] == 'R');
    assert("InvalidPacket"@[0] == 'I');
}

impl ServerMessageKind {
    /// Returns the kind that a value of the `cmd` field marks; `None` for a
    /// value that marks no kind.
    pub fn from_name(name: &str) -> (kind: Option<ServerMessageKind>)
        ensures
            kind == kind_named(name@),
    {
        if same_text(name, "RoomInfo") {
            Some(ServerMessageKind::RoomInfo)
        } else if same_text(name, "ConnectionRefused") {
            Some(ServerMessageKind::ConnectionRefused)
        } else if same_text(name, "Connected") {
            Some(ServerMessageKind::Connected)
        } else if same_text(name, "ReceivedItems") {
            Some(ServerMessageKind::ReceivedItems)
        } else if same_text(name, "LocationInfo") {
            Some(ServerMessageKind::LocationInfo)
        } else if same_text(name, "RoomUpdate") {
            Some(ServerMessageKind::RoomUpdate)
        } else if same_text(name, "Print") {
            Some(ServerMessageKind::Print)
        } else if same_text(name, "PrintJSON") {
            Some(ServerMessageKind::PrintJSON)
        } else if same_text(name, "DataPackage") {
            Some(ServerMessageKind::DataPackage)
        } else if same_text(name, "Bounced") {
            Some(ServerMessageKind::Bounced)
        } else if same_text(name, "InvalidPacket") {
            Some(ServerMessageKind::InvalidPacket)
        } else if same_text(name, "Retrieved") {
            Some(ServerMessageKind::Retrieved)
        } else if same_text(name, "SetReply") {
            Some(ServerMessageKind::SetReply)
        } else {
            None
        }
    }

    /// The value of the `cmd` field that marks this kind on the wire.
    pub open spec fn spec_name(self) -> Seq<char> {
        match self {
            ServerMessageKind::RoomInfo => "RoomInfo"@,
            ServerMessageKind::ConnectionRefused => "ConnectionRefused"@,
            ServerMessageKind::Connected => "Connected"@,
            ServerMessageKind::ReceivedItems => "ReceivedItems"@,
            ServerMessageKind::LocationInfo => "LocationInfo"@,
            ServerMessageKind::RoomUpdate => "RoomUpdate"@,
            ServerMessageKind::Print => "Print"@,
            ServerMessageKind::PrintJSON => "PrintJSON"@,
            ServerMessageKind::DataPackage => "DataPackage"@,
            ServerMessageKind::Bounced => "Bounced"@,
            ServerMessageKind::InvalidPacket => "InvalidPacket"@,
            ServerMessageKind::Retrieved => "Retrieved"@,
            ServerMessageKind::SetReply => "SetReply"@,
        }
    }

    /// Returns the value of the `cmd` field that marks this kind on the wire.
    pub fn name(self) -> (name: &'static str)
        ensures
            name@ == self.spec_name(),
    {
        match self {
            ServerMessageKind::RoomInfo => "RoomInfo",
            ServerMessageKind::ConnectionRefused => "ConnectionRefused",
            ServerMessageKind::Connected => "Connected",
            ServerMessageKind::ReceivedItems => "ReceivedItems",
            ServerMessageKind::LocationInfo => "LocationInfo",
            ServerMessageKind::RoomUpdate => "RoomUpdate",
            ServerMessageKind::Print => "Print",
            ServerMessageKind::PrintJSON => "PrintJSON",
            ServerMessageKind::DataPackage => "DataPackage",
            ServerMessageKind::Bounced => "Bounced",
            ServerMessageKind::InvalidPacket => "InvalidPacket",
            ServerMessageKind::Retrieved => "Retrieved",
            ServerMessageKind::SetReply => "SetReply",
        }
    }
}

impl<S> ServerMessage<S> {
    /// The kind of this message.
    pub open spec fn spec_kind(&self) -> ServerMessageKind {
        match self {
            ServerMessage::RoomInfo(_) => ServerMessageKind::RoomInfo,
            ServerMessage::ConnectionRefused(_) => ServerMessageKind::ConnectionRefused,
            ServerMessage::Connected(_) => ServerMessageKind::Connected,
            ServerMessage::ReceivedItems(_) => ServerMessageKind::ReceivedItems,
            ServerMessage::LocationInfo(_) => ServerMessageKind::LocationInfo,
            ServerMessage::RoomUpdate(_) => ServerMessageKind::RoomUpdate,
            ServerMessage::Print(_) => ServerMessageKind::Print,
            ServerMessage::PrintJSON(_) => ServerMessageKind::PrintJSON,
            ServerMessage::DataPackage(_) => ServerMessageKind::DataPackage,
            ServerMessage::Bounced(_) => ServerMessageKind::Bounced,
            ServerMessage::InvalidPacket(_) => ServerMessageKind::InvalidPacket,
            ServerMessage::Retrieved(_) => ServerMessageKind::Retrieved,
            ServerMessage::SetReply(_) => ServerMessageKind::SetReply,
        }
    }

    /// Returns the kind of this message.
    pub fn kind(&self) -> (kind: ServerMessageKind)
        ensures
            kind == self.spec_kind(),
    {
        match self {
            ServerMessage::RoomInfo(_) => ServerMessageKind::RoomInfo,
            ServerMessage::ConnectionRefused(_) => ServerMessageKind::ConnectionRefused,
            ServerMessage::Connected(_) => ServerMessageKind::Connected,
            ServerMessage::ReceivedItems(_) => ServerMessageKind::ReceivedItems,
            ServerMessage::LocationInfo(_) => ServerMessageKind::LocationInfo,
            ServerMessage::RoomUpdate(_) => ServerMessageKind::RoomUpdate,
            ServerMessage::Print(_) => ServerMessageKind::Print,
            ServerMessage::PrintJSON(_) => ServerMessageKind::PrintJSON,
            ServerMessage::DataPackage(_) => ServerMessageKind::DataPackage,
            ServerMessage::Bounced(_) => ServerMessageKind::Bounced,
            ServerMessage::InvalidPacket(_) => ServerMessageKind::InvalidPacket,
            ServerMessage::Retrieved(_) => ServerMessageKind::Retrieved,
            ServerMessage::SetReply(_) => ServerMessageKind::SetReply,
        }
    }

    /// Returns the name of this message's type: the value of the `cmd`
    /// field that marks its kind on the wire.
    pub fn kind_name(&self) -> (name: &'static str)
        ensures
            name@ == self.spec_kind().spec_name(),
    {
        self.kind().name()
    }
}

/// What a room lets its players do with a command such as release or collect.
#[derive(Debug, Clone, Copy, PartialEq, Eq, Structural)]
pub enum Permission {
    Disabled,
    Enabled,
    Goal,
    Auto,
    AutoEnabled,
}

impl Permission {
    /// The number that stands for this permission on the wire.
    pub open spec fn spec_code(self) -> u16 {
        match self {
            Permission::Disabled => 0,
            Permission::Enabled => 1,
            Permission::Goal => 2,
            Permission::Auto => 6,
            Permission::AutoEnabled => 7,
        }
    }

    /// Returns the number that stands for this permission on the wire.
    pub fn code(self) -> (code: u16)
        ensures
            code == self.spec_code(),
    {
        match self {
            Permission::Disabled => 0,
            Permission::Enabled => 1,
            Permission::Goal => 2,
            Permission::Auto => 6,
            Permission::AutoEnabled => 7,
        }
    }

    /// Reads a permission from its wire number; `None` for a number that
    /// stands for no permission.
    pub fn from_code(code: u16) -> (permission: Option<Permission>)
        ensures
            match permission {
                Some(p) => p.spec_code() == code,
                None => forall|p: Permission| p.spec_code() != code,
            },
    {
        if code == 0 {
            Some(Permission::Disabled)
        } else if code == 1 {
            Some(Permission::Enabled)
        } else if code == 2 {
            Some(Permission::Goal)
        } else if code == 6 {
            Some(Permission::Auto)
        } else if code == 7 {
            Some(Permission::AutoEnabled)
        } else {
            None
        }
    }
}

/// A version of the protocol or of the software that speaks it.
#[derive(Debug, Clone)]
pub struct NetworkVersion {
    pub major: i64,
    pub minor: i64,
    pub build: i64,
    pub class: String,
}

impl NetworkVersion {
    /// The dotted text of a version: major, minor and build in decimal.
    pub open spec fn spec_text(&self) -> Seq<char> {
        decimal(self.major as int) + seq!['.'] + decimal(self.minor as int) + seq!['.'] + decimal(
            self.build as int,
        )
    }

    /// Returns a copy of the version.
    pub fn copy(&self) -> (copy: NetworkVersion)
        ensures
            copy == *self,
    {
        NetworkVersion {
            major: self.major,
            minor: self.minor,
            build: self.build,
            class: self.class.clone(),
        }
    }

    /// Renders the version as `major.minor.build`.
    pub fn to_text(&self) -> (text: String)
        ensures
            text@ == self.spec_text(),
    {
        proof {
            reveal_strlit(".");
        }
        let mut out = format_decimal(self.major);
        out.append(".");
        let minor = format_decimal(self.minor);
        out.append(minor.as_str());
        out.append(".");
        let build = format_decimal(self.build);
        out.append(build.as_str());
        assert("."@ =~= seq!['.']);
        out
    }
}

/// The value of a version's `class` field on the wire.
pub fn default_version_class() -> (class: String)
    ensures
        class@ == "Version"@,
{
    "Version".to_string()
}

/// The protocol version that this client declares when it joins a slot.
pub fn network_version() -> (version: NetworkVersion)
    ensures
        version.major == 0,
        version.minor == 6,
        version.build == 0,
        version.class@ == "Version"@,
{
    NetworkVersion { major: 0, minor: 6, build: 0, class: default_version_class() }
}

/// One participant of the room, as the roster lists it.
#[derive(Debug, Clone)]
pub struct NetworkPlayer {
    pub team: i64,
    pub slot: i64,
    pub alias: String,
    pub name: String,
}

/// An item together with the location it lies at and the player concerned.
#[derive(Debug, Clone)]
pub struct NetworkItem {
    pub item: i64,
    pub location: i64,
    pub player: i64,
    pub flags: NetworkItemFlags,
}

/// The role of a slot.
#[derive(Debug, Clone, Copy, PartialEq, Eq, Structural)]
pub enum SlotType {
    Spectator,
    Player,
    Group,
}

impl SlotType {
    /// The number that stands for this role on the wire.
    pub open spec fn spec_code(self) -> u16 {
        match self {
            SlotType::Spectator => 0,
            SlotType::Player => 1,
            SlotType::Group => 2,
        }
    }

    /// Returns the number that stands for this role on the wire.
    pub fn code(self) -> (code: u16)
        ensures
            code == self.spec_code(),
    {
        match self {
            SlotType::Spectator => 0,
            SlotType::Player => 1,
            SlotType::Group => 2,
        }
    }

    /// Reads a role from its wire number; `None` for a number that stands
    /// for no role.
    pub fn from_code(code: u16) -> (slot_type: Option<SlotType>)
        ensures
            match slot_type {
                Some(t) => t.spec_code() == code,
                None => forall|t: SlotType| t.spec_code() != code,
            },
    {
        if code == 0 {
            Some(SlotType::Spectator)
        } else if code == 1 {
            Some(SlotType::Player)
        } else if code == 2 {
            Some(SlotType::Group)
        } else {
            None
        }
    }
}

/// What the room knows of one slot.
#[derive(Debug, Clone)]
pub struct NetworkSlot {
    pub name: String,
    pub game: String,
    pub slot_type: SlotType,
    pub group_members: Vec<i64>,
}

/// The request to join a slot.
#[derive(Debug, Clone)]
pub struct Connect {
    pub password: Option<String>,
    pub game: String,
    pub name: String,
    pub uuid: String,
    pub version: NetworkVersion,
    pub items_handling: u8,
    pub tags: Vec<String>,
    pub slot_data: bool,
}

/// A change of the options given when joining.
#[derive(Debug, Clone)]
pub struct ConnectUpdate {
    pub items_handling: u8,
    pub tags: Vec<String>,
}

/// The report of locations that the client has checked.
#[derive(Debug, Clone)]
pub struct LocationChecks {
    pub locations: Vec<i64>,
}

/// The request to learn what lies at locations without checking them.
#[derive(Debug, Clone)]
pub struct LocationScouts {
    pub locations: Vec<i64>,
    pub create_as_hint: u8,
}

/// A change of the status of a hint.
#[derive(Debug, Clone)]
pub struct UpdateHint {
    pub player: i64,
    pub location: i64,
    pub status: Option<HintStatus>,
}

/// How much the receiver of a hint cares for it.
#[derive(Debug, Clone, Copy, PartialEq, Eq, Structural)]
pub enum HintStatus {
    HintFound,
    HintUnspecified,
    HintNoPriority,
    HintAvoid,
    HintPriority,
}

impl HintStatus {
    /// The number that stands for this status on the wire.
    pub open spec fn spec_code(self) -> u16 {
        match self {
            HintStatus::HintFound => 0,
            HintStatus::HintUnspecified => 1,
            HintStatus::HintNoPriority => 10,
            HintStatus::HintAvoid => 20,
            HintStatus::HintPriority => 30,
        }
    }

    /// Returns the number that stands for this status on the wire.
    pub fn code(self) -> (code: u16)
        ensures
            code == self.spec_code(),
    {
        match self {
            HintStatus::HintFound => 0,
            HintStatus::HintUnspecified => 1,
            HintStatus::HintNoPriority => 10,
            HintStatus::HintAvoid => 20,
            HintStatus::HintPriority => 30,
        }
    }

    /// Reads a status from its wire number; `None` for a number that stands
    /// for no status.
    pub fn from_code(code: u16) -> (status: Option<HintStatus>)
        ensures
            match status {
                Some(s) => s.spec_code() == code,
                None => forall|s: HintStatus| s.spec_code() != code,
            },
    {
        if code == 0 {
            Some(HintStatus::HintFound)
        } else if code == 1 {
            Some(HintStatus::HintUnspecified)
        } else if code == 10 {
            Some(HintStatus::HintNoPriority)
        } else if code == 20 {
            Some(HintStatus::HintAvoid)
        } else if code == 30 {
            Some(HintStatus::HintPriority)
        } else {
            None
        }
    }
}

/// The report of where the client stands in its game.
#[derive(Debug, Clone)]
pub struct StatusUpdate {
    pub status: ClientStatus,
}

/// Where a client stands in its game.
#[derive(Debug, Clone, Copy, PartialEq, Eq, Structural)]
pub enum ClientStatus {
    ClientUnknown,
    ClientReady,
    ClientPlaying,
    ClientGoal,
}

impl ClientStatus {
    /// The number that stands for this status on the wire.
    pub open spec fn spec_code(self) -> u16 {
        match self {
            ClientStatus::ClientUnknown => 0,
            ClientStatus::ClientReady => 10,
            ClientStatus::ClientPlaying => 20,
            ClientStatus::ClientGoal => 30,
        }
    }

    /// Returns the number that stands for this status on the wire.
    pub fn code(self) -> (code: u16)
        ensures
            code == self.spec_code(),
    {
        match self {
            ClientStatus::ClientUnknown => 0,
            ClientStatus::ClientReady => 10,
            ClientStatus::ClientPlaying => 20,
            ClientStatus::ClientGoal => 30,
        }
    }

    /// Reads a status from its wire number; `None` for a number that stands
    /// for no status.
    pub fn from_code(code: u16) -> (status: Option<ClientStatus>)
        ensures
            match status {
                Some(s) => s.spec_code() == code,
                None => forall|s: ClientStatus| s.spec_code() != code,
            },
    {
        if code == 0 {
            Some(ClientStatus::ClientUnknown)
        } else if code == 10 {
            Some(ClientStatus::ClientReady)
        } else if code == 20 {
            Some(ClientStatus::ClientPlaying)
        } else if code == 30 {
            Some(ClientStatus::ClientGoal)
        } else {
            None
        }
    }
}

/// A line of chat.
#[derive(Debug, Clone)]
pub struct Say {
    pub text: String,
}

/// The request for the data packages of some games, or of all.
#[derive(Debug, Clone)]
pub struct GetDataPackage {
    pub games: Option<Vec<String>>,
}

/// A message that the server forwards to the clients that it is aimed at.
#[derive(Debug, Clone)]
pub struct Bounce {
    pub games: Option<Vec<String>>,
    pub slots: Option<Vec<String>>,
    pub tags: Option<Vec<String>>,
    pub data: Value,
}

/// The request to read keys of the shared storage.
#[derive(Debug, Clone)]
pub struct Get {
    pub keys: Vec<String>,
}

/// The request to change a key of the shared storage.
#[derive(Debug, Clone)]
pub struct SetRequest {
    pub key: String,
    pub default: Value,
    pub want_reply: bool,
    pub operations: Vec<DataStorageOperation>,
}

/// One step of a change to a key of the shared storage.
#[derive(Debug, Clone)]
pub enum DataStorageOperation {
    Replace(Value),
    Default,
    Add(Value),
    Mul(Value),
    Pow(Value),
    Mod(Value),
    Floor,
    Ceil,
    Max(Value),
    Min(Value),
    And(Value),
    Or(Value),
    Xor(Value),
    LeftShift(Value),
    RightShift(Value),
    Remove(Value),
    Pop(Value),
    Update(Value),
}

/// The request to be told of changes to keys of the shared storage.
#[derive(Debug, Clone)]
pub struct SetNotify {
    pub keys: Vec<String>,
}

/// What the server announces of the room when a client arrives.
#[derive(Debug, Clone)]
pub struct RoomInfo {
    pub version: NetworkVersion,
    pub generator_version: NetworkVersion,
    pub tags: Vec<String>,
    pub password_required: bool,
    pub permissions: HashMap<String, Permission>,
    pub hint_cost: i64,
    pub location_check_points: i64,
    pub games: Vec<String>,
    pub datapackage_versions: HashMap<String, i64>,
    pub datapackage_checksums: HashMap<String, String>,
    pub seed_name: String,
    /// The server's clock in seconds since the Unix epoch: the bit pattern
    /// of the double-precision number that the wire carries.
    pub time: u64,
}

impl RoomInfo {
    /// Two announcements say the same of the room.
    pub open spec fn spec_same(&self, other: &RoomInfo) -> bool {
        &&& self.version == other.version
        &&& self.generator_version == other.generator_version
        &&& self.tags@ == other.tags@
        &&& self.password_required == other.password_required
        &&& self.permissions@ == other.permissions@
        &&& self.hint_cost == other.hint_cost
        &&& self.location_check_points == other.location_check_points
        &&& self.games@ == other.games@
        &&& self.datapackage_versions@ == other.datapackage_versions@
        &&& self.datapackage_checksums@ == other.datapackage_checksums@
        &&& self.seed_name == other.seed_name
        &&& self.time == other.time
    }

    /// Returns a copy of the announcement, which says the same of the room.
    pub fn copy(&self) -> (copy: RoomInfo)
        ensures
            copy.spec_same(self),
    {
        RoomInfo {
            version: self.version.copy(),
            generator_version: self.generator_version.copy(),
            tags: crate::protocol::bounce::copy_texts(&self.tags),
            password_required: self.password_required,
            permissions: self.permissions.clone(),
            hint_cost: self.hint_cost,
            location_check_points: self.location_check_points,
            games: crate::protocol::bounce::copy_texts(&self.games),
            datapackage_versions: self.datapackage_versions.clone(),
            datapackage_checksums: self.datapackage_checksums.clone(),
            seed_name: self.seed_name.clone(),
            time: self.time,
        }
    }
}

/// The server's refusal to let the client join, with its reasons.
#[derive(Debug, Clone)]
pub struct ConnectionRefused {
    pub errors: Vec<String>,
}

/// The server's acceptance of a join request.
#[derive(Debug, Clone)]
pub struct Connected<S> {
    pub team: i64,
    pub slot: i64,
    pub players: Vec<NetworkPlayer>,
    pub missing_locations: Vec<i64>,
    pub checked_locations: Vec<i64>,
    pub slot_data: S,
    pub slot_info: HashMap<i64, NetworkSlot>,
    pub hint_points: i64,
}

/// Items that the client has received, from the given index on.
#[derive(Debug, Clone)]
pub struct ReceivedItems {
    pub index: i64,
    pub items: Vec<NetworkItem>,
}

/// What lies at the locations that the client scouted.
#[derive(Debug, Clone)]
pub struct LocationInfo {
    pub locations: Vec<NetworkItem>,
}

/// A change of the room: the fields that changed, the others absent.
#[derive(Debug, Clone)]
pub struct RoomUpdate {
    pub version: Option<NetworkVersion>,
    pub tags: Option<Vec<String>>,
    pub password_required: Option<bool>,
    pub permissions: Option<HashMap<String, Permission>>,
    pub hint_cost: Option<i64>,
    pub location_check_points: Option<i64>,
    pub games: Option<Vec<String>>,
    pub datapackage_versions: Option<HashMap<String, i64>>,
    pub datapackage_checksums: Option<HashMap<String, String>>,
    pub seed_name: Option<String>,
    /// The server's clock, held as in [`RoomInfo`].
    pub time: Option<u64>,
    pub hint_points: Option<i64>,
    pub players: Option<Vec<NetworkPlayer>>,
    pub checked_locations: Option<Vec<i64>>,
    pub missing_locations: Option<Vec<i64>>,
}

/// A line of plain text for the player.
#[derive(Debug, Clone)]
pub struct Print {
    pub text: String,
}

/// Tells whether two texts hold the same characters, by their bytes: two
/// texts are the same exactly if their encodings are.
pub(crate) fn same_text(a: &str, b: &str) -> (same: bool)
    ensures
        same == (a@ == b@),
{
    let left = a.as_bytes();
    let right = b.as_bytes();
    proof {
        encode_utf8_decode_utf8(a@);
        encode_utf8_decode_utf8(b@);
    }
    if left.len() != right.len() {
        return false;
    }
    let mut i: usize = 0;
    while i < left.len()
        invariant
            i <= left@.len(),
            left@.len() == right@.len(),
            left@ == encode_utf8(a@),
            right@ == encode_utf8(b@),
            forall|j: int| 0 <= j < i ==> left@[j] == right@[j],
        decreases left@.len() - i,
    {
        if left[i] != right[i] {
            return false;
        }
        i += 1;
    }
    assert(left@ =~= right@);
    true
}

/// The catalogue of names and ids that the server sends on request.
#[derive(Debug, Clone)]
pub struct DataPackage {
    pub data: DataPackageObject,
}

/// A forwarded message as it arrives.
#[derive(Debug, Clone)]
pub struct Bounced {
    pub games: Option<Vec<String>>,
    pub slots: Option<Vec<i64>>,
    pub tags: Option<Vec<String>>,
    pub data: Option<Value>,
}

/// The server's complaint about a message that it could not accept.
#[derive(Debug, Clone)]
pub struct InvalidPacket {
    pub packet_type: String,
    pub original_cmd: Option<String>,
    pub text: String,
}

/// The values of the keys that the client asked for.
#[derive(Debug, Clone)]
pub struct Retrieved {
    pub keys: Value,
}

/// The news that a key of the shared storage has changed.
#[derive(Debug, Clone)]
pub struct SetReply {
    pub key: String,
    pub value: Value,
    pub original_value: Option<Value>,
}

} // verus!
