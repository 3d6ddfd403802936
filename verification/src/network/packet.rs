use crate::player::Direction;
use vstd::prelude::*;

verus! {

/// Outgoing packets (server to client).
#[derive(Debug, Copy, Clone, PartialEq, Eq, Structural)]
pub enum PacketOut {
    Login,
    Error,
    DataWindow,
    Info,
    MessageOfTheDay,
    MapView,
    MoveNorth,
    MoveEast,
    MoveSouth,
    MoveWest,
    CloseContainer,
    OpenContainer,
    EquippedItem,
    RemoveEquipped,
    UpdateObject,
    LookMessage,
    Chat,
    UserList,
    UserInfo,
    StatusMessage,
    Echo,
}

/// Identifier of an outgoing packet on the wire.
pub open spec fn packet_out_code(p: PacketOut) -> u16 {
    match p {
        PacketOut::Login => 0x0001,
        PacketOut::Error => 0x0002,
        PacketOut::DataWindow => 0x0003,
        PacketOut::Info => 0x0004,
        PacketOut::MessageOfTheDay => 0x0005,
        PacketOut::MapView => 0x000A,
        PacketOut::MoveNorth => 0x000B,
        PacketOut::MoveEast => 0x000C,
        PacketOut::MoveSouth => 0x000D,
        PacketOut::MoveWest => 0x000E,
        PacketOut::CloseContainer => 0x0012,
        PacketOut::OpenContainer => 0x0013,
        PacketOut::EquippedItem => 0x0014,
        PacketOut::RemoveEquipped => 0x0015,
        PacketOut::UpdateObject => 0x0019,
        PacketOut::LookMessage => 0x0064,
        PacketOut::Chat => 0x0065,
        PacketOut::UserList => 0x0066,
        PacketOut::UserInfo => 0x0067,
        PacketOut::StatusMessage => 0x0068,
        PacketOut::Echo => 0x00C8,
    }
}

impl PacketOut {
    /// The identifier of this packet.
    pub fn primitive(self) -> (r: u16)
        ensures
            r == packet_out_code(self),
    {
        match self {
            PacketOut::Login => 0x0001,
            PacketOut::Error => 0x0002,
            PacketOut::DataWindow => 0x0003,
            PacketOut::Info => 0x0004,
            PacketOut::MessageOfTheDay => 0x0005,
            PacketOut::MapView => 0x000A,
            PacketOut::MoveNorth => 0x000B,
            PacketOut::MoveEast => 0x000C,
            PacketOut::MoveSouth => 0x000D,
            PacketOut::MoveWest => 0x000E,
            PacketOut::CloseContainer => 0x0012,
            PacketOut::OpenContainer => 0x0013,
            PacketOut::EquippedItem => 0x0014,
            PacketOut::RemoveEquipped => 0x0015,
            PacketOut::UpdateObject => 0x0019,
            PacketOut::LookMessage => 0x0064,
            PacketOut::Chat => 0x0065,
            PacketOut::UserList => 0x0066,
            PacketOut::UserInfo => 0x0067,
            PacketOut::StatusMessage => 0x0068,
            PacketOut::Echo => 0x00C8,
        }
    }

    /// The packet with the given identifier, if there is one.
    pub fn try_from_primitive(v: u16) -> (r: Option<PacketOut>)
        ensures
            r matches Some(p) ==> packet_out_code(p) == v,
            r is None ==> forall|p: PacketOut| packet_out_code(p) != v,
    {
        match v {
            0x0001 => Some(PacketOut::Login),
            0x0002 => Some(PacketOut::Error),
            0x0003 => Some(PacketOut::DataWindow),
            0x0004 => Some(PacketOut::Info),
            0x0005 => Some(PacketOut::MessageOfTheDay),
            0x000A => Some(PacketOut::MapView),
            0x000B => Some(PacketOut::MoveNorth),
            0x000C => Some(PacketOut::MoveEast),
            0x000D => Some(PacketOut::MoveSouth),
            0x000E => Some(PacketOut::MoveWest),
            0x0012 => Some(PacketOut::CloseContainer),
            0x0013 => Some(PacketOut::OpenContainer),
            0x0014 => Some(PacketOut::EquippedItem),
            0x0015 => Some(PacketOut::RemoveEquipped),
            0x0019 => Some(PacketOut::UpdateObject),
            0x0064 => Some(PacketOut::LookMessage),
            0x0065 => Some(PacketOut::Chat),
            0x0066 => Some(PacketOut::UserList),
            0x0067 => Some(PacketOut::UserInfo),
            0x0068 => Some(PacketOut::StatusMessage),
            0x00C8 => Some(PacketOut::Echo),
            _ => None,
        }
    }
}

/// Distinct outgoing packets have distinct identifiers, each below 256.
pub proof fn lemma_packet_out_codes(p: PacketOut, q: PacketOut)
    ensures
        packet_out_code(p) < 256,
        packet_out_code(p) == packet_out_code(q) ==> p == q,
{
}

/// The movement packet that announces a step in the given direction.
pub open spec fn move_packet(dir: Direction) -> PacketOut {
    match dir {
        Direction::North => PacketOut::MoveNorth,
        Direction::East => PacketOut::MoveEast,
        Direction::South => PacketOut::MoveSouth,
        Direction::West => PacketOut::MoveWest,
    }
}

impl From<Direction> for PacketOut {
    fn from(dir: Direction) -> (r: Self) {
        match dir {
            Direction::North => PacketOut::MoveNorth,
            Direction::East => PacketOut::MoveEast,
            Direction::South => PacketOut::MoveSouth,
            Direction::West => PacketOut::MoveWest,
        }
    }
}

impl vstd::std_specs::convert::FromSpecImpl<Direction> for PacketOut {
    open spec fn obeys_from_spec() -> bool {
        true
    }

    open spec fn from_spec(dir: Direction) -> PacketOut {
        move_packet(dir)
    }
}

/// Packets embedded in the map data.
#[derive(Debug, Copy, Clone, PartialEq, Eq, Structural)]
pub enum PacketOutAux {
    ChangeDirection,
    Character,
}

/// Identifier of an embedded map packet.
pub open spec fn packet_out_aux_code(p: PacketOutAux) -> u16 {
    match p {
        PacketOutAux::ChangeDirection => 0x00FA,
        PacketOutAux::Character => 0x00FB,
    }
}

impl PacketOutAux {
    /// The identifier of this packet.
    pub fn primitive(self) -> (r: u16)
        ensures
            r == packet_out_aux_code(self),
    {
        match self {
            PacketOutAux::ChangeDirection => 0x00FA,
            PacketOutAux::Character => 0x00FB,
        }
    }
}

/// Incoming packets (client to server).
#[derive(Debug, Copy, Clone, PartialEq, Eq, Structural)]
pub enum PacketIn {
    UserList,
    PlayerInfo,
    Walk,
    AutoWalk,
    LookAt,
    Chat,
    ChangeDirection,
    Comment,
    Push,
    UseItem,
    CloseContainer,
    RequestChangeData,
    SetData,
    Echo,
    Logout,
}

/// Identifier of an incoming packet on the wire.
pub open spec fn packet_in_code(p: PacketIn) -> u16 {
    match p {
        PacketIn::UserList => 0x0003,
        PacketIn::PlayerInfo => 0x0004,
        PacketIn::Walk => 0x0005,
        PacketIn::AutoWalk => 0x0006,
        PacketIn::LookAt => 0x0007,
        PacketIn::Chat => 0x0009,
        PacketIn::ChangeDirection => 0x000A,
        PacketIn::Comment => 0x000B,
        PacketIn::Push => 0x0014,
        PacketIn::UseItem => 0x001E,
        PacketIn::CloseContainer => 0x001F,
        PacketIn::RequestChangeData => 0x0020,
        PacketIn::SetData => 0x0021,
        PacketIn::Echo => 0x00C8,
        PacketIn::Logout => 0x00FF,
    }
}

/// The incoming packet with the given identifier, if there is one.
pub open spec fn packet_in_from_code(v: u16) -> Option<PacketIn> {
    if v == 0x0003 {
        Some(PacketIn::UserList)
    } else if v == 0x0004 {
        Some(PacketIn::PlayerInfo)
    } else if v == 0x0005 {
        Some(PacketIn::Walk)
    } else if v == 0x0006 {
        Some(PacketIn::AutoWalk)
    } else if v == 0x0007 {
        Some(PacketIn::LookAt)
    } else if v == 0x0009 {
        Some(PacketIn::Chat)
    } else if v == 0x000A {
        Some(PacketIn::ChangeDirection)
    } else if v == 0x000B {
        Some(PacketIn::Comment)
    } else if v == 0x0014 {
        Some(PacketIn::Push)
    } else if v == 0x001E {
        Some(PacketIn::UseItem)
    } else if v == 0x001F {
        Some(PacketIn::CloseContainer)
    } else if v == 0x0020 {
        Some(PacketIn::RequestChangeData)
    } else if v == 0x0021 {
        Some(PacketIn::SetData)
    } else if v == 0x00C8 {
        Some(PacketIn::Echo)
    } else if v == 0x00FF {
        Some(PacketIn::Logout)
    } else {
        None
    }
}

/// Every incoming packet is recognized by its own identifier, and distinct
/// packets have distinct identifiers.
pub proof fn lemma_packet_in_codes(p: PacketIn, q: PacketIn)
    ensures
        packet_in_from_code(packet_in_code(p)) == Some(p),
        packet_in_code(p) == packet_in_code(q) ==> p == q,
{
}

impl PacketIn {
    /// The identifier of this packet.
    pub fn primitive(self) -> (r: u16)
        ensures
            r == packet_in_code(self),
    {
        match self {
            PacketIn::UserList => 0x0003,
            PacketIn::PlayerInfo => 0x0004,
            PacketIn::Walk => 0x0005,
            PacketIn::AutoWalk => 0x0006,
            PacketIn::LookAt => 0x0007,
            PacketIn::Chat => 0x0009,
            PacketIn::ChangeDirection => 0x000A,
            PacketIn::Comment => 0x000B,
            PacketIn::Push => 0x0014,
            PacketIn::UseItem => 0x001E,
            PacketIn::CloseContainer => 0x001F,
            PacketIn::RequestChangeData => 0x0020,
            PacketIn::SetData => 0x0021,
            PacketIn::Echo => 0x00C8,
            PacketIn::Logout => 0x00FF,
        }
    }

    /// The incoming packet with the given identifier, if there is one.
    pub fn try_from_primitive(v: u16) -> (r: Option<PacketIn>)
        ensures
            r == packet_in_from_code(v),
    {
        match v {
            0x0003 => Some(PacketIn::UserList),
            0x0004 => Some(PacketIn::PlayerInfo),
            0x0005 => Some(PacketIn::Walk),
            0x0006 => Some(PacketIn::AutoWalk),
            0x0007 => Some(PacketIn::LookAt),
            0x0009 => Some(PacketIn::Chat),
            0x000A => Some(PacketIn::ChangeDirection),
            0x000B => Some(PacketIn::Comment),
            0x0014 => Some(PacketIn::Push),
            0x001E => Some(PacketIn::UseItem),
            0x001F => Some(PacketIn::CloseContainer),
            0x0020 => Some(PacketIn::RequestChangeData),
            0x0021 => Some(PacketIn::SetData),
            0x00C8 => Some(PacketIn::Echo),
            0x00FF => Some(PacketIn::Logout),
            _ => None,
        }
    }
}

} // verus!
