//! Parsing of the two login packets: logging in with an existing character
//! ("Journey Onward", 67 bytes) and creating a new one ("New Game", 221 bytes).
use crate::io::{gender_of, latin1, le_u16, text_of, PacketReader, ReadError, ReadExt};
use crate::map::position::Position;
use crate::player::{Gender, OutfitColors, Player, PlayerView};
use vstd::prelude::*;

verus! {

/// The only protocol version that is accepted.
pub const PROTOCOL_VERSION: u16 = 103;

/// The kind of a login request, told apart by the length of its packet.
#[derive(Debug, Copy, Clone, PartialEq, Eq, Structural)]
pub enum LoginKind {
    /// Logging in with an existing character (67 bytes).
    Existing,
    /// Creating a new character (221 bytes).
    NewCharacter,
}

/// The kind of login that a packet length announces, if any.
pub open spec fn spec_login_kind(length: u16) -> Option<LoginKind> {
    if length == 67 {
        Some(LoginKind::Existing)
    } else if length == 221 {
        Some(LoginKind::NewCharacter)
    } else {
        None
    }
}

/// The kind of login that a packet length announces: 67 bytes log in an
/// existing character, 221 bytes create a new one, any other length is unknown.
pub fn login_kind(length: u16) -> (r: Option<LoginKind>)
    ensures
        r == spec_login_kind(length),
{
    match length {
        67 => Some(LoginKind::Existing),
        221 => Some(LoginKind::NewCharacter),
        _ => None,
    }
}

/// The profile given when a character is created.
pub struct Profile {
    pub gender: Gender,
    pub outfit: OutfitColors,
    pub real_name: String,
    pub location: String,
    pub email: String,
}

/// What a login packet carries: name, password and, for a new character, its profile.
pub struct LoginData {
    pub name: String,
    pub password: String,
    pub profile: Option<Profile>,
}

/// The text of a fixed-size field of a login packet.
pub open spec fn login_field(data: Seq<u8>, start: int, size: int) -> Seq<char> {
    latin1(text_of(data.subrange(start, start + size)))
}

/// The protocol version of a login packet (after 5 unknown header bytes).
pub open spec fn login_protocol(data: Seq<u8>) -> u16 {
    le_u16(data[5], data[6])
}

/// Whether a login packet is cut short: the version is missing, or the
/// version is accepted and the fields up to `length` are missing.
pub open spec fn login_truncated(data: Seq<u8>, length: nat) -> bool {
    data.len() < 7 || (login_protocol(data) == PROTOCOL_VERSION && data.len() < length)
}

impl LoginData {
    /// The character that logs in: a fresh character with the given id at the
    /// given position, carrying the password and, for a new character, the
    /// profile.
    pub fn into_player(self, id: u32, respawn: Position) -> (r: Player)
        ensures
            r@ == login_player(self, id, respawn),
    {
        let mut player = Player::new(id, self.name.as_str(), respawn);
        player.password = self.password;
        match self.profile {
            Some(profile) => {
                player.gender = profile.gender;
                player.outfit = profile.outfit;
                player.real_name = profile.real_name;
                player.location = profile.location;
                player.email = profile.email;
            },
            None => {},
        }
        player
    }
}

/// The character that logs in with the given login data.
pub open spec fn login_player(d: LoginData, id: u32, respawn: Position) -> PlayerView {
    match d.profile {
        Some(pr) => PlayerView {
            id,
            name: d.name@,
            password: d.password@,
            real_name: pr.real_name@,
            location: pr.location@,
            email: pr.email@,
            gender: pr.gender,
            outfit: pr.outfit,
            position: respawn,
            direction: crate::player::Direction::South,
        },
        None => PlayerView {
            id,
            name: d.name@,
            password: d.password@,
            real_name: Seq::empty(),
            location: Seq::empty(),
            email: Seq::empty(),
            gender: Gender::Male,
            outfit: OutfitColors { head: 0, body: 0, legs: 0, shoes: 0 },
            position: respawn,
            direction: crate::player::Direction::South,
        },
    }
}

/// A character created from a "New Game" packet is the one the packet
/// describes: name and password from their 30-byte fields, gender and outfit
/// from their bytes, real name, location and email from their 50-byte fields;
/// it gets the given id and stands at the given position, facing south.
pub proof fn lemma_new_character_from_packet(data: Seq<u8>, d: LoginData, id: u32, respawn: Position)
    requires
        d.name@ == login_field(data, 7, 30),
        d.password@ == login_field(data, 37, 30),
        d.profile matches Some(pr) && {
            &&& pr.gender == gender_of(data[67])
            &&& pr.outfit == (OutfitColors {
                head: data[69] / 16,
                body: data[69] % 16,
                legs: data[68] / 16,
                shoes: data[68] % 16,
            })
            &&& pr.real_name@ == login_field(data, 71, 50)
            &&& pr.location@ == login_field(data, 121, 50)
            &&& pr.email@ == login_field(data, 171, 50)
        },
    ensures
        ({
            let c = login_player(d, id, respawn);
            &&& c.id == id
            &&& c.name == login_field(data, 7, 30)
            &&& c.password == login_field(data, 37, 30)
            &&& c.gender == gender_of(data[67])
            &&& c.outfit.legs == data[68] / 16 && c.outfit.shoes == data[68] % 16
            &&& c.outfit.head == data[69] / 16 && c.outfit.body == data[69] % 16
            &&& c.real_name == login_field(data, 71, 50)
            &&& c.location == login_field(data, 121, 50)
            &&& c.email == login_field(data, 171, 50)
            &&& c.position == respawn
            &&& c.direction == crate::player::Direction::South
        }),
{
}

/// A character logging in with a "Journey Onward" packet carries the name and
/// password of the packet's 30-byte fields, and otherwise the defaults of a
/// fresh character: male, outfit colors 0, empty real name, location and
/// email; it gets the given id and stands at the given position, facing south.
pub proof fn lemma_existing_character_from_packet(data: Seq<u8>, d: LoginData, id: u32, respawn: Position)
    requires
        d.name@ == login_field(data, 7, 30),
        d.password@ == login_field(data, 37, 30),
        d.profile is None,
    ensures
        ({
            let c = login_player(d, id, respawn);
            &&& c.id == id
            &&& c.name == login_field(data, 7, 30)
            &&& c.password == login_field(data, 37, 30)
            &&& c.gender == Gender::Male
            &&& c.outfit.head == 0 && c.outfit.body == 0 && c.outfit.legs == 0 && c.outfit.shoes == 0
            &&& c.real_name.len() == 0 && c.location.len() == 0 && c.email.len() == 0
            &&& c.position == respawn
            &&& c.direction == crate::player::Direction::South
        }),
{
}

/// Parses the login of an existing character: 5 unknown bytes, the protocol
/// version, then name and password in 30-byte fields. A packet of another
/// protocol version is rejected (`Ok(None)`).
pub fn login_existing(data: &[u8]) -> (r: Result<Option<LoginData>, ReadError>)
    ensures
        login_truncated(data@, 67) <==> r is Err,
        r matches Ok(None) ==> login_protocol(data@) != PROTOCOL_VERSION,
        r matches Ok(Some(d)) ==> {
            &&& login_protocol(data@) == PROTOCOL_VERSION
            &&& d.name@ == login_field(data@, 7, 30)
            &&& d.password@ == login_field(data@, 37, 30)
            &&& d.profile is None
        },
        !login_truncated(data@, 67) && login_protocol(data@) != PROTOCOL_VERSION ==> r matches Ok(
            None,
        ),
        !login_truncated(data@, 67) && login_protocol(data@) == PROTOCOL_VERSION ==> r matches Ok(
            Some(_),
        ),
{
    let mut r = PacketReader::new(data);
    r.skip(5)?;
    let protocol = r.read_u16_le()?;
    assert(r.unread() == data@.skip(7));
    if protocol != PROTOCOL_VERSION {
        return Ok(None);
    }
    let mut name = String::new();
    r.read_string(&mut name, 30)?;
    let mut password = String::new();
    r.read_string(&mut password, 30)?;
    proof {
        assert(data@.skip(7).take(30) =~= data@.subrange(7, 37));
        assert(data@.skip(7).skip(30).take(30) =~= data@.subrange(37, 67));
    }
    Ok(Some(LoginData { name, password, profile: None }))
}

/// Parses the creation of a new character: 5 unknown bytes, the protocol
/// version, name and password (30 bytes each), gender (1 byte), outfit (3
/// bytes), real name, location and email (50 bytes each). A packet of another
/// protocol version is rejected (`Ok(None)`).
pub fn login_new(data: &[u8]) -> (r: Result<Option<LoginData>, ReadError>)
    ensures
        login_truncated(data@, 221) <==> r is Err,
        r matches Ok(None) ==> login_protocol(data@) != PROTOCOL_VERSION,
        r matches Ok(Some(d)) ==> {
            &&& login_protocol(data@) == PROTOCOL_VERSION
            &&& d.name@ == login_field(data@, 7, 30)
            &&& d.password@ == login_field(data@, 37, 30)
            &&& d.profile matches Some(pr) && {
                &&& pr.gender == gender_of(data@[67])
                &&& pr.outfit == (OutfitColors {
                    head: data@[69] / 16,
                    body: data@[69] % 16,
                    legs: data@[68] / 16,
                    shoes: data@[68] % 16,
                })
                &&& pr.real_name@ == login_field(data@, 71, 50)
                &&& pr.location@ == login_field(data@, 121, 50)
                &&& pr.email@ == login_field(data@, 171, 50)
            }
        },
        !login_truncated(data@, 221) && login_protocol(data@) != PROTOCOL_VERSION ==> r matches Ok(
            None,
        ),
        !login_truncated(data@, 221) && login_protocol(data@) == PROTOCOL_VERSION ==> r matches Ok(
            Some(_),
        ),
{
    let mut r = PacketReader::new(data);
    r.skip(5)?;
    let protocol = r.read_u16_le()?;
    assert(r.unread() == data@.skip(7));
    if protocol != PROTOCOL_VERSION {
        return Ok(None);
    }
    let mut name = String::new();
    r.read_string(&mut name, 30)?;
    let mut password = String::new();
    r.read_string(&mut password, 30)?;
    let gender = r.read_gender()?;
    let outfit = r.read_outfit_colors()?;
    let mut real_name = String::new();
    r.read_string(&mut real_name, 50)?;
    let mut location = String::new();
    r.read_string(&mut location, 50)?;
    let mut email = String::new();
    r.read_string(&mut email, 50)?;
    proof {
        let s = data@.skip(7);
        assert(s.take(30) =~= data@.subrange(7, 37));
        assert(s.skip(30).take(30) =~= data@.subrange(37, 67));
        assert(s.skip(30).skip(30).skip(1).skip(3).take(50) =~= data@.subrange(71, 121));
        assert(s.skip(30).skip(30).skip(1).skip(3).skip(50).take(50) =~= data@.subrange(121, 171));
        assert(s.skip(30).skip(30).skip(1).skip(3).skip(50).skip(50).take(50) =~= data@.subrange(
            171,
            221,
        ));
    }
    Ok(
        Some(
            LoginData {
                name,
                password,
                profile: Some(Profile { gender, outfit, real_name, location, email }),
            },
        ),
    )
}

} // verus!
