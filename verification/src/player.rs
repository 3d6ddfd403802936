use crate::map::position::Position;
use vstd::prelude::*;

verus! {

/// Outfit colors of a character. Each color is sent on the wire as a 4-bit
/// value packed into a byte together with another color.
#[derive(Debug, Copy, Clone, PartialEq, Eq, Structural)]
pub struct OutfitColors {
    pub head: u8,
    pub body: u8,
    pub legs: u8,
    pub shoes: u8,
}

/// Whether `high` and `low` can be packed into one byte as `(high << 4) + low`
/// without the addition leaving the `u8` range.
pub open spec fn packs_into_byte(high: u8, low: u8) -> bool {
    (high as int * 16) % 256 + low as int <= 255
}

impl OutfitColors {
    pub fn new(head: u8, body: u8, legs: u8, shoes: u8) -> (r: Self)
        ensures
            r == (OutfitColors { head, body, legs, shoes }),
    {
        OutfitColors { head, body, legs, shoes }
    }

    /// Both packed bytes of the outfit (legs/shoes and head/body) fit in a byte.
    pub open spec fn spec_is_packable(&self) -> bool {
        packs_into_byte(self.legs, self.shoes) && packs_into_byte(self.head, self.body)
    }

    #[verifier::when_used_as_spec(spec_is_packable)]
    pub fn is_packable(&self) -> (b: bool)
        ensures
            b == self.spec_is_packable(),
    {
        (self.legs as u32 * 16) % 256 + self.shoes as u32 <= 255
            && (self.head as u32 * 16) % 256 + self.body as u32 <= 255
    }
}

impl Default for OutfitColors {
    fn default() -> (r: Self)
        ensures
            r == (OutfitColors { head: 0, body: 0, legs: 0, shoes: 0 }),
    {
        OutfitColors::new(0, 0, 0, 0)
    }
}


/// Character gender.
#[derive(Debug, Copy, Clone, PartialEq, Eq, Structural)]
pub enum Gender {
    Male,
    Female,
}

/// Facing or walking direction.
#[derive(Debug, Copy, Clone, PartialEq, Eq, Structural)]
pub enum Direction {
    North,
    East,
    South,
    West,
}

/// Number of a direction on the wire.
pub open spec fn direction_code(d: Direction) -> u8 {
    match d {
        Direction::North => 0,
        Direction::East => 1,
        Direction::South => 2,
        Direction::West => 3,
    }
}

/// The direction with the given wire number (any number above 3 is read as West;
/// callers check the range first).
pub open spec fn direction_of(v: u8) -> Direction {
    if v == 0 {
        Direction::North
    } else if v == 1 {
        Direction::East
    } else if v == 2 {
        Direction::South
    } else {
        Direction::West
    }
}

/// Numbering a direction and reading the number back gives the same direction.
pub proof fn lemma_direction_roundtrip(d: Direction)
    ensures
        direction_code(d) <= 3,
        direction_of(direction_code(d)) == d,
{
}

/// Numbering an inventory slot and reading the number back gives the same slot.
pub proof fn lemma_slot_codes(s: InventorySlot, t: InventorySlot)
    ensures
        1 <= slot_code(s) <= 8,
        slot_code(s) == slot_code(t) ==> s == t,
{
}

impl Direction {
    /// The direction with the given wire number, if there is one.
    pub fn try_from_primitive(v: u8) -> (r: Option<Direction>)
        ensures
            v <= 3 ==> (r matches Some(d) && direction_code(d) == v && d == direction_of(v)),
            v > 3 ==> r is None,
    {
        match v {
            0 => Some(Direction::North),
            1 => Some(Direction::East),
            2 => Some(Direction::South),
            3 => Some(Direction::West),
            _ => None,
        }
    }

    /// The wire number of this direction.
    pub fn primitive(self) -> (r: u8)
        ensures
            r == direction_code(self),
    {
        match self {
            Direction::North => 0,
            Direction::East => 1,
            Direction::South => 2,
            Direction::West => 3,
        }
    }
}

impl Default for Direction {
    /// Characters face south when they log in.
    fn default() -> (r: Self)
        ensures
            r == Direction::South,
    {
        Direction::South
    }
}

/// Inventory slots of a character.
#[derive(Debug, Copy, Clone, PartialEq, Eq, Structural)]
pub enum InventorySlot {
    Helmet,
    Necklace,
    Bag,
    Armor,
    RightHand,
    LeftHand,
    Legs,
    Boots,
}

/// Number of an inventory slot on the wire.
pub open spec fn slot_code(s: InventorySlot) -> u8 {
    match s {
        InventorySlot::Helmet => 1,
        InventorySlot::Necklace => 2,
        InventorySlot::Bag => 3,
        InventorySlot::Armor => 4,
        InventorySlot::RightHand => 5,
        InventorySlot::LeftHand => 6,
        InventorySlot::Legs => 7,
        InventorySlot::Boots => 8,
    }
}

impl InventorySlot {
    /// The slot with the given wire number, if there is one.
    pub fn try_from_primitive(v: u8) -> (r: Option<InventorySlot>)
        ensures
            1 <= v <= 8 ==> (r matches Some(s) && slot_code(s) == v),
            !(1 <= v <= 8) ==> r is None,
    {
        match v {
            1 => Some(InventorySlot::Helmet),
            2 => Some(InventorySlot::Necklace),
            3 => Some(InventorySlot::Bag),
            4 => Some(InventorySlot::Armor),
            5 => Some(InventorySlot::RightHand),
            6 => Some(InventorySlot::LeftHand),
            7 => Some(InventorySlot::Legs),
            8 => Some(InventorySlot::Boots),
            _ => None,
        }
    }

    /// The wire number of this slot.
    pub fn primitive(self) -> (r: u8)
        ensures
            r == slot_code(self),
    {
        match self {
            InventorySlot::Helmet => 1,
            InventorySlot::Necklace => 2,
            InventorySlot::Bag => 3,
            InventorySlot::Armor => 4,
            InventorySlot::RightHand => 5,
            InventorySlot::LeftHand => 6,
            InventorySlot::Legs => 7,
            InventorySlot::Boots => 8,
        }
    }
}

/// A logged-in character.
#[derive(Clone, Debug)]
pub struct Player {
    pub id: u32,
    pub name: String,
    pub password: String,
    pub real_name: String,
    pub location: String,
    pub email: String,
    pub gender: Gender,
    pub outfit: OutfitColors,
    pub position: Position,
    pub direction: Direction,
}

/// The abstract state of a character: its text fields as character sequences.
#[verifier::ext_equal]
pub struct PlayerView {
    pub id: u32,
    pub name: Seq<char>,
    pub password: Seq<char>,
    pub real_name: Seq<char>,
    pub location: Seq<char>,
    pub email: Seq<char>,
    pub gender: Gender,
    pub outfit: OutfitColors,
    pub position: Position,
    pub direction: Direction,
}

impl View for Player {
    type V = PlayerView;

    open spec fn view(&self) -> PlayerView {
        PlayerView {
            id: self.id,
            name: self.name@,
            password: self.password@,
            real_name: self.real_name@,
            location: self.location@,
            email: self.email@,
            gender: self.gender,
            outfit: self.outfit,
            position: self.position,
            direction: self.direction,
        }
    }
}

impl Player {
    /// A fresh character with the given id, name and position: empty password
    /// and profile, default outfit, male, facing south.
    pub fn new(id: u32, name: &str, position: Position) -> (r: Self)
        ensures
            r@ == (PlayerView {
                id,
                name: name@,
                password: Seq::empty(),
                real_name: Seq::empty(),
                location: Seq::empty(),
                email: Seq::empty(),
                gender: Gender::Male,
                outfit: OutfitColors { head: 0, body: 0, legs: 0, shoes: 0 },
                position,
                direction: Direction::South,
            }),
    {
        Player {
            id,
            name: name.to_owned(),
            password: String::new(),
            real_name: String::new(),
            location: String::new(),
            email: String::new(),
            gender: Gender::Male,
            outfit: OutfitColors::default(),
            position,
            direction: Direction::South,
        }
    }
}

} // verus!
