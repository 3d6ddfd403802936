use crate::io::push_char;
use crate::player::{slot_code, Direction, InventorySlot};
use vstd::prelude::*;

verus! {

/// A position in the world.
#[derive(Debug, Copy, Clone, PartialEq, Eq, Structural, PartialOrd, Ord, Hash)]
pub struct Position {
    pub x: u16,
    pub y: u16,
    pub z: u8,
}

/// What a position stands for when it appears in a client request.
#[derive(Debug, Copy, Clone, PartialEq, Eq, Structural)]
pub enum PositionQualifier {
    Unqualified,
    Inventory(InventorySlot),
}

/// Failure to read an inventory slot out of a position.
#[derive(Debug, Copy, Clone, PartialEq, Eq, Structural)]
pub enum QualifierError {
    InvalidSlot(u8),
}

/// The value of a 16-bit coordinate reinterpreted as a two's complement `i16`.
pub open spec fn signed16(v: u16) -> int {
    if v < 32768 {
        v as int
    } else {
        v as int - 65536
    }
}

/// The value of an 8-bit coordinate reinterpreted as a two's complement `i8`.
pub open spec fn signed8(v: u8) -> int {
    if v < 128 {
        v as int
    } else {
        v as int - 256
    }
}

/// `a` lies inside the range of `i16`.
pub open spec fn fits_i16(a: int) -> bool {
    -32768 <= a <= 32767
}

/// `a` lies inside the range of `i8`.
pub open spec fn fits_i8(a: int) -> bool {
    -128 <= a <= 127
}

/// The offset that a step in a direction adds to a position.
pub open spec fn direction_offset(d: Direction) -> (i16, i16, i8) {
    match d {
        Direction::North => (0i16, -1i16, 0i8),
        Direction::East => (1i16, 0i16, 0i8),
        Direction::South => (0i16, 1i16, 0i8),
        Direction::West => (-1i16, 0i16, 0i8),
    }
}

/// The decimal digit character of `d % 10`.
pub open spec fn digit_char(d: nat) -> char {
    (((d % 10) + 48) as u8) as char
}

/// The decimal representation of a number, without leading zeroes.
pub open spec fn decimal(n: nat) -> Seq<char>
    decreases n,
{
    if n < 10 {
        seq![digit_char(n)]
    } else {
        decimal(n / 10).push(digit_char(n))
    }
}

/// How a position is written: `(x,y,z)` in decimal.
pub open spec fn position_text(p: Position) -> Seq<char> {
    "("@ + decimal(p.x as nat) + ","@ + decimal(p.y as nat) + ","@ + decimal(p.z as nat) + ")"@
}

/// Appends the decimal representation of `n`.
fn push_decimal(s: &mut String, n: u32)
    ensures
        final(s)@ == old(s)@ + decimal(n as nat),
    decreases n,
{
    if n >= 10 {
        push_decimal(s, n / 10);
    }
    let d = ((n % 10) as u8 + 48) as char;
    push_char(s, d);
    assert(final(s)@ =~= old(s)@ + decimal(n as nat));
}

/// The direction opposite to `d`.
pub open spec fn opposite(d: Direction) -> Direction {
    match d {
        Direction::North => Direction::South,
        Direction::East => Direction::West,
        Direction::South => Direction::North,
        Direction::West => Direction::East,
    }
}

/// Subtracting an offset undoes adding it: when adding the offset stays in the
/// signed range of every coordinate, so does subtracting it from the result,
/// and the result is the position we started from.
pub proof fn lemma_add_then_sub(p: Position, d: (i16, i16, i8))
    requires
        p.can_add(d),
    ensures
        p.plus(d).can_sub(d),
        p.plus(d).minus(d) == p,
{
}

/// A step in one direction and a step in the opposite direction bring a
/// position back to where it was.
pub proof fn lemma_step_back(p: Position, d: Direction)
    requires
        p.can_add(direction_offset(d)),
    ensures
        p.plus(direction_offset(d)).can_add(direction_offset(opposite(d))),
        p.plus(direction_offset(d)).plus(direction_offset(opposite(d))) == p,
{
}

impl Position {
    /// The position written as `(x,y,z)`.
    pub fn to_string(&self) -> (r: String)
        ensures
            r@ == position_text(*self),
    {
        let mut s = String::from_str("(");
        push_decimal(&mut s, self.x as u32);
        s.append(",");
        push_decimal(&mut s, self.y as u32);
        s.append(",");
        push_decimal(&mut s, self.z as u32);
        s.append(")");
        assert(s@ =~= position_text(*self));
        s
    }

    pub fn new(x: u16, y: u16, z: u8) -> (r: Self)
        ensures
            r == (Position { x, y, z }),
    {
        Position { x, y, z }
    }

    /// Whether adding the offset keeps each coordinate inside its signed range
    /// (coordinates are shifted as `i16`/`i8`; leaving the range is an overflow).
    pub open spec fn can_add(self, rhs: (i16, i16, i8)) -> bool {
        &&& fits_i16(signed16(self.x) + rhs.0)
        &&& fits_i16(signed16(self.y) + rhs.1)
        &&& fits_i8(signed8(self.z) + rhs.2)
    }

    /// Whether subtracting the offset keeps each coordinate inside its signed range.
    pub open spec fn can_sub(self, rhs: (i16, i16, i8)) -> bool {
        &&& fits_i16(signed16(self.x) - rhs.0)
        &&& fits_i16(signed16(self.y) - rhs.1)
        &&& fits_i8(signed8(self.z) - rhs.2)
    }

    /// The position shifted by the offset, each coordinate wrapping around its width.
    pub open spec fn plus(self, rhs: (i16, i16, i8)) -> Position {
        Position {
            x: ((self.x as int + rhs.0 as int) % 65536) as u16,
            y: ((self.y as int + rhs.1 as int) % 65536) as u16,
            z: ((self.z as int + rhs.2 as int) % 256) as u8,
        }
    }

    /// The position shifted back by the offset, each coordinate wrapping around its width.
    pub open spec fn minus(self, rhs: (i16, i16, i8)) -> Position {
        Position {
            x: ((self.x as int - rhs.0 as int) % 65536) as u16,
            y: ((self.y as int - rhs.1 as int) % 65536) as u16,
            z: ((self.z as int - rhs.2 as int) % 256) as u8,
        }
    }

    /// Whether adding the offset keeps each coordinate inside its signed range.
    #[verifier::when_used_as_spec(can_add)]
    pub fn can_add_offset(self, rhs: (i16, i16, i8)) -> (r: bool)
        ensures
            r == self.can_add(rhs),
    {
        let x: i32 = if self.x < 32768 { self.x as i32 } else { self.x as i32 - 65536 };
        let y: i32 = if self.y < 32768 { self.y as i32 } else { self.y as i32 - 65536 };
        let z: i32 = if self.z < 128 { self.z as i32 } else { self.z as i32 - 256 };
        let nx = x + rhs.0 as i32;
        let ny = y + rhs.1 as i32;
        let nz = z + rhs.2 as i32;
        -32768 <= nx && nx <= 32767 && -32768 <= ny && ny <= 32767 && -128 <= nz && nz <= 127
    }

    /// Whether subtracting the offset keeps each coordinate inside its signed range.
    #[verifier::when_used_as_spec(can_sub)]
    pub fn can_sub_offset(self, rhs: (i16, i16, i8)) -> (r: bool)
        ensures
            r == self.can_sub(rhs),
    {
        let x: i32 = if self.x < 32768 { self.x as i32 } else { self.x as i32 - 65536 };
        let y: i32 = if self.y < 32768 { self.y as i32 } else { self.y as i32 - 65536 };
        let z: i32 = if self.z < 128 { self.z as i32 } else { self.z as i32 - 256 };
        let nx = x - rhs.0 as i32;
        let ny = y - rhs.1 as i32;
        let nz = z - rhs.2 as i32;
        -32768 <= nx && nx <= 32767 && -32768 <= ny && ny <= 32767 && -128 <= nz && nz <= 127
    }

    /// The offset of one step in a direction.
    pub fn offset_of(d: Direction) -> (r: (i16, i16, i8))
        ensures
            r == direction_offset(d),
    {
        match d {
            Direction::North => (0, -1, 0),
            Direction::East => (1, 0, 0),
            Direction::South => (0, 1, 0),
            Direction::West => (-1, 0, 0),
        }
    }

    /// Shifts the position by an offset.
    pub fn add_offset(self, rhs: (i16, i16, i8)) -> (r: Position)
        requires
            self.can_add(rhs),
        ensures
            r == self.plus(rhs),
    {
        Position {
            x: ((self.x as i32 + rhs.0 as i32 + 65536) % 65536) as u16,
            y: ((self.y as i32 + rhs.1 as i32 + 65536) % 65536) as u16,
            z: ((self.z as i16 + rhs.2 as i16 + 256) % 256) as u8,
        }
    }

    /// Shifts the position back by an offset.
    pub fn sub_offset(self, rhs: (i16, i16, i8)) -> (r: Position)
        requires
            self.can_sub(rhs),
        ensures
            r == self.minus(rhs),
    {
        Position {
            x: ((self.x as i32 - rhs.0 as i32 + 65536) % 65536) as u16,
            y: ((self.y as i32 - rhs.1 as i32 + 65536) % 65536) as u16,
            z: ((self.z as i16 - rhs.2 as i16 + 256) % 256) as u8,
        }
    }

    /// The position one step away in the given direction.
    pub fn add_direction(self, d: Direction) -> (r: Position)
        requires
            self.can_add(direction_offset(d)),
        ensures
            r == self.plus(direction_offset(d)),
    {
        self.add_offset(Position::offset_of(d))
    }

    /// Determines whether this position refers to an inventory slot:
    /// `x == 0xFF` with `1 <= y <= 8` names the slot numbered `y`, anything
    /// else names nothing. It always succeeds.
    pub fn get_qualifier(&self) -> (r: Result<PositionQualifier, QualifierError>)
        ensures
            r matches Ok(q) && (q matches PositionQualifier::Inventory(s) ==> slot_code(s)
                == self.y) && (q is Inventory <==> (self.x == 0xff && 0 < self.y <= 8)),
    {
        if self.x == 0xff && self.y > 0 && self.y <= 8 {
            let v = self.y as u8;
            match InventorySlot::try_from_primitive(v) {
                Some(slot) => Ok(PositionQualifier::Inventory(slot)),
                None => Err(QualifierError::InvalidSlot(v)),
            }
        } else {
            Ok(PositionQualifier::Unqualified)
        }
    }
}

} // verus!
