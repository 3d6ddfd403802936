//! Reading the object table of the Tibia 1.03 client file "MUDOBJ.CLI": a
//! sequence of 8-byte records (id, flags, extra data, sprite), each a
//! little-endian 16-bit value.
use crate::io::le_u16;
use vstd::prelude::*;

verus! {

/// Objects whose sprite number is above this are not real objects.
pub const MAX_SPRITE: u16 = 281;

/// One record of the object table.
#[derive(Debug, Copy, Clone, PartialEq, Eq, Structural)]
pub struct ObjectRecord {
    pub id: u16,
    pub flags: u16,
    pub extra: u16,
    pub sprite: u16,
}

/// The little-endian 16-bit value at `pos`.
pub open spec fn u16_at(data: Seq<u8>, pos: int) -> u16 {
    le_u16(data[pos], data[pos + 1])
}

/// The record that starts at `pos`.
pub open spec fn record_at(data: Seq<u8>, pos: int) -> ObjectRecord {
    ObjectRecord {
        id: u16_at(data, pos),
        flags: u16_at(data, pos + 2),
        extra: u16_at(data, pos + 4),
        sprite: u16_at(data, pos + 6),
    }
}

/// The records with a sprite number of at most 281 among the whole 8-byte
/// records from `pos` on, in order.
pub open spec fn objects_from(data: Seq<u8>, pos: int) -> Seq<ObjectRecord>
    decreases data.len() - pos,
{
    if pos < 0 || pos + 8 > data.len() {
        Seq::empty()
    } else {
        let rec = record_at(data, pos);
        let head = if rec.sprite <= MAX_SPRITE {
            seq![rec]
        } else {
            Seq::empty()
        };
        head + objects_from(data, pos + 8)
    }
}

/// Reads the little-endian 16-bit value at `pos`.
pub fn read_u16(data: &[u8], pos: usize) -> (r: u16)
    requires
        pos + 1 < data@.len(),
    ensures
        r == u16_at(data@, pos as int),
{
    (data[pos] as u16) + 256 * (data[pos + 1] as u16)
}

/// The objects of the table when records are taken to start at `offset`:
/// every whole 8-byte record from there on whose sprite number is at most 281.
pub fn scan_objects(data: &[u8], offset: usize) -> (r: Vec<ObjectRecord>)
    ensures
        r@ == objects_from(data@, offset as int),
{
    let mut out: Vec<ObjectRecord> = Vec::new();
    let mut pos = offset;
    while pos <= data.len() && data.len() - pos >= 8
        invariant
            offset <= pos,
            out@ + objects_from(data@, pos as int) == objects_from(data@, offset as int),
        decreases data.len() - pos,
    {
        let rec = ObjectRecord {
            id: read_u16(data, pos),
            flags: read_u16(data, pos + 2),
            extra: read_u16(data, pos + 4),
            sprite: read_u16(data, pos + 6),
        };
        let ghost before = out@;
        if rec.sprite <= MAX_SPRITE {
            out.push(rec);
            assert(out@ + objects_from(data@, pos + 8) =~= before + objects_from(data@, pos as int));
        } else {
            assert(out@ + objects_from(data@, pos + 8) =~= before + objects_from(data@, pos as int));
        }
        pos = pos + 8;
    }
    assert(objects_from(data@, pos as int) == Seq::<ObjectRecord>::empty());
    assert(out@ =~= out@ + Seq::<ObjectRecord>::empty());
    out
}

} // verus!
