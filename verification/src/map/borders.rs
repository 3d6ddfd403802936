//! Border rules applied while the map loads.
//!
//! The map was drawn with items of a later client, where borders are separate
//! sprites lying on the tiles. In Tibia 1.03 a border is part of the tile, so a
//! "tile + border" pair is merged into one "border tile".
use vstd::prelude::*;

verus! {

/// A rule that turns a tile id with a border item on it into a border tile.
#[derive(Debug, Copy, Clone, PartialEq, Eq, Structural)]
pub struct BorderTile {
    pub tileid: Option<u16>,
    pub item_id: u16,
    pub result_tileid: u16,
    pub merge: bool,
}

impl BorderTile {
    fn new(tileid: Option<u16>, item_id: u16, result_tileid: u16, merge: bool) -> (r: Self)
        ensures
            r == rule(tileid, item_id, result_tileid, merge),
    {
        BorderTile { tileid, item_id, result_tileid, merge }
    }

    /// Whether the rule applies to the given tile id and item id.
    pub open spec fn spec_matches(&self, tileid: Option<u16>, item_id: u16) -> bool {
        self.tileid == tileid && self.item_id == item_id
    }

    /// Returns true if the rule applies to the given tile id and item id.
    #[verifier::when_used_as_spec(spec_matches)]
    pub fn matches(&self, tileid: Option<u16>, item_id: u16) -> (r: bool)
        ensures
            r == self.spec_matches(tileid, item_id),
    {
        let same_tile = match (self.tileid, tileid) {
            (Some(a), Some(b)) => a == b,
            (None, None) => true,
            _ => false,
        };
        same_tile && self.item_id == item_id
    }
}

/// A border rule.
pub open spec fn rule(tileid: Option<u16>, item_id: u16, result_tileid: u16, merge: bool) -> BorderTile {
    BorderTile { tileid, item_id, result_tileid, merge }
}

/// The border rules, in the order in which they are tried.
pub open spec fn border_rules() -> Seq<BorderTile> {
    seq![
        // Grass borders on tiles without a tile id (such as water)
        rule(None, 7653, 0x5A0E, false),
        rule(None, 7709, 0x5B0E, false),
        rule(None, 7656, 0x5C0E, false),
        rule(None, 7710, 0x5D0E, false),
        rule(None, 7661, 0x5E0E, false),
        rule(None, 7662, 0x5F0E, false),
        rule(None, 7664, 0x600E, false),
        rule(None, 7663, 0x610E, false),
        rule(None, 7657, 0x620E, false),
        rule(None, 7658, 0x630E, false),
        rule(None, 7660, 0x640E, false),
        rule(None, 7659, 0x650E, false),
        // Grass borders on sand
        rule(Some(104), 7653, 0x140A, true),
        rule(Some(104), 7709, 0x150A, true),
        rule(Some(104), 7656, 0x160A, true),
        rule(Some(104), 7710, 0x170A, true),
        rule(Some(104), 7661, 0x180A, true),
        rule(Some(104), 7662, 0x190A, true),
        rule(Some(104), 7664, 0x1A0A, true),
        rule(Some(104), 7663, 0x1B0A, true),
        rule(Some(104), 7657, 0x1C0A, true),
        rule(Some(104), 7658, 0x1D0A, true),
        rule(Some(104), 7660, 0x1E0A, true),
        rule(Some(104), 7659, 0x1F0A, true),
        // Grass borders on gravel
        rule(Some(4566), 7653, 0xB30A, true),
        rule(Some(4566), 7709, 0xB40A, true),
        rule(Some(4566), 7656, 0xB50A, true),
        rule(Some(4566), 7710, 0xB60A, true),
        rule(Some(4566), 7661, 0xB70A, true),
        rule(Some(4566), 7662, 0xB80A, true),
        rule(Some(4566), 7664, 0xB90A, true),
        rule(Some(4566), 7663, 0xBA0A, true),
        rule(Some(4566), 7657, 0xBB0A, true),
        rule(Some(4566), 7658, 0xBC0A, true),
        rule(Some(4566), 7660, 0xBD0A, true),
        rule(Some(4566), 7659, 0xBE0A, true),
        // Grass borders on dirt floor
        rule(Some(351), 7653, 0x080A, true),
        rule(Some(351), 7709, 0x090A, true),
        rule(Some(351), 7656, 0x0A0A, true),
        rule(Some(351), 7710, 0x0B0A, true),
        rule(Some(351), 7661, 0x0C0A, true),
        rule(Some(351), 7662, 0x0D0A, true),
        rule(Some(351), 7664, 0x0E0A, true),
        rule(Some(351), 7663, 0x0F0A, true),
        rule(Some(351), 7657, 0x100A, true),
        rule(Some(351), 7658, 0x110A, true),
        rule(Some(351), 7660, 0x120A, true),
        rule(Some(351), 7659, 0x130A, true),
        // Grass borders on rock soil
        rule(Some(4405), 7653, 0xA60A, true),
        rule(Some(4405), 7709, 0xA70A, true),
        rule(Some(4405), 7656, 0xA80A, true),
        rule(Some(4405), 7710, 0xA90A, true),
        rule(Some(4405), 7661, 0xAA0A, true),
        rule(Some(4405), 7662, 0xAB0A, true),
        rule(Some(4405), 7664, 0xAC0A, true),
        rule(Some(4405), 7663, 0xAD0A, true),
        rule(Some(4405), 7657, 0xAE0A, true),
        rule(Some(4405), 7658, 0xAF0A, true),
        rule(Some(4405), 7660, 0xB00A, true),
        rule(Some(4405), 7659, 0xB10A, true),
    ]
}

/// The border rules to apply while the map loads, in the order in which they
/// are tried. The comments name where the border lies on the tile.
pub fn rules() -> (r: Vec<BorderTile>)
    ensures
        r@ == border_rules(),
{
    let r = vec![
        // Grass borders on tiles without a tile id (such as water)
        BorderTile::new(None, 7653, 0x5A0E, false), // top
        BorderTile::new(None, 7709, 0x5B0E, false), // bottom
        BorderTile::new(None, 7656, 0x5C0E, false), // left
        BorderTile::new(None, 7710, 0x5D0E, false), // right
        BorderTile::new(None, 7661, 0x5E0E, false), // corner, top-left
        BorderTile::new(None, 7662, 0x5F0E, false), // corner, top-right
        BorderTile::new(None, 7664, 0x600E, false), // corner, bottom-right
        BorderTile::new(None, 7663, 0x610E, false), // corner, bottom-left
        BorderTile::new(None, 7657, 0x620E, false), // edge, top-left
        BorderTile::new(None, 7658, 0x630E, false), // edge, top-right
        BorderTile::new(None, 7660, 0x640E, false), // edge, bottom-right
        BorderTile::new(None, 7659, 0x650E, false), // edge, bottom-left
        // Grass borders on sand
        BorderTile::new(Some(104), 7653, 0x140A, true), // top
        BorderTile::new(Some(104), 7709, 0x150A, true), // bottom
        BorderTile::new(Some(104), 7656, 0x160A, true), // left
        BorderTile::new(Some(104), 7710, 0x170A, true), // right
        BorderTile::new(Some(104), 7661, 0x180A, true), // corner, top-left
        BorderTile::new(Some(104), 7662, 0x190A, true), // corner, top-right
        BorderTile::new(Some(104), 7664, 0x1A0A, true), // corner, bottom-right
        BorderTile::new(Some(104), 7663, 0x1B0A, true), // corner, bottom-left
        BorderTile::new(Some(104), 7657, 0x1C0A, true), // edge, top-left
        BorderTile::new(Some(104), 7658, 0x1D0A, true), // edge, top-right
        BorderTile::new(Some(104), 7660, 0x1E0A, true), // edge, bottom-right
        BorderTile::new(Some(104), 7659, 0x1F0A, true), // edge, bottom-left
        // Grass borders on gravel
        BorderTile::new(Some(4566), 7653, 0xB30A, true), // top
        BorderTile::new(Some(4566), 7709, 0xB40A, true), // bottom
        BorderTile::new(Some(4566), 7656, 0xB50A, true), // left
        BorderTile::new(Some(4566), 7710, 0xB60A, true), // right
        BorderTile::new(Some(4566), 7661, 0xB70A, true), // corner, top-left
        BorderTile::new(Some(4566), 7662, 0xB80A, true), // corner, top-right
        BorderTile::new(Some(4566), 7664, 0xB90A, true), // corner, bottom-right
        BorderTile::new(Some(4566), 7663, 0xBA0A, true), // corner, bottom-left
        BorderTile::new(Some(4566), 7657, 0xBB0A, true), // edge, top-left
        BorderTile::new(Some(4566), 7658, 0xBC0A, true), // edge, top-right
        BorderTile::new(Some(4566), 7660, 0xBD0A, true), // edge, bottom-right
        BorderTile::new(Some(4566), 7659, 0xBE0A, true), // edge, bottom-left
        // Grass borders on dirt floor
        BorderTile::new(Some(351), 7653, 0x080A, true), // top
        BorderTile::new(Some(351), 7709, 0x090A, true), // bottom
        BorderTile::new(Some(351), 7656, 0x0A0A, true), // left
        BorderTile::new(Some(351), 7710, 0x0B0A, true), // right
        BorderTile::new(Some(351), 7661, 0x0C0A, true), // corner, top-left
        BorderTile::new(Some(351), 7662, 0x0D0A, true), // corner, top-right
        BorderTile::new(Some(351), 7664, 0x0E0A, true), // corner, bottom-right
        BorderTile::new(Some(351), 7663, 0x0F0A, true), // corner, bottom-left
        BorderTile::new(Some(351), 7657, 0x100A, true), // edge, top-left
        BorderTile::new(Some(351), 7658, 0x110A, true), // edge, top-right
        BorderTile::new(Some(351), 7660, 0x120A, true), // edge, bottom-right
        BorderTile::new(Some(351), 7659, 0x130A, true), // edge, bottom-left
        // Grass borders on rock soil
        BorderTile::new(Some(4405), 7653, 0xA60A, true), // top
        BorderTile::new(Some(4405), 7709, 0xA70A, true), // bottom
        BorderTile::new(Some(4405), 7656, 0xA80A, true), // left
        BorderTile::new(Some(4405), 7710, 0xA90A, true), // right
        BorderTile::new(Some(4405), 7661, 0xAA0A, true), // corner, top-left
        BorderTile::new(Some(4405), 7662, 0xAB0A, true), // corner, top-right
        BorderTile::new(Some(4405), 7664, 0xAC0A, true), // corner, bottom-right
        BorderTile::new(Some(4405), 7663, 0xAD0A, true), // corner, bottom-left
        BorderTile::new(Some(4405), 7657, 0xAE0A, true), // edge, top-left
        BorderTile::new(Some(4405), 7658, 0xAF0A, true), // edge, top-right
        BorderTile::new(Some(4405), 7660, 0xB00A, true), // edge, bottom-right
        BorderTile::new(Some(4405), 7659, 0xB10A, true), // edge, bottom-left
    ];
    assert(r@ =~= border_rules());
    r
}

} // verus!
