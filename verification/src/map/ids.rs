//! Conversion of the tile and item ids of the map editor's client (Tibia 8.60)
//! to Tibia 1.03 ids.
use crate::map::borders::border_rules;
use vstd::prelude::*;

verus! {

/// The Tibia 1.03 ground id of a map-editor tile id, if it has one.
pub open spec fn spec_tile_id(id: u16) -> Option<u16> {
    if 1016 <= id <= 1024 {
        // tic-tac-toe board
        Some((0x3313 + (id - 1016) * 0x0100) as u16)
    } else if 967 <= id <= 1015 {
        // mill board
        Some((0x0213 + (id - 967) * 0x0100) as u16)
    } else {
        match id {
            100 => Some(0x0001), // void
            4608 => Some(0x000E), // water
            4526 => Some(0x000A), // grass
            104 => Some(0x020A), // sand
            405 => Some(0x000C), // wooden floor
            424 => Some(0x1C0C), // stone tile
            406 => Some(0x010C), // white marble floor
            280 => Some(0xB20A), // dirt floor (textured with lines)
            351 => Some(0x010A), // dirt floor
            352 => Some(0xB20A), // dirt floor
            353 => Some(0x120A), // dirt floor
            1284 => Some(0x011B), // drawbridge
            4566 => Some(0x030A), // gravel
            4554 => Some(0x1040), // gravel (border)
            4405 => Some(0x050A), // rock soil
            965 => Some(0x0113), // chess board (white)
            966 => Some(0x0013), // chess board (black)
            _ => None,
        }
    }
}

/// The Tibia 1.03 item id of a map-editor item id, if it has one.
pub open spec fn spec_item_id(id: u16) -> Option<u16> {
    match id {
        1987 => Some(0x013D), // bag
        2376 => Some(0x005A), // sword
        2377 => Some(0x015A), // two-handed sword
        2378 => Some(0x025A), // battle axe
        2389 => Some(0x0D5A), // spear
        2509 => Some(0x005D), // steel shield
        1443 => Some(0x0023), // statue
        1945 => Some(0x0033), // lever (left)
        1946 => Some(0x0133), // lever (right)
        1754 => Some(0x002C), // bed (top)
        1755 => Some(0x012C), // bed (bottom)
        1360 => Some(0x001D), // fountain (top-left)
        1361 => Some(0x011D), // fountain (top-right)
        1362 => Some(0x021D), // fountain (bottom-left)
        1363 => Some(0x031D), // fountain (bottom-right)
        1027 => Some(0x0214), // brick wall (top-left corner)
        1028 => Some(0x0114), // brick wall (horizontal)
        1030 => Some(0x0014), // brick wall (vertical)
        1035 => Some(0x0614), // brick wall (bottom-right corner)
        1207 => Some(0x0216), // archway (left)
        1208 => Some(0x0316), // archway (right)
        1038 => Some(0x1114), // framework wall (top-left corner)
        1039 => Some(0x1014), // framework wall (horizontal)
        1040 => Some(0x1314), // framework wall (bottom-right corner)
        1041 => Some(0x1414), // framework wall (vertical)
        2555 => Some(0x0066), // anvil
        2561 => Some(0x0069), // baking tray
        1481 => Some(0x0072), // coal basin
        2624 => Some(0x0077), // black token
        2625 => Some(0x0177), // white token
        2767 => Some(0x00A3), // bush
        2702 => Some(0x03A0), // willow
        2666 => Some(0x0282), // meat
        2689 => Some(0x0086), // bread
        2693 => Some(0x0187), // lump of dough
        2007 => Some(0x023E), // bottle
        1717 => Some(0x072A), // chest of drawers
        1771 => Some(0x042D), // cask of beer
        2692 => Some(0x0087), // flour
        2047 => Some(0x0B41), // candlestick
        1636 => Some(0x020C), // passthrough
        2562 => Some(0x0369), // pot
        1740 => Some(0x032B), // chest
        1774 => Some(0x052D), // barrel
        2638 => Some(0x0E77), // tic-tac-toe token
        2639 => Some(0x0F77), // tic-tac-toe token
        2626 => Some(0x0877), // white pawn
        2627 => Some(0x0977), // white castle
        2628 => Some(0x0A77), // white knight
        2629 => Some(0x0B77), // white bishop
        2630 => Some(0x0C77), // white queen
        2631 => Some(0x0D77), // white king
        2632 => Some(0x0277), // black pawn
        2633 => Some(0x0377), // black castle
        2634 => Some(0x0477), // black knight
        2635 => Some(0x0577), // black bishop
        2636 => Some(0x0677), // black queen
        2637 => Some(0x0777), // black king
        1775 => Some(0x072D), // trough
        17751 => Some(0x062D), // trough of water (an id added by hand to the map file)
        _ => None,
    }
}

/// Looks up the Tibia 1.03 ground id of a map-editor tile id.
pub fn tile_id_map(id: u16) -> (r: Option<u16>)
    ensures
        r == spec_tile_id(id),
{
    if 1016 <= id && id <= 1024 {
        // tic-tac-toe board
        Some(0x3313u16 + (id - 1016) * 0x0100)
    } else if 967 <= id && id <= 1015 {
        // mill board
        Some(0x0213u16 + (id - 967) * 0x0100)
    } else {
        match id {
            100 => Some(0x0001), // void
            4608 => Some(0x000E), // water
            4526 => Some(0x000A), // grass
            104 => Some(0x020A), // sand
            405 => Some(0x000C), // wooden floor
            424 => Some(0x1C0C), // stone tile
            406 => Some(0x010C), // white marble floor
            280 => Some(0xB20A), // dirt floor (textured with lines)
            351 => Some(0x010A), // dirt floor
            352 => Some(0xB20A), // dirt floor
            353 => Some(0x120A), // dirt floor
            1284 => Some(0x011B), // drawbridge
            4566 => Some(0x030A), // gravel
            4554 => Some(0x1040), // gravel (border)
            4405 => Some(0x050A), // rock soil
            965 => Some(0x0113), // chess board (white)
            966 => Some(0x0013), // chess board (black)
            _ => None,
        }
    }
}

/// Looks up the Tibia 1.03 item id of a map-editor item id.
pub fn item_id_map(id: u16) -> (r: Option<u16>)
    ensures
        r == spec_item_id(id),
{
    match id {
        1987 => Some(0x013D), // bag
        2376 => Some(0x005A), // sword
        2377 => Some(0x015A), // two-handed sword
        2378 => Some(0x025A), // battle axe
        2389 => Some(0x0D5A), // spear
        2509 => Some(0x005D), // steel shield
        1443 => Some(0x0023), // statue
        1945 => Some(0x0033), // lever (left)
        1946 => Some(0x0133), // lever (right)
        1754 => Some(0x002C), // bed (top)
        1755 => Some(0x012C), // bed (bottom)
        1360 => Some(0x001D), // fountain (top-left)
        1361 => Some(0x011D), // fountain (top-right)
        1362 => Some(0x021D), // fountain (bottom-left)
        1363 => Some(0x031D), // fountain (bottom-right)
        1027 => Some(0x0214), // brick wall (top-left corner)
        1028 => Some(0x0114), // brick wall (horizontal)
        1030 => Some(0x0014), // brick wall (vertical)
        1035 => Some(0x0614), // brick wall (bottom-right corner)
        1207 => Some(0x0216), // archway (left)
        1208 => Some(0x0316), // archway (right)
        1038 => Some(0x1114), // framework wall (top-left corner)
        1039 => Some(0x1014), // framework wall (horizontal)
        1040 => Some(0x1314), // framework wall (bottom-right corner)
        1041 => Some(0x1414), // framework wall (vertical)
        2555 => Some(0x0066), // anvil
        2561 => Some(0x0069), // baking tray
        1481 => Some(0x0072), // coal basin
        2624 => Some(0x0077), // black token
        2625 => Some(0x0177), // white token
        2767 => Some(0x00A3), // bush
        2702 => Some(0x03A0), // willow
        2666 => Some(0x0282), // meat
        2689 => Some(0x0086), // bread
        2693 => Some(0x0187), // lump of dough
        2007 => Some(0x023E), // bottle
        1717 => Some(0x072A), // chest of drawers
        1771 => Some(0x042D), // cask of beer
        2692 => Some(0x0087), // flour
        2047 => Some(0x0B41), // candlestick
        1636 => Some(0x020C), // passthrough
        2562 => Some(0x0369), // pot
        1740 => Some(0x032B), // chest
        1774 => Some(0x052D), // barrel
        2638 => Some(0x0E77), // tic-tac-toe token
        2639 => Some(0x0F77), // tic-tac-toe token
        2626 => Some(0x0877), // white pawn
        2627 => Some(0x0977), // white castle
        2628 => Some(0x0A77), // white knight
        2629 => Some(0x0B77), // white bishop
        2630 => Some(0x0C77), // white queen
        2631 => Some(0x0D77), // white king
        2632 => Some(0x0277), // black pawn
        2633 => Some(0x0377), // black castle
        2634 => Some(0x0477), // black knight
        2635 => Some(0x0577), // black bishop
        2636 => Some(0x0677), // black queen
        2637 => Some(0x0777), // black king
        1775 => Some(0x072D), // trough
        17751 => Some(0x062D), // trough of water (an id added by hand to the map file)
        _ => None,
    }
}

/// The map-editor item ids that have a Tibia 1.03 id.
pub open spec fn item_domain() -> Set<u16> {
    Set::new(|k: u16| spec_item_id(k) is Some)
}

/// The map-editor tile ids that have a Tibia 1.03 ground id.
pub open spec fn tile_domain() -> Set<u16> {
    Set::new(|k: u16| spec_tile_id(k) is Some)
}

/// The ids of `n` consecutive values from `lo` on.
spec fn id_range(lo: u16, n: nat) -> Set<u16> {
    Set::new(|k: u16| lo <= k < lo + n)
}

proof fn lemma_id_range_len(lo: u16, n: nat)
    requires
        lo + n <= 65536,
    ensures
        id_range(lo, n).finite(),
        id_range(lo, n).len() == n,
    decreases n,
{
    if n == 0 {
        assert(id_range(lo, n) =~= Set::<u16>::empty());
    } else {
        lemma_id_range_len(lo, (n - 1) as nat);
        let last = (lo + n - 1) as u16;
        assert(id_range(lo, n) =~= id_range(lo, (n - 1) as nat).insert(last));
    }
}

/// The item ids of the table, in ascending order, in groups of ten.
spec fn item_group(g: int) -> Set<u16> {
    if g == 0 {
        set![1027u16, 1028u16, 1030u16, 1035u16, 1038u16, 1039u16, 1040u16, 1041u16, 1207u16, 1208u16]
    } else if g == 1 {
        set![1360u16, 1361u16, 1362u16, 1363u16, 1443u16, 1481u16, 1636u16, 1717u16, 1740u16, 1754u16]
    } else if g == 2 {
        set![1755u16, 1771u16, 1774u16, 1775u16, 1945u16, 1946u16, 1987u16, 2007u16, 2047u16, 2376u16]
    } else if g == 3 {
        set![2377u16, 2378u16, 2389u16, 2509u16, 2555u16, 2561u16, 2562u16, 2624u16, 2625u16, 2626u16]
    } else if g == 4 {
        set![2627u16, 2628u16, 2629u16, 2630u16, 2631u16, 2632u16, 2633u16, 2634u16, 2635u16, 2636u16]
    } else {
        set![2637u16, 2638u16, 2639u16, 2666u16, 2689u16, 2692u16, 2693u16, 2702u16, 2767u16, 17751u16]
    }
}

/// Each group holds ten ids, all in the group's own range of values.
proof fn lemma_item_group(g: int)
    requires
        0 <= g < 6,
    ensures
        item_group(g).finite(),
        item_group(g).len() == 10,
        forall|k: u16| #[trigger] item_group(g).contains(k) ==> item_group_low(g) <= k < item_group_low(g + 1),
{
}

/// The smallest id of a group (and, past the last group, a bound above all ids).
spec fn item_group_low(g: int) -> int {
    if g == 0 {
        1027
    } else if g == 1 {
        1360
    } else if g == 2 {
        1755
    } else if g == 3 {
        2377
    } else if g == 4 {
        2627
    } else if g == 5 {
        2637
    } else {
        65536
    }
}

/// The union of the first `n` groups.
spec fn item_groups(n: int) -> Set<u16>
    decreases n,
{
    if n <= 0 {
        Set::empty()
    } else {
        item_groups(n - 1) + item_group(n - 1)
    }
}

proof fn lemma_item_groups(n: int)
    requires
        0 <= n <= 6,
    ensures
        item_groups(n).finite(),
        item_groups(n).len() == 10 * n,
        forall|k: u16| #[trigger] item_groups(n).contains(k) ==> k < item_group_low(n),
    decreases n,
{
    if n > 0 {
        lemma_item_groups(n - 1);
        lemma_item_group(n - 1);
        assert(item_groups(n - 1).disjoint(item_group(n - 1)));
        vstd::set_lib::lemma_set_disjoint_lens(item_groups(n - 1), item_group(n - 1));
    }
}

/// The item table has 60 entries; none of them is 0 (an object that is not
/// placed), and no border item has an entry, so border items never lie on the
/// map as plain items.
pub proof fn lemma_item_table()
    ensures
        item_domain().finite(),
        item_domain().len() == 60,
        forall|k: u16| #[trigger] spec_item_id(k) is Some ==> spec_item_id(k)->Some_0 != 0,
        forall|i: int|
            0 <= i < border_rules().len() ==> spec_item_id(#[trigger] border_rules()[i].item_id) is None,
{
    lemma_item_groups(6);
    reveal_with_fuel(item_groups, 7);
    assert(item_domain() =~= item_groups(6));
}

/// The tile table has 75 entries: 17 single tiles and the mill and
/// tic-tac-toe boards (tile ids 967 to 1024), whose squares are numbered
/// 0x0213, 0x0313, ... in steps of 0x0100; and every tile id that a border
/// rule names has an entry.
pub proof fn lemma_tile_table()
    ensures
        tile_domain().finite(),
        tile_domain().len() == 75,
        forall|id: u16|
            967 <= id <= 1024 ==> #[trigger] spec_tile_id(id) == Some(
                (0x0213 + 0x0100 * (id - 967)) as u16,
            ),
        forall|i: int|
            0 <= i < border_rules().len() && border_rules()[i].tileid is Some ==> spec_tile_id(
                #[trigger] border_rules()[i].tileid->Some_0,
            ) is Some,
{
    let lit: Set<u16> = set![
        100u16, 4608u16, 4526u16, 104u16, 405u16, 424u16, 406u16, 280u16, 351u16, 352u16,
        353u16, 1284u16, 4566u16, 4554u16, 4405u16, 965u16, 966u16,
    ];
    let boards = id_range(967, 58);
    lemma_id_range_len(967, 58);
    assert(lit.finite());
    assert(lit.len() == 17);
    assert(lit.disjoint(boards));
    assert(tile_domain() =~= lit + boards);
    vstd::set_lib::lemma_set_disjoint_lens(lit, boards);
}

} // verus!
