//! The world map: its size, how it is built from the map file, border tiles and
//! the conversion of item ids.
pub mod borders;
pub mod ids;
pub mod position;

use crate::map::borders::{border_rules, rules, BorderTile};
use crate::map::ids::{item_id_map, spec_item_id, spec_tile_id, tile_id_map};
use crate::map::position::Position;
use crate::player::OutfitColors;
use std::collections::BTreeMap;
use vstd::prelude::*;

verus! {

broadcast use vstd::std_specs::btree::group_btree_axioms, vstd::laws_cmp::group_laws_cmp;

/// Width of the world map in tiles.
pub const MAP_WIDTH: u16 = 160;

/// Height of the world map in tiles.
pub const MAP_HEIGHT: u16 = 160;

/// Ground id of water, which fills the map where the map file says nothing.
pub const WATER: u16 = 0x000E;

/// Where characters appear when they log in.
pub open spec fn respawn_position() -> Position {
    Position { x: 50, y: 100, z: 7 }
}

/// Objects that can exist on a tile.
#[derive(Debug, Clone)]
pub enum TileObject {
    Ground(u16),
    Item(u16),
    Creature(u32, String, OutfitColors),
}

/// A tile of the map file.
#[derive(Debug, Clone)]
pub struct JsonTile {
    pub x: u16,
    pub y: u16,
    pub tileid: Option<u16>,
    pub items: Option<Vec<JsonItem>>,
}

/// An item lying on a tile of the map file.
#[derive(Debug, Copy, Clone, PartialEq, Eq, Structural)]
pub struct JsonItem {
    pub id: u16,
}

/// The contents of the map file.
#[derive(Debug, Clone)]
pub struct MapFile {
    pub tiles: Vec<JsonTile>,
}

/// The item ids of a map-file tile, in file order (none when absent).
pub open spec fn item_ids(items: Option<Vec<JsonItem>>) -> Seq<u16> {
    match items {
        Some(v) => v@.map_values(|i: JsonItem| i.id),
        None => Seq::empty(),
    }
}

/// A tile stack in the map: the objects on one position, ground first.
#[derive(Debug)]
struct Tile {
    objects: Vec<TileObject>,
}

impl Tile {
    /// An empty tile.
    fn new() -> (r: Self)
        ensures
            r.objects@ == Seq::<TileObject>::empty(),
    {
        Tile { objects: Vec::new() }
    }

    /// Makes `obj` the bottom object of the stack: it replaces the first object,
    /// or becomes the only one when the tile is empty.
    fn set_ground(&mut self, obj: TileObject)
        ensures
            final(self).objects@ == with_ground_object(old(self).objects@, obj),
    {
        if self.objects.len() == 0 {
            self.objects.push(obj);
        } else {
            self.objects.set(0, obj);
        }
    }

    /// Puts an object on top of the stack.
    fn add_object(&mut self, obj: TileObject)
        ensures
            final(self).objects@ == old(self).objects@.push(obj),
    {
        self.objects.push(obj);
    }
}

/// A stack whose bottom object is replaced by `obj` (or that holds only `obj`
/// when it was empty).
pub open spec fn with_ground_object(objs: Seq<TileObject>, obj: TileObject) -> Seq<TileObject> {
    if objs.len() == 0 {
        seq![obj]
    } else {
        objs.update(0, obj)
    }
}

/// The objects on a position of a tile map, empty when there is no tile.
pub open spec fn stack_at(tiles: Map<Position, Seq<TileObject>>, pos: Position) -> Seq<
    TileObject,
> {
    if tiles.contains_key(pos) {
        tiles[pos]
    } else {
        Seq::empty()
    }
}

/// The tile map after setting the ground of `pos` to `id`.
pub open spec fn set_ground_at(tiles: Map<Position, Seq<TileObject>>, pos: Position, id: u16) -> Map<
    Position,
    Seq<TileObject>,
> {
    tiles.insert(pos, with_ground_object(stack_at(tiles, pos), TileObject::Ground(id)))
}

/// The tile map after putting item `id` on top of `pos`.
pub open spec fn add_item_at(tiles: Map<Position, Seq<TileObject>>, pos: Position, id: u16) -> Map<
    Position,
    Seq<TileObject>,
> {
    tiles.insert(pos, stack_at(tiles, pos).push(TileObject::Item(id)))
}

/// A map area filled with water: every position of floor 7 inside it holds
/// exactly a water ground.
pub open spec fn water_area(width: u16, height: u16, offset_x: u16, offset_y: u16) -> Map<
    Position,
    Seq<TileObject>,
> {
    Map::new(
        |p: Position|
            p.z == 7 && offset_x <= p.x < offset_x + width && offset_y <= p.y < offset_y + height,
        |p: Position| seq![TileObject::Ground(WATER)],
    )
}

/// Whether a border rule applies to a tile id and some item on the tile.
pub open spec fn rule_applies(rule: BorderTile, tileid: Option<u16>, items: Seq<u16>) -> bool {
    exists|j: int| 0 <= j < items.len() && rule.spec_matches(tileid, #[trigger] items[j])
}

/// Index of the first border rule, from index `i` on, that applies.
pub open spec fn first_rule_from(tileid: Option<u16>, items: Seq<u16>, i: int) -> Option<int>
    decreases border_rules().len() - i,
{
    if i < 0 || i >= border_rules().len() {
        None
    } else if rule_applies(border_rules()[i], tileid, items) {
        Some(i)
    } else {
        first_rule_from(tileid, items, i + 1)
    }
}

/// The first border rule that applies to a tile, if any.
pub open spec fn matched_rule(tileid: Option<u16>, items: Seq<u16>) -> Option<BorderTile> {
    match first_rule_from(tileid, items, 0) {
        Some(i) => Some(border_rules()[i]),
        None => None,
    }
}

/// Index of the first occurrence of `id`, or the length when there is none.
pub open spec fn first_index_of(items: Seq<u16>, id: u16) -> nat
    decreases items.len(),
{
    if items.len() == 0 {
        0
    } else if items[0] == id {
        0
    } else {
        1 + first_index_of(items.drop_first(), id)
    }
}

/// The items with the first occurrence of `id` taken out.
pub open spec fn remove_first(items: Seq<u16>, id: u16) -> Seq<u16> {
    if first_index_of(items, id) < items.len() {
        items.remove(first_index_of(items, id) as int)
    } else {
        items
    }
}

/// The objects that the items of a map-file tile become, last item first;
/// items without a Tibia 1.03 id (or whose id is 0) are dropped.
pub open spec fn stacked_items(items: Seq<u16>) -> Seq<TileObject>
    decreases items.len(),
{
    if items.len() == 0 {
        Seq::empty()
    } else {
        stacked_items(items.drop_first()) + placed_item(items[0])
    }
}

/// The object that a map-file item becomes, if any.
pub open spec fn placed_item(id: u16) -> Seq<TileObject> {
    match spec_item_id(id) {
        Some(m) => if m != 0 {
            seq![TileObject::Item(m)]
        } else {
            Seq::empty()
        },
        None => Seq::empty(),
    }
}

/// The ground and remaining items of a map-file tile after the border rules:
/// the ground to set (if any) and the items still to place.
pub open spec fn ground_and_items(tileid: Option<u16>, items: Seq<u16>) -> (Option<u16>, Seq<u16>) {
    match matched_rule(tileid, items) {
        Some(rule) => (
            Some(rule.result_tileid),
            if rule.merge {
                remove_first(items, rule.item_id)
            } else {
                items
            },
        ),
        None => match tileid {
            Some(t) => (
                Some(
                    match spec_tile_id(t) {
                        Some(g) => g,
                        None => WATER,
                    },
                ),
                items,
            ),
            None => (None, items),
        },
    }
}

/// The tile map after loading one map-file tile into it.
pub open spec fn load_tile(tiles: Map<Position, Seq<TileObject>>, t: JsonTile) -> Map<
    Position,
    Seq<TileObject>,
> {
    let pos = Position { x: t.x, y: t.y, z: 7 };
    let (ground, items) = ground_and_items(t.tileid, item_ids(t.items));
    let grounded = match ground {
        Some(g) => set_ground_at(tiles, pos, g),
        None => tiles,
    };
    let placed = stacked_items(items);
    if placed.len() == 0 {
        grounded
    } else {
        grounded.insert(pos, stack_at(grounded, pos) + placed)
    }
}

/// The tile map after loading the map-file tiles in order.
pub open spec fn load_tiles(tiles: Map<Position, Seq<TileObject>>, ts: Seq<JsonTile>) -> Map<
    Position,
    Seq<TileObject>,
>
    decreases ts.len(),
{
    if ts.len() == 0 {
        tiles
    } else {
        load_tile(load_tiles(tiles, ts.drop_last()), ts.last())
    }
}

/// Whether every creature on a tile map wears an outfit that can be encoded.
pub open spec fn creatures_packable(tiles: Map<Position, Seq<TileObject>>) -> bool {
    forall|p: Position, i: int|
        #![trigger tiles[p][i]]
        tiles.contains_key(p) && 0 <= i < tiles[p].len() ==> match tiles[p][i] {
            TileObject::Creature(_, _, outfit) => outfit.is_packable(),
            _ => true,
        }
}

/// The stacks of a tile store, by position.
spec fn view_of_tiles(tiles: Map<(u16, u16, u8), Tile>) -> Map<Position, Seq<TileObject>> {
    Map::new(
        |p: Position| tiles.contains_key(tile_key(p)),
        |p: Position| tiles[tile_key(p)].objects@,
    )
}

/// The world map.
#[derive(Debug)]
pub struct WorldMap {
    respawn: Position,
    tiles: BTreeMap<(u16, u16, u8), Tile>,
    width: u16,
    height: u16,
    offset_x: u16,
    offset_y: u16,
}

/// The key under which a position's tile is stored.
pub open spec fn tile_key(p: Position) -> (u16, u16, u8) {
    (p.x, p.y, p.z)
}

impl WorldMap {
    /// The tiles of the map by position.
    pub closed spec fn tile_view(&self) -> Map<Position, Seq<TileObject>> {
        view_of_tiles(self.tiles@)
    }

    /// The area of the map: width, height and the offsets of its corner.
    pub closed spec fn area(&self) -> (u16, u16, u16, u16) {
        (self.width, self.height, self.offset_x, self.offset_y)
    }

    /// Where characters appear when they log in.
    pub closed spec fn spec_respawn(&self) -> Position {
        self.respawn
    }

    #[verifier::type_invariant]
    closed spec fn inv(&self) -> bool {
        &&& self.offset_x + self.width <= 65535
        &&& self.offset_y + self.height <= 65535
        &&& creatures_packable(self.tile_view())
    }

    /// Whether a position lies inside the map area.
    pub open spec fn in_area(&self, pos: Position) -> bool {
        let (w, h, ox, oy) = self.area();
        ox <= pos.x < ox + w && oy <= pos.y < oy + h
    }

    /// The objects on a position: the tile's stack inside the map area (none
    /// when there is no tile), an empty stack of water outside it on floor 7,
    /// and nothing outside it on other floors.
    pub open spec fn objects_at(&self, pos: Position) -> Option<Seq<TileObject>> {
        if self.in_area(pos) {
            if self.tile_view().contains_key(pos) {
                Some(self.tile_view()[pos])
            } else {
                None
            }
        } else if pos.z == 7 {
            Some(Seq::empty())
        } else {
            None
        }
    }

    /// Where characters appear when they log in.
    #[verifier::when_used_as_spec(spec_respawn)]
    pub fn respawn(&self) -> (r: Position)
        ensures
            r == self.spec_respawn(),
    {
        self.respawn
    }
}


impl WorldMap {
    /// Sets the ground of the tile at `pos`, creating the tile when missing.
    fn set_ground(&mut self, pos: Position, id: u16)
        ensures
            final(self).tile_view() == set_ground_at(old(self).tile_view(), pos, id),
            final(self).area() == old(self).area(),
            final(self).spec_respawn() == old(self).spec_respawn(),
    {
        proof {
            use_type_invariant(&*self);
        }
        let ghost before = self.tile_view();
        let key = (pos.x, pos.y, pos.z);
        let mut tiles = BTreeMap::new();
        std::mem::swap(&mut tiles, &mut self.tiles);
        let mut tile = match tiles.remove(&key) {
            Some(t) => t,
            None => Tile::new(),
        };
        assert(tile.objects@ == stack_at(before, pos));
        tile.set_ground(TileObject::Ground(id));
        tiles.insert(key, tile);
        proof {
            let after = view_of_tiles(tiles@);
            assert(after =~= set_ground_at(before, pos, id));
            assert forall|q: Position, i: int|
                after.contains_key(q) && 0 <= i < after[q].len() implies match #[trigger] after[q][i] {
                TileObject::Creature(_, _, outfit) => outfit.is_packable(),
                _ => true,
            } by {
                if q != pos {
                    assert(after[q][i] == before[q][i]);
                } else if i != 0 {
                    assert(after[q][i] == stack_at(before, pos)[i]);
                }
            }
        }
        self.tiles = tiles;
    }

    /// Puts an item on top of the tile at `pos`, creating the tile when missing.
    fn add_item(&mut self, pos: Position, id: u16)
        ensures
            final(self).tile_view() == add_item_at(old(self).tile_view(), pos, id),
            final(self).area() == old(self).area(),
            final(self).spec_respawn() == old(self).spec_respawn(),
    {
        proof {
            use_type_invariant(&*self);
        }
        let ghost before = self.tile_view();
        let key = (pos.x, pos.y, pos.z);
        let mut tiles = BTreeMap::new();
        std::mem::swap(&mut tiles, &mut self.tiles);
        let mut tile = match tiles.remove(&key) {
            Some(t) => t,
            None => Tile::new(),
        };
        assert(tile.objects@ == stack_at(before, pos));
        tile.add_object(TileObject::Item(id));
        tiles.insert(key, tile);
        proof {
            let after = view_of_tiles(tiles@);
            assert(after =~= add_item_at(before, pos, id));
            assert forall|q: Position, i: int|
                after.contains_key(q) && 0 <= i < after[q].len() implies match #[trigger] after[q][i] {
                TileObject::Creature(_, _, outfit) => outfit.is_packable(),
                _ => true,
            } by {
                if q != pos {
                    assert(after[q][i] == before[q][i]);
                } else if i < stack_at(before, pos).len() {
                    assert(after[q][i] == stack_at(before, pos)[i]);
                }
            }
        }
        self.tiles = tiles;
    }
}


/// Rules before index `i` do not apply, so the search may start at `i`.
proof fn lemma_first_rule_skip(tileid: Option<u16>, items: Seq<u16>, k: int, i: int)
    requires
        0 <= k <= i <= border_rules().len(),
        forall|j: int| k <= j < i ==> !rule_applies(border_rules()[j], tileid, items),
    ensures
        first_rule_from(tileid, items, k) == first_rule_from(tileid, items, i),
    decreases i - k,
{
    if k < i {
        lemma_first_rule_skip(tileid, items, k + 1, i);
    }
}

/// The first occurrence of `id` is at `i` when no earlier item is `id`.
proof fn lemma_first_index_is(items: Seq<u16>, id: u16, i: int)
    requires
        0 <= i <= items.len(),
        forall|j: int| 0 <= j < i ==> items[j] != id,
        i == items.len() || items[i] == id,
    ensures
        first_index_of(items, id) == i,
    decreases items.len(),
{
    if i > 0 {
        assert forall|j: int| 0 <= j < i - 1 implies items.drop_first()[j] != id by {
            assert(items.drop_first()[j] == items[j + 1]);
        }
        lemma_first_index_is(items.drop_first(), id, i - 1);
    }
}

/// Whether some item of a tile makes the rule apply.
fn any_item_matches(rule: &BorderTile, tileid: Option<u16>, items: &Vec<u16>) -> (r: bool)
    ensures
        r == rule_applies(*rule, tileid, items@),
{
    let mut j: usize = 0;
    while j < items.len()
        invariant
            j <= items@.len(),
            forall|k: int| 0 <= k < j ==> !rule.spec_matches(tileid, #[trigger] items@[k]),
        decreases items.len() - j,
    {
        if rule.matches(tileid, items[j]) {
            return true;
        }
        j = j + 1;
    }
    false
}

/// Index of the first border rule that applies to a tile.
fn find_rule(rules: &Vec<BorderTile>, tileid: Option<u16>, items: &Vec<u16>) -> (r: Option<usize>)
    requires
        rules@ == border_rules(),
    ensures
        match r {
            Some(i) => first_rule_from(tileid, items@, 0) == Some(i as int) && i < rules@.len(),
            None => first_rule_from(tileid, items@, 0) is None,
        },
{
    let mut i: usize = 0;
    while i < rules.len()
        invariant
            rules@ == border_rules(),
            i <= rules@.len(),
            forall|j: int| 0 <= j < i ==> !rule_applies(border_rules()[j], tileid, items@),
        decreases rules.len() - i,
    {
        if any_item_matches(&rules[i], tileid, items) {
            proof {
                lemma_first_rule_skip(tileid, items@, 0, i as int);
            }
            return Some(i);
        }
        i = i + 1;
    }
    proof {
        lemma_first_rule_skip(tileid, items@, 0, i as int);
    }
    None
}

/// Index of the first item equal to `id`.
fn position_of(items: &Vec<u16>, id: u16) -> (r: Option<usize>)
    ensures
        match r {
            Some(i) => i == first_index_of(items@, id) && i < items@.len(),
            None => first_index_of(items@, id) == items@.len(),
        },
{
    let mut j: usize = 0;
    while j < items.len()
        invariant
            j <= items@.len(),
            forall|k: int| 0 <= k < j ==> items@[k] != id,
        decreases items.len() - j,
    {
        if items[j] == id {
            proof {
                lemma_first_index_is(items@, id, j as int);
            }
            return Some(j);
        }
        j = j + 1;
    }
    proof {
        lemma_first_index_is(items@, id, j as int);
    }
    None
}

/// The item ids of a map-file tile, in file order.
fn item_id_list(items: &Option<Vec<JsonItem>>) -> (r: Vec<u16>)
    ensures
        r@ == item_ids(*items),
{
    let mut out: Vec<u16> = Vec::new();
    match items {
        Some(v) => {
            let mut j: usize = 0;
            while j < v.len()
                invariant
                    j <= v@.len(),
                    out@ == v@.take(j as int).map_values(|i: JsonItem| i.id),
                decreases v.len() - j,
            {
                out.push(v[j].id);
                assert(v@.take(j + 1) == v@.take(j as int).push(v@[j as int]));
                j = j + 1;
            }
            assert(v@.take(j as int) == v@);
        },
        None => {},
    }
    assert(out@ =~= item_ids(*items));
    out
}

impl WorldMap {
    /// Loads one map-file tile: applies the first matching border rule (or
    /// converts the tile id), then stacks the remaining items, last item first.
    fn load_tile(&mut self, t: &JsonTile, rules: &Vec<BorderTile>)
        requires
            rules@ == border_rules(),
        ensures
            final(self).tile_view() == load_tile(old(self).tile_view(), *t),
            final(self).area() == old(self).area(),
            final(self).spec_respawn() == old(self).spec_respawn(),
    {
        let pos = Position::new(t.x, t.y, 7);
        let mut items = item_id_list(&t.items);
        let ghost all_items = items@;
        let ghost start = self.tile_view();
        match find_rule(rules, t.tileid, &items) {
            Some(ri) => {
                let rule = &rules[ri];
                self.set_ground(pos, rule.result_tileid);
                if rule.merge {
                    match position_of(&items, rule.item_id) {
                        Some(idx) => {
                            items.remove(idx);
                        },
                        None => {},
                    }
                }
            },
            None => {
                match t.tileid {
                    Some(tileid) => {
                        let base = match tile_id_map(tileid) {
                            Some(g) => g,
                            None => WATER,
                        };
                        self.set_ground(pos, base);
                    },
                    None => {},
                }
            },
        }
        let ghost grounded = self.tile_view();
        assert(ground_and_items(t.tileid, all_items).1 == items@);
        assert(grounded == match ground_and_items(t.tileid, all_items).0 {
            Some(g) => set_ground_at(start, pos, g),
            None => start,
        });
        let mut k = items.len();
        assert(items@.skip(k as int) =~= Seq::<u16>::empty());
        while k > 0
            invariant
                k <= items@.len(),
                self.area() == old(self).area(),
                self.spec_respawn() == old(self).spec_respawn(),
                self.tile_view() == (if stacked_items(items@.skip(k as int)).len() == 0 {
                    grounded
                } else {
                    grounded.insert(pos, stack_at(grounded, pos) + stacked_items(items@.skip(k as int)))
                }),
            decreases k,
        {
            let ghost before = self.tile_view();
            let id = items[k - 1];
            let mapped = match item_id_map(id) {
                Some(m) => m,
                None => 0,
            };
            assert(items@.skip(k - 1).drop_first() =~= items@.skip(k as int));
            assert(items@.skip(k - 1)[0] == id);
            assert(stacked_items(items@.skip(k - 1)) == stacked_items(items@.skip(k as int))
                + placed_item(id));
            if mapped != 0 {
                assert(placed_item(id) == seq![TileObject::Item(mapped)]);
                assert(stack_at(before, pos) == stack_at(grounded, pos) + stacked_items(
                    items@.skip(k as int),
                )) by {
                    if stacked_items(items@.skip(k as int)).len() == 0 {
                        assert(stack_at(grounded, pos) + stacked_items(items@.skip(k as int))
                            =~= stack_at(grounded, pos));
                    }
                }
                self.add_item(pos, mapped);
                assert(stack_at(before, pos).push(TileObject::Item(mapped)) =~= stack_at(
                    grounded,
                    pos,
                ) + stacked_items(items@.skip(k - 1)));
                assert(self.tile_view() =~= grounded.insert(
                    pos,
                    stack_at(grounded, pos) + stacked_items(items@.skip(k - 1)),
                ));
            } else {
                assert(placed_item(id) == Seq::<TileObject>::empty());
                assert(stacked_items(items@.skip(k - 1)) =~= stacked_items(items@.skip(k as int)));
            }
            k = k - 1;
        }
        assert(items@.skip(0) =~= items@);
    }
}


/// Whether every position of floor 7 inside the area has a stack whose first
/// object is a ground.
pub open spec fn area_grounded(
    tiles: Map<Position, Seq<TileObject>>,
    width: u16,
    height: u16,
    offset_x: u16,
    offset_y: u16,
) -> bool {
    forall|p: Position|
        p.z == 7 && offset_x <= p.x < offset_x + width && offset_y <= p.y < offset_y + height
            ==> #[trigger] tiles.contains_key(p) && tiles[p].len() >= 1 && tiles[p][0] is Ground
}

proof fn lemma_load_tile_grounded(
    tiles: Map<Position, Seq<TileObject>>,
    t: JsonTile,
    width: u16,
    height: u16,
    offset_x: u16,
    offset_y: u16,
)
    requires
        area_grounded(tiles, width, height, offset_x, offset_y),
    ensures
        area_grounded(load_tile(tiles, t), width, height, offset_x, offset_y),
{
    let pos = Position { x: t.x, y: t.y, z: 7 };
    let (ground, items) = ground_and_items(t.tileid, item_ids(t.items));
    let grounded = match ground {
        Some(g) => set_ground_at(tiles, pos, g),
        None => tiles,
    };
    assert forall|p: Position|
        p.z == 7 && offset_x <= p.x < offset_x + width && offset_y <= p.y < offset_y + height
            implies #[trigger] grounded.contains_key(p) && grounded[p].len() >= 1
            && grounded[p][0] is Ground by {
        assert(tiles.contains_key(p));
        match ground {
            Some(g) => {
                if p == pos {
                    assert(grounded[p] == with_ground_object(stack_at(tiles, pos), TileObject::Ground(g)));
                }
            },
            None => {},
        }
    }
    let placed = stacked_items(items);
    let out = load_tile(tiles, t);
    assert forall|p: Position|
        p.z == 7 && offset_x <= p.x < offset_x + width && offset_y <= p.y < offset_y + height
            implies #[trigger] out.contains_key(p) && out[p].len() >= 1 && out[p][0] is Ground by {
        assert(grounded.contains_key(p));
        if placed.len() > 0 && p == pos {
            assert(out[p] == stack_at(grounded, pos) + placed);
            assert(out[p][0] == grounded[p][0]);
        }
    }
    assert(area_grounded(out, width, height, offset_x, offset_y));
}

proof fn lemma_load_tiles_grounded(
    tiles: Map<Position, Seq<TileObject>>,
    ts: Seq<JsonTile>,
    width: u16,
    height: u16,
    offset_x: u16,
    offset_y: u16,
)
    requires
        area_grounded(tiles, width, height, offset_x, offset_y),
    ensures
        area_grounded(load_tiles(tiles, ts), width, height, offset_x, offset_y),
    decreases ts.len(),
{
    if ts.len() > 0 {
        lemma_load_tiles_grounded(tiles, ts.drop_last(), width, height, offset_x, offset_y);
        lemma_load_tile_grounded(
            load_tiles(tiles, ts.drop_last()),
            ts.last(),
            width,
            height,
            offset_x,
            offset_y,
        );
    }
}

/// After loading, every position of floor 7 inside the map area holds a stack
/// whose first object is a ground: the area starts out as water and loading a
/// tile only ever replaces the ground or adds objects above it.
pub proof fn lemma_loaded_area_grounded(
    ts: Seq<JsonTile>,
    width: u16,
    height: u16,
    offset_x: u16,
    offset_y: u16,
)
    ensures
        area_grounded(
            load_tiles(water_area(width, height, offset_x, offset_y), ts),
            width,
            height,
            offset_x,
            offset_y,
        ),
{
    let water = water_area(width, height, offset_x, offset_y);
    assert forall|p: Position|
        p.z == 7 && offset_x <= p.x < offset_x + width && offset_y <= p.y < offset_y + height
            implies #[trigger] water.contains_key(p) && water[p].len() >= 1 && water[p][0] is Ground by {
    }
    lemma_load_tiles_grounded(water, ts, width, height, offset_x, offset_y);
}

/// Loading the map-file tiles leaves every position that none of them names as
/// it was.
proof fn lemma_load_tiles_elsewhere(tiles: Map<Position, Seq<TileObject>>, ts: Seq<JsonTile>, p: Position)
    requires
        forall|i: int| 0 <= i < ts.len() ==> !(ts[i].x == p.x && ts[i].y == p.y && p.z == 7),
    ensures
        load_tiles(tiles, ts).contains_key(p) == tiles.contains_key(p),
        tiles.contains_key(p) ==> load_tiles(tiles, ts)[p] == tiles[p],
    decreases ts.len(),
{
    if ts.len() > 0 {
        lemma_load_tiles_elsewhere(tiles, ts.drop_last(), p);
        assert(ts.last() == ts[ts.len() - 1]);
    }
}

/// Positions of the map area that no tile of the map file names are water:
/// their stack is exactly a water ground.
pub proof fn lemma_unnamed_positions_are_water(
    ts: Seq<JsonTile>,
    width: u16,
    height: u16,
    offset_x: u16,
    offset_y: u16,
    p: Position,
)
    requires
        p.z == 7,
        offset_x <= p.x < offset_x + width,
        offset_y <= p.y < offset_y + height,
        forall|i: int| 0 <= i < ts.len() ==> !(ts[i].x == p.x && ts[i].y == p.y),
    ensures
        load_tiles(water_area(width, height, offset_x, offset_y), ts).contains_key(p),
        load_tiles(water_area(width, height, offset_x, offset_y), ts)[p] == seq![
            TileObject::Ground(WATER),
        ],
{
    lemma_load_tiles_elsewhere(water_area(width, height, offset_x, offset_y), ts, p);
}

/// Loading map-file tiles only ever creates tiles on floor 7.
proof fn lemma_load_tiles_floor(tiles: Map<Position, Seq<TileObject>>, ts: Seq<JsonTile>, p: Position)
    requires
        p.z != 7,
        !tiles.contains_key(p),
    ensures
        !load_tiles(tiles, ts).contains_key(p),
    decreases ts.len(),
{
    if ts.len() > 0 {
        lemma_load_tiles_floor(tiles, ts.drop_last(), p);
    }
}

/// On a map built from a map file, a position holds objects exactly when it
/// is on floor 7 (inside the area or in the water around it), and inside the
/// area the stack on floor 7 starts with a ground.
pub proof fn lemma_loaded_map_floors(m: &WorldMap, ts: Seq<JsonTile>)
    requires
        m.tile_view() == load_tiles(
            water_area(m.area().0, m.area().1, m.area().2, m.area().3),
            ts,
        ),
    ensures
        forall|p: Position| #[trigger] m.objects_at(p) is Some <==> p.z == 7,
        forall|p: Position|
            m.in_area(p) && p.z == 7 ==> #[trigger] m.objects_at(p)->Some_0.len() >= 1
                && m.objects_at(p)->Some_0[0] is Ground,
{
    let (w, h, ox, oy) = m.area();
    lemma_loaded_area_grounded(ts, w, h, ox, oy);
    assert forall|p: Position| #[trigger] m.objects_at(p) is Some <==> p.z == 7 by {
        if p.z != 7 {
            lemma_load_tiles_floor(water_area(w, h, ox, oy), ts, p);
        }
    }
}

/// The water area filled column by column: full columns before `x`, and the
/// first `y` positions of column `x`.
spec fn water_prefix(width: u16, height: u16, offset_x: u16, offset_y: u16, x: int, y: int) -> Map<
    Position,
    Seq<TileObject>,
> {
    Map::new(
        |p: Position|
            p.z == 7 && ((offset_x <= p.x < offset_x + x && offset_y <= p.y < offset_y + height) || (
            p.x == offset_x + x && offset_y <= p.y < offset_y + y)),
        |p: Position| seq![TileObject::Ground(WATER)],
    )
}

impl WorldMap {
    /// Builds the map from the contents of the map file: first the whole area
    /// is filled with water, then the file's tiles are loaded in order.
    fn load(
        file: MapFile,
        width: u16,
        height: u16,
        offset_x: u16,
        offset_y: u16,
        respawn: Position,
    ) -> (r: WorldMap)
        requires
            offset_x + width <= 65535,
            offset_y + height <= 65535,
        ensures
            r.area() == (width, height, offset_x, offset_y),
            r.spec_respawn() == respawn,
            r.tile_view() == load_tiles(water_area(width, height, offset_x, offset_y), file.tiles@),
    {
        let mut map = WorldMap {
            respawn,
            tiles: BTreeMap::new(),
            width,
            height,
            offset_x,
            offset_y,
        };
        assert(map.tile_view() =~= water_prefix(width, height, offset_x, offset_y, 0, 0));
        let mut x: u16 = 0;
        while x < width
            invariant
                x <= width,
                offset_x + width <= 65535,
                offset_y + height <= 65535,
                map.area() == (width, height, offset_x, offset_y),
                map.spec_respawn() == respawn,
                map.tile_view() == water_prefix(width, height, offset_x, offset_y, x as int, 0),
            decreases width - x,
        {
            let mut y: u16 = 0;
            while y < height
                invariant
                    x < width,
                    y <= height,
                    offset_x + width <= 65535,
                    offset_y + height <= 65535,
                    map.area() == (width, height, offset_x, offset_y),
                    map.spec_respawn() == respawn,
                    map.tile_view() == water_prefix(
                        width,
                        height,
                        offset_x,
                        offset_y,
                        x as int,
                        y as int,
                    ),
                decreases height - y,
            {
                let pos = Position::new(x + offset_x, y + offset_y, 7);
                let ghost before = map.tile_view();
                assert(!before.contains_key(pos));
                map.set_ground(pos, WATER);
                assert(map.tile_view() =~= water_prefix(
                    width,
                    height,
                    offset_x,
                    offset_y,
                    x as int,
                    y + 1,
                ));
                y = y + 1;
            }
            assert(water_prefix(width, height, offset_x, offset_y, x as int, height as int)
                =~= water_prefix(width, height, offset_x, offset_y, x + 1, 0));
            x = x + 1;
        }
        let ghost water = water_area(width, height, offset_x, offset_y);
        assert(map.tile_view() =~= water);
        let rule_list = rules();
        let tiles = file.tiles;
        let mut i: usize = 0;
        assert(tiles@.take(0) =~= Seq::<JsonTile>::empty());
        while i < tiles.len()
            invariant
                i <= tiles@.len(),
                rule_list@ == border_rules(),
                map.area() == (width, height, offset_x, offset_y),
                map.spec_respawn() == respawn,
                map.tile_view() == load_tiles(water, tiles@.take(i as int)),
            decreases tiles.len() - i,
        {
            map.load_tile(&tiles[i], &rule_list);
            assert(tiles@.take(i + 1).drop_last() =~= tiles@.take(i as int));
            i = i + 1;
        }
        assert(tiles@.take(i as int) =~= tiles@);
        map
    }

    /// The objects on a position of the map (see `objects_at`). Every creature
    /// among them wears an outfit that can be encoded.
    pub fn get_tile_objects(&self, pos: Position) -> (r: Option<&[TileObject]>)
        ensures
            match r {
                Some(s) => self.objects_at(pos) == Some(s@),
                None => self.objects_at(pos) is None,
            },
            r matches Some(s) ==> forall|i: int|
                0 <= i < s@.len() ==> match #[trigger] s@[i] {
                    TileObject::Creature(_, _, outfit) => outfit.is_packable(),
                    _ => true,
                },
    {
        proof {
            use_type_invariant(self);
        }
        let in_bounds = pos.x >= self.offset_x && pos.x < self.offset_x + self.width && pos.y
            >= self.offset_y && pos.y < self.offset_y + self.height;
        if in_bounds {
            match self.tiles.get(&(pos.x, pos.y, pos.z)) {
                Some(t) => {
                    let objs = t.objects.as_slice();
                    assert(self.tile_view()[pos] == objs@);
                    Some(objs)
                },
                None => None,
            }
        } else if pos.z == 7 {
            // Water outside the map area.
            Some(&[])
        } else {
            None
        }
    }
}

/// Builds the world map from the contents of the map file: a 160x160 area of
/// water with its corner at (0, 0), the file's tiles loaded over it, and the
/// respawn point at (50, 100, 7).
pub fn init(file: MapFile) -> (r: WorldMap)
    ensures
        r.area() == (MAP_WIDTH, MAP_HEIGHT, 0u16, 0u16),
        r.spec_respawn() == respawn_position(),
        r.tile_view() == load_tiles(water_area(MAP_WIDTH, MAP_HEIGHT, 0, 0), file.tiles@),
{
    WorldMap::load(file, MAP_WIDTH, MAP_HEIGHT, 0, 0, Position::new(50, 100, 7))
}

} // verus!
