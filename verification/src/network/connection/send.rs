//! Builders of outgoing packets. Each builder produces the packet payload; the
//! length framing is added when the queue is flushed.
use super::Connection;
use crate::chat::encoding::{
    spec_translate, spec_translate_upper, translate, translate_char, translate_upper,
};
use crate::chat::{chat_type_code, ChatType};
use crate::io::{
    fixed_field, gender_byte, nul_terminated, outfit_bytes, packet_header, position_bytes, u16_le,
    WriteExt,
};
use crate::map::position::Position;
use crate::map::{TileObject, WorldMap};
use crate::network::packet::{PacketOut, PacketOutAux};
use crate::player::{slot_code, Direction, Gender, InventorySlot, OutfitColors, Player, PlayerView};
use vstd::prelude::*;
use vstd::utf8::{encode_utf8, is_ascii_chars};

verus! {

/// Unicode upper-casing of a text, as done by `str::to_uppercase`.
pub uninterp spec fn uppercase(s: Seq<char>) -> Seq<char>;

/// The upper case of an ASCII character (other characters stay as they are).
pub open spec fn ascii_upper(c: char) -> char {
    if 'a' <= c <= 'z' {
        ((c as u32) - 32) as char
    } else {
        c
    }
}

/// `str::to_uppercase`: the Unicode upper case of the text. An ASCII text has
/// each of its letters `a` to `z` turned into `A` to `Z` and keeps every other
/// character. What non-ASCII characters become (Unicode case mapping, which
/// may change the length, as `ß` becoming `SS`) is named by `uppercase` and
/// not stated.
#[verifier::external_body]
fn to_uppercase(s: &str) -> (r: String)
    ensures
        r@ == uppercase(s@),
        is_ascii_chars(s@) ==> r@ == s@.map_values(|c: char| ascii_upper(c)),
{
    s.to_uppercase()
}

/// The login packet.
pub open spec fn login_packet() -> Seq<u8> {
    packet_header(PacketOut::Login)
}

/// A packet that carries one zero-terminated text.
pub open spec fn text_packet(kind: PacketOut, message: Seq<char>) -> Seq<u8> {
    packet_header(kind) + nul_terminated(message)
}

/// The packet that puts an item into an inventory slot.
pub open spec fn equipped_item_packet(slot: InventorySlot, item_id: u16) -> Seq<u8> {
    packet_header(PacketOut::EquippedItem) + u16_le(item_id) + seq![slot_code(slot)]
}

/// The packet with the character's editable data.
pub open spec fn data_window_packet(p: PlayerView) -> Seq<u8> {
    packet_header(PacketOut::DataWindow) + fixed_field(encode_utf8(p.name), 30) + fixed_field(
        encode_utf8(p.password),
        30,
    ) + seq![gender_byte(p.gender)] + outfit_bytes(p.outfit) + fixed_field(
        encode_utf8(p.real_name),
        50,
    ) + fixed_field(encode_utf8(p.location), 50) + fixed_field(encode_utf8(p.email), 50)
}

/// The list of users online: only the character itself.
pub open spec fn user_list_packet(p: PlayerView) -> Seq<u8> {
    packet_header(PacketOut::UserList) + u16_le(0x1010) + encode_utf8(p.name) + seq![0x0Au8, 0u8]
}

/// How a gender is named in the user information.
pub open spec fn gender_name(g: Gender) -> Seq<char> {
    match g {
        Gender::Male => "Male"@,
        Gender::Female => "Female"@,
    }
}

/// The text of the user information window.
pub open spec fn user_info_text(p: PlayerView) -> Seq<char> {
    "Name: "@ + p.name + "\nReal name: "@ + p.real_name + "\nLocation: "@ + p.location
        + "\nEmail: "@ + p.email + "\nSex: "@ + gender_name(p.gender)
}

/// The user information window about a character.
pub open spec fn user_info_packet(p: PlayerView) -> Seq<u8> {
    packet_header(PacketOut::UserInfo) + u16_le(0x1010) + nul_terminated(user_info_text(p))
}

/// The container window: a bag (window 1) holding five swords.
pub open spec fn open_container_packet() -> Seq<u8> {
    packet_header(PacketOut::OpenContainer) + seq![1u8] + u16_le(0x013D) + u16_le(0x005A)
        + u16_le(0x005A) + u16_le(0x005A) + u16_le(0x005A) + u16_le(0x005A) + u16_le(0xFFFF)
}

/// The packet that closes a container window.
pub open spec fn close_container_packet(local_id: u8) -> Seq<u8> {
    packet_header(PacketOut::CloseContainer) + seq![local_id]
}

/// The client bytes of a chat text: shouted text is upper-cased first.
pub open spec fn chat_text_bytes(chat_type: ChatType, msg: Seq<char>) -> Seq<u8> {
    if chat_type == ChatType::Yell {
        spec_translate_upper(uppercase(msg))
    } else {
        spec_translate(msg)
    }
}

/// A chat message: two chat headers, the bubble position (row 8, column 6),
/// the chat type, the sender's name and a tab when there is a sender, the
/// encoded text and a zero byte.
pub open spec fn chat_packet(chat_type: ChatType, msg: Seq<char>, sender: Option<Seq<char>>) -> Seq<
    u8,
> {
    packet_header(PacketOut::Chat) + packet_header(PacketOut::Chat) + seq![
        8u8,
        6u8,
        chat_type_code(chat_type),
    ] + match sender {
        Some(name) => encode_utf8(name).push(0x09u8),
        None => Seq::empty(),
    } + chat_text_bytes(chat_type, msg).push(0u8)
}

/// The outfit sprite of a character facing the given direction.
pub open spec fn creature_sprite(d: Direction) -> u8 {
    match d {
        Direction::North => 0xFA,
        Direction::East => 0xFB,
        Direction::South => 0xFC,
        Direction::West => 0xFD,
    }
}

/// The character drawn on the map: its sprite and outfit.
pub open spec fn player_creature_bytes(p: PlayerView) -> Seq<u8> {
    seq![creature_sprite(p.direction)] + outfit_bytes(p.outfit)
}

/// Another creature drawn on the map: the character marker and its outfit.
pub open spec fn creature_bytes(outfit: OutfitColors) -> Seq<u8> {
    seq![0xFBu8] + outfit_bytes(outfit)
}

/// The bytes of an object above the ground of a tile.
pub open spec fn object_bytes(o: TileObject) -> Seq<u8> {
    match o {
        TileObject::Ground(id) => u16_le(id),
        TileObject::Item(id) => u16_le(id),
        TileObject::Creature(_, _, outfit) => creature_bytes(outfit),
    }
}

/// The bytes of a sequence of objects, in order.
pub open spec fn objects_bytes(objs: Seq<TileObject>) -> Seq<u8>
    decreases objs.len(),
{
    if objs.len() == 0 {
        Seq::empty()
    } else {
        objects_bytes(objs.drop_last()) + object_bytes(objs.last())
    }
}

/// The ground of a stack: its first object when that is a ground.
pub open spec fn ground_bytes(objs: Seq<TileObject>) -> Seq<u8> {
    if objs.len() > 0 {
        match objs[0] {
            TileObject::Ground(id) => u16_le(id),
            _ => Seq::empty(),
        }
    } else {
        Seq::empty()
    }
}

/// The objects of a stack above its first one.
pub open spec fn upper_objects(objs: Seq<TileObject>) -> Seq<TileObject> {
    if objs.len() == 0 {
        Seq::empty()
    } else {
        objs.drop_first()
    }
}

/// The bytes of one tile of the map view: the ground, the character when it
/// stands there, the other objects, and two 0xFF bytes.
pub open spec fn tile_bytes(map: &WorldMap, p: PlayerView, pos: Position) -> Seq<u8> {
    let me = if pos == p.position {
        player_creature_bytes(p)
    } else {
        Seq::empty()
    };
    match map.objects_at(pos) {
        Some(objs) => ground_bytes(objs) + me + objects_bytes(upper_objects(objs)) + seq![
            0xFFu8,
            0xFFu8,
        ],
        None => me + seq![0xFFu8, 0xFFu8],
    }
}

/// The top-left corner of a view of the given size around `center`.
pub open spec fn view_corner(center: Position, width: u16, height: u16) -> Position {
    Position {
        x: if center.x >= (width - 1) / 2 {
            (center.x - (width - 1) / 2) as u16
        } else {
            0
        },
        y: if center.y >= (height - 1) / 2 {
            (center.y - (height - 1) / 2) as u16
        } else {
            0
        },
        z: center.z,
    }
}

/// Whether a view of the given size around `center` has a size and its
/// coordinates fit in 16 bits.
pub open spec fn view_fits(center: Position, width: u16, height: u16) -> bool {
    &&& width >= 1
    &&& height >= 1
    &&& view_corner(center, width, height).x + width - 1 <= 65535
    &&& view_corner(center, width, height).y + height - 1 <= 65535
}

/// The tiles of column `x` of a view, its first `ny` rows.
pub open spec fn column_bytes(map: &WorldMap, p: PlayerView, corner: Position, x: int, ny: int) -> Seq<
    u8,
>
    decreases ny,
{
    if ny <= 0 {
        Seq::empty()
    } else {
        column_bytes(map, p, corner, x, ny - 1) + tile_bytes(
            map,
            p,
            Position { x: (corner.x + x) as u16, y: (corner.y + ny - 1) as u16, z: corner.z },
        )
    }
}

/// The tiles of the first `nx` columns of a view with `height` rows.
pub open spec fn view_bytes(map: &WorldMap, p: PlayerView, corner: Position, height: int, nx: int) -> Seq<
    u8,
>
    decreases nx,
{
    if nx <= 0 {
        Seq::empty()
    } else {
        view_bytes(map, p, corner, height, nx - 1) + column_bytes(map, p, corner, nx - 1, height)
    }
}

/// The map data of a view: its tiles column by column, with the last byte
/// replaced by 0xFE and a zero byte appended.
pub open spec fn map_data(map: &WorldMap, p: PlayerView, center: Position, width: u16, height: u16) -> Seq<
    u8,
> {
    let raw = view_bytes(map, p, view_corner(center, width, height), height as int, width as int);
    let marked = if raw.len() > 0 {
        raw.update(raw.len() - 1, 0xFEu8)
    } else {
        raw
    };
    marked.push(0u8)
}

/// The map view packet: the center position and the map data.
pub open spec fn map_packet(map: &WorldMap, p: PlayerView, center: Position, width: u16, height: u16) -> Seq<
    u8,
> {
    packet_header(PacketOut::MapView) + position_bytes(center) + map_data(map, p, center, width, height)
}

/// The map data of a view ends with the two terminator bytes 0xFE and 0x00.
pub proof fn lemma_map_data_terminated(map: &WorldMap, p: PlayerView, center: Position, width: u16, height: u16)
    requires
        view_fits(center, width, height),
    ensures
        ({
            let d = map_data(map, p, center, width, height);
            &&& d.len() >= 2
            &&& d[d.len() - 2] == 0xFEu8
            &&& d[d.len() - 1] == 0u8
        }),
{
    let corner = view_corner(center, width, height);
    let raw = view_bytes(map, p, corner, height as int, width as int);
    let pos = Position { x: (corner.x + (width - 1)) as u16, y: (corner.y + height - 1) as u16, z: corner.z };
    assert(column_bytes(map, p, corner, width - 1, height as int) == column_bytes(
        map,
        p,
        corner,
        width - 1,
        height - 1,
    ) + tile_bytes(map, p, pos));
    assert(tile_bytes(map, p, pos).len() >= 2);
    assert(raw.len() >= 2);
}

/// The UTF-8 bytes of two texts one after the other are the bytes of each.
proof fn lemma_encode_concat(a: Seq<char>, b: Seq<char>)
    ensures
        encode_utf8(a + b) == encode_utf8(a) + encode_utf8(b),
    decreases a.len(),
{
    if a.len() > 0 {
        assert((a + b).drop_first() =~= a.drop_first() + b);
        lemma_encode_concat(a.drop_first(), b);
        assert(encode_utf8(a + b) =~= encode_utf8(a) + encode_utf8(b));
    } else {
        assert(a + b =~= b);
    }
}

/// The bytes that start a chat packet before its text: the two chat headers,
/// the bubble position and chat type, and the sender's name and a tab when
/// there is a sender.
pub open spec fn chat_prefix_len(sender: Option<Seq<char>>) -> nat {
    match sender {
        Some(name) => encode_utf8(name).len() + 14,
        None => 13,
    }
}

/// Only shouting changes the case of a chat text: in a chat packet of any
/// other type, an ASCII message is sent as written, each character as its own
/// byte, followed by one zero byte.
pub proof fn lemma_chat_text_as_written(chat_type: ChatType, msg: Seq<char>, sender: Option<Seq<char>>)
    requires
        chat_type != ChatType::Yell,
        is_ascii_chars(msg),
    ensures
        ({
            let pk = chat_packet(chat_type, msg, sender);
            let off = chat_prefix_len(sender);
            &&& pk.len() == off + msg.len() + 1
            &&& forall|i: int| #![trigger msg[i]] 0 <= i < msg.len() ==> pk[off + i] == msg[i] as u8
            &&& pk[pk.len() - 1] == 0u8
        }),
{
    vstd::utf8::is_ascii_chars_nat_bound(msg);
    let pk = chat_packet(chat_type, msg, sender);
    let off = chat_prefix_len(sender);
    let head = packet_header(PacketOut::Chat) + packet_header(PacketOut::Chat) + seq![
        8u8,
        6u8,
        chat_type_code(chat_type),
    ] + match sender {
        Some(name) => encode_utf8(name).push(0x09u8),
        None => Seq::empty(),
    };
    assert(head.len() == off);
    let text = spec_translate(msg);
    assert(pk == head + text.push(0u8));
    assert forall|i: int| #![trigger msg[i]] 0 <= i < msg.len() implies pk[off + i] == msg[i] as u8 by {
        assert(pk[off + i] == text[i]);
        assert(text[i] == translate_char(msg[i]));
        assert((msg[i] as nat) < 128);
    }
}

/// The user information names the character's own gender: its text ends with
/// "Sex: Male" for a male character and "Sex: Female" for a female one, then
/// the zero byte that ends the packet.
pub proof fn lemma_user_info_names_gender(p: PlayerView)
    ensures
        ({
            let pk = user_info_packet(p);
            &&& p.gender == Gender::Male ==> pk.len() >= 10 && pk.skip(pk.len() - 10) == seq![
                0x53u8, 0x65u8, 0x78u8, 0x3Au8, 0x20u8, 0x4Du8, 0x61u8, 0x6Cu8, 0x65u8, 0u8,
            ]
            &&& p.gender == Gender::Female ==> pk.len() >= 12 && pk.skip(pk.len() - 12) == seq![
                0x53u8, 0x65u8, 0x78u8, 0x3Au8, 0x20u8, 0x46u8, 0x65u8, 0x6Du8, 0x61u8, 0x6Cu8,
                0x65u8, 0u8,
            ]
        }),
{
    reveal_strlit("\nSex: ");
    reveal_strlit("Male");
    reveal_strlit("Female");
    let y = "Name: "@ + p.name + "\nReal name: "@ + p.real_name + "\nLocation: "@ + p.location
        + "\nEmail: "@ + p.email;
    let sex = "\nSex: "@;
    let g = gender_name(p.gender);
    assert(user_info_text(p) == (y + sex) + g);
    lemma_encode_concat(y + sex, g);
    lemma_encode_concat(y, sex);
    vstd::utf8::is_ascii_chars_encode_utf8(sex);
    vstd::utf8::is_ascii_chars_encode_utf8(g);
    let e = encode_utf8(y) + encode_utf8(sex) + encode_utf8(g);
    let pk = user_info_packet(p);
    let head = packet_header(PacketOut::UserInfo) + u16_le(0x1010);
    assert(pk == head + e.push(0u8));
    let tail = encode_utf8(sex).skip(1) + encode_utf8(g) + seq![0u8];
    assert(pk.skip(pk.len() - tail.len()) =~= tail);
    if p.gender == Gender::Male {
        assert(tail =~= seq![0x53u8, 0x65u8, 0x78u8, 0x3Au8, 0x20u8, 0x4Du8, 0x61u8, 0x6Cu8, 0x65u8, 0u8]);
    } else {
        assert(tail =~= seq![
            0x53u8, 0x65u8, 0x78u8, 0x3Au8, 0x20u8, 0x46u8, 0x65u8, 0x6Du8, 0x61u8, 0x6Cu8, 0x65u8, 0u8,
        ]);
    }
}

/// Items with the given ids, in order.
pub open spec fn item_objects(items: Seq<u16>) -> Seq<TileObject> {
    items.map_values(|i: u16| TileObject::Item(i))
}

/// The bytes of a run of items: each item's id, little-endian, in order.
proof fn lemma_item_bytes(items: Seq<u16>)
    ensures
        objects_bytes(item_objects(items)).len() == 2 * items.len(),
        forall|k: int|
            #![trigger items[k]]
            0 <= k < items.len() ==> {
                &&& objects_bytes(item_objects(items))[2 * k] == (items[k] % 256) as u8
                &&& objects_bytes(item_objects(items))[2 * k + 1] == (items[k] / 256) as u8
            },
    decreases items.len(),
{
    let objs = item_objects(items);
    if items.len() > 0 {
        let front = items.drop_last();
        lemma_item_bytes(front);
        assert(objs.drop_last() =~= item_objects(front));
        assert(objs.last() == TileObject::Item(items.last()));
        let b = objects_bytes(objs);
        let fb = objects_bytes(item_objects(front));
        assert(b == fb + u16_le(items.last()));
        assert(fb.len() == 2 * front.len());
        assert forall|k: int| #![trigger items[k]] 0 <= k < items.len() implies {
            &&& b[2 * k] == (items[k] % 256) as u8
            &&& b[2 * k + 1] == (items[k] / 256) as u8
        } by {
            if k == items.len() - 1 {
                assert(b[2 * k] == u16_le(items.last())[0]);
                assert(b[2 * k + 1] == u16_le(items.last())[1]);
            } else {
                assert(b[2 * k] == fb[2 * k]);
                assert(b[2 * k + 1] == fb[2 * k + 1]);
                assert(items[k] == front[k]);
            }
        }
    }
}

/// A tile of the map view lists the tile's objects in stack order. For a stack
/// of a ground and items, the tile is sent as the ground's id, then the
/// character's sprite and outfit when it stands there, then the id of every
/// item in stack order, then the two bytes 0xFF 0xFF; ids are little-endian.
pub proof fn lemma_tile_lists_its_items(
    map: &WorldMap,
    p: PlayerView,
    pos: Position,
    ground: u16,
    items: Seq<u16>,
)
    requires
        map.objects_at(pos) == Some(
            seq![TileObject::Ground(ground)] + item_objects(items),
        ),
    ensures
        ({
            let t = tile_bytes(map, p, pos);
            let c: int = if pos == p.position { 4 } else { 0 };
            &&& t.len() == 2 + c + 2 * items.len() + 2
            &&& t[0] == (ground % 256) as u8
            &&& t[1] == (ground / 256) as u8
            &&& pos == p.position ==> t[2] == creature_sprite(p.direction)
            &&& forall|k: int|
                0 <= k < items.len() ==> t[2 + c + 2 * k] == (items[k] % 256) as u8 && t[2 + c + 2
                    * k + 1] == (items[k] / 256) as u8
            &&& t[t.len() - 2] == 0xFFu8
            &&& t[t.len() - 1] == 0xFFu8
        }),
{
    let objs = seq![TileObject::Ground(ground)] + item_objects(items);
    assert(objs[0] == TileObject::Ground(ground));
    assert(upper_objects(objs) =~= item_objects(items));
    lemma_item_bytes(items);
    let t = tile_bytes(map, p, pos);
    let c: int = if pos == p.position { 4 } else { 0 };
    let me = if pos == p.position { player_creature_bytes(p) } else { Seq::empty() };
    let ib = objects_bytes(item_objects(items));
    assert(t == u16_le(ground) + me + ib + seq![0xFFu8, 0xFFu8]);
    assert forall|k: int| 0 <= k < items.len() implies t[2 + c + 2 * k] == (items[k] % 256) as u8
        && t[2 + c + 2 * k + 1] == (items[k] / 256) as u8 by {
        assert(ib[2 * k] == (items[k] % 256) as u8);
        assert(t[2 + c + 2 * k] == ib[2 * k]);
        assert(t[2 + c + 2 * k + 1] == ib[2 * k + 1]);
    }
}

/// The position of the tile at column `x`, row `y` of a view with the given corner.
pub open spec fn view_position(corner: Position, x: int, y: int) -> Position {
    Position { x: (corner.x + x) as u16, y: (corner.y + y) as u16, z: corner.z }
}

/// Where the bytes of row `y` of column `x` start among the first `ny` rows.
proof fn lemma_column_offset(map: &WorldMap, p: PlayerView, corner: Position, x: int, ny: int, y: int) -> (off: int)
    requires
        0 <= y < ny,
    ensures
        0 <= off,
        off + tile_bytes(map, p, view_position(corner, x, y)).len() <= column_bytes(map, p, corner, x, ny).len(),
        column_bytes(map, p, corner, x, ny).subrange(
            off,
            off + tile_bytes(map, p, view_position(corner, x, y)).len(),
        ) == tile_bytes(map, p, view_position(corner, x, y)),
    decreases ny,
{
    let prev = column_bytes(map, p, corner, x, ny - 1);
    let all = column_bytes(map, p, corner, x, ny);
    let tb = tile_bytes(map, p, view_position(corner, x, y));
    assert(all == prev + tile_bytes(map, p, view_position(corner, x, ny - 1)));
    if y == ny - 1 {
        assert(all.subrange(prev.len() as int, (prev.len() + tb.len()) as int) =~= tb);
        prev.len() as int
    } else {
        let off = lemma_column_offset(map, p, corner, x, ny - 1, y);
        assert(all.subrange(off, off + tb.len()) =~= prev.subrange(off, off + tb.len()));
        off
    }
}

/// Where the bytes of the tile at column `x`, row `y` start among the first `nx` columns.
proof fn lemma_view_offset(
    map: &WorldMap,
    p: PlayerView,
    corner: Position,
    height: int,
    nx: int,
    x: int,
    y: int,
) -> (off: int)
    requires
        0 <= x < nx,
        0 <= y < height,
    ensures
        0 <= off,
        off + tile_bytes(map, p, view_position(corner, x, y)).len() <= view_bytes(
            map,
            p,
            corner,
            height,
            nx,
        ).len(),
        view_bytes(map, p, corner, height, nx).subrange(
            off,
            off + tile_bytes(map, p, view_position(corner, x, y)).len(),
        ) == tile_bytes(map, p, view_position(corner, x, y)),
    decreases nx,
{
    let prev = view_bytes(map, p, corner, height, nx - 1);
    let all = view_bytes(map, p, corner, height, nx);
    let tb = tile_bytes(map, p, view_position(corner, x, y));
    assert(all == prev + column_bytes(map, p, corner, nx - 1, height));
    if x == nx - 1 {
        let o = lemma_column_offset(map, p, corner, x, height, y);
        let col = column_bytes(map, p, corner, x, height);
        assert(all.subrange(prev.len() + o, prev.len() + o + tb.len()) =~= col.subrange(o, o + tb.len()));
        prev.len() + o
    } else {
        let off = lemma_view_offset(map, p, corner, height, nx - 1, x, y);
        assert(all.subrange(off, off + tb.len()) =~= prev.subrange(off, off + tb.len()));
        off
    }
}

/// A run of `raw` is found in the packet made of a 7-byte head and `raw` with
/// its last byte replaced and a byte appended, all but its last byte.
proof fn lemma_marked_subrange(head: Seq<u8>, raw: Seq<u8>, o: int, t: Seq<u8>)
    requires
        head.len() == 7,
        0 <= o,
        t.len() >= 2,
        o + t.len() <= raw.len(),
        raw.subrange(o, o + t.len()) == t,
    ensures
        ({
            let pk = head + raw.update(raw.len() - 1, 0xFEu8).push(0u8);
            &&& 7 + o + t.len() - 1 <= pk.len()
            &&& pk.subrange(7 + o, 7 + o + t.len() - 1) == t.take(t.len() - 1)
        }),
{
    let pk = head + raw.update(raw.len() - 1, 0xFEu8).push(0u8);
    let got = pk.subrange(7 + o, 7 + o + t.len() - 1);
    let want = t.take(t.len() - 1);
    assert forall|j: int| 0 <= j < t.len() - 1 implies #[trigger] got[j] == want[j] by {
        assert(raw[o + j] == raw.subrange(o, o + t.len())[j]);
    }
    assert(got =~= want);
}

/// Every tile of a map view is in the map packet: the bytes of the tile at
/// column `x`, row `y` of the view stand in the packet as they are, all but
/// the last one (which, for the last tile of the view, is replaced by the end
/// marker 0xFE). So every object on every tile of the view is sent.
#[verifier::spinoff_prover]
pub proof fn lemma_view_shows_every_tile(
    map: &WorldMap,
    p: PlayerView,
    center: Position,
    width: u16,
    height: u16,
    x: int,
    y: int,
) -> (off: int)
    requires
        view_fits(center, width, height),
        0 <= x < width,
        0 <= y < height,
    ensures
        ({
            let t = tile_bytes(map, p, view_position(view_corner(center, width, height), x, y));
            let pk = map_packet(map, p, center, width, height);
            &&& 0 <= off
            &&& off + t.len() - 1 <= pk.len()
            &&& pk.subrange(off, off + t.len() - 1) == t.take(t.len() - 1)
        }),
{
    let corner = view_corner(center, width, height);
    let raw = view_bytes(map, p, corner, height as int, width as int);
    let t = tile_bytes(map, p, view_position(corner, x, y));
    let o = lemma_view_offset(map, p, corner, height as int, width as int, x, y);
    assert(t.len() >= 2);
    let head = packet_header(PacketOut::MapView) + position_bytes(center);
    assert(raw.len() >= 2);
    assert(map_data(map, p, center, width, height) == raw.update(raw.len() - 1, 0xFEu8).push(0u8));
    assert(map_packet(map, p, center, width, height) == head + map_data(map, p, center, width, height));
    lemma_marked_subrange(head, raw, o, t);
    7 + o
}

/// Every item on a tile of a map view is sent in the map packet: for a tile
/// whose stack is a ground and items, the packet holds, from some offset on,
/// the ground's id, the character's sprite and outfit when it stands there,
/// and then the id of every item, in stack order (ids little-endian).
pub proof fn lemma_view_shows_items(
    map: &WorldMap,
    p: PlayerView,
    center: Position,
    width: u16,
    height: u16,
    x: int,
    y: int,
    ground: u16,
    items: Seq<u16>,
) -> (off: int)
    requires
        view_fits(center, width, height),
        0 <= x < width,
        0 <= y < height,
        map.objects_at(view_position(view_corner(center, width, height), x, y)) == Some(
            seq![TileObject::Ground(ground)] + item_objects(items),
        ),
    ensures
        ({
            let pos = view_position(view_corner(center, width, height), x, y);
            let pk = map_packet(map, p, center, width, height);
            let c: int = if pos == p.position { 4 } else { 0 };
            &&& 0 <= off
            &&& off + 2 + c + 2 * items.len() <= pk.len()
            &&& pk[off] == (ground % 256) as u8
            &&& pk[off + 1] == (ground / 256) as u8
            &&& forall|k: int|
                #![trigger items[k]]
                0 <= k < items.len() ==> pk[off + 2 + c + 2 * k] == (items[k] % 256) as u8 && pk[off
                    + 2 + c + 2 * k + 1] == (items[k] / 256) as u8
        }),
{
    let pos = view_position(view_corner(center, width, height), x, y);
    let off = lemma_view_shows_every_tile(map, p, center, width, height, x, y);
    lemma_tile_lists_its_items(map, p, pos, ground, items);
    let t = tile_bytes(map, p, pos);
    let pk = map_packet(map, p, center, width, height);
    let c: int = if pos == p.position { 4 } else { 0 };
    assert(pk[off] == t.take(t.len() - 1)[0]);
    assert(pk[off + 1] == t.take(t.len() - 1)[1]);
    assert forall|k: int|
        #![trigger items[k]]
        0 <= k < items.len() implies pk[off + 2 + c + 2 * k] == (items[k] % 256) as u8 && pk[off + 2
            + c + 2 * k + 1] == (items[k] / 256) as u8 by {
        assert(pk[off + 2 + c + 2 * k] == t.take(t.len() - 1)[2 + c + 2 * k]);
        assert(pk[off + 2 + c + 2 * k + 1] == t.take(t.len() - 1)[2 + c + 2 * k + 1]);
    }
    off
}

/// Appending an object to a sequence appends the object's bytes.
proof fn lemma_objects_bytes_push(objs: Seq<TileObject>, o: TileObject)
    ensures
        objects_bytes(objs.push(o)) == objects_bytes(objs) + object_bytes(o),
{
    assert(objs.push(o).drop_last() =~= objs);
}

impl Connection {
    /// The login packet.
    pub fn send_login(&self) -> (r: Vec<u8>)
        ensures
            r@ == login_packet(),
    {
        let mut buf: Vec<u8> = Vec::new();
        buf.write_packet(PacketOut::Login);
        buf
    }

    /// The status text shown by the client (bottom-left corner).
    pub fn send_status_message(&self, message: &str) -> (r: Vec<u8>)
        ensures
            r@ == text_packet(PacketOut::StatusMessage, message@),
    {
        let mut buf: Vec<u8> = Vec::new();
        buf.write_packet(PacketOut::StatusMessage);
        buf.write_null_terminated_string(message);
        buf
    }

    /// The message of the day.
    pub fn send_message_of_the_day(&self, message: &str) -> (r: Vec<u8>)
        ensures
            r@ == text_packet(PacketOut::MessageOfTheDay, message@),
    {
        let mut buf: Vec<u8> = Vec::new();
        buf.write_packet(PacketOut::MessageOfTheDay);
        buf.write_null_terminated_string(message);
        buf
    }

    /// Tells the client which item is in an inventory slot.
    pub fn send_equipped_item(&self, slot: InventorySlot, item_id: u16) -> (r: Vec<u8>)
        ensures
            r@ == equipped_item_packet(slot, item_id),
    {
        let mut buf: Vec<u8> = Vec::new();
        buf.write_packet(PacketOut::EquippedItem);
        buf.write_u16_le(item_id);
        buf.write_u8(slot.primitive());
        buf
    }

    /// The character's editable data ("Info -> Change Data").
    pub fn send_data_window(&self) -> (r: Vec<u8>)
        requires
            self.wf(),
        ensures
            r@ == data_window_packet(self.spec_player()),
    {
        let mut buf: Vec<u8> = Vec::new();
        buf.write_packet(PacketOut::DataWindow);
        buf.write_fixed_string(self.player.name.as_str(), 30);
        buf.write_fixed_string(self.player.password.as_str(), 30);
        buf.write_gender(self.player.gender);
        buf.write_outfit_colors(self.player.outfit);
        buf.write_fixed_string(self.player.real_name.as_str(), 50);
        buf.write_fixed_string(self.player.location.as_str(), 50);
        buf.write_fixed_string(self.player.email.as_str(), 50);
        buf
    }

    /// The list of users online ("Info -> Userlist").
    pub fn send_user_list(&self) -> (r: Vec<u8>)
        ensures
            r@ == user_list_packet(self.spec_player()),
    {
        let mut buf: Vec<u8> = Vec::new();
        buf.write_packet(PacketOut::UserList);
        buf.write_u16_le(0x1010);
        buf.write_all(self.player.name.as_str().as_bytes());
        buf.write_u8(0x0A);
        buf.write_u8(0);
        buf
    }

    /// The information window about a character.
    pub fn send_user_info(&self, player: &Player) -> (r: Vec<u8>)
        ensures
            r@ == user_info_packet(player@),
    {
        let mut text = String::from_str("Name: ");
        text.append(player.name.as_str());
        text.append("\nReal name: ");
        text.append(player.real_name.as_str());
        text.append("\nLocation: ");
        text.append(player.location.as_str());
        text.append("\nEmail: ");
        text.append(player.email.as_str());
        text.append("\nSex: ");
        match player.gender {
            Gender::Male => text.append("Male"),
            Gender::Female => text.append("Female"),
        }
        let mut buf: Vec<u8> = Vec::new();
        buf.write_packet(PacketOut::UserInfo);
        buf.write_u16_le(0x1010);
        buf.write_null_terminated_string(text.as_str());
        buf
    }

    /// Opens a container window: always a bag pre-filled with five swords.
    pub fn send_open_container(&self) -> (r: Vec<u8>)
        ensures
            r@ == open_container_packet(),
    {
        let mut buf: Vec<u8> = Vec::new();
        buf.write_packet(PacketOut::OpenContainer);
        // Window id and the bag's item id.
        buf.write_u8(1);
        buf.write_u16_le(0x013D);
        let mut i: usize = 0;
        let ghost start = buf@;
        while i < 5
            invariant
                i <= 5,
                buf@ == start + Seq::new((2 * i) as nat, |k: int| if k % 2 == 0 { 0x5Au8 } else { 0u8 }),
            decreases 5 - i,
        {
            buf.write_u16_le(0x005A);
            assert(Seq::new((2 * (i + 1)) as nat, |k: int| if k % 2 == 0 { 0x5Au8 } else { 0u8 })
                =~= Seq::new((2 * i) as nat, |k: int| if k % 2 == 0 { 0x5Au8 } else { 0u8 })
                + u16_le(0x005A));
            i = i + 1;
        }
        buf.write_u16_le(0xFFFF);
        assert(buf@ =~= open_container_packet());
        buf
    }

    /// Closes a container window; `local_id` names the window.
    pub fn send_close_container(&self, local_id: u8) -> (r: Vec<u8>)
        ensures
            r@ == close_container_packet(local_id),
    {
        let mut buf: Vec<u8> = Vec::new();
        buf.write_packet(PacketOut::CloseContainer);
        buf.write_u8(local_id);
        buf
    }

    /// A chat message. Shouted text is upper-cased; the bubble is drawn in the
    /// middle of the screen.
    pub fn send_chat(&self, chat_type: ChatType, msg: &str, sender: Option<&Player>) -> (r: Vec<u8>)
        ensures
            r@ == chat_packet(
                chat_type,
                msg@,
                match sender {
                    Some(p) => Some(p.name@),
                    None => None,
                },
            ),
    {
        let encoded = match chat_type {
            ChatType::Yell => {
                let upper = to_uppercase(msg);
                translate_upper(upper.as_str())
            },
            _ => translate(msg),
        };
        let mut buf: Vec<u8> = Vec::new();
        buf.write_packet(PacketOut::Chat);
        buf.write_packet(PacketOut::Chat);
        let grid_x: u8 = 6;
        let grid_y: u8 = 8;
        buf.write_u8(grid_y);
        buf.write_u8(grid_x);
        buf.write_u8(chat_type.primitive());
        match sender {
            Some(player) => {
                buf.write_all(player.name.as_str().as_bytes());
                // Tab separator.
                buf.write_u8(0x09);
            },
            None => {},
        }
        buf.write_all(encoded.as_slice());
        buf.write_u8(0);
        buf
    }

    /// The character drawn on the map; the sprite depends on the direction it faces.
    fn build_player_creature(&self) -> (r: Vec<u8>)
        requires
            self.wf(),
        ensures
            r@ == player_creature_bytes(self.spec_player()),
    {
        let sprite: u8 = match self.player.direction {
            Direction::North => 0xFA,
            Direction::East => 0xFB,
            Direction::South => 0xFC,
            Direction::West => 0xFD,
        };
        let mut buf: Vec<u8> = Vec::new();
        buf.write_u8(sprite);
        buf.write_outfit_colors(self.player.outfit);
        buf
    }

    /// Another creature drawn on the map: the character marker and its outfit;
    /// its id and name are not sent.
    fn build_creature(&self, _id: u32, _name: &str, outfit: OutfitColors) -> (r: Vec<u8>)
        requires
            outfit.is_packable(),
        ensures
            r@ == creature_bytes(outfit),
    {
        let mut buf: Vec<u8> = Vec::new();
        buf.write_u8((PacketOutAux::Character.primitive() % 256) as u8);
        buf.write_outfit_colors(outfit);
        buf
    }

    /// One tile of the map view: the ground (when the tile's first object is a
    /// ground), the character when it stands there, the remaining objects, and
    /// two 0xFF terminator bytes.
    fn build_tile(&self, map: &WorldMap, pos: Position) -> (r: Vec<u8>)
        requires
            self.wf(),
        ensures
            r@ == tile_bytes(map, self.spec_player(), pos),
    {
        let ghost p = self.spec_player();
        let ghost me = if pos == p.position {
            player_creature_bytes(p)
        } else {
            Seq::<u8>::empty()
        };
        let mut buf: Vec<u8> = Vec::new();
        match map.get_tile_objects(pos) {
            Some(objects) => {
                let ghost objs = objects@;
                if objects.len() > 0 {
                    match &objects[0] {
                        TileObject::Ground(id) => buf.write_u16_le(*id),
                        _ => {},
                    }
                }
                assert(buf@ == ground_bytes(objs));
                if pos == self.player.position {
                    let c = self.build_player_creature();
                    buf.write_all(c.as_slice());
                }
                assert(buf@ == ground_bytes(objs) + me);
                let ghost base = buf@;
                let mut i: usize = 1;
                assert(upper_objects(objs).take(0) =~= Seq::<TileObject>::empty());
                while i < objects.len()
                    invariant
                        objs == objects@,
                        1 <= i,
                        objs.len() == 0 ==> i == 1,
                        objs.len() > 0 ==> i <= objs.len(),
                        forall|k: int|
                            0 <= k < objs.len() ==> match #[trigger] objs[k] {
                                TileObject::Creature(_, _, outfit) => outfit.is_packable(),
                                _ => true,
                            },
                        buf@ == base + objects_bytes(upper_objects(objs).take(i - 1)),
                    decreases objects.len() - i,
                {
                    let ghost before = buf@;
                    match &objects[i] {
                        TileObject::Ground(id) => buf.write_u16_le(*id),
                        TileObject::Item(id) => buf.write_u16_le(*id),
                        TileObject::Creature(id, name, outfit) => {
                            let c = self.build_creature(*id, name.as_str(), *outfit);
                            buf.write_all(c.as_slice());
                        },
                    }
                    proof {
                        assert(upper_objects(objs).take(i as int) =~= upper_objects(objs).take(
                            i - 1,
                        ).push(objs[i as int]));
                        lemma_objects_bytes_push(upper_objects(objs).take(i - 1), objs[i as int]);
                    }
                    i = i + 1;
                }
                assert(upper_objects(objs).take(upper_objects(objs).len() as int) =~= upper_objects(
                    objs,
                ));
                assert(objs.len() == 0 ==> upper_objects(objs).take(i - 1) =~= upper_objects(objs));
            },
            None => {
                if pos == self.player.position {
                    let c = self.build_player_creature();
                    buf.write_all(c.as_slice());
                }
            },
        }
        buf.write_u8(0xFF);
        buf.write_u8(0xFF);
        assert(buf@ =~= tile_bytes(map, p, pos));
        buf
    }

    /// The map data of a `width` by `height` view around `center`: the tiles
    /// column by column, then the last byte replaced by 0xFE and a zero byte
    /// appended.
    fn build_map_data(&self, map: &WorldMap, center: Position, width: u16, height: u16) -> (r: Vec<
        u8,
    >)
        requires
            self.wf(),
            view_fits(center, width, height),
        ensures
            r@ == map_data(map, self.spec_player(), center, width, height),
    {
        let ghost p = self.spec_player();
        let half_w = (width - 1) / 2;
        let half_h = (height - 1) / 2;
        let corner = Position::new(
            if center.x >= half_w {
                center.x - half_w
            } else {
                0
            },
            if center.y >= half_h {
                center.y - half_h
            } else {
                0
            },
            center.z,
        );
        assert(corner == view_corner(center, width, height));
        let mut buf: Vec<u8> = Vec::new();
        let mut x: u16 = 0;
        while x < width
            invariant
                x <= width,
                self.wf(),
                p == self.spec_player(),
                corner == view_corner(center, width, height),
                view_fits(center, width, height),
                buf@ == view_bytes(map, p, corner, height as int, x as int),
            decreases width - x,
        {
            let mut y: u16 = 0;
            let ghost start = buf@;
            while y < height
                invariant
                    x < width,
                    y <= height,
                    self.wf(),
                    p == self.spec_player(),
                    corner == view_corner(center, width, height),
                    view_fits(center, width, height),
                    start == view_bytes(map, p, corner, height as int, x as int),
                    buf@ == start + column_bytes(map, p, corner, x as int, y as int),
                decreases height - y,
            {
                let pos = Position::new(corner.x + x, corner.y + y, corner.z);
                let t = self.build_tile(map, pos);
                buf.write_all(t.as_slice());
                assert(column_bytes(map, p, corner, x as int, y + 1) == column_bytes(
                    map,
                    p,
                    corner,
                    x as int,
                    y as int,
                ) + tile_bytes(map, p, pos));
                y = y + 1;
            }
            assert(view_bytes(map, p, corner, height as int, x + 1) == view_bytes(
                map,
                p,
                corner,
                height as int,
                x as int,
            ) + column_bytes(map, p, corner, x as int, height as int));
            x = x + 1;
        }
        let n = buf.len();
        if n > 0 {
            buf.set(n - 1, 0xFE);
        }
        buf.push(0);
        buf
    }

    /// The map view around `center`, `width` columns by `height` rows.
    pub fn send_map(&self, map: &WorldMap, center: Position, width: u16, height: u16) -> (r: Vec<u8>)
        requires
            self.wf(),
            view_fits(center, width, height),
        ensures
            r@ == map_packet(map, self.spec_player(), center, width, height),
    {
        let mut buf: Vec<u8> = Vec::new();
        buf.write_packet(PacketOut::MapView);
        buf.write_position(center);
        let data = self.build_map_data(map, center, width, height);
        buf.write_all(data.as_slice());
        buf
    }
}

} // verus!
