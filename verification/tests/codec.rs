use tibia_server::chat::encoding::{translate, translate_upper};
use tibia_server::chat::ChatType;
use tibia_server::constants::ObjectUpdateType;
use tibia_server::io::{PacketReader, ReadError, ReadExt, WriteExt};
use tibia_server::map::position::{Position, PositionQualifier};
use tibia_server::network::packet::{PacketIn, PacketOut, PacketOutAux};
use tibia_server::player::{Direction, Gender, InventorySlot, OutfitColors};

#[test]
fn translate_maps_umlauts_and_keeps_ascii() {
    assert_eq!(translate("Hällo"), vec![0x48, 0xE4, 0x6C, 0x6C, 0x6F]);
    assert_eq!(translate("ÄÅÆÖØÜßäåæöøü"), vec![0xC4, 0xC5, 0xC6, 0xD6, 0xD8, 0xDC, 0xDF, 0xE4, 0xE5, 0xE6, 0xF6, 0xF8, 0xFC]);
    // Other characters keep the low byte of their code point.
    assert_eq!(translate("\u{0141}"), vec![0x41]);
    assert_eq!(translate(""), Vec::<u8>::new());
}

#[test]
fn translate_upper_maps_both_cases_to_upper_codes() {
    assert_eq!(translate_upper("äÄåÅöÖüÜßæÆøØ"), vec![0xC4, 0xC4, 0xC5, 0xC5, 0xD6, 0xD6, 0xDC, 0xDC, 0xDF, 0xE6, 0xE6, 0xF8, 0xF8]);
    assert_eq!(translate_upper("HI"), vec![0x48, 0x49]);
}

#[test]
fn translation_has_one_byte_per_character() {
    let s = "Grüße aus Køge";
    assert_eq!(translate(s).len(), s.chars().count());
    assert_eq!(translate_upper(s).len(), s.chars().count());
}

#[test]
fn chat_type_from_qualifier() {
    assert_eq!(ChatType::from(Some('w')), ChatType::Whisper);
    assert_eq!(ChatType::from(Some('W')), ChatType::Whisper);
    assert_eq!(ChatType::from(Some('y')), ChatType::Yell);
    assert_eq!(ChatType::from(Some('Y')), ChatType::Yell);
    assert_eq!(ChatType::from(Some('b')), ChatType::Broadcast);
    assert_eq!(ChatType::from(Some('B')), ChatType::Broadcast);
    assert_eq!(ChatType::from(Some('x')), ChatType::Normal);
    assert_eq!(ChatType::from(None), ChatType::Normal);
}

#[test]
fn chat_type_codes() {
    assert_eq!(ChatType::Broadcast.primitive(), 0x41);
    assert_eq!(ChatType::Look.primitive(), 0x4D);
    assert_eq!(ChatType::Normal.primitive(), 0x53);
    assert_eq!(ChatType::Whisper.primitive(), 0x57);
    assert_eq!(ChatType::Yell.primitive(), 0x59);
    assert_eq!(ChatType::try_from_primitive(0x59), Some(ChatType::Yell));
    assert_eq!(ChatType::try_from_primitive(0x42), None);
}

#[test]
fn packet_codes_round_trip() {
    let all_in = [
        PacketIn::UserList, PacketIn::PlayerInfo, PacketIn::Walk, PacketIn::AutoWalk, PacketIn::LookAt,
        PacketIn::Chat, PacketIn::ChangeDirection, PacketIn::Comment, PacketIn::Push, PacketIn::UseItem,
        PacketIn::CloseContainer, PacketIn::RequestChangeData, PacketIn::SetData, PacketIn::Echo, PacketIn::Logout,
    ];
    for p in all_in {
        assert_eq!(PacketIn::try_from_primitive(p.primitive()), Some(p));
    }
    assert_eq!(PacketIn::try_from_primitive(0x0005), Some(PacketIn::Walk));
    assert_eq!(PacketIn::try_from_primitive(0x0002), None);
    assert_eq!(PacketOut::try_from_primitive(0x000A), Some(PacketOut::MapView));
    assert_eq!(PacketOut::Echo.primitive(), 0x00C8);
    assert_eq!(PacketOut::try_from_primitive(0x0006), None);
    assert_eq!(PacketOutAux::Character.primitive(), 0x00FB);
    assert_eq!(PacketOutAux::ChangeDirection.primitive(), 0x00FA);
}

#[test]
fn move_packet_from_direction() {
    assert_eq!(PacketOut::from(Direction::North), PacketOut::MoveNorth);
    assert_eq!(PacketOut::from(Direction::East), PacketOut::MoveEast);
    assert_eq!(PacketOut::from(Direction::South), PacketOut::MoveSouth);
    assert_eq!(PacketOut::from(Direction::West), PacketOut::MoveWest);
}

#[test]
fn direction_and_slot_codes_round_trip() {
    for d in [Direction::North, Direction::East, Direction::South, Direction::West] {
        assert_eq!(Direction::try_from_primitive(d.primitive()), Some(d));
    }
    assert_eq!(Direction::try_from_primitive(4), None);
    assert_eq!(Direction::default(), Direction::South);
    for v in 1u8..=8 {
        assert_eq!(InventorySlot::try_from_primitive(v).unwrap().primitive(), v);
    }
    assert_eq!(InventorySlot::try_from_primitive(0), None);
    assert_eq!(InventorySlot::try_from_primitive(9), None);
    assert_eq!(ObjectUpdateType::try_from_primitive(2), Some(ObjectUpdateType::Update));
    assert_eq!(ObjectUpdateType::try_from_primitive(3), None);
    assert_eq!(ObjectUpdateType::Add.primitive(), 1);
}

#[test]
fn position_steps_and_wraps() {
    let p = Position::new(50, 100, 7);
    assert_eq!(p.add_direction(Direction::North), Position::new(50, 99, 7));
    assert_eq!(p.add_direction(Direction::East), Position::new(51, 100, 7));
    assert_eq!(p.add_direction(Direction::South), Position::new(50, 101, 7));
    assert_eq!(p.add_direction(Direction::West), Position::new(49, 100, 7));
    assert_eq!(Position::new(0, 0, 7).add_direction(Direction::North), Position::new(0, 65535, 7));
    assert_eq!(p.add_offset((-5, 3, -1)), Position::new(45, 103, 6));
    assert_eq!(p.sub_offset((-5, 3, -1)), Position::new(55, 97, 8));
    assert!(!Position::new(32767, 0, 7).can_add_offset((1, 0, 0)));
    assert!(Position::new(32766, 0, 7).can_add_offset((1, 0, 0)));
    assert!(!Position::new(32768, 0, 7).can_sub_offset((1, 0, 0)));
}

#[test]
fn stepping_back_returns_to_the_start() {
    let p = Position::new(50, 100, 7);
    let there = p.add_direction(Direction::East);
    assert_eq!(there.add_direction(Direction::West), p);
    assert_eq!(p.add_offset((7, -9, 2)).sub_offset((7, -9, 2)), p);
}

#[test]
fn position_qualifier() {
    assert_eq!(Position::new(0xFF, 3, 7).get_qualifier(), Ok(PositionQualifier::Inventory(InventorySlot::Bag)));
    assert_eq!(Position::new(0xFF, 8, 7).get_qualifier(), Ok(PositionQualifier::Inventory(InventorySlot::Boots)));
    assert_eq!(Position::new(0xFF, 0, 7).get_qualifier(), Ok(PositionQualifier::Unqualified));
    assert_eq!(Position::new(0xFF, 9, 7).get_qualifier(), Ok(PositionQualifier::Unqualified));
    assert_eq!(Position::new(10, 3, 7).get_qualifier(), Ok(PositionQualifier::Unqualified));
}

#[test]
fn position_text() {
    assert_eq!(Position::new(50, 100, 7).to_string(), "(50,100,7)");
    assert_eq!(Position::new(0, 65535, 255).to_string(), "(0,65535,255)");
}

#[test]
fn outfit_defaults_and_packing() {
    assert_eq!(OutfitColors::default(), OutfitColors::new(0, 0, 0, 0));
    assert!(OutfitColors::new(15, 15, 15, 15).is_packable());
    assert!(!OutfitColors::new(0, 0, 15, 16).is_packable());
}

#[test]
fn writer_fields() {
    let mut buf: Vec<u8> = Vec::new();
    buf.write_packet(PacketOut::Login);
    assert_eq!(buf, vec![0, 0, 0, 0, 1]);

    let mut buf: Vec<u8> = Vec::new();
    buf.write_u4(3, 4);
    buf.write_u16_le(0x1234);
    buf.write_u32_le(0x0A0B0C0D);
    assert_eq!(buf, vec![0x34, 0x34, 0x12, 0x0D, 0x0C, 0x0B, 0x0A]);

    let mut buf: Vec<u8> = Vec::new();
    buf.write_fixed_string("abc", 5);
    buf.write_fixed_string("abcdef", 3);
    buf.write_null_terminated_string("hi");
    buf.write_zeroes(2);
    assert_eq!(buf, b"abc\0\0abchi\0\0\0".to_vec());

    let mut buf: Vec<u8> = Vec::new();
    buf.write_position(Position::new(300, 2, 7));
    buf.write_outfit_colors(OutfitColors::new(3, 4, 1, 2));
    buf.write_gender(Gender::Male);
    buf.write_gender(Gender::Female);
    assert_eq!(buf, vec![44, 2, 0x12, 0x34, 0, 1, 0]);

    // A non-ASCII character is written as its UTF-8 bytes.
    let mut buf: Vec<u8> = Vec::new();
    buf.write_fixed_string("ä", 3);
    assert_eq!(buf, vec![0xC3, 0xA4, 0]);
}

#[test]
fn reader_fields() {
    let data = [0x34u8, 0x10, 0x00, 0x07, 0x08, 0x12, 0x34, 0x00, 0x01, 0x02];
    let mut r = PacketReader::new(&data);
    assert_eq!(r.read_u4(), Ok((3, 4)));
    assert_eq!(r.read_u16_le(), Ok(0x0010));
    assert_eq!(r.read_position(), Ok(Position::new(7, 8, 7)));
    assert_eq!(r.read_outfit_colors(), Ok(OutfitColors::new(3, 4, 1, 2)));
    assert_eq!(r.read_gender(), Ok(Gender::Male));
    assert_eq!(r.read_gender(), Ok(Gender::Female));
    assert_eq!(r.read_u8(), Err(ReadError::UnexpectedEof));
    assert_eq!(r.skip(1), Err(ReadError::UnexpectedEof));
}

#[test]
fn read_string_consumes_the_whole_field() {
    let data = b"ab\0xyQ\xE4\0";
    let mut r = PacketReader::new(data);
    let mut s = String::new();
    assert_eq!(r.read_string(&mut s, 5), Ok(2));
    assert_eq!(s, "ab");
    assert_eq!(r.read_u8(), Ok(b'Q'));
    // Bytes are read as single-byte characters.
    let mut t = String::new();
    assert_eq!(r.read_string(&mut t, 2), Ok(2));
    assert_eq!(t, "ä");
    // Too few bytes for the field: nothing is read.
    let mut r = PacketReader::new(b"abc");
    let mut u = String::new();
    assert_eq!(r.read_string(&mut u, 4), Err(ReadError::UnexpectedEof));
    assert_eq!(u, "");
    assert_eq!(r.read_u8(), Ok(b'a'));
}

#[test]
fn read_string_to_end_stops_at_zero_or_end() {
    let mut r = PacketReader::new(b"hey\0you");
    let mut s = String::new();
    assert_eq!(r.read_string_to_end(&mut s), Ok(()));
    assert_eq!(s, "hey");
    let mut t = String::new();
    assert_eq!(r.read_string_to_end(&mut t), Ok(()));
    assert_eq!(t, "you");
    assert_eq!(r.read_u8(), Err(ReadError::UnexpectedEof));
}

#[test]
fn fixed_string_round_trip() {
    let mut buf: Vec<u8> = Vec::new();
    buf.write_fixed_string("Bob", 30);
    assert_eq!(buf.len(), 30);
    let mut r = PacketReader::new(&buf);
    let mut s = String::new();
    r.read_string(&mut s, 30).unwrap();
    assert_eq!(s, "Bob");
}

#[test]
fn fixed_string_is_cut_to_the_field() {
    let mut buf: Vec<u8> = Vec::new();
    buf.write_fixed_string("Roberto", 4);
    assert_eq!(buf, b"Robe".to_vec());
    let mut r = PacketReader::new(&buf);
    let mut s = String::new();
    assert_eq!(r.read_string(&mut s, 4), Ok(4));
    assert_eq!(s, "Robe");
    assert_eq!(r.read_u8(), Err(ReadError::UnexpectedEof));
}

#[test]
fn nibble_and_outfit_round_trip() {
    for high in 0u8..16 {
        for low in 0u8..16 {
            let mut buf: Vec<u8> = Vec::new();
            buf.write_u4(high, low);
            let mut r = PacketReader::new(&buf);
            assert_eq!(r.read_u4(), Ok((high, low)));
        }
    }
    let o = OutfitColors::new(9, 10, 11, 12);
    let mut buf: Vec<u8> = Vec::new();
    buf.write_outfit_colors(o);
    let mut r = PacketReader::new(&buf);
    assert_eq!(r.read_outfit_colors(), Ok(o));
    let mut buf: Vec<u8> = Vec::new();
    buf.write_u16_le(0xBEEF);
    assert_eq!(PacketReader::new(&buf).read_u16_le(), Ok(0xBEEF));
}

#[test]
fn read_bytes_takes_a_slice() {
    let mut r = PacketReader::new(b"abcd");
    assert_eq!(r.read_bytes(3), Ok(&b"abc"[..]));
    assert_eq!(r.read_bytes(2), Err(ReadError::UnexpectedEof));
    assert_eq!(r.read_bytes(1), Ok(&b"d"[..]));
}
