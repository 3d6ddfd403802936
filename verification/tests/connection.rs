use tibia_server::chat::ChatType;
use tibia_server::config::{is_debug, Config, Server, World};
use tibia_server::dat::{read_u16, scan_objects, ObjectRecord};
use tibia_server::io::ReadError;
use tibia_server::map::position::Position;
use tibia_server::map::{init, MapFile, WorldMap};
use tibia_server::network::connection::login::{login_existing, login_kind, login_new, LoginKind};
use tibia_server::network::connection::receive::{ClientEvent, PacketError, RunError, Step};
use tibia_server::network::connection::{can_view, Connection, FlushError};
use tibia_server::player::{Direction, Gender, InventorySlot, OutfitColors, Player};
use tibia_server::world::message::PlayerToWorld;
use tibia_server::world::Registry;

fn water_map() -> WorldMap {
    init(MapFile { tiles: vec![] })
}

fn bob() -> Connection {
    Connection::new(Player::new(256, "Bob", Position::new(50, 100, 7)))
}

/// The frames of a flush, split back into packets.
fn unframe(bytes: &[u8]) -> Vec<Vec<u8>> {
    let mut out = Vec::new();
    let mut i = 0;
    while i < bytes.len() {
        let len = bytes[i] as usize + 256 * bytes[i + 1] as usize - 2;
        out.push(bytes[i + 2..i + 2 + len].to_vec());
        i += 2 + len;
    }
    out
}

fn sent(conn: &mut Connection) -> Vec<Vec<u8>> {
    unframe(&conn.flush().unwrap())
}

fn chat_packet(text: &[u8]) -> Vec<u8> {
    let mut buf = vec![0x09, 0x00, text.len() as u8, (text.len() >> 8) as u8];
    buf.extend_from_slice(text);
    buf
}

#[test]
fn new_player_defaults() {
    let p = Player::new(300, "Ann", Position::new(1, 2, 7));
    assert_eq!(p.id, 300);
    assert_eq!(p.name, "Ann");
    assert_eq!(p.password, "");
    assert_eq!(p.gender, Gender::Male);
    assert_eq!(p.direction, Direction::South);
    assert_eq!(p.outfit, OutfitColors::new(0, 0, 0, 0));
    assert_eq!(p.position, Position::new(1, 2, 7));
}

#[test]
fn simple_packets() {
    let c = bob();
    assert_eq!(c.send_login(), vec![0, 0, 0, 0, 0x01]);
    assert_eq!(c.send_status_message("ok"), vec![0, 0, 0, 0, 0x68, b'o', b'k', 0]);
    assert_eq!(c.send_message_of_the_day("hi"), vec![0, 0, 0, 0, 0x05, b'h', b'i', 0]);
    assert_eq!(c.send_equipped_item(InventorySlot::Bag, 0x013D), vec![0, 0, 0, 0, 0x14, 0x3D, 0x01, 3]);
    assert_eq!(c.send_close_container(4), vec![0, 0, 0, 0, 0x12, 4]);
    assert_eq!(
        c.send_open_container(),
        vec![0, 0, 0, 0, 0x13, 1, 0x3D, 0x01, 0x5A, 0, 0x5A, 0, 0x5A, 0, 0x5A, 0, 0x5A, 0, 0xFF, 0xFF]
    );
    assert_eq!(c.send_user_list(), vec![0, 0, 0, 0, 0x66, 0x10, 0x10, b'B', b'o', b'b', b'\n', 0]);
}

#[test]
fn user_info_text() {
    let c = bob();
    let mut p = Player::new(1, "Eve", Position::new(0, 0, 7));
    p.real_name = "Eva".to_string();
    p.location = "Here".to_string();
    p.email = "e@x".to_string();
    p.gender = Gender::Female;
    let mut expected = vec![0, 0, 0, 0, 0x67, 0x10, 0x10];
    expected.extend_from_slice(b"Name: Eve\nReal name: Eva\nLocation: Here\nEmail: e@x\nSex: Female\0");
    assert_eq!(c.send_user_info(&p), expected);
}

#[test]
fn data_window_fields() {
    let c = bob();
    let w = c.send_data_window();
    assert_eq!(w.len(), 5 + 30 + 30 + 1 + 3 + 150);
    assert_eq!(&w[..8], &[0, 0, 0, 0, 3, b'B', b'o', b'b']);
    assert_eq!(w[65], 1);
    assert_eq!(&w[66..69], &[0, 0, 0]);
}

#[test]
fn chat_packets() {
    let c = bob();
    let p = c.player().clone();
    let mut expected = vec![0, 0, 0, 0, 0x65, 0, 0, 0, 0, 0x65, 8, 6, 0x53];
    expected.extend_from_slice(b"Bob\thi\0");
    assert_eq!(c.send_chat(ChatType::Normal, "hi", Some(&p)), expected);
    assert_eq!(
        c.send_chat(ChatType::Whisper, "ä", None),
        vec![0, 0, 0, 0, 0x65, 0, 0, 0, 0, 0x65, 8, 6, 0x57, 0xE4, 0]
    );
    // Shouted text is upper-cased.
    assert_eq!(
        c.send_chat(ChatType::Yell, "hey ä", None),
        vec![0, 0, 0, 0, 0x65, 0, 0, 0, 0, 0x65, 8, 6, 0x59, b'H', b'E', b'Y', b' ', 0xC4, 0]
    );
}

#[test]
fn map_view_around_the_character() {
    let map = water_map();
    let c = bob();
    let m = c.send_map(&map, Position::new(50, 100, 7), 18, 14);
    assert_eq!(m.len(), 5 + 2 + 251 * 4 + 8 + 1);
    assert_eq!(&m[..7], &[0, 0, 0, 0, 0x0A, 50, 100]);
    assert_eq!(&m[7..11], &[0x0E, 0x00, 0xFF, 0xFF]);
    assert_eq!(&m[m.len() - 2..], &[0xFE, 0x00]);
    // The character stands in column 8, row 6 of the view.
    let at = 7 + (8 * 14 + 6) * 4;
    assert_eq!(&m[at..at + 8], &[0x0E, 0x00, 0xFC, 0, 0, 0, 0xFF, 0xFF]);
    assert!(can_view(Position::new(50, 100, 7), 18, 14));
    assert!(!can_view(Position::new(50, 65535, 7), 18, 14));
    assert!(!can_view(Position::new(50, 100, 7), 0, 14));
}

#[test]
fn enqueue_and_flush_frame_packets() {
    let mut c = bob();
    assert_eq!(c.flush(), Ok(vec![]));
    c.enqueue(vec![]);
    c.enqueue(vec![1, 2, 3]);
    c.enqueue(vec![9]);
    assert_eq!(c.flush(), Ok(vec![5, 0, 1, 2, 3, 3, 0, 9]));
    assert_eq!(c.flush(), Ok(vec![]));
}

#[test]
fn flush_refuses_packets_too_long_for_the_prefix() {
    let mut c = bob();
    c.enqueue(vec![0u8; 65534]);
    assert_eq!(c.flush(), Err(FlushError::PacketTooLong));
    assert_eq!(c.flush(), Ok(vec![]));
    c.enqueue(vec![0u8; 65533]);
    assert_eq!(c.flush().unwrap().len(), 65535);
}

#[test]
fn login_sequence() {
    let map = water_map();
    let mut c = bob();
    c.send_login_sequence(&map, "status", "motd");
    let packets = sent(&mut c);
    assert_eq!(packets.len(), 7);
    assert_eq!(packets[0], vec![0, 0, 0, 0, 1]);
    assert_eq!(packets[1], vec![0, 0, 0, 0, 0x14, 0x3D, 0x01, 3]);
    assert_eq!(packets[2], vec![0, 0, 0, 0, 0x14, 0x5A, 0x00, 5]);
    assert_eq!(packets[3], vec![0, 0, 0, 0, 0x14, 0x86, 0x00, 6]);
    assert_eq!(&packets[4][..7], &[0, 0, 0, 0, 0x0A, 50, 100]);
    assert_eq!(packets[5], b"\0\0\0\0\x68status\0".to_vec());
    assert_eq!(packets[6], b"\0\0\0\0\x05motd\0".to_vec());
}

#[test]
fn walking() {
    let map = water_map();
    let mut c = bob();
    assert_eq!(c.handle_packet(&map, &[0x05, 0x00, 0x00]), Ok(()));
    assert_eq!(c.player().position, Position::new(50, 99, 7));
    assert_eq!(c.player().direction, Direction::North);
    let packets = sent(&mut c);
    assert_eq!(packets.len(), 1);
    assert_eq!(&packets[0][..7], &[0, 0, 0, 0, 0x0A, 50, 99]);
    // Facing north now.
    let at = 7 + (8 * 14 + 6) * 4;
    assert_eq!(packets[0][at + 2], 0xFA);
}

#[test]
fn walking_there_and_back() {
    let map = water_map();
    let mut c = bob();
    c.handle_packet(&map, &[0x05, 0x00, 0x01]).unwrap();
    assert_eq!(c.player().position, Position::new(51, 100, 7));
    c.handle_packet(&map, &[0x05, 0x00, 0x03]).unwrap();
    assert_eq!(c.player().position, Position::new(50, 100, 7));
    assert_eq!(c.player().direction, Direction::West);
}

#[test]
fn walking_errors_leave_the_connection_unchanged() {
    let map = water_map();
    let mut c = bob();
    assert_eq!(c.handle_packet(&map, &[0x05, 0x00, 0x07]), Err(PacketError::InvalidDirection(7)));
    assert_eq!(c.handle_packet(&map, &[0x05, 0x00]), Err(PacketError::Read(ReadError::UnexpectedEof)));
    assert_eq!(c.player().position, Position::new(50, 100, 7));
    assert_eq!(c.flush(), Ok(vec![]));

    let mut top = Connection::new(Player::new(1, "Top", Position::new(50, 0, 7)));
    assert_eq!(top.handle_packet(&map, &[0x05, 0x00, 0x00]), Err(PacketError::ViewOutOfRange));
    assert_eq!(top.player().position, Position::new(50, 0, 7));

    let mut edge = Connection::new(Player::new(2, "Edge", Position::new(32767, 100, 7)));
    assert_eq!(edge.handle_packet(&map, &[0x05, 0x00, 0x01]), Err(PacketError::PositionOverflow));
}

#[test]
fn client_loop_turns() {
    let map = water_map();
    let mut c = bob();
    // Nothing queued, nothing arrived: nothing to send.
    assert!(matches!(c.on_event(&map, ClientEvent::Idle), Ok(Step::Continue(ref b)) if b.is_empty()));
    // A close-container request is answered in the same turn.
    match c.on_event(&map, ClientEvent::Packet(&[0x1F, 0x00, 4])) {
        Ok(Step::Continue(bytes)) => assert_eq!(bytes, vec![8, 0, 0, 0, 0, 0, 0x12, 4]),
        other => panic!("unexpected turn: {:?}", other),
    }
    // Queued packets go out on an idle turn.
    c.enqueue(vec![1, 2]);
    match c.on_event(&map, ClientEvent::Idle) {
        Ok(Step::Continue(bytes)) => assert_eq!(bytes, vec![4, 0, 1, 2]),
        other => panic!("unexpected turn: {:?}", other),
    }
    // A bad packet ends the loop and leaves the player where it was.
    assert!(matches!(
        c.on_event(&map, ClientEvent::Packet(&[0x05, 0x00, 0x09])),
        Err(RunError::Packet(PacketError::InvalidDirection(9)))
    ));
    assert_eq!(c.player().position, Position::new(50, 100, 7));
    assert!(matches!(c.on_event(&map, ClientEvent::Disconnected), Ok(Step::LoggedOut)));
    assert!(matches!(c.on_event(&map, ClientEvent::Failed), Err(RunError::Socket)));
    // An oversized packet cannot be framed.
    c.enqueue(vec![0; 65534]);
    assert!(matches!(c.on_event(&map, ClientEvent::Idle), Err(RunError::Flush(FlushError::PacketTooLong))));
}

#[test]
fn flushing_in_parts_sends_the_same_bytes() {
    let mut once = bob();
    once.enqueue(vec![1]);
    once.enqueue(vec![]);
    once.enqueue(vec![2, 3]);
    let all = once.flush().unwrap();
    assert_eq!(all, vec![3, 0, 1, 4, 0, 2, 3]);
    let mut parts = bob();
    parts.enqueue(vec![1]);
    let mut bytes = parts.flush().unwrap();
    parts.enqueue(vec![2, 3]);
    bytes.extend(parts.flush().unwrap());
    assert_eq!(bytes, all);
    // The length prefix gives the packet length plus two.
    assert_eq!(u16::from_le_bytes([all[3], all[4]]) as usize, 2 + 2);
}

#[test]
fn empty_and_unknown_packets() {
    let map = water_map();
    let mut c = bob();
    assert_eq!(c.handle_packet(&map, &[]), Err(PacketError::Read(ReadError::UnexpectedEof)));
    assert_eq!(c.handle_packet(&map, &[0x02, 0x00, 0x01]), Ok(()));
    assert_eq!(c.handle_packet(&map, &[0xC8, 0x00]), Ok(()));
    assert_eq!(c.handle_packet(&map, &[0xFF, 0x00]), Ok(()));
    assert_eq!(c.handle_packet(&map, &[0x0A, 0x00]), Ok(()));
    assert_eq!(c.flush(), Ok(vec![]));
}

#[test]
fn chat_requests() {
    let map = water_map();
    let mut c = bob();
    c.handle_packet(&map, &chat_packet(b"hello")).unwrap();
    c.handle_packet(&map, &chat_packet(b"#y hello")).unwrap();
    c.handle_packet(&map, &chat_packet(b"#wx")).unwrap();
    let packets = sent(&mut c);
    let mut normal = vec![0, 0, 0, 0, 0x65, 0, 0, 0, 0, 0x65, 8, 6, 0x53];
    normal.extend_from_slice(b"Bob\thello\0");
    let mut yell = vec![0, 0, 0, 0, 0x65, 0, 0, 0, 0, 0x65, 8, 6, 0x59];
    yell.extend_from_slice(b"Bob\tHELLO\0");
    let mut whisper = vec![0, 0, 0, 0, 0x65, 0, 0, 0, 0, 0x65, 8, 6, 0x57];
    whisper.extend_from_slice(b"Bob\t\0");
    assert_eq!(packets, vec![normal, yell, whisper]);
}

#[test]
fn malformed_and_invalid_chat() {
    let map = water_map();
    let mut c = bob();
    assert_eq!(c.handle_packet(&map, &chat_packet(b"#w")), Err(PacketError::MalformedChat));
    assert_eq!(c.handle_packet(&map, &chat_packet("#wä".as_bytes())), Err(PacketError::MalformedChat));
    assert_eq!(c.handle_packet(&map, &[0x09, 0x00, 0x05, 0x00, b'a']), Err(PacketError::Read(ReadError::UnexpectedEof)));
    assert_eq!(c.flush(), Ok(vec![]));
    // Text that is not UTF-8, as the client writes umlauts: one character per byte.
    assert_eq!(c.handle_packet(&map, &chat_packet(&[0x23, 0xE4])), Err(PacketError::MalformedChat));
    assert_eq!(c.handle_packet(&map, &chat_packet(&[0x48, 0xE4])), Ok(()));
    assert_eq!(c.handle_packet(&map, &chat_packet(&[0x23, b'w', b' ', b'h', 0xE4])), Ok(()));
    let packets = sent(&mut c);
    let mut normal = vec![0, 0, 0, 0, 0x65, 0, 0, 0, 0, 0x65, 8, 6, 0x53];
    normal.extend_from_slice(b"Bob\tH\xE4\0");
    let mut whisper = vec![0, 0, 0, 0, 0x65, 0, 0, 0, 0, 0x65, 8, 6, 0x57];
    whisper.extend_from_slice(b"Bob\th\xE4\0");
    assert_eq!(packets, vec![normal, whisper]);
}

#[test]
fn other_requests() {
    let map = water_map();
    let mut c = bob();
    c.handle_packet(&map, &[0x03, 0x00]).unwrap();
    c.handle_packet(&map, &[0x04, 0x00, b'x', 0]).unwrap();
    c.handle_packet(&map, &[0x1E, 0x00, 1, 2, 3, 4, 5, 6, 7]).unwrap();
    c.handle_packet(&map, &[0x1F, 0x00, 9]).unwrap();
    c.handle_packet(&map, &[0x20, 0x00]).unwrap();
    c.handle_packet(&map, &[0x06, 0x00, 1, 2]).unwrap();
    c.handle_packet(&map, &[0x07, 0x00, 1, 2]).unwrap();
    c.handle_packet(&map, &[0x14, 0x00, 1, 2, 3, 4, 5, 6, 7]).unwrap();
    c.handle_packet(&map, &[0x0B, 0x00, b'n', b'i', b'c', b'e']).unwrap();
    let packets = sent(&mut c);
    assert_eq!(packets.len(), 5);
    assert_eq!(packets[0], c.send_user_list());
    assert_eq!(packets[1], c.send_user_info(c.player()));
    assert_eq!(packets[2], c.send_open_container());
    assert_eq!(packets[3], vec![0, 0, 0, 0, 0x12, 9]);
    assert_eq!(packets[4], c.send_data_window());
    assert_eq!(c.handle_packet(&map, &[0x14, 0x00, 1, 2, 3]), Err(PacketError::Read(ReadError::UnexpectedEof)));
    assert_eq!(c.handle_packet(&map, &[0x1F, 0x00]), Err(PacketError::Read(ReadError::UnexpectedEof)));
}

#[test]
fn set_data_updates_the_character() {
    let map = water_map();
    let mut c = bob();
    let mut buf = vec![0x21, 0x00];
    let mut field = |s: &[u8], n: usize| {
        let mut f = s.to_vec();
        f.resize(n, 0);
        f
    };
    buf.extend(field(b"secret", 30));
    buf.extend_from_slice(&[0x12, 0x34, 0x00]);
    buf.extend(field(b"Alice", 50));
    buf.extend(field(b"Oslo", 50));
    buf.extend(field(b"a@b", 50));
    assert_eq!(c.handle_packet(&map, &buf[..buf.len() - 1]), Err(PacketError::Read(ReadError::UnexpectedEof)));
    assert_eq!(c.handle_packet(&map, &buf), Ok(()));
    let p = c.player();
    assert_eq!(p.password, "secret");
    assert_eq!(p.real_name, "Alice");
    assert_eq!(p.location, "Oslo");
    assert_eq!(p.email, "a@b");
    assert_eq!(p.outfit, OutfitColors::new(3, 4, 1, 2));
    assert_eq!(p.name, "Bob");
    let packets = sent(&mut c);
    assert_eq!(packets.len(), 1);
    let at = 7 + (8 * 14 + 6) * 4;
    assert_eq!(&packets[0][at..at + 6], &[0x0E, 0x00, 0xFC, 0x12, 0x34, 0]);
}

#[test]
fn saving_the_shown_data_keeps_the_character() {
    let map = water_map();
    let mut c = bob();
    let mut p = c.player().clone();
    p.password = "pw".to_string();
    p.real_name = "Robert".to_string();
    p.location = "Thais".to_string();
    p.email = "bob@x".to_string();
    p.outfit = OutfitColors::new(1, 2, 3, 4);
    c = Connection::new(p.clone());
    c.handle_packet(&map, &[0x20, 0x00]).unwrap();
    let window = sent(&mut c).remove(0);
    assert_eq!(window.len(), 219);
    // Password, outfit, real name, location and email as the window shows them.
    let mut buf = vec![0x21, 0x00];
    buf.extend_from_slice(&window[35..65]);
    buf.extend_from_slice(&window[66..219]);
    assert_eq!(c.handle_packet(&map, &buf), Ok(()));
    let q = c.player();
    assert_eq!((&q.password, &q.real_name, &q.location, &q.email), (&p.password, &p.real_name, &p.location, &p.email));
    assert_eq!(q.outfit, p.outfit);
    assert_eq!(q.position, p.position);
}

fn login_bytes(protocol: u16, name: &[u8], password: &[u8]) -> Vec<u8> {
    let mut buf = vec![0u8; 5];
    buf.push(protocol as u8);
    buf.push((protocol >> 8) as u8);
    let mut n = name.to_vec();
    n.resize(30, 0);
    let mut p = password.to_vec();
    p.resize(30, 0);
    buf.extend(n);
    buf.extend(p);
    buf
}

#[test]
fn login_kinds() {
    assert_eq!(login_kind(67), Some(LoginKind::Existing));
    assert_eq!(login_kind(221), Some(LoginKind::NewCharacter));
    assert_eq!(login_kind(68), None);
}

#[test]
fn login_of_an_existing_character() {
    let data = login_bytes(103, b"Bob", b"pw");
    let d = login_existing(&data).unwrap().unwrap();
    assert_eq!(d.name, "Bob");
    assert_eq!(d.password, "pw");
    assert!(d.profile.is_none());
    let p = d.into_player(400, Position::new(50, 100, 7));
    assert_eq!(p.id, 400);
    assert_eq!(p.name, "Bob");
    assert_eq!(p.password, "pw");
    assert_eq!(p.position, Position::new(50, 100, 7));

    assert!(login_existing(&login_bytes(102, b"Bob", b"pw")).unwrap().is_none());
    assert_eq!(login_existing(&data[..66]).err(), Some(ReadError::UnexpectedEof));
    assert_eq!(login_existing(&data[..6]).err(), Some(ReadError::UnexpectedEof));
    // A rejected protocol is known after seven bytes.
    assert!(login_existing(&login_bytes(102, b"", b"")[..7]).unwrap().is_none());
}

#[test]
fn creation_of_a_new_character() {
    let mut data = login_bytes(103, b"Ann", b"pw");
    data.push(0);
    data.extend_from_slice(&[0x12, 0x34, 0x00]);
    for s in [&b"Ann Smith"[..], b"Bergen", b"ann@x"] {
        let mut f = s.to_vec();
        f.resize(50, 0);
        data.extend(f);
    }
    assert_eq!(data.len(), 221);
    let d = login_new(&data).unwrap().unwrap();
    let p = d.into_player(5, Position::new(50, 100, 7));
    assert_eq!(p.name, "Ann");
    assert_eq!(p.gender, Gender::Female);
    assert_eq!(p.outfit, OutfitColors::new(3, 4, 1, 2));
    assert_eq!(p.real_name, "Ann Smith");
    assert_eq!(p.location, "Bergen");
    assert_eq!(p.email, "ann@x");
    assert_eq!(login_new(&data[..220]).err(), Some(ReadError::UnexpectedEof));
}

#[test]
fn registry_login_and_logout() {
    let mut world: Registry<u32> = Registry::new();
    let a = Player::new(256, "A", Position::new(0, 0, 7));
    let b = Player::new(257, "B", Position::new(0, 0, 7));
    assert!(world.handle_message(Some(PlayerToWorld::Login(a.clone(), 10))));
    assert!(world.handle_message(Some(PlayerToWorld::Login(b.clone(), 20))));
    assert_eq!(world.sender(256), Some(&10));
    assert_eq!(world.len(), 2);
    assert!(world.handle_message(Some(PlayerToWorld::Logout(a))));
    assert_eq!(world.sender(256), None);
    assert_eq!(world.sender(257), Some(&20));
    assert!(!world.handle_message(None));
    assert_eq!(world.len(), 1);
}

#[test]
fn debug_setting() {
    assert!(!is_debug(None));
    let config = Config {
        server: Server {
            ip: [127, 0, 0, 1],
            port: 7171,
            debug_messages: true,
            status_message: String::new(),
            message_of_the_day: String::new(),
        },
        world: World { map_file: "map.json".to_string() },
    };
    assert!(is_debug(Some(&config)));
}

#[test]
fn object_table() {
    let data = [0x3D, 0x01, 0x01, 0x00, 0x00, 0x00, 45, 0x00, 0x02, 0x00, 0x00, 0x00, 0x00, 0x00, 0x2C, 0x01];
    assert_eq!(read_u16(&data, 0), 0x013D);
    assert_eq!(read_u16(&data, 14), 300);
    assert_eq!(scan_objects(&data, 0), vec![ObjectRecord { id: 0x013D, flags: 1, extra: 0, sprite: 45 }]);
    assert_eq!(scan_objects(&data, 2), vec![ObjectRecord { id: 1, flags: 0, extra: 0x2D, sprite: 2 }]);
    assert_eq!(scan_objects(&data, 9), vec![]);
    assert_eq!(scan_objects(&data, 100), vec![]);
}
