//! Handling of incoming packets (client to server).
use super::{all_frameable, can_view, frames, Connection, FlushError};
use crate::chat::{chat_type_of, ChatType};
use crate::io::{
    fixed_field, gender_byte, gender_of, latin1, packet_header, latin1_text, le_u16, nul_index, lemma_fixed_field_len, lemma_fixed_string_roundtrip,
    lemma_outfit_roundtrip, outfit_bytes, text_of, PacketReader, ReadError, ReadExt,
};
use crate::map::position::{direction_offset, lemma_step_back, opposite, Position};
use crate::map::WorldMap;
use crate::network::connection::send::{
    chat_packet, close_container_packet, data_window_packet, map_packet, open_container_packet,
    user_info_packet, user_list_packet, view_fits,
};
use crate::network::packet::{packet_in_from_code, PacketIn, PacketOut};
use crate::player::{
    direction_code, direction_of, lemma_direction_roundtrip, Direction, OutfitColors, PlayerView,
};
use vstd::prelude::*;
use vstd::utf8::{decode_utf8, encode_utf8, is_ascii_chars, is_char_boundary, valid_utf8};

verus! {

broadcast use vstd::utf8::group_utf8_lib;

/// Why an incoming packet could not be handled. Each of these ends the
/// connection.
#[derive(Debug, Copy, Clone, PartialEq, Eq, Structural)]
pub enum PacketError {
    /// A field of the packet could not be read.
    Read(ReadError),
    /// A walk request named no direction.
    InvalidDirection(u8),
    /// The step would leave the signed range of a coordinate.
    PositionOverflow,
    /// A qualified chat message is too short, or its text does not start at byte 3.
    MalformedChat,
    /// The map view around the character cannot be built at its position.
    ViewOutOfRange,
}

/// `std::str::from_utf8`: the text that the bytes encode, or nothing when they
/// are not valid UTF-8.
#[verifier::external_body]
fn str_from_utf8<'a>(bytes: &'a [u8]) -> (r: Option<&'a str>)
    ensures
        r is Some <==> valid_utf8(bytes@),
        r matches Some(s) ==> s@ == decode_utf8(bytes@),
{
    std::str::from_utf8(bytes).ok()
}

/// The result of handling a packet: the new state of the character and the
/// packets to send, or the error.
pub type Effect = Result<(PlayerView, Seq<Seq<u8>>), PacketError>;

/// The effect of a packet that only reads `needed` bytes and sends `sent`.
pub open spec fn reads_then(rest: Seq<u8>, needed: nat, p: PlayerView, sent: Seq<Seq<u8>>) -> Effect {
    if rest.len() < needed {
        Err(PacketError::Read(ReadError::UnexpectedEof))
    } else {
        Ok((p, sent))
    }
}

/// Walking: one direction byte; the character turns, steps, and gets the
/// 18x14 map view around its new position.
pub open spec fn walk_effect(map: &WorldMap, p: PlayerView, rest: Seq<u8>) -> Effect {
    if rest.len() < 1 {
        Err(PacketError::Read(ReadError::UnexpectedEof))
    } else if rest[0] > 3 {
        Err(PacketError::InvalidDirection(rest[0]))
    } else if !p.position.can_add(direction_offset(direction_of(rest[0]))) {
        Err(PacketError::PositionOverflow)
    } else {
        let d = direction_of(rest[0]);
        let pos = p.position.plus(direction_offset(d));
        if !view_fits(pos, 18, 14) {
            Err(PacketError::ViewOutOfRange)
        } else {
            let q = PlayerView { direction: d, position: pos, ..p };
            Ok((q, seq![map_packet(map, q, pos, 18, 14)]))
        }
    }
}

/// The chat message of a character: qualified messages start with `#`, the
/// next character selects the chat type and the text starts at byte 3.
pub open spec fn say_effect(p: PlayerView, msg: Seq<char>) -> Effect {
    let raw = encode_utf8(msg);
    if msg.len() > 0 && msg[0] == '#' {
        if !is_char_boundary(raw, 3) {
            Err(PacketError::MalformedChat)
        } else {
            let qualifier = if msg.len() > 1 {
                Some(msg[1])
            } else {
                None
            };
            let text = decode_utf8(raw.subrange(3, raw.len() as int));
            Ok((p, seq![chat_packet(chat_type_of(qualifier), text, Some(p.name))]))
        }
    } else {
        Ok((p, seq![chat_packet(ChatType::Normal, msg, Some(p.name))]))
    }
}

/// The chat message of a character whose text is not valid UTF-8, as the
/// client writes umlauts (one byte each): each byte is one character. A
/// qualified message starts with `#`, its second byte selects the chat type,
/// and the text starts at byte 3.
pub open spec fn byte_say_effect(p: PlayerView, raw: Seq<u8>) -> Effect {
    if raw.len() > 0 && raw[0] == 0x23 {
        if raw.len() < 3 {
            Err(PacketError::MalformedChat)
        } else {
            Ok((p, seq![chat_packet(chat_type_of(Some(raw[1] as char)), latin1(raw.skip(3)), Some(p.name))]))
        }
    } else {
        Ok((p, seq![chat_packet(ChatType::Normal, latin1(raw), Some(p.name))]))
    }
}

/// Chat: a 16-bit length and that many bytes of text. Text that is valid
/// UTF-8 is read as such; other text is read one character per byte.
pub open spec fn chat_effect(p: PlayerView, rest: Seq<u8>) -> Effect {
    if rest.len() < 2 {
        Err(PacketError::Read(ReadError::UnexpectedEof))
    } else {
        let len = le_u16(rest[0], rest[1]);
        if rest.len() - 2 < len {
            Err(PacketError::Read(ReadError::UnexpectedEof))
        } else {
            let raw = rest.subrange(2, 2 + len);
            if !valid_utf8(raw) {
                byte_say_effect(p, raw)
            } else {
                say_effect(p, decode_utf8(raw))
            }
        }
    }
}

/// The text of a fixed-size field of the packet.
pub open spec fn field_text(rest: Seq<u8>, start: int, size: int) -> Seq<char> {
    latin1(text_of(rest.subrange(start, start + size)))
}

/// Saving the character data: password (30 bytes), outfit (3 bytes), real
/// name, location and email (50 bytes each); then the map view is refreshed.
pub open spec fn set_data_effect(map: &WorldMap, p: PlayerView, rest: Seq<u8>) -> Effect {
    if rest.len() < 183 {
        Err(PacketError::Read(ReadError::UnexpectedEof))
    } else if !view_fits(p.position, 18, 14) {
        Err(PacketError::ViewOutOfRange)
    } else {
        let q = PlayerView {
            password: field_text(rest, 0, 30),
            outfit: OutfitColors {
                head: rest[31] / 16,
                body: rest[31] % 16,
                legs: rest[30] / 16,
                shoes: rest[30] % 16,
            },
            real_name: field_text(rest, 33, 50),
            location: field_text(rest, 83, 50),
            email: field_text(rest, 133, 50),
            ..p
        };
        Ok((q, seq![map_packet(map, q, q.position, 18, 14)]))
    }
}

/// The effect of a packet of the given kind; `rest` is the packet after its identifier.
pub open spec fn dispatch_effect(map: &WorldMap, p: PlayerView, kind: PacketIn, rest: Seq<u8>) -> Effect {
    match kind {
        PacketIn::UserList => Ok((p, seq![user_list_packet(p)])),
        PacketIn::PlayerInfo => Ok((p, seq![user_info_packet(p)])),
        PacketIn::Walk => walk_effect(map, p, rest),
        PacketIn::AutoWalk => reads_then(rest, 2, p, Seq::empty()),
        PacketIn::LookAt => reads_then(rest, 2, p, Seq::empty()),
        PacketIn::Chat => chat_effect(p, rest),
        PacketIn::ChangeDirection => Ok((p, Seq::empty())),
        PacketIn::Comment => Ok((p, Seq::empty())),
        PacketIn::Push => reads_then(rest, 7, p, Seq::empty()),
        PacketIn::UseItem => reads_then(rest, 7, p, seq![open_container_packet()]),
        PacketIn::CloseContainer => if rest.len() < 1 {
            Err(PacketError::Read(ReadError::UnexpectedEof))
        } else {
            Ok((p, seq![close_container_packet(rest[0])]))
        },
        PacketIn::RequestChangeData => Ok((p, seq![data_window_packet(p)])),
        PacketIn::SetData => set_data_effect(map, p, rest),
        PacketIn::Echo => Ok((p, Seq::empty())),
        PacketIn::Logout => Ok((p, Seq::empty())),
    }
}

/// The effect of an incoming packet: a 16-bit identifier and the packet's
/// fields. Packets with an unknown identifier are ignored.
pub open spec fn packet_effect(map: &WorldMap, p: PlayerView, buf: Seq<u8>) -> Effect {
    if buf.len() < 2 {
        Err(PacketError::Read(ReadError::UnexpectedEof))
    } else {
        match packet_in_from_code(le_u16(buf[0], buf[1])) {
            Some(kind) => dispatch_effect(map, p, kind, buf.skip(2)),
            None => Ok((p, Seq::empty())),
        }
    }
}

/// The connection state after an effect: on success the new character and the
/// packets appended to the queue, on error the state unchanged.
pub open spec fn applied(
    effect: Effect,
    r: Result<(), PacketError>,
    p0: PlayerView,
    q0: Seq<Seq<u8>>,
    p1: PlayerView,
    q1: Seq<Seq<u8>>,
) -> bool {
    match effect {
        Ok((p, sent)) => r is Ok && p1 == p && q1 == q0 + sent,
        Err(e) => r == Err::<(), PacketError>(e) && p1 == p0 && q1 == q0,
    }
}

/// Walking one step and then one step in the opposite direction brings the
/// character back to where it stood (when the map view can be built there);
/// it then faces the opposite direction and nothing else about it has changed.
pub proof fn lemma_walk_and_back(map: &WorldMap, p: PlayerView, d: Direction)
    requires
        walk_effect(map, p, seq![direction_code(d)]) is Ok,
        view_fits(p.position, 18, 14),
    ensures
        ({
            let q = walk_effect(map, p, seq![direction_code(d)])->Ok_0.0;
            let back = walk_effect(map, q, seq![direction_code(opposite(d))]);
            &&& back is Ok
            &&& back->Ok_0.0 == PlayerView { direction: opposite(d), ..p }
        }),
{
    lemma_direction_roundtrip(d);
    lemma_direction_roundtrip(opposite(d));
    let q = walk_effect(map, p, seq![direction_code(d)])->Ok_0.0;
    lemma_step_back(p.position, d);
    assert(q.position == p.position.plus(direction_offset(d)));
    assert(seq![direction_code(opposite(d))][0] == direction_code(opposite(d)));
    assert(seq![direction_code(d)][0] == direction_code(d));
}

/// Whether a text can be written into a fixed-size field of `size` bytes and
/// read back unchanged: ASCII, without zero characters, and not longer than
/// the field.
pub open spec fn fits_field(s: Seq<char>, size: nat) -> bool {
    &&& is_ascii_chars(s)
    &&& forall|i: int| 0 <= i < s.len() ==> s[i] != '\0'
    &&& s.len() <= size
}

/// The fields of a "Set Data" request that saves the given character data:
/// password, outfit, real name, location and email, in the sizes of the data
/// window.
pub open spec fn set_data_fields(p: PlayerView) -> Seq<u8> {
    fixed_field(encode_utf8(p.password), 30) + outfit_bytes(p.outfit) + fixed_field(
        encode_utf8(p.real_name),
        50,
    ) + fixed_field(encode_utf8(p.location), 50) + fixed_field(encode_utf8(p.email), 50)
}

/// Saving the character data as the data window shows it, unchanged, leaves
/// the character as it was (when its texts fit their fields and its outfit
/// colors are 4-bit values); the answer is the map view around it.
pub proof fn lemma_unchanged_data_saved(map: &WorldMap, p: PlayerView)
    requires
        fits_field(p.password, 30),
        fits_field(p.real_name, 50),
        fits_field(p.location, 50),
        fits_field(p.email, 50),
        p.outfit.head < 16,
        p.outfit.body < 16,
        p.outfit.legs < 16,
        p.outfit.shoes < 16,
        view_fits(p.position, 18, 14),
    ensures
        set_data_effect(map, p, set_data_fields(p)) == Ok::<(PlayerView, Seq<Seq<u8>>), PacketError>(
            (p, seq![map_packet(map, p, p.position, 18, 14)]),
        ),
{
    let a = fixed_field(encode_utf8(p.password), 30);
    let o = outfit_bytes(p.outfit);
    let b = fixed_field(encode_utf8(p.real_name), 50);
    let c = fixed_field(encode_utf8(p.location), 50);
    let d = fixed_field(encode_utf8(p.email), 50);
    lemma_fixed_field_len(encode_utf8(p.password), 30);
    lemma_fixed_field_len(encode_utf8(p.real_name), 50);
    lemma_fixed_field_len(encode_utf8(p.location), 50);
    lemma_fixed_field_len(encode_utf8(p.email), 50);
    lemma_fixed_string_roundtrip(p.password, 30);
    lemma_fixed_string_roundtrip(p.real_name, 50);
    lemma_fixed_string_roundtrip(p.location, 50);
    lemma_fixed_string_roundtrip(p.email, 50);
    lemma_outfit_roundtrip(p.outfit);
    let rest = set_data_fields(p);
    assert(rest.len() == 183);
    assert(rest.subrange(0, 30) =~= a);
    assert(rest[30] == o[0]);
    assert(rest[31] == o[1]);
    assert(rest.subrange(33, 83) =~= b);
    assert(rest.subrange(83, 133) =~= c);
    assert(rest.subrange(133, 183) =~= d);
    let q = set_data_effect(map, p, rest)->Ok_0.0;
    assert(q.outfit == p.outfit);
    assert(q == p);
}

/// The data window shows the character as it is: its gender byte reads back
/// as the character's gender, its outfit bytes as the outfit (when the colors
/// are 4-bit values), and each text field as the character's text (when the
/// text fits its field).
pub proof fn lemma_data_window_shows_character(p: PlayerView)
    ensures
        ({
            let w = data_window_packet(p);
            &&& w.len() == 219
            &&& gender_of(w[65]) == p.gender
            &&& (p.outfit.head < 16 && p.outfit.body < 16 && p.outfit.legs < 16 && p.outfit.shoes < 16)
                ==> w[66] / 16 == p.outfit.legs && w[66] % 16 == p.outfit.shoes && w[67] / 16
                == p.outfit.head && w[67] % 16 == p.outfit.body
            &&& fits_field(p.name, 30) ==> field_text(w, 5, 30) == p.name
            &&& fits_field(p.password, 30) ==> field_text(w, 35, 30) == p.password
            &&& fits_field(p.real_name, 50) ==> field_text(w, 69, 50) == p.real_name
            &&& fits_field(p.location, 50) ==> field_text(w, 119, 50) == p.location
            &&& fits_field(p.email, 50) ==> field_text(w, 169, 50) == p.email
        }),
{
    let w = data_window_packet(p);
    let h = packet_header(PacketOut::DataWindow);
    let a = fixed_field(encode_utf8(p.name), 30);
    let b = fixed_field(encode_utf8(p.password), 30);
    let o = outfit_bytes(p.outfit);
    let c = fixed_field(encode_utf8(p.real_name), 50);
    let d = fixed_field(encode_utf8(p.location), 50);
    let e = fixed_field(encode_utf8(p.email), 50);
    lemma_fixed_field_len(encode_utf8(p.name), 30);
    lemma_fixed_field_len(encode_utf8(p.password), 30);
    lemma_fixed_field_len(encode_utf8(p.real_name), 50);
    lemma_fixed_field_len(encode_utf8(p.location), 50);
    lemma_fixed_field_len(encode_utf8(p.email), 50);
    assert(w == h + a + b + seq![gender_byte(p.gender)] + o + c + d + e);
    assert(w.len() == 219);
    assert(w[65] == gender_byte(p.gender));
    assert(w[66] == o[0] && w[67] == o[1]);
    if p.outfit.head < 16 && p.outfit.body < 16 && p.outfit.legs < 16 && p.outfit.shoes < 16 {
        lemma_outfit_roundtrip(p.outfit);
    }
    assert(w.subrange(5, 35) =~= a);
    assert(w.subrange(35, 65) =~= b);
    assert(w.subrange(69, 119) =~= c);
    assert(w.subrange(119, 169) =~= d);
    assert(w.subrange(169, 219) =~= e);
    if fits_field(p.name, 30) {
        lemma_fixed_string_roundtrip(p.name, 30);
    }
    if fits_field(p.password, 30) {
        lemma_fixed_string_roundtrip(p.password, 30);
    }
    if fits_field(p.real_name, 50) {
        lemma_fixed_string_roundtrip(p.real_name, 50);
    }
    if fits_field(p.location, 50) {
        lemma_fixed_string_roundtrip(p.location, 50);
    }
    if fits_field(p.email, 50) {
        lemma_fixed_string_roundtrip(p.email, 50);
    }
}

/// A packet with an unknown identifier changes nothing and is not answered.
pub proof fn lemma_unknown_packet_ignored(map: &WorldMap, p: PlayerView, buf: Seq<u8>)
    requires
        buf.len() >= 2,
        packet_in_from_code(le_u16(buf[0], buf[1])) is None,
    ensures
        packet_effect(map, p, buf) == Ok::<(PlayerView, Seq<Seq<u8>>), PacketError>(
            (p, Seq::empty()),
        ),
{
}

impl Connection {
    /// Handles an incoming packet: reads its identifier and dispatches it to
    /// its handler. Packets with an unknown identifier are ignored.
    pub fn handle_packet(&mut self, map: &WorldMap, buf: &[u8]) -> (r: Result<(), PacketError>)
        requires
            old(self).wf(),
        ensures
            final(self).wf(),
            applied(
                packet_effect(map, old(self).spec_player(), buf@),
                r,
                old(self).spec_player(),
                old(self).queued(),
                final(self).spec_player(),
                final(self).queued(),
            ),
    {
        let mut cursor = PacketReader::new(buf);
        let id = match cursor.read_u16_le() {
            Ok(id) => id,
            Err(e) => return Err(PacketError::Read(e)),
        };
        assert(cursor.unread() == buf@.skip(2));
        match PacketIn::try_from_primitive(id) {
            Some(packet) => self.dispatch_packet(map, packet, &mut cursor),
            None => Ok(()),
        }
    }

    /// Dispatches a received packet to its handler.
    fn dispatch_packet(&mut self, map: &WorldMap, packet: PacketIn, r: &mut PacketReader) -> (res:
        Result<(), PacketError>)
        requires
            old(self).wf(),
        ensures
            final(self).wf(),
            applied(
                dispatch_effect(map, old(self).spec_player(), packet, old(r).unread()),
                res,
                old(self).spec_player(),
                old(self).queued(),
                final(self).spec_player(),
                final(self).queued(),
            ),
    {
        match packet {
            PacketIn::UserList => self.recv_user_list(r),
            PacketIn::PlayerInfo => self.recv_player_info(r),
            PacketIn::Walk => self.recv_walk(map, r),
            PacketIn::AutoWalk => self.recv_auto_walk(r),
            PacketIn::LookAt => self.recv_look_at(r),
            PacketIn::Chat => self.recv_chat(r),
            PacketIn::ChangeDirection => Ok(()),  // Not observed in Tibia 1.03.
            PacketIn::Comment => self.recv_comment(r),
            PacketIn::Push => self.recv_push(r),
            PacketIn::UseItem => self.recv_use_item(r),
            PacketIn::CloseContainer => self.recv_close_container(r),
            PacketIn::RequestChangeData => self.recv_request_change_data(r),
            PacketIn::SetData => self.recv_set_data(map, r),
            PacketIn::Echo => Ok(()),
            PacketIn::Logout => Ok(()),
        }
    }

    /// Walking: turns the character, moves it one step and refreshes the map view.
    fn recv_walk(&mut self, map: &WorldMap, r: &mut PacketReader) -> (res: Result<(), PacketError>)
        requires
            old(self).wf(),
        ensures
            final(self).wf(),
            applied(
                walk_effect(map, old(self).spec_player(), old(r).unread()),
                res,
                old(self).spec_player(),
                old(self).queued(),
                final(self).spec_player(),
                final(self).queued(),
            ),
    {
        let code = match r.read_u8() {
            Ok(b) => b,
            Err(e) => return Err(PacketError::Read(e)),
        };
        let direction = match Direction::try_from_primitive(code) {
            Some(d) => d,
            None => return Err(PacketError::InvalidDirection(code)),
        };
        assert(direction == direction_of(code));
        if !self.player.position.can_add_offset(Position::offset_of(direction)) {
            return Err(PacketError::PositionOverflow);
        }
        let new_pos = self.player.position.add_direction(direction);
        if !can_view(new_pos, 18, 14) {
            return Err(PacketError::ViewOutOfRange);
        }
        self.player.direction = direction;
        self.player.position = new_pos;
        let msg = self.send_map(map, new_pos, 18, 14);
        self.enqueue(msg);
        assert(self.queued() =~= old(self).queued() + seq![msg@]);
        Ok(())
    }

    /// Chat: normal talk, or a qualified message when it starts with `#`.
    fn recv_chat(&mut self, r: &mut PacketReader) -> (res: Result<(), PacketError>)
        requires
            old(self).wf(),
        ensures
            final(self).wf(),
            applied(
                chat_effect(old(self).spec_player(), old(r).unread()),
                res,
                old(self).spec_player(),
                old(self).queued(),
                final(self).spec_player(),
                final(self).queued(),
            ),
    {
        let ghost rest = r.unread();
        let length = match r.read_u16_le() {
            Ok(n) => n,
            Err(e) => return Err(PacketError::Read(e)),
        };
        let raw = match r.read_bytes(length as usize) {
            Ok(s) => s,
            Err(e) => return Err(PacketError::Read(e)),
        };
        assert(raw@ == rest.subrange(2, 2 + length));
        match str_from_utf8(raw) {
            // Text that is not UTF-8: one character per byte.
            None => self.recv_byte_chat(raw),
            Some(msg) => {
                proof {
                    vstd::utf8::decode_utf8_encode_utf8(raw@);
                }
                if !msg.is_empty() && msg.get_char(0) == '#' {
                    self.recv_qualified_chat(msg)
                } else {
                    let out = self.send_chat(ChatType::Normal, msg, Some(&self.player));
                    self.enqueue(out);
                    assert(self.queued() =~= old(self).queued() + seq![out@]);
                    Ok(())
                }
            },
        }
    }

    /// A chat message whose text is not valid UTF-8, read one character per
    /// byte: a qualified message when it starts with `#`.
    fn recv_byte_chat(&mut self, raw: &[u8]) -> (res: Result<(), PacketError>)
        requires
            old(self).wf(),
        ensures
            final(self).wf(),
            applied(
                byte_say_effect(old(self).spec_player(), raw@),
                res,
                old(self).spec_player(),
                old(self).queued(),
                final(self).spec_player(),
                final(self).queued(),
            ),
    {
        let (chat_type, start) = if raw.len() > 0 && raw[0] == 0x23 {
            if raw.len() < 3 {
                return Err(PacketError::MalformedChat);
            }
            (ChatType::from(Some(raw[1] as char)), 3)
        } else {
            (ChatType::Normal, 0)
        };
        let text = latin1_text(raw, start);
        assert(raw@.skip(0) == raw@);
        let out = self.send_chat(chat_type, text.as_str(), Some(&self.player));
        self.enqueue(out);
        assert(self.queued() =~= old(self).queued() + seq![out@]);
        Ok(())
    }

    /// A qualified chat message (`#W`, `#Y`, `#B`): the character after `#`
    /// selects the chat type and the text starts at byte 3.
    fn recv_qualified_chat(&mut self, msg: &str) -> (res: Result<(), PacketError>)
        requires
            old(self).wf(),
            msg@.len() > 0 && msg@[0] == '#',
        ensures
            final(self).wf(),
            applied(
                say_effect(old(self).spec_player(), msg@),
                res,
                old(self).spec_player(),
                old(self).queued(),
                final(self).spec_player(),
                final(self).queued(),
            ),
    {
        let qualifier = if msg.unicode_len() > 1 {
            Some(msg.get_char(1))
        } else {
            None
        };
        let chat_type = ChatType::from(qualifier);
        if !msg.is_char_boundary(3) {
            return Err(PacketError::MalformedChat);
        }
        let (_, text) = msg.split_at(3);
        proof {
            vstd::utf8::encode_utf8_decode_utf8(text@);
        }
        let out = self.send_chat(chat_type, text, Some(&self.player));
        self.enqueue(out);
        assert(self.queued() =~= old(self).queued() + seq![out@]);
        Ok(())
    }

    /// Client comments: the zero-terminated text up to the end of the packet is
    /// read (with its terminator, when there is one) and otherwise ignored.
    fn recv_comment(&mut self, r: &mut PacketReader) -> (res: Result<(), PacketError>)
        requires
            old(self).wf(),
        ensures
            final(self).wf(),
            nul_index(old(r).unread()) < old(r).unread().len() ==> final(r).unread()
                == old(r).unread().skip(nul_index(old(r).unread()) as int + 1),
            nul_index(old(r).unread()) == old(r).unread().len() ==> final(r).unread()
                == Seq::<u8>::empty(),
            applied(
                Ok((old(self).spec_player(), Seq::empty())),
                res,
                old(self).spec_player(),
                old(self).queued(),
                final(self).spec_player(),
                final(self).queued(),
            ),
    {
        let mut msg = String::new();
        let _ = r.read_string_to_end(&mut msg);
        assert(self.queued() =~= old(self).queued() + Seq::<Seq<u8>>::empty());
        Ok(())
    }

    /// Opening the character data window: sends the character's data.
    fn recv_request_change_data(&mut self, _r: &mut PacketReader) -> (res: Result<(), PacketError>)
        requires
            old(self).wf(),
        ensures
            final(self).wf(),
            applied(
                Ok((old(self).spec_player(), seq![data_window_packet(old(self).spec_player())])),
                res,
                old(self).spec_player(),
                old(self).queued(),
                final(self).spec_player(),
                final(self).queued(),
            ),
    {
        let msg = self.send_data_window();
        self.enqueue(msg);
        assert(self.queued() =~= old(self).queued() + seq![msg@]);
        Ok(())
    }

    /// Saving the character data from the "Change Data" dialog, then
    /// refreshing the map view.
    fn recv_set_data(&mut self, map: &WorldMap, r: &mut PacketReader) -> (res: Result<(), PacketError>)
        requires
            old(self).wf(),
        ensures
            final(self).wf(),
            applied(
                set_data_effect(map, old(self).spec_player(), old(r).unread()),
                res,
                old(self).spec_player(),
                old(self).queued(),
                final(self).spec_player(),
                final(self).queued(),
            ),
    {
        let ghost rest = r.unread();
        let mut password = String::new();
        match r.read_string(&mut password, 30) {
            Ok(_) => {},
            Err(e) => return Err(PacketError::Read(e)),
        }
        let outfit = match r.read_outfit_colors() {
            Ok(o) => o,
            Err(e) => return Err(PacketError::Read(e)),
        };
        let mut real_name = String::new();
        match r.read_string(&mut real_name, 50) {
            Ok(_) => {},
            Err(e) => return Err(PacketError::Read(e)),
        }
        let mut location = String::new();
        match r.read_string(&mut location, 50) {
            Ok(_) => {},
            Err(e) => return Err(PacketError::Read(e)),
        }
        let mut email = String::new();
        match r.read_string(&mut email, 50) {
            Ok(_) => {},
            Err(e) => return Err(PacketError::Read(e)),
        }
        proof {
            assert(rest.take(30) =~= rest.subrange(0, 30));
            assert(rest.skip(30).skip(3).take(50) =~= rest.subrange(33, 83));
            assert(rest.skip(30).skip(3).skip(50).take(50) =~= rest.subrange(83, 133));
            assert(rest.skip(30).skip(3).skip(50).skip(50).take(50) =~= rest.subrange(133, 183));
            assert(password@ =~= field_text(rest, 0, 30));
            assert(real_name@ =~= field_text(rest, 33, 50));
            assert(location@ =~= field_text(rest, 83, 50));
            assert(email@ =~= field_text(rest, 133, 50));
        }
        if !can_view(self.player.position, 18, 14) {
            return Err(PacketError::ViewOutOfRange);
        }
        self.player.password = password;
        self.player.outfit = outfit;
        self.player.real_name = real_name;
        self.player.location = location;
        self.player.email = email;
        let pos = self.player.position;
        let msg = self.send_map(map, pos, 18, 14);
        self.enqueue(msg);
        assert(self.queued() =~= old(self).queued() + seq![msg@]);
        Ok(())
    }

    /// The list of users online.
    fn recv_user_list(&mut self, _r: &mut PacketReader) -> (res: Result<(), PacketError>)
        requires
            old(self).wf(),
        ensures
            final(self).wf(),
            applied(
                Ok((old(self).spec_player(), seq![user_list_packet(old(self).spec_player())])),
                res,
                old(self).spec_player(),
                old(self).queued(),
                final(self).spec_player(),
                final(self).queued(),
            ),
    {
        let msg = self.send_user_list();
        self.enqueue(msg);
        assert(self.queued() =~= old(self).queued() + seq![msg@]);
        Ok(())
    }

    /// Information about a user: the requested name is read, and the answer
    /// is always about the character itself.
    fn recv_player_info(&mut self, r: &mut PacketReader) -> (res: Result<(), PacketError>)
        requires
            old(self).wf(),
        ensures
            final(self).wf(),
            applied(
                Ok((old(self).spec_player(), seq![user_info_packet(old(self).spec_player())])),
                res,
                old(self).spec_player(),
                old(self).queued(),
                final(self).spec_player(),
                final(self).queued(),
            ),
    {
        let mut name = String::new();
        let _ = r.read_string_to_end(&mut name);
        let msg = self.send_user_info(&self.player);
        self.enqueue(msg);
        assert(self.queued() =~= old(self).queued() + seq![msg@]);
        Ok(())
    }

    /// Auto-walking to a destination: the destination is read; walking there
    /// is not implemented.
    fn recv_auto_walk(&mut self, r: &mut PacketReader) -> (res: Result<(), PacketError>)
        requires
            old(self).wf(),
        ensures
            final(self).wf(),
            applied(
                reads_then(old(r).unread(), 2, old(self).spec_player(), Seq::empty()),
                res,
                old(self).spec_player(),
                old(self).queued(),
                final(self).spec_player(),
                final(self).queued(),
            ),
    {
        match r.read_position() {
            Ok(_dest) => {},
            Err(e) => return Err(PacketError::Read(e)),
        }
        assert(self.queued() =~= old(self).queued() + Seq::<Seq<u8>>::empty());
        Ok(())
    }

    /// Looking at something: the position is read; nothing is answered yet.
    fn recv_look_at(&mut self, r: &mut PacketReader) -> (res: Result<(), PacketError>)
        requires
            old(self).wf(),
        ensures
            final(self).wf(),
            applied(
                reads_then(old(r).unread(), 2, old(self).spec_player(), Seq::empty()),
                res,
                old(self).spec_player(),
                old(self).queued(),
                final(self).spec_player(),
                final(self).queued(),
            ),
    {
        match r.read_position() {
            Ok(_pos) => {},
            Err(e) => return Err(PacketError::Read(e)),
        }
        assert(self.queued() =~= old(self).queued() + Seq::<Seq<u8>>::empty());
        Ok(())
    }

    /// Pushing an item: source position, item id, stack position and target
    /// position are read; moving items is not implemented.
    fn recv_push(&mut self, r: &mut PacketReader) -> (res: Result<(), PacketError>)
        requires
            old(self).wf(),
        ensures
            final(self).wf(),
            applied(
                reads_then(old(r).unread(), 7, old(self).spec_player(), Seq::empty()),
                res,
                old(self).spec_player(),
                old(self).queued(),
                final(self).spec_player(),
                final(self).queued(),
            ),
    {
        let ghost rest = r.unread();
        if let Err(e) = r.read_position() {
            return Err(PacketError::Read(e));
        }
        if let Err(e) = r.read_u16_le() {
            return Err(PacketError::Read(e));
        }
        if let Err(e) = r.read_u8() {
            return Err(PacketError::Read(e));
        }
        if let Err(e) = r.read_position() {
            return Err(PacketError::Read(e));
        }
        assert(self.queued() =~= old(self).queued() + Seq::<Seq<u8>>::empty());
        Ok(())
    }

    /// Using an item: item type, position, item id, stack position and one
    /// unknown byte are read; the answer always opens the bag window.
    fn recv_use_item(&mut self, r: &mut PacketReader) -> (res: Result<(), PacketError>)
        requires
            old(self).wf(),
        ensures
            final(self).wf(),
            applied(
                reads_then(old(r).unread(), 7, old(self).spec_player(), seq![open_container_packet()]),
                res,
                old(self).spec_player(),
                old(self).queued(),
                final(self).spec_player(),
                final(self).queued(),
            ),
    {
        if let Err(e) = r.read_u8() {
            return Err(PacketError::Read(e));
        }
        if let Err(e) = r.read_position() {
            return Err(PacketError::Read(e));
        }
        if let Err(e) = r.read_u16_le() {
            return Err(PacketError::Read(e));
        }
        if let Err(e) = r.read_u8() {
            return Err(PacketError::Read(e));
        }
        if let Err(e) = r.read_u8() {
            return Err(PacketError::Read(e));
        }
        let msg = self.send_open_container();
        self.enqueue(msg);
        assert(self.queued() =~= old(self).queued() + seq![msg@]);
        Ok(())
    }

    /// Closing a container window: the window id is read and echoed back.
    fn recv_close_container(&mut self, r: &mut PacketReader) -> (res: Result<(), PacketError>)
        requires
            old(self).wf(),
        ensures
            final(self).wf(),
            applied(
                if old(r).unread().len() < 1 {
                    Err(PacketError::Read(ReadError::UnexpectedEof))
                } else {
                    Ok((
                        old(self).spec_player(),
                        seq![close_container_packet(old(r).unread()[0])],
                    ))
                },
                res,
                old(self).spec_player(),
                old(self).queued(),
                final(self).spec_player(),
                final(self).queued(),
            ),
    {
        let local_id = match r.read_u8() {
            Ok(b) => b,
            Err(e) => return Err(PacketError::Read(e)),
        };
        let msg = self.send_close_container(local_id);
        self.enqueue(msg);
        assert(self.queued() =~= old(self).queued() + seq![msg@]);
        Ok(())
    }
}

/// What happened on a client's socket during one turn of its loop.
pub enum ClientEvent<'a> {
    /// A whole packet arrived.
    Packet(&'a [u8]),
    /// Nothing arrived in time.
    Idle,
    /// The client closed the connection (end of stream or reset).
    Disconnected,
    /// Reading from the socket failed otherwise.
    Failed,
}

/// What the client's loop does next.
#[derive(Debug)]
pub enum Step {
    /// Send these bytes (possibly none) and wait for the next event.
    Continue(Vec<u8>),
    /// Tell the world that the player has logged out, and stop.
    LoggedOut,
}

/// Why a client's loop ends with an error.
#[derive(Debug, Copy, Clone, PartialEq, Eq, Structural)]
pub enum RunError {
    Packet(PacketError),
    Flush(FlushError),
    Socket,
}

/// The bytes to send after a turn: the framed queue, or the framing error.
pub open spec fn flushed(queued: Seq<Seq<u8>>) -> Result<Seq<u8>, RunError> {
    if all_frameable(queued) {
        Ok(frames(queued))
    } else {
        Err(RunError::Flush(FlushError::PacketTooLong))
    }
}

/// Whether the result of a turn is `Continue` with the given bytes, or the given error.
pub open spec fn continues_with(r: Result<Step, RunError>, out: Result<Seq<u8>, RunError>) -> bool {
    match out {
        Ok(bytes) => r matches Ok(Step::Continue(b)) && b@ == bytes,
        Err(e) => r == Err::<Step, RunError>(e),
    }
}

impl Connection {
    /// One turn of the client's loop: a packet is handled and the queue is
    /// flushed; when nothing arrived the queue is flushed; a disconnect ends
    /// the loop with a logout; any other socket failure ends it with an error.
    pub fn on_event(&mut self, map: &WorldMap, event: ClientEvent) -> (r: Result<Step, RunError>)
        requires
            old(self).wf(),
        ensures
            final(self).wf(),
            match event {
                ClientEvent::Packet(buf) => match packet_effect(map, old(self).spec_player(), buf@) {
                    Ok((p, sent)) => {
                        &&& final(self).spec_player() == p
                        &&& final(self).queued() == Seq::<Seq<u8>>::empty()
                        &&& continues_with(r, flushed(old(self).queued() + sent))
                    },
                    Err(e) => {
                        &&& r == Err::<Step, RunError>(RunError::Packet(e))
                        &&& final(self).spec_player() == old(self).spec_player()
                        &&& final(self).queued() == old(self).queued()
                    },
                },
                ClientEvent::Idle => {
                    &&& final(self).spec_player() == old(self).spec_player()
                    &&& final(self).queued() == Seq::<Seq<u8>>::empty()
                    &&& continues_with(r, flushed(old(self).queued()))
                },
                ClientEvent::Disconnected => {
                    &&& r matches Ok(Step::LoggedOut)
                    &&& final(self).spec_player() == old(self).spec_player()
                    &&& final(self).queued() == old(self).queued()
                },
                ClientEvent::Failed => {
                    &&& r == Err::<Step, RunError>(RunError::Socket)
                    &&& final(self).spec_player() == old(self).spec_player()
                    &&& final(self).queued() == old(self).queued()
                },
            },
    {
        match event {
            ClientEvent::Packet(buf) => {
                match self.handle_packet(map, buf) {
                    Ok(()) => {},
                    Err(e) => return Err(RunError::Packet(e)),
                }
            },
            ClientEvent::Idle => {},
            ClientEvent::Disconnected => return Ok(Step::LoggedOut),
            ClientEvent::Failed => return Err(RunError::Socket),
        }
        match self.flush() {
            Ok(bytes) => Ok(Step::Continue(bytes)),
            Err(e) => Err(RunError::Flush(e)),
        }
    }
}

} // verus!
