//! The state of a client connection: the logged-in character and the queue of
//! outgoing packets, with the handling of incoming packets.
pub mod login;
pub mod receive;
pub mod send;

use crate::io::{le_u16, lemma_u16_roundtrip, u16_le};
use crate::map::position::Position;
use crate::map::WorldMap;
use crate::network::connection::send::{
    equipped_item_packet, login_packet, map_packet, text_packet, view_corner, view_fits,
};
use crate::network::packet::PacketOut;
use crate::player::{InventorySlot, Player, PlayerView};
use crossbeam_queue::SegQueue;
use vstd::prelude::*;

verus! {

/// The lock-free queue of `crossbeam_queue`.
#[verifier::external_type_specification]
#[verifier::external_body]
#[verifier::reject_recursive_types(T)]
pub struct ExSegQueue<T>(SegQueue<T>);

/// The packets held by a queue of outgoing packets, from the oldest to the newest.
pub uninterp spec fn queued_packets(q: SegQueue<Vec<u8>>) -> Seq<Seq<u8>>;

/// `SegQueue::new`: an empty queue.
#[verifier::external_body]
fn queue_new() -> (q: SegQueue<Vec<u8>>)
    ensures
        queued_packets(q) == Seq::<Seq<u8>>::empty(),
{
    SegQueue::new()
}

/// `SegQueue::push`: appends the packet at the tail of the queue.
#[verifier::external_body]
fn queue_push(q: &mut SegQueue<Vec<u8>>, packet: Vec<u8>)
    ensures
        queued_packets(*final(q)) == queued_packets(*old(q)).push(packet@),
{
    q.push(packet)
}

/// `SegQueue::pop`: takes the packet at the head of the queue, or returns
/// `None` and leaves the queue as it is when it is empty.
#[verifier::external_body]
fn queue_pop(q: &mut SegQueue<Vec<u8>>) -> (r: Option<Vec<u8>>)
    ensures
        queued_packets(*old(q)).len() == 0 ==> r is None && queued_packets(*final(q))
            == queued_packets(*old(q)),
        queued_packets(*old(q)).len() > 0 ==> (r matches Some(p) && p@ == queued_packets(
            *old(q),
        )[0] && queued_packets(*final(q)) == queued_packets(*old(q)).drop_first()),
{
    q.pop()
}

/// Failure to frame the queued packets.
#[derive(Debug, Copy, Clone, PartialEq, Eq, Structural)]
pub enum FlushError {
    /// A packet's length plus two does not fit in the 16-bit length prefix.
    PacketTooLong,
}

/// Whether a packet can be framed: its length modulo 2^16, plus two, fits in 16 bits.
pub open spec fn frameable(msg: Seq<u8>) -> bool {
    msg.len() % 65536 + 2 <= 65535
}

/// A framed packet: its length (modulo 2^16) plus two, little-endian, then the packet.
pub open spec fn frame(msg: Seq<u8>) -> Seq<u8> {
    u16_le((msg.len() % 65536 + 2) as u16) + msg
}

/// Whether every packet can be framed.
pub open spec fn all_frameable(msgs: Seq<Seq<u8>>) -> bool
    decreases msgs.len(),
{
    if msgs.len() == 0 {
        true
    } else {
        all_frameable(msgs.drop_last()) && frameable(msgs.last())
    }
}

/// The framed packets, one after the other.
pub open spec fn frames(msgs: Seq<Seq<u8>>) -> Seq<u8>
    decreases msgs.len(),
{
    if msgs.len() == 0 {
        Seq::empty()
    } else {
        frames(msgs.drop_last()) + frame(msgs.last())
    }
}

/// Reading the length prefix of a framed packet gives the packet's length plus
/// two, and the packet follows the prefix unchanged (for packets short enough
/// that the prefix does not wrap).
pub proof fn lemma_frame_roundtrip(msg: Seq<u8>)
    requires
        msg.len() + 2 <= 65535,
    ensures
        frameable(msg),
        le_u16(frame(msg)[0], frame(msg)[1]) == msg.len() + 2,
        frame(msg).skip(2) == msg,
{
    lemma_u16_roundtrip((msg.len() + 2) as u16);
    assert(frame(msg).skip(2) =~= msg);
}

/// Flushing a queue in two parts, one after the other, sends the same bytes as
/// flushing it at once, and fails on the same packets.
pub proof fn lemma_frames_concat(a: Seq<Seq<u8>>, b: Seq<Seq<u8>>)
    ensures
        frames(a + b) == frames(a) + frames(b),
        all_frameable(a + b) == (all_frameable(a) && all_frameable(b)),
    decreases b.len(),
{
    if b.len() == 0 {
        assert(a + b =~= a);
        assert(frames(a) + frames(b) =~= frames(a));
    } else {
        lemma_frames_concat(a, b.drop_last());
        assert((a + b).drop_last() =~= a + b.drop_last());
        assert((a + b).last() == b.last());
        assert(frames(a + b) =~= frames(a) + frames(b));
    }
}

/// The packets that greet a client after login.
pub open spec fn login_sequence(
    map: &WorldMap,
    p: PlayerView,
    status_message: Seq<char>,
    message_of_the_day: Seq<char>,
) -> Seq<Seq<u8>> {
    seq![
        login_packet(),
        equipped_item_packet(InventorySlot::Bag, 0x013D),
        equipped_item_packet(InventorySlot::RightHand, 0x005A),
        equipped_item_packet(InventorySlot::LeftHand, 0x0086),
        map_packet(map, p, p.position, 18, 14),
        text_packet(PacketOut::StatusMessage, status_message),
        text_packet(PacketOut::MessageOfTheDay, message_of_the_day),
    ]
}

/// Whether a map view of the given size around `center` can be built.
pub fn can_view(center: Position, width: u16, height: u16) -> (r: bool)
    ensures
        r == view_fits(center, width, height),
{
    if width < 1 || height < 1 {
        return false;
    }
    let half_w = (width - 1) / 2;
    let half_h = (height - 1) / 2;
    let cx: u32 = if center.x >= half_w { (center.x - half_w) as u32 } else { 0 };
    let cy: u32 = if center.y >= half_h { (center.y - half_h) as u32 } else { 0 };
    assert(cx == view_corner(center, width, height).x);
    assert(cy == view_corner(center, width, height).y);
    cx + width as u32 - 1 <= 65535 && cy + height as u32 - 1 <= 65535
}

/// A client connection: the character played over it and the packets waiting
/// to be sent to the client.
pub struct Connection {
    player: Player,
    message_queue: SegQueue<Vec<u8>>,
}

impl Connection {
    /// The character played over the connection.
    pub closed spec fn spec_player(&self) -> PlayerView {
        self.player@
    }

    /// The packets waiting to be sent, oldest first.
    pub closed spec fn queued(&self) -> Seq<Seq<u8>> {
        queued_packets(self.message_queue)
    }

    /// The character's outfit can be encoded, so every packet about it can be built.
    pub open spec fn wf(&self) -> bool {
        self.spec_player().outfit.is_packable()
    }

    /// A connection for the given character, with no packets waiting.
    pub fn new(player: Player) -> (r: Self)
        requires
            player.outfit.is_packable(),
        ensures
            r.spec_player() == player@,
            r.queued() == Seq::<Seq<u8>>::empty(),
            r.wf(),
    {
        Connection { player, message_queue: queue_new() }
    }

    /// Queues an outgoing packet; empty packets are dropped.
    pub fn enqueue(&mut self, msg: Vec<u8>)
        ensures
            final(self).spec_player() == old(self).spec_player(),
            final(self).queued() == if msg@.len() == 0 {
                old(self).queued()
            } else {
                old(self).queued().push(msg@)
            },
    {
        if msg.len() > 0 {
            queue_push(&mut self.message_queue, msg);
        }
    }

    /// Takes all queued packets and frames each one with its length plus two,
    /// as a little-endian 16-bit value; returns the framed bytes to send. The
    /// queue is empty afterwards. A packet whose length (taken modulo 2^16)
    /// plus two does not fit in 16 bits cannot be framed, and then the result
    /// is an error.
    pub fn flush(&mut self) -> (r: Result<Vec<u8>, FlushError>)
        ensures
            final(self).spec_player() == old(self).spec_player(),
            final(self).queued() == Seq::<Seq<u8>>::empty(),
            all_frameable(old(self).queued()) ==> (r matches Ok(bytes) && bytes@ == frames(
                old(self).queued(),
            )),
            !all_frameable(old(self).queued()) ==> r == Err::<Vec<u8>, FlushError>(
                FlushError::PacketTooLong,
            ),
    {
        let ghost all = self.queued();
        let mut out: Vec<u8> = Vec::new();
        let mut ok = true;
        let ghost mut taken: Seq<Seq<u8>> = Seq::empty();
        loop
            invariant
                all == taken + self.queued(),
                self.spec_player() == old(self).spec_player(),
                ok == all_frameable(taken),
                ok ==> out@ == frames(taken),
            ensures
                self.queued() == Seq::<Seq<u8>>::empty(),
                taken == all,
            decreases self.queued().len(),
        {
            let ghost before = self.queued();
            match queue_pop(&mut self.message_queue) {
                Some(msg) => {
                    proof {
                        assert(before == seq![msg@] + self.queued());
                        assert(taken.push(msg@) + self.queued() =~= all);
                        assert(taken.push(msg@).drop_last() =~= taken);
                        taken = taken.push(msg@);
                    }
                    let size = (msg.len() % 65536) as u16;
                    if size <= 65533 {
                        let mut framed: Vec<u8> = Vec::new();
                        framed.push(((size + 2) % 256) as u8);
                        framed.push(((size + 2) / 256) as u8);
                        if ok {
                            out.append(&mut framed);
                            out.extend_from_slice(msg.as_slice());
                        }
                    } else {
                        ok = false;
                    }
                },
                None => {
                    assert(taken =~= all);
                    assert(self.queued() =~= Seq::<Seq<u8>>::empty());
                    break;
                },
            }
        }
        if ok {
            Ok(out)
        } else {
            Err(FlushError::PacketTooLong)
        }
    }

    /// Queues the packets that greet a client after login: the login packet,
    /// the bag, the sword in the right hand and the bread in the left hand,
    /// the 18x14 map view around the character, the status message and the
    /// message of the day.
    pub fn send_login_sequence(&mut self, map: &WorldMap, status_message: &str, message_of_the_day: &str)
        requires
            old(self).wf(),
            view_fits(old(self).spec_player().position, 18, 14),
        ensures
            final(self).spec_player() == old(self).spec_player(),
            final(self).queued() == old(self).queued() + login_sequence(
                map,
                old(self).spec_player(),
                status_message@,
                message_of_the_day@,
            ),
    {
        let pos = self.player.position;
        let login = self.send_login();
        self.enqueue(login);
        let bag = self.send_equipped_item(InventorySlot::Bag, 0x013D);
        let right_hand = self.send_equipped_item(InventorySlot::RightHand, 0x005A);
        let left_hand = self.send_equipped_item(InventorySlot::LeftHand, 0x0086);
        self.enqueue(bag);
        self.enqueue(right_hand);
        self.enqueue(left_hand);
        let map_view = self.send_map(map, pos, 18, 14);
        self.enqueue(map_view);
        let status = self.send_status_message(status_message);
        let motd = self.send_message_of_the_day(message_of_the_day);
        self.enqueue(status);
        self.enqueue(motd);
        assert(self.queued() =~= old(self).queued() + login_sequence(
            map,
            old(self).spec_player(),
            status_message@,
            message_of_the_day@,
        ));
    }

    /// The character played over the connection.
    pub fn player(&self) -> (r: &Player)
        ensures
            r@ == self.spec_player(),
    {
        &self.player
    }
}

} // verus!
