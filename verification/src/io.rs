//! Encoding and decoding of the primitive fields of Tibia 1.03 packets.
use crate::map::position::Position;
use crate::network::packet::{packet_out_code, PacketOut};
use crate::player::{packs_into_byte, Gender, OutfitColors};
use vstd::prelude::*;
use vstd::utf8::{encode_utf8, is_ascii_chars};

verus! {

/// Failure to decode a packet field.
#[derive(Debug, Copy, Clone, PartialEq, Eq, Structural)]
pub enum ReadError {
    /// The packet ended before the field did.
    UnexpectedEof,
}

/// The two little-endian bytes of a 16-bit value.
pub open spec fn u16_le(v: u16) -> Seq<u8> {
    seq![(v % 256) as u8, (v / 256) as u8]
}

/// The four little-endian bytes of a 32-bit value.
pub open spec fn u32_le(v: u32) -> Seq<u8> {
    seq![(v % 256) as u8, ((v / 256) % 256) as u8, ((v / 65536) % 256) as u8, (v / 16777216) as u8]
}

/// The 16-bit value of two little-endian bytes.
pub open spec fn le_u16(lo: u8, hi: u8) -> u16 {
    (lo as int + 256 * hi as int) as u16
}

/// `count` zero bytes.
pub open spec fn zeroes(count: nat) -> Seq<u8> {
    Seq::new(count, |i: int| 0u8)
}

/// Bytes read as single-byte characters (each byte is the code point).
pub open spec fn latin1(bytes: Seq<u8>) -> Seq<char> {
    bytes.map_values(|b: u8| b as char)
}

/// Index of the first zero byte, or the length when there is none.
pub open spec fn nul_index(bytes: Seq<u8>) -> nat
    decreases bytes.len(),
{
    if bytes.len() == 0 {
        0
    } else if bytes[0] == 0 {
        0
    } else {
        1 + nul_index(bytes.drop_first())
    }
}

/// The text of a zero-terminated field: the bytes before the first zero byte.
pub open spec fn text_of(bytes: Seq<u8>) -> Seq<u8> {
    bytes.take(nul_index(bytes) as int)
}

/// The byte that packs two 4-bit values: `(high << 4) + low`.
pub open spec fn u4_byte(high: u8, low: u8) -> u8 {
    ((high as int * 16) % 256 + low as int) as u8
}

/// The packet header: four zero bytes and the one-byte packet identifier.
pub open spec fn packet_header(p: PacketOut) -> Seq<u8> {
    seq![0u8, 0u8, 0u8, 0u8, (packet_out_code(p) % 256) as u8]
}

/// The three bytes of an outfit: legs/shoes, head/body, and a zero byte.
pub open spec fn outfit_bytes(o: OutfitColors) -> Seq<u8> {
    seq![u4_byte(o.legs, o.shoes), u4_byte(o.head, o.body), 0u8]
}

/// The wire byte of a gender.
pub open spec fn gender_byte(g: Gender) -> u8 {
    match g {
        Gender::Male => 1,
        Gender::Female => 0,
    }
}

/// The gender that a wire byte stands for: 1 is male, anything else female.
pub open spec fn gender_of(b: u8) -> Gender {
    if b == 1 {
        Gender::Male
    } else {
        Gender::Female
    }
}

/// The two bytes of a position on the wire: the low bytes of `x` and `y`.
pub open spec fn position_bytes(p: Position) -> Seq<u8> {
    seq![(p.x % 256) as u8, (p.y % 256) as u8]
}

/// A fixed-size text field: the text cut to `length` bytes, or padded with
/// zero bytes up to `length`.
pub open spec fn fixed_field(bytes: Seq<u8>, length: nat) -> Seq<u8> {
    if bytes.len() >= length {
        bytes.take(length as int)
    } else {
        bytes + zeroes((length - bytes.len()) as nat)
    }
}

/// The bytes of a string followed by a zero byte.
pub open spec fn nul_terminated(s: Seq<char>) -> Seq<u8> {
    encode_utf8(s).push(0u8)
}

/// The zero byte at `i`, preceded only by non-zero bytes, is the first one.
proof fn lemma_nul_index_is(bytes: Seq<u8>, i: int)
    requires
        0 <= i <= bytes.len(),
        forall|j: int| 0 <= j < i ==> bytes[j] != 0,
        i == bytes.len() || bytes[i] == 0,
    ensures
        nul_index(bytes) == i,
    decreases bytes.len(),
{
    if i > 0 {
        assert forall|j: int| 0 <= j < i - 1 implies bytes.drop_first()[j] != 0 by {
            assert(bytes.drop_first()[j] == bytes[j + 1]);
        }
        lemma_nul_index_is(bytes.drop_first(), i - 1);
    }
}

/// Reading a little-endian 16-bit value gives back the value written.
pub proof fn lemma_u16_roundtrip(v: u16)
    ensures
        le_u16(u16_le(v)[0], u16_le(v)[1]) == v,
{
}

/// Two 4-bit values packed into a byte can be packed without overflow and are
/// read back unchanged (high nibble first).
pub proof fn lemma_u4_roundtrip(high: u8, low: u8)
    requires
        high < 16,
        low < 16,
    ensures
        packs_into_byte(high, low),
        u4_byte(high, low) / 16 == high,
        u4_byte(high, low) % 16 == low,
{
}

/// Outfit colors of 4-bit values can be written, and reading the written
/// bytes gives the same outfit.
pub proof fn lemma_outfit_roundtrip(o: OutfitColors)
    requires
        o.head < 16,
        o.body < 16,
        o.legs < 16,
        o.shoes < 16,
    ensures
        o.is_packable(),
        (OutfitColors {
            head: outfit_bytes(o)[1] / 16,
            body: outfit_bytes(o)[1] % 16,
            legs: outfit_bytes(o)[0] / 16,
            shoes: outfit_bytes(o)[0] % 16,
        }) == o,
{
    lemma_u4_roundtrip(o.legs, o.shoes);
    lemma_u4_roundtrip(o.head, o.body);
}

/// An outfit read from the wire consists of 4-bit values, so it can be written.
pub proof fn lemma_read_outfit_packable(b0: u8, b1: u8)
    ensures
        (OutfitColors { head: b1 / 16, body: b1 % 16, legs: b0 / 16, shoes: b0 % 16 }).is_packable(),
{
    lemma_u4_roundtrip(b0 / 16, b0 % 16);
    lemma_u4_roundtrip(b1 / 16, b1 % 16);
}

/// A fixed-size field is exactly as long as its size.
pub proof fn lemma_fixed_field_len(bytes: Seq<u8>, length: nat)
    ensures
        fixed_field(bytes, length).len() == length,
{
}

/// A text written into a fixed-size field is read back unchanged when it fits
/// the field, and cut to the field's size when it is longer; the text is ASCII
/// without zero characters.
pub proof fn lemma_fixed_string_roundtrip(s: Seq<char>, length: nat)
    requires
        is_ascii_chars(s),
        forall|i: int| 0 <= i < s.len() ==> s[i] != '\0',
    ensures
        latin1(text_of(fixed_field(encode_utf8(s), length))) == if s.len() <= length {
            s
        } else {
            s.take(length as int)
        },
{
    vstd::utf8::is_ascii_chars_encode_utf8(s);
    vstd::utf8::is_ascii_chars_nat_bound(s);
    let bytes = encode_utf8(s);
    let field = fixed_field(bytes, length);
    let n: int = if s.len() <= length { s.len() as int } else { length as int };
    assert forall|j: int| 0 <= j < n implies field[j] != 0 && field[j] == s[j] as u8 by {
        assert(field[j] == bytes[j]);
    }
    if s.len() < length {
        assert(field[s.len() as int] == 0);
    }
    lemma_nul_index_is(field, n);
    assert forall|j: int| 0 <= j < n implies (s[j] as u8) as char == s[j] by {}
    assert(latin1(text_of(field)) =~= s.take(n));
    if s.len() <= length {
        assert(s.take(n) =~= s);
    }
}

/// Sequential reader over the bytes of a packet, which is held whole in memory.
/// A read that would run past the end of the packet fails with
/// `UnexpectedEof` before it consumes anything: the unread bytes, and a text
/// buffer it was given, stay as they were. (A reader over a stream would have
/// consumed the bytes that were there; after such an error the packet is
/// dropped either way.)
pub trait ReadExt: Sized {
    /// The bytes that have not been read yet.
    spec fn unread(&self) -> Seq<u8>;

    /// Reads one byte.
    fn read_u8(&mut self) -> (r: Result<u8, ReadError>)
        ensures
            old(self).unread().len() >= 1 ==> r == Ok::<u8, ReadError>(old(self).unread()[0])
                && final(self).unread() == old(self).unread().drop_first(),
            old(self).unread().len() < 1 ==> r == Err::<u8, ReadError>(ReadError::UnexpectedEof)
                && final(self).unread() == old(self).unread(),
    ;

    /// Reads a little-endian 16-bit value.
    fn read_u16_le(&mut self) -> (r: Result<u16, ReadError>)
        ensures
            old(self).unread().len() >= 2 ==> r == Ok::<u16, ReadError>(
                le_u16(old(self).unread()[0], old(self).unread()[1]),
            ) && final(self).unread() == old(self).unread().skip(2),
            old(self).unread().len() < 2 ==> r == Err::<u16, ReadError>(ReadError::UnexpectedEof)
                && final(self).unread() == old(self).unread(),
    ;

    /// Reads a byte that packs two 4-bit values, high nibble first.
    fn read_u4(&mut self) -> (r: Result<(u8, u8), ReadError>)
        ensures
            old(self).unread().len() >= 1 ==> r == Ok::<(u8, u8), ReadError>(
                (old(self).unread()[0] / 16, old(self).unread()[0] % 16),
            ) && final(self).unread() == old(self).unread().drop_first(),
            old(self).unread().len() < 1 ==> r == Err::<(u8, u8), ReadError>(
                ReadError::UnexpectedEof,
            ) && final(self).unread() == old(self).unread(),
    ;

    /// Reads a fixed-size field of `max_size` bytes that holds a zero-terminated
    /// text, appends the text to `buf` (each byte one character) and returns the
    /// length of `buf` in bytes.
    fn read_string(&mut self, buf: &mut String, max_size: u16) -> (r: Result<usize, ReadError>)
        ensures
            old(self).unread().len() >= max_size ==> {
                &&& final(buf)@ == old(buf)@ + latin1(
                    text_of(old(self).unread().take(max_size as int)),
                )
                &&& final(self).unread() == old(self).unread().skip(max_size as int)
                &&& r == Ok::<usize, ReadError>(encode_utf8(final(buf)@).len() as usize)
            },
            old(self).unread().len() < max_size ==> {
                &&& r == Err::<usize, ReadError>(ReadError::UnexpectedEof)
                &&& final(buf)@ == old(buf)@
                &&& final(self).unread() == old(self).unread()
            },
    ;

    /// Skips `bytes` bytes.
    fn skip(&mut self, bytes: u16) -> (r: Result<(), ReadError>)
        ensures
            old(self).unread().len() >= bytes ==> r == Ok::<(), ReadError>(())
                && final(self).unread() == old(self).unread().skip(bytes as int),
            old(self).unread().len() < bytes ==> r == Err::<(), ReadError>(
                ReadError::UnexpectedEof,
            ) && final(self).unread() == old(self).unread(),
    ;

    /// Reads a zero-terminated text up to the end of the packet and appends it to
    /// `buf`; the terminator, when there is one, is consumed.
    fn read_string_to_end(&mut self, buf: &mut String) -> (r: Result<(), ReadError>)
        ensures
            r is Ok,
            final(buf)@ == old(buf)@ + latin1(text_of(old(self).unread())),
            nul_index(old(self).unread()) < old(self).unread().len() ==> final(self).unread()
                == old(self).unread().skip(nul_index(old(self).unread()) as int + 1),
            nul_index(old(self).unread()) == old(self).unread().len() ==> final(self).unread()
                == Seq::<u8>::empty(),
    ;

    /// Reads a position: one byte each for `x` and `y`; the floor is always 7.
    fn read_position(&mut self) -> (r: Result<Position, ReadError>)
        ensures
            old(self).unread().len() >= 2 ==> r == Ok::<Position, ReadError>(
                Position { x: old(self).unread()[0] as u16, y: old(self).unread()[1] as u16, z: 7 },
            ) && final(self).unread() == old(self).unread().skip(2),
            old(self).unread().len() < 2 ==> r == Err::<Position, ReadError>(
                ReadError::UnexpectedEof,
            ) && final(self).unread() == old(self).unread(),
    ;

    /// Reads outfit colors: legs/shoes packed in one byte, head/body in the
    /// next, and one unused byte.
    fn read_outfit_colors(&mut self) -> (r: Result<OutfitColors, ReadError>)
        ensures
            old(self).unread().len() >= 3 ==> r == Ok::<OutfitColors, ReadError>(
                OutfitColors {
                    head: old(self).unread()[1] / 16,
                    body: old(self).unread()[1] % 16,
                    legs: old(self).unread()[0] / 16,
                    shoes: old(self).unread()[0] % 16,
                },
            ) && final(self).unread() == old(self).unread().skip(3),
            old(self).unread().len() < 3 ==> r == Err::<OutfitColors, ReadError>(
                ReadError::UnexpectedEof,
            ) && final(self).unread() == old(self).unread(),
    ;

    /// Reads a gender byte: 1 is male, anything else female.
    fn read_gender(&mut self) -> (r: Result<Gender, ReadError>)
        ensures
            old(self).unread().len() >= 1 ==> r == Ok::<Gender, ReadError>(
                gender_of(old(self).unread()[0]),
            ) && final(self).unread() == old(self).unread().drop_first(),
            old(self).unread().len() < 1 ==> r == Err::<Gender, ReadError>(
                ReadError::UnexpectedEof,
            ) && final(self).unread() == old(self).unread(),
    ;
}

/// A reader over an in-memory packet.
pub struct PacketReader<'a> {
    data: &'a [u8],
    pos: usize,
}

impl<'a> PacketReader<'a> {
    #[verifier::type_invariant]
    spec fn in_bounds(&self) -> bool {
        self.pos <= self.data@.len()
    }

    /// A reader positioned at the first byte of `data`.
    pub fn new(data: &'a [u8]) -> (r: Self)
        ensures
            r.unread() == data@,
    {
        let r = PacketReader { data, pos: 0 };
        assert(data@.skip(0) == data@);
        r
    }

    /// Reads the next `n` bytes as a slice.
    pub fn read_bytes(&mut self, n: usize) -> (r: Result<&'a [u8], ReadError>)
        ensures
            old(self).unread().len() >= n ==> (r matches Ok(s) && s@ == old(self).unread().take(
                n as int,
            ) && final(self).unread() == old(self).unread().skip(n as int)),
            old(self).unread().len() < n ==> r == Err::<&'a [u8], ReadError>(
                ReadError::UnexpectedEof,
            ) && final(self).unread() == old(self).unread(),
    {
        proof {
            use_type_invariant(&*self);
        }
        if n > self.data.len() - self.pos {
            return Err(ReadError::UnexpectedEof);
        }
        let start = self.pos;
        let s = slice_subrange(self.data, start, start + n);
        self.pos = start + n;
        assert(s@ == old(self).unread().take(n as int));
        assert(self.unread() == old(self).unread().skip(n as int));
        Ok(s)
    }
}

/// The sub-slice `data[start..end]`.
fn slice_subrange<'a>(data: &'a [u8], start: usize, end: usize) -> (r: &'a [u8])
    requires
        start <= end <= data@.len(),
    ensures
        r@ == data@.subrange(start as int, end as int),
{
    vstd::slice::slice_subrange(data, start, end)
}

/// Appends a character to a string.
#[verifier::external_body]
pub(crate) fn push_char(s: &mut String, c: char)
    ensures
        final(s)@ == old(s)@.push(c),
{
    s.push(c)
}

/// The bytes of `bytes` from `start` on, each taken as one character.
pub(crate) fn latin1_text(bytes: &[u8], start: usize) -> (s: String)
    requires
        start <= bytes@.len(),
    ensures
        s@ == latin1(bytes@.skip(start as int)),
{
    let mut s = String::new();
    let mut i = start;
    while i < bytes.len()
        invariant
            start <= i <= bytes@.len(),
            s@ == latin1(bytes@.subrange(start as int, i as int)),
        decreases bytes.len() - i,
    {
        let b = bytes[i];
        push_char(&mut s, b as char);
        proof {
            assert(bytes@.subrange(start as int, i + 1) == bytes@.subrange(start as int, i as int).push(b));
            assert(latin1(bytes@.subrange(start as int, i + 1)) == latin1(
                bytes@.subrange(start as int, i as int),
            ).push(b as char));
        }
        i = i + 1;
    }
    assert(bytes@.subrange(start as int, i as int) == bytes@.skip(start as int));
    s
}

impl<'a> ReadExt for PacketReader<'a> {
    closed spec fn unread(&self) -> Seq<u8> {
        self.data@.skip(self.pos as int)
    }

    fn read_u8(&mut self) -> (r: Result<u8, ReadError>) {
        proof {
            use_type_invariant(&*self);
        }
        if self.pos < self.data.len() {
            let b = self.data[self.pos];
            self.pos = self.pos + 1;
            assert(self.unread() == old(self).unread().drop_first());
            Ok(b)
        } else {
            Err(ReadError::UnexpectedEof)
        }
    }

    fn read_u16_le(&mut self) -> (r: Result<u16, ReadError>) {
        proof {
            use_type_invariant(&*self);
        }
        if self.data.len() - self.pos >= 2 {
            let lo = self.data[self.pos];
            let hi = self.data[self.pos + 1];
            self.pos = self.pos + 2;
            assert(self.unread() == old(self).unread().skip(2));
            Ok((lo as u16) + 256 * (hi as u16))
        } else {
            Err(ReadError::UnexpectedEof)
        }
    }

    fn read_u4(&mut self) -> (r: Result<(u8, u8), ReadError>) {
        let byte = self.read_u8()?;
        Ok((byte / 16, byte % 16))
    }

    fn read_string(&mut self, buf: &mut String, max_size: u16) -> (r: Result<usize, ReadError>) {
        proof {
            use_type_invariant(&*self);
        }
        if self.data.len() - self.pos < max_size as usize {
            return Err(ReadError::UnexpectedEof);
        }
        let ghost start = old(buf)@;
        let base = self.pos;
        let field = slice_subrange(self.data, base, base + max_size as usize);
        assert(field@ == old(self).unread().take(max_size as int));
        let limit = max_size as usize;
        let mut n: usize = 0;
        while n < limit && field[n] != 0
            invariant
                limit == field@.len(),
                n <= limit,
                forall|j: int| 0 <= j < n ==> field@[j] != 0,
                buf@ == start + latin1(field@.take(n as int)),
            decreases limit - n,
        {
            let b = field[n];
            push_char(buf, b as char);
            proof {
                assert(field@.take(n + 1) == field@.take(n as int).push(b));
                assert(latin1(field@.take(n + 1)) == latin1(field@.take(n as int)).push(b as char));
            }
            n = n + 1;
        }
        proof {
            lemma_nul_index_is(field@, n as int);
        }
        self.pos = base + max_size as usize;
        assert(self.unread() == old(self).unread().skip(max_size as int));
        Ok(buf.as_str().len())
    }

    fn skip(&mut self, bytes: u16) -> (r: Result<(), ReadError>) {
        proof {
            use_type_invariant(&*self);
        }
        if self.data.len() - self.pos >= bytes as usize {
            self.pos = self.pos + bytes as usize;
            assert(self.unread() == old(self).unread().skip(bytes as int));
            Ok(())
        } else {
            Err(ReadError::UnexpectedEof)
        }
    }

    fn read_string_to_end(&mut self, buf: &mut String) -> (r: Result<(), ReadError>) {
        proof {
            use_type_invariant(&*self);
        }
        let ghost rest = old(self).unread();
        let ghost start = old(buf)@;
        let base = self.pos;
        let len = self.data.len();
        let mut n: usize = 0;
        while base + n < len && self.data[base + n] != 0
            invariant
                self.data == old(self).data,
                self.pos == base,
                len == self.data@.len(),
                base <= len,
                rest == self.data@.subrange(base as int, len as int),
                base + n <= len,
                forall|j: int| 0 <= j < n ==> rest[j] != 0,
                buf@ == start + latin1(rest.take(n as int)),
            decreases len - base - n,
        {
            let b = self.data[base + n];
            push_char(buf, b as char);
            proof {
                assert(rest.take(n + 1) == rest.take(n as int).push(b));
                assert(latin1(rest.take(n + 1)) == latin1(rest.take(n as int)).push(b as char));
            }
            n = n + 1;
        }
        proof {
            lemma_nul_index_is(rest, n as int);
        }
        if base + n < len {
            self.pos = base + n + 1;
            assert(self.unread() == rest.skip(n + 1));
        } else {
            self.pos = len;
            assert(self.unread() == Seq::<u8>::empty());
        }
        Ok(())
    }

    fn read_position(&mut self) -> (r: Result<Position, ReadError>) {
        proof {
            use_type_invariant(&*self);
        }
        if self.data.len() - self.pos >= 2 {
            let x = self.read_u8()?;
            let y = self.read_u8()?;
            assert(self.unread() == old(self).unread().skip(2));
            Ok(Position::new(x as u16, y as u16, 7))
        } else {
            Err(ReadError::UnexpectedEof)
        }
    }

    fn read_outfit_colors(&mut self) -> (r: Result<OutfitColors, ReadError>) {
        proof {
            use_type_invariant(&*self);
        }
        if self.data.len() - self.pos >= 3 {
            let (legs, shoes) = self.read_u4()?;
            let (head, body) = self.read_u4()?;
            let _ = self.read_u8()?;
            assert(self.unread() == old(self).unread().skip(3));
            Ok(OutfitColors::new(head, body, legs, shoes))
        } else {
            Err(ReadError::UnexpectedEof)
        }
    }

    fn read_gender(&mut self) -> (r: Result<Gender, ReadError>) {
        let b = self.read_u8()?;
        Ok(
            match b {
                1 => Gender::Male,
                _ => Gender::Female,
            },
        )
    }
}


/// Writer that appends packet fields to a byte buffer.
pub trait WriteExt: Sized {
    /// The bytes written so far.
    spec fn written(&self) -> Seq<u8>;

    /// Writes one byte.
    fn write_u8(&mut self, v: u8)
        ensures
            final(self).written() == old(self).written().push(v),
    ;

    /// Writes a little-endian 16-bit value.
    fn write_u16_le(&mut self, v: u16)
        ensures
            final(self).written() == old(self).written() + u16_le(v),
    ;

    /// Writes a little-endian 32-bit value.
    fn write_u32_le(&mut self, v: u32)
        ensures
            final(self).written() == old(self).written() + u32_le(v),
    ;

    /// Writes all the given bytes.
    fn write_all(&mut self, bytes: &[u8])
        ensures
            final(self).written() == old(self).written() + bytes@,
    ;

    /// Writes a packet header: four zero bytes followed by the packet identifier.
    fn write_packet(&mut self, packet: PacketOut)
        ensures
            final(self).written() == old(self).written() + packet_header(packet),
    ;

    /// Writes two 4-bit values packed into one byte, `high` in the upper half.
    fn write_u4(&mut self, high: u8, low: u8)
        requires
            packs_into_byte(high, low),
        ensures
            final(self).written() == old(self).written().push(u4_byte(high, low)),
    ;

    /// Writes the bytes of a string followed by a zero byte.
    fn write_null_terminated_string(&mut self, s: &str)
        ensures
            final(self).written() == old(self).written() + nul_terminated(s@),
    ;

    /// Writes a string cut or zero-padded to exactly `length` bytes.
    fn write_fixed_string(&mut self, s: &str, length: u16)
        ensures
            final(self).written() == old(self).written() + fixed_field(
                encode_utf8(s@),
                length as nat,
            ),
    ;

    /// Writes `count` zero bytes.
    fn write_zeroes(&mut self, count: usize)
        ensures
            final(self).written() == old(self).written() + zeroes(count as nat),
    ;

    /// Writes a position: the low bytes of `x` and `y`.
    fn write_position(&mut self, pos: Position)
        ensures
            final(self).written() == old(self).written() + position_bytes(pos),
    ;

    /// Writes outfit colors: legs/shoes, head/body, and a zero byte.
    fn write_outfit_colors(&mut self, outfit: OutfitColors)
        requires
            outfit.is_packable(),
        ensures
            final(self).written() == old(self).written() + outfit_bytes(outfit),
    ;

    /// Writes a gender: 1 for male, 0 for female.
    fn write_gender(&mut self, gender: Gender)
        ensures
            final(self).written() == old(self).written().push(gender_byte(gender)),
    ;
}

impl WriteExt for Vec<u8> {
    open spec fn written(&self) -> Seq<u8> {
        self@
    }

    fn write_u8(&mut self, v: u8) {
        self.push(v);
    }

    fn write_u16_le(&mut self, v: u16) {
        self.push((v % 256) as u8);
        self.push((v / 256) as u8);
    }

    fn write_u32_le(&mut self, v: u32) {
        self.push((v % 256) as u8);
        self.push(((v / 256) % 256) as u8);
        self.push(((v / 65536) % 256) as u8);
        self.push((v / 16777216) as u8);
    }

    fn write_all(&mut self, bytes: &[u8]) {
        self.extend_from_slice(bytes);
    }

    fn write_packet(&mut self, packet: PacketOut) {
        self.write_u32_le(0);
        self.write_u8((packet.primitive() % 256) as u8);
    }

    fn write_u4(&mut self, high: u8, low: u8) {
        let shifted = ((high as u16 * 16) % 256) as u8;
        self.write_u8(shifted + low);
    }

    fn write_null_terminated_string(&mut self, s: &str) {
        self.write_all(s.as_bytes());
        self.write_u8(0);
    }

    fn write_fixed_string(&mut self, s: &str, length: u16) {
        let len = length as usize;
        let bytes = s.as_bytes();
        if bytes.len() >= len {
            self.write_all(slice_subrange(bytes, 0, len));
        } else {
            self.write_all(bytes);
            self.write_zeroes(len - bytes.len());
        }
    }

    fn write_zeroes(&mut self, count: usize) {
        let ghost start = self@;
        let mut i: usize = 0;
        while i < count
            invariant
                i <= count,
                self@ == start + zeroes(i as nat),
            decreases count - i,
        {
            self.push(0);
            i = i + 1;
            assert(zeroes(i as nat) == zeroes((i - 1) as nat).push(0u8));
        }
    }

    fn write_position(&mut self, pos: Position) {
        self.write_u8((pos.x % 256) as u8);
        self.write_u8((pos.y % 256) as u8);
    }

    fn write_outfit_colors(&mut self, outfit: OutfitColors) {
        self.write_u4(outfit.legs, outfit.shoes);
        self.write_u4(outfit.head, outfit.body);
        self.write_u8(0);
    }

    fn write_gender(&mut self, gender: Gender) {
        self.write_u8(
            match gender {
                Gender::Male => 1,
                Gender::Female => 0,
            },
        );
    }
}

} // verus!
