//! Translation of Unicode chat text into the single-byte character encoding of
//! the Tibia 1.03 client (German umlauts, sharp s and Scandinavian letters).
use vstd::prelude::*;

verus! {

/// The client byte of a character: the listed umlauts and Scandinavian letters
/// map to their Latin-1 codes, any other character to the low byte of its
/// code point.
pub open spec fn translate_char(c: char) -> u8 {
    if c == 'Ä' {
        0xC4
    } else if c == 'Å' {
        0xC5
    } else if c == 'Æ' {
        0xC6
    } else if c == 'Ö' {
        0xD6
    } else if c == 'Ø' {
        0xD8
    } else if c == 'Ü' {
        0xDC
    } else if c == 'ß' {
        0xDF
    } else if c == 'ä' {
        0xE4
    } else if c == 'å' {
        0xE5
    } else if c == 'æ' {
        0xE6
    } else if c == 'ö' {
        0xF6
    } else if c == 'ø' {
        0xF8
    } else if c == 'ü' {
        0xFC
    } else {
        low_byte(c)
    }
}

/// The client byte of a character in shouted text: upper and lower case of the
/// listed letters both map to the upper-case code.
pub open spec fn translate_upper_char(c: char) -> u8 {
    if c == 'Ä' || c == 'ä' {
        0xC4
    } else if c == 'Å' || c == 'å' {
        0xC5
    } else if c == 'Ö' || c == 'ö' {
        0xD6
    } else if c == 'Ü' || c == 'ü' {
        0xDC
    } else if c == 'ß' {
        0xDF
    } else if c == 'æ' || c == 'Æ' {
        0xE6
    } else if c == 'ø' || c == 'Ø' {
        0xF8
    } else {
        low_byte(c)
    }
}

/// The low byte of a character's code point.
pub open spec fn low_byte(c: char) -> u8 {
    (c as u32 % 256) as u8
}

/// The client bytes of a text, one byte per character.
pub open spec fn spec_translate(s: Seq<char>) -> Seq<u8> {
    s.map_values(|c: char| translate_char(c))
}

/// The client bytes of a shouted text, one byte per character.
pub open spec fn spec_translate_upper(s: Seq<char>) -> Seq<u8> {
    s.map_values(|c: char| translate_upper_char(c))
}

/// The client encoding has one byte per character.
pub proof fn lemma_one_byte_per_char(s: Seq<char>)
    ensures
        spec_translate(s).len() == s.len(),
        spec_translate_upper(s).len() == s.len(),
{
}

fn char_low_byte(c: char) -> (r: u8)
    ensures
        r == low_byte(c),
{
    (c as u32 % 256) as u8
}

/// Translates Unicode chat text into the client's single-byte encoding.
pub fn translate(input: &str) -> (r: Vec<u8>)
    ensures
        r@ == spec_translate(input@),
{
    let n = input.unicode_len();
    let mut out: Vec<u8> = Vec::new();
    let mut i: usize = 0;
    while i < n
        invariant
            n == input@.len(),
            i <= n,
            out@ == spec_translate(input@.take(i as int)),
        decreases n - i,
    {
        let c = input.get_char(i);
        let b: u8 = match c {
            'Ä' => 0xC4,
            'Å' => 0xC5,
            'Æ' => 0xC6,
            'Ö' => 0xD6,
            'Ø' => 0xD8,
            'Ü' => 0xDC,
            'ß' => 0xDF,
            'ä' => 0xE4,
            'å' => 0xE5,
            'æ' => 0xE6,
            'ö' => 0xF6,
            'ø' => 0xF8,
            'ü' => 0xFC,
            c => char_low_byte(c),
        };
        out.push(b);
        assert(input@.take(i + 1) == input@.take(i as int).push(c));
        i = i + 1;
    }
    assert(input@.take(n as int) == input@);
    out
}

/// Translates upper-cased chat text into the client's single-byte encoding.
pub fn translate_upper(input: &str) -> (r: Vec<u8>)
    ensures
        r@ == spec_translate_upper(input@),
{
    let n = input.unicode_len();
    let mut out: Vec<u8> = Vec::new();
    let mut i: usize = 0;
    while i < n
        invariant
            n == input@.len(),
            i <= n,
            out@ == spec_translate_upper(input@.take(i as int)),
        decreases n - i,
    {
        let c = input.get_char(i);
        let b: u8 = match c {
            'Ä' | 'ä' => 0xC4,
            'Å' | 'å' => 0xC5,
            'Ö' | 'ö' => 0xD6,
            'Ü' | 'ü' => 0xDC,
            'ß' => 0xDF,
            'æ' | 'Æ' => 0xE6,
            'ø' | 'Ø' => 0xF8,
            c => char_low_byte(c),
        };
        out.push(b);
        assert(input@.take(i + 1) == input@.take(i as int).push(c));
        i = i + 1;
    }
    assert(input@.take(n as int) == input@);
    out
}

} // verus!
