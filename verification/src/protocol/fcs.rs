//! The frame checksum.

use crate::protocol::error::ProtocolError;
use crate::protocol::text::{hex_char, hex_digit};
use vstd::prelude::*;
use vstd::utf8::{encode_utf8, is_ascii_chars, is_ascii_chars_encode_utf8};

verus! {

/// XOR of all bytes of a sequence, folded from the left, starting at zero.
pub open spec fn xor_all(bytes: Seq<u8>) -> u8
    decreases bytes.len(),
{
    if bytes.len() == 0 {
        0u8
    } else {
        xor_all(bytes.drop_last()) ^ bytes.last()
    }
}

/// The high and the low four bits of a byte, each as a value below sixteen.
pub open spec fn nibbles(x: u8) -> (u8, u8) {
    ((x & 0xf0) >> 4, x & 0x0f)
}

/// The checksum of a text: the two halves of the XOR of all bytes of its
/// UTF-8 encoding. For ASCII text these bytes are the characters themselves.
pub open spec fn checksum(text: Seq<char>) -> (u8, u8) {
    nibbles(xor_all(encode_utf8(text)))
}

/// The law that the checksum of ASCII text is taken over the characters'
/// own codes, one byte for each character.
pub proof fn lemma_checksum_of_ascii(text: Seq<char>)
    requires
        is_ascii_chars(text),
    ensures
        checksum(text) == nibbles(xor_all(Seq::new(text.len(), |i: int| text[i] as u8))),
{
    is_ascii_chars_encode_utf8(text);
    assert(encode_utf8(text) =~= Seq::new(text.len(), |i: int| text[i] as u8));
}

/// The law that both checksum digits are below sixteen, and that together
/// they are the XOR of all bytes: sixteen times the high digit plus the low
/// one.
pub proof fn lemma_nibbles_make_the_byte(x: u8)
    ensures
        nibbles(x).0 <= 15,
        nibbles(x).1 <= 15,
        nibbles(x).0 * 16 + nibbles(x).1 == x,
{
    assert(((x & 0xf0) >> 4) <= 15 && (x & 0x0f) <= 15 && ((x & 0xf0) >> 4) * 16 + (x & 0x0f) == x)
        by (bit_vector);
}

/// The two checksum digits of a frame.
#[derive(Debug, Clone, Copy, PartialEq, Eq, PartialOrd, Ord, Hash, Structural)]
pub struct FcsBytes(u8, u8);

impl View for FcsBytes {
    type V = (u8, u8);

    closed spec fn view(&self) -> (u8, u8) {
        (self.0, self.1)
    }
}

impl FcsBytes {
    #[verifier::type_invariant]
    spec fn both_below_sixteen(self) -> bool {
        self.0 <= 15 && self.1 <= 15
    }

    /// The two digits as one number: the high digit counts ten times.
    #[must_use]
    pub fn value(self) -> (v: u8)
        ensures
            v == self@.1 + self@.0 * 10,
            self@.0 <= 15,
            self@.1 <= 15,
    {
        proof {
            use_type_invariant(&self);
        }
        self.1 + (self.0 * 10)
    }

    /// The two digits as they stand in a frame, each in upper-case hexadecimal.
    pub fn to_string(&self) -> (s: String)
        ensures
            s@ == seq![hex_char(self@.0), hex_char(self@.1)],
            self@.0 <= 15,
            self@.1 <= 15,
    {
        proof {
            use_type_invariant(self);
        }
        let mut s = String::new();
        s.push(hex_digit(self.0));
        s.push(hex_digit(self.1));
        assert(s@ =~= seq![hex_char(self@.0), hex_char(self@.1)]);
        s
    }
}

/// Calculates the FCS checksum of the part of a frame that it covers: from
/// the start marker to the end of the parameters. Every byte of the input
/// is accounted into the checksum, so the input must hold nothing else.
pub fn fcs(cmd_fcs_range: &str) -> (r: Result<FcsBytes, ProtocolError>)
    ensures
        r is Ok,
        r->Ok_0@ == checksum(cmd_fcs_range@),
{
    let bytes = cmd_fcs_range.as_bytes();
    let mut fcs: u8 = 0;
    let mut i: usize = 0;
    while i < bytes.len()
        invariant
            i <= bytes.len(),
            fcs == xor_all(bytes@.take(i as int)),
        decreases bytes.len() - i,
    {
        proof {
            assert(bytes@.take(i + 1).drop_last() =~= bytes@.take(i as int));
        }
        fcs = fcs ^ bytes[i];
        i = i + 1;
    }
    proof {
        assert(bytes@.take(i as int) =~= bytes@);
    }
    let first_four = (fcs & 0b1111_0000) >> 4;
    let last_four = fcs & 0b0000_1111;
    assert(first_four <= 15 && last_four <= 15) by (bit_vector)
        requires
            first_four == (fcs & 0b1111_0000) >> 4,
            last_four == fcs & 0b0000_1111,
    ;
    Ok(FcsBytes(first_four, last_four))
}

} // verus!
