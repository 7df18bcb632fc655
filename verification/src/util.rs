//! Field extraction from a 16-bit instruction word: register indices,
//! immediates and addresses are nibble- or byte-sized slices of the word.

use vstd::prelude::*;

verus! {

/// A 16-bit instruction word or address.
pub type Word = u16;

/// An 8-bit immediate or memory cell.
pub type Byte = u8;

/// A 4-bit field: a register index, sprite height or sub-dispatch key.
pub type Nibble = u8;

/// The low 8 bits of the word: the byte immediate.
pub open spec fn spec_low_byte(word: Word) -> Byte {
    (word & 0xff) as Byte
}

/// The low 4 bits of the word: the sprite height operand.
pub open spec fn spec_low_nibble(word: Word) -> Nibble {
    (word & 0xf) as Nibble
}

/// The low 12 bits of the word: the address operand.
pub open spec fn spec_low_12(word: Word) -> Word {
    word & 0xfff
}

/// Bits 8..=11 of the word: the Vx register index.
pub open spec fn spec_register_x(word: Word) -> Nibble {
    ((word >> 8) & 0xf) as Nibble
}

/// Bits 4..=7 of the word: the Vy register index.
pub open spec fn spec_register_y(word: Word) -> Nibble {
    ((word >> 4) & 0xf) as Nibble
}

pub fn low_byte(word: Word) -> (r: Byte)
    ensures
        r == spec_low_byte(word),
{
    (word & 0xff) as u8
}

pub fn low_nibble(word: Word) -> (r: Nibble)
    ensures
        r == spec_low_nibble(word),
        r < 16,
{
    proof {
        assert(spec_low_nibble(word) < 16) by (bit_vector);
    }
    (word & 0xf) as u8
}

pub fn low_12(word: Word) -> (r: Word)
    ensures
        r == spec_low_12(word),
        r < 0x1000,
{
    proof {
        assert(spec_low_12(word) < 0x1000) by (bit_vector);
    }
    word & 0xfff
}

pub fn register_x(word: Word) -> (r: Nibble)
    ensures
        r == spec_register_x(word),
        r < 16,
{
    proof {
        assert(spec_register_x(word) < 16) by (bit_vector);
    }
    ((word >> 8) & 0xf) as u8
}

pub fn register_y(word: Word) -> (r: Nibble)
    ensures
        r == spec_register_y(word),
        r < 16,
{
    proof {
        assert(spec_register_y(word) < 16) by (bit_vector);
    }
    ((word >> 4) & 0xf) as u8
}

} // verus!
