use vstd::prelude::*;

verus! {

/// Bounds of masked and shifted 16-bit values.
pub proof fn lemma_u16_fields()
    by (bit_vector)
    ensures
        forall|x: u16| #[trigger] (x & 0x1FFF) <= 0x1FFF,
        forall|x: u16| #[trigger] (x & 0x3FFF) <= 0x3FFF,
        forall|x: u16| #[trigger] (x & 0x7FFF) <= 0x7FFF,
        forall|x: u16| #[trigger] (x & 0x0FFF) <= 0x0FFF,
        forall|x: u16| #[trigger] (x & 0x03FF) <= 0x03FF,
        forall|x: u16| #[trigger] (x & 7) <= 7,
        forall|x: u16| #[trigger] (x & 0xFF) < 256,
        forall|x: u16| #[trigger] ((x >> 13u16) & 0x03) <= 3,
        forall|x: u16| #[trigger] ((x >> 10u16) & 0x07) <= 7,
        forall|x: u16| #[trigger] ((x >> 12u16) & 7) <= 7,
        forall|x: u16| #[trigger] (((x >> 4u16) & 4) | (x & 2)) <= 6,
        forall|x: u16| #[trigger] ((x & 0x03E0) >> 5u16) <= 31,
        forall|x: u16| #[trigger] (0x0100u16 | (x & 0xFF)) <= 0x1FF,
{
}

/// Bounds of masked and shifted 8-bit values, and single flag bits.
pub proof fn lemma_u8_fields()
    by (bit_vector)
    ensures
        forall|x: u8| #[trigger] (x & 0x07) < 8,
        forall|x: u8| #[trigger] (x & 0x0F) < 16,
        forall|x: u8| #[trigger] (x & 0x1F) < 32,
        forall|x: u8| #[trigger] (x & 0x3F) < 64,
        forall|x: u8| #[trigger] (x & 0x7F) <= 127,
        forall|x: u8| #[trigger] (x & 3) < 4,
        forall|x: u8| #[trigger] (x & 0xFE) <= 254,
        forall|x: u8| #[trigger] ((x & 0xF8) >> 3u8) < 32,
        forall|x: u8| #[trigger] ((x & 0xC0) >> 6u8) < 4,
        forall|x: u8, s: u8| #[trigger] ((x >> s) & 3) < 4,
        forall|x: u8| #[trigger] ((x | 0x80) & 0x80) != 0,
        forall|x: u8| #[trigger] ((x | 0x40) & 0x80) == x & 0x80,
        forall|x: u8| #[trigger] ((x | 0x20) & 0x80) == x & 0x80,
        forall|x: u8| #[trigger] ((x & 0x1F) & 0xE0) == 0,
        forall|x: u8| #[trigger] ((x | 0x04) & 0x04) != 0,
        forall|x: u8| #[trigger] (((x | 0x0C) >> 2u8) & 0x03) == 3,
        forall|x: u8| #[trigger] ((x | 0x0C) & 0x08) != 0,
        forall|x: u8| #[trigger] ((x | 0x0C) & 0x13) == x & 0x13,
{
}

} // verus!
