use vstd::prelude::*;

verus! {

/// Bytes in the whole font table: sixteen glyphs.
pub const FONT_SIZE: usize = 80;

/// The built-in glyphs for the hexadecimal digits `0` to `F`, five rows each,
/// one byte per row with the pixels in the high nibble.
pub const FONT: [u8; 80] = [
    0xF0, 0x90, 0x90, 0x90, 0xF0,
    0x20, 0x60, 0x20, 0x20, 0x70,
    0xF0, 0x10, 0xF0, 0x80, 0xF0,
    0xF0, 0x10, 0xF0, 0x10, 0xF0,
    0x90, 0x90, 0xF0, 0x10, 0x10,
    0xF0, 0x80, 0xF0, 0x10, 0xF0,
    0xF0, 0x80, 0xF0, 0x90, 0xF0,
    0xF0, 0x10, 0x20, 0x40, 0x40,
    0xF0, 0x90, 0xF0, 0x90, 0xF0,
    0xF0, 0x90, 0xF0, 0x10, 0xF0,
    0xF0, 0x90, 0xF0, 0x90, 0x90,
    0xE0, 0x90, 0xE0, 0x90, 0xE0,
    0xF0, 0x80, 0x80, 0x80, 0xF0,
    0xE0, 0x90, 0x90, 0x90, 0xE0,
    0xF0, 0x80, 0xF0, 0x80, 0xF0,
    0xF0, 0x80, 0xF0, 0x80, 0x80,
];

/// The font table as a sequence of eighty bytes.
pub open spec fn font() -> Seq<u8> {
    FONT@
}

/// The five rows of the glyph for `digit`.
pub open spec fn glyph(digit: int) -> Seq<u8> {
    font().subrange(5 * digit, 5 * digit + 5)
}

/// Whether the font table stands at the base of `mem`.
pub open spec fn font_installed(mem: Seq<u8>) -> bool {
    mem.len() >= 80 && mem.subrange(0, 80) == font()
}

} // verus!
