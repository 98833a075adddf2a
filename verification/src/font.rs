//! The bitmap font the menus are drawn with: 8x16 glyphs for the printable
//! ASCII characters, laid out sixteen to a row in one luminance texture.
use vstd::prelude::*;

verus! {

pub const GLYPH_WIDTH: u32 = 8;

pub const GLYPH_HEIGHT: u32 = 16;

pub const GLYPHS_PER_ROW: u32 = 16;

/// The first character the font draws.
pub const FONT_START: u32 = 32;

/// The last character the font draws.
pub const FONT_END: u32 = 126;

/// Width of the glyph texture, in pixels.
pub const ATLAS_WIDTH: usize = 128;

/// Height of the glyph texture, in pixels.
pub const ATLAS_HEIGHT: usize = 96;

/// How many bytes of glyph rows the texture has room for.
pub const ATLAS_BYTES: usize = 1536;

/// The size of the glyph texture: sixteen glyphs to a row, as many rows as
/// the font's characters need.
pub fn atlas_size() -> (r: (u32, u32))
    ensures
        r.0 == ATLAS_WIDTH,
        r.1 == ATLAS_HEIGHT,
{
    let num_chars = FONT_END - FONT_START + 1;
    let tex_width = GLYPHS_PER_ROW * GLYPH_WIDTH;
    let tex_height = ((num_chars + GLYPHS_PER_ROW - 1) / GLYPHS_PER_ROW) * GLYPH_HEIGHT;
    (tex_width, tex_height)
}

/// Whether pixel column `bit` (0 leftmost) of a glyph row is lit.
pub open spec fn glyph_bit(row: u8, bit: int) -> bool {
    row & (0x80u8 >> (bit as u8)) != 0
}

/// The font byte that pixel `p` of the texture comes from: glyph `c`'s
/// rows are bytes `16 * c` to `16 * c + 15`, and glyph `c` sits in column
/// `c % 16` and row `c / 16` of the grid.
pub open spec fn atlas_source_byte(p: int) -> int {
    let y = p / ATLAS_WIDTH as int;
    let x = p % ATLAS_WIDTH as int;
    ((y / 16) * 16 + x / 8) * 16 + y % 16
}

/// The pixel column of its glyph row that pixel `p` shows.
pub open spec fn atlas_source_bit(p: int) -> int {
    (p % ATLAS_WIDTH as int) % 8
}

/// Pixel `p` of the texture for the font rows `font`: lit (255) where its
/// glyph row has the bit set, dark (0) elsewhere.
pub open spec fn atlas_pixel(font: Seq<u8>, p: int) -> u8 {
    let i = atlas_source_byte(p);
    if i < font.len() && glyph_bit(font[i], atlas_source_bit(p)) {
        255
    } else {
        0
    }
}

/// The texture pixel that bit `bit` of font byte `i` lights.
pub open spec fn atlas_target(i: int, bit: int) -> int {
    let c = i / 16;
    let row = i % 16;
    ((c / 16) * 16 + row) * ATLAS_WIDTH as int + (c % 16) * 8 + bit
}

proof fn lemma_atlas_target(i: int, bit: int)
    requires
        0 <= i < ATLAS_BYTES,
        0 <= bit < 8,
    ensures
        0 <= atlas_target(i, bit) < ATLAS_WIDTH * ATLAS_HEIGHT,
        atlas_source_byte(atlas_target(i, bit)) == i,
        atlas_source_bit(atlas_target(i, bit)) == bit,
{
    let c = i / 16;
    let row = i % 16;
    let y = (c / 16) * 16 + row;
    let x = (c % 16) * 8 + bit;
    assert(0 <= x < 128);
    assert(0 <= y < 96);
    assert(atlas_target(i, bit) == y * 128 + x);
    assert((y * 128 + x) / 128 == y);
    assert((y * 128 + x) % 128 == x);
    assert(y / 16 == c / 16);
    assert(y % 16 == row);
    assert(x / 8 == c % 16);
    assert(x % 8 == bit);
}

/// The glyph texture for the font rows `font`, row by row, one byte per pixel.
pub fn font_atlas(font: &[u8]) -> (r: Vec<u8>)
    requires
        font@.len() <= ATLAS_BYTES,
    ensures
        r@.len() == ATLAS_WIDTH * ATLAS_HEIGHT,
        forall|p: int| 0 <= p < r@.len() ==> #[trigger] r@[p] == atlas_pixel(font@, p),
{
    let (tex_width, tex_height) = atlas_size();
    let total = (tex_width * tex_height) as usize;
    let mut pixels: Vec<u8> = Vec::new();
    let mut k: usize = 0;
    while k < total
        invariant
            total == ATLAS_WIDTH * ATLAS_HEIGHT,
            k <= total,
            pixels@.len() == k,
            forall|p: int| 0 <= p < k ==> pixels@[p] == 0u8,
        decreases total - k,
    {
        pixels.push(0);
        k = k + 1;
    }
    let mut i: usize = 0;
    while i < font.len()
        invariant
            font@.len() <= ATLAS_BYTES,
            i <= font@.len(),
            pixels@.len() == ATLAS_WIDTH * ATLAS_HEIGHT,
            forall|p: int|
                0 <= p < pixels@.len() ==> #[trigger] pixels@[p] == (if atlas_source_byte(p) < i
                    && glyph_bit(font@[atlas_source_byte(p)], atlas_source_bit(p)) {
                    255u8
                } else {
                    0u8
                }),
        decreases font@.len() - i,
    {
        let byte = font[i];
        let char_index = i / 16;
        let row_in_char = i % 16;
        let gx = (char_index % 16) * 8;
        let gy = (char_index / 16) * 16 + row_in_char;
        let mut bit: usize = 0;
        while bit < 8
            invariant
                font@.len() <= ATLAS_BYTES,
                i < font@.len(),
                byte == font@[i as int],
                gx == ((i / 16) % 16) * 8,
                gy == ((i / 16) / 16) * 16 + i % 16,
                bit <= 8,
                pixels@.len() == ATLAS_WIDTH * ATLAS_HEIGHT,
                forall|p: int|
                    0 <= p < pixels@.len() ==> #[trigger] pixels@[p] == (if (atlas_source_byte(p)
                        < i || (atlas_source_byte(p) == i && atlas_source_bit(p) < bit))
                        && glyph_bit(font@[atlas_source_byte(p)], atlas_source_bit(p)) {
                        255u8
                    } else {
                        0u8
                    }),
            decreases 8 - bit,
        {
            proof {
                lemma_atlas_target(i as int, bit as int);
            }
            let lit = byte & (0x80u8 >> (bit as u8)) != 0;
            if lit {
                let idx = gy * ATLAS_WIDTH + gx + bit;
                assert(idx == atlas_target(i as int, bit as int));
                pixels.set(idx, 255);
                assert forall|p: int| 0 <= p < pixels@.len() && p != idx implies atlas_source_byte(
                    p,
                ) != i || atlas_source_bit(p) != bit by {
                    if atlas_source_byte(p) == i && atlas_source_bit(p) == bit {
                        let y = p / 128;
                        let x = p % 128;
                        assert(p == y * 128 + x);
                    }
                }
            }
            bit = bit + 1;
        }
        i = i + 1;
    }
    pixels
}

/// The width and height of `text` drawn in the font, in pixels: one glyph
/// per character.
pub fn measure_text(text: &str) -> (r: (u32, u32))
    requires
        (text@.len() as u32) * GLYPH_WIDTH <= u32::MAX,
    ensures
        r.0 == (text@.len() as u32) * GLYPH_WIDTH,
        r.1 == GLYPH_HEIGHT,
{
    let n = text.unicode_len() as u32;
    (n * GLYPH_WIDTH, GLYPH_HEIGHT)
}

} // verus!
