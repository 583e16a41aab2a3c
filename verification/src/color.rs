//! Palette lookup and the unpacking of packed 32-bit colours.

use vstd::prelude::*;

verus! {

/// A colour of four 8-bit channels.
///
/// A channel value `c` stands for the intensity `c / 255`, so 255 is full
/// intensity and, for `a`, fully opaque.
#[derive(Clone, Copy, Debug, PartialEq, Eq, Structural)]
pub struct Rgba {
    pub r: u8,
    pub g: u8,
    pub b: u8,
    pub a: u8,
}

/// The packed colour that a palette holds at `index`, and 0 where the palette
/// has no such entry.
pub open spec fn packed_entry(palette: Seq<u32>, index: int) -> u32 {
    if 0 <= index < palette.len() {
        palette[index]
    } else {
        0
    }
}

/// The channels of a packed colour. From the least significant byte to the
/// most significant one the bytes are red, green, blue and alpha.
pub open spec fn unpack(packed: u32) -> Rgba {
    Rgba {
        r: (packed % 0x100) as u8,
        g: (packed / 0x100 % 0x100) as u8,
        b: (packed / 0x1_0000 % 0x100) as u8,
        a: (packed / 0x100_0000) as u8,
    }
}

/// The number that packs the four channels of `color` into 32 bits.
pub open spec fn pack(color: Rgba) -> int {
    color.r + 0x100 * color.g + 0x1_0000 * color.b + 0x100_0000 * color.a
}

/// The colour that `index` stands for in `palette`.
pub open spec fn resolve(palette: Seq<u32>, index: int) -> Rgba {
    unpack(packed_entry(palette, index))
}

impl Rgba {
    /// Splits a packed colour into its channels.
    pub fn from_packed(packed: u32) -> (color: Rgba)
        ensures
            color == unpack(packed),
    {
        assert(packed & 0xFF == packed % 0x100) by (bit_vector);
        assert((packed >> 8u32) & 0xFF == packed / 0x100 % 0x100) by (bit_vector);
        assert((packed >> 16u32) & 0xFF == packed / 0x1_0000 % 0x100) by (bit_vector);
        assert((packed >> 24u32) & 0xFF == packed / 0x100_0000) by (bit_vector);
        assert(packed / 0x100_0000 < 0x100) by (bit_vector);
        Rgba {
            r: (packed & 0xFF) as u8,
            g: ((packed >> 8u32) & 0xFF) as u8,
            b: ((packed >> 16u32) & 0xFF) as u8,
            a: ((packed >> 24u32) & 0xFF) as u8,
        }
    }
}

/// Looks `index` up in `palette` and unpacks the colour found there. An index
/// past the end of the palette is no error: it gives transparent black.
pub fn palette_to_rgba(palette: &Vec<u32>, index: usize) -> (color: Rgba)
    ensures
        color == resolve(palette@, index as int),
        index >= palette.len() ==> color == (Rgba { r: 0, g: 0, b: 0, a: 0 }),
{
    let packed: u32 = if index < palette.len() {
        palette[index]
    } else {
        0
    };
    Rgba::from_packed(packed)
}

/// Unpacking loses nothing: packing the channels of a packed colour gives
/// the packed colour back.
pub proof fn lemma_pack_unpack(packed: u32)
    ensures
        pack(unpack(packed)) == packed,
{
    let p: int = packed as int;
    assert(p == 0x100 * (p / 0x100) + p % 0x100);
    assert(p / 0x100 == 0x100 * (p / 0x100 / 0x100) + p / 0x100 % 0x100);
    assert(p / 0x100 / 0x100 == p / 0x1_0000);
    assert(p / 0x1_0000 == 0x100 * (p / 0x1_0000 / 0x100) + p / 0x1_0000 % 0x100);
    assert(p / 0x1_0000 / 0x100 == p / 0x100_0000);
}

/// Two packed colours with the same channels are the same number.
pub proof fn lemma_unpack_injective(p: u32, q: u32)
    requires
        unpack(p) == unpack(q),
    ensures
        p == q,
{
    lemma_pack_unpack(p);
    lemma_pack_unpack(q);
}

/// An index that the palette does not hold resolves as a packed 0 does, to
/// transparent black.
pub proof fn lemma_resolve_out_of_range(palette: Seq<u32>, index: int)
    requires
        index < 0 || index >= palette.len(),
    ensures
        resolve(palette, index) == unpack(0),
        resolve(palette, index) == (Rgba { r: 0, g: 0, b: 0, a: 0 }),
{
}

} // verus!
