//! The fonts an interpreter can offer, and their sprite data.

use vstd::prelude::*;
use vstd::slice::slice_to_vec;

verus! {

/// The fonts a CHIP-8 interpreter can provide.
#[derive(Clone, Copy, Debug, PartialEq, Eq, Structural)]
pub enum Font {
    /// The font of Octo: the small digits of SUPER-CHIP, and large digits 0 to
    /// F that are a bigger version of them.
    Octo,
    /// The font of the first interpreter, on the COSMAC VIP. Small digits only.
    Vip,
    /// The font of CHIPOS on the DREAM 6800. Small digits only.
    Dream6800,
    /// The font of the interpreter on the ETI-660. Small digits only.
    Eti660,
    /// The font of SUPER-CHIP 1.1 on the HP 48: small digits 0 to F, large
    /// digits 0 to 9 only.
    Schip,
    /// The font of the Fish'n'Chips emulator: small digits, and large digits
    /// 0 to F of 7 by 9 pixels.
    Fish,
    /// The font that A-KouZ1 designed: small and large digits 0 to F.
    AKouZ1,
}

impl Default for Font {
    /// Octo's font: the modern standard, with every digit in both sizes.
    fn default() -> (r: Font)
        ensures
            r == Font::Octo,
    {
        Font::Octo
    }
}

/// The small digits 0 to F of the Octo font, five bytes each.
pub const OCTO_SMALL: [u8; 80] = [
    0xF0, 0x90, 0x90, 0x90, 0xF0,
    0x20, 0x60, 0x20, 0x20, 0x70,
    0xF0, 0x10, 0xF0, 0x80, 0xF0,
    0xF0, 0x10, 0xF0, 0x10, 0xF0,
    0x90, 0x90, 0xF0, 0x10, 0x10,
    0xF0, 0x80, 0xF0, 0x10, 0xF0,
    0xF0, 0x80, 0xF0, 0x90, 0xF0,
    0xF0, 0x10, 0x20, 0x40, 0x40,
    0xF0, 0x90, 0xF0, 0x90, 0xF0,
    0xF0, 0x90, 0xF0, 0x10, 0xF0,
    0xF0, 0x90, 0xF0, 0x90, 0x90,
    0xE0, 0x90, 0xE0, 0x90, 0xE0,
    0xF0, 0x80, 0x80, 0x80, 0xF0,
    0xE0, 0x90, 0x90, 0x90, 0xE0,
    0xF0, 0x80, 0xF0, 0x80, 0xF0,
    0xF0, 0x80, 0xF0, 0x80, 0x80,
];

/// The large digits of the Octo font, ten bytes each.
pub const OCTO_LARGE: [u8; 160] = [
    0xFF, 0xFF, 0xC3, 0xC3, 0xC3, 0xC3, 0xC3, 0xC3, 0xFF, 0xFF,
    0x18, 0x78, 0x78, 0x18, 0x18, 0x18, 0x18, 0x18, 0xFF, 0xFF,
    0xFF, 0xFF, 0x03, 0x03, 0xFF, 0xFF, 0xC0, 0xC0, 0xFF, 0xFF,
    0xFF, 0xFF, 0x03, 0x03, 0xFF, 0xFF, 0x03, 0x03, 0xFF, 0xFF,
    0xC3, 0xC3, 0xC3, 0xC3, 0xFF, 0xFF, 0x03, 0x03, 0x03, 0x03,
    0xFF, 0xFF, 0xC0, 0xC0, 0xFF, 0xFF, 0x03, 0x03, 0xFF, 0xFF,
    0xFF, 0xFF, 0xC0, 0xC0, 0xFF, 0xFF, 0xC3, 0xC3, 0xFF, 0xFF,
    0xFF, 0xFF, 0x03, 0x03, 0x06, 0x0C, 0x18, 0x18, 0x18, 0x18,
    0xFF, 0xFF, 0xC3, 0xC3, 0xFF, 0xFF, 0xC3, 0xC3, 0xFF, 0xFF,
    0xFF, 0xFF, 0xC3, 0xC3, 0xFF, 0xFF, 0x03, 0x03, 0xFF, 0xFF,
    0x7E, 0xFF, 0xC3, 0xC3, 0xC3, 0xFF, 0xFF, 0xC3, 0xC3, 0xC3,
    0xFC, 0xFC, 0xC3, 0xC3, 0xFC, 0xFC, 0xC3, 0xC3, 0xFC, 0xFC,
    0x3C, 0xFF, 0xC3, 0xC0, 0xC0, 0xC0, 0xC0, 0xC3, 0xFF, 0x3C,
    0xFC, 0xFE, 0xC3, 0xC3, 0xC3, 0xC3, 0xC3, 0xC3, 0xFE, 0xFC,
    0xFF, 0xFF, 0xC0, 0xC0, 0xFF, 0xFF, 0xC0, 0xC0, 0xFF, 0xFF,
    0xFF, 0xFF, 0xC0, 0xC0, 0xFF, 0xFF, 0xC0, 0xC0, 0xC0, 0xC0,
];

/// The small digits 0 to F of the Vip font, five bytes each.
pub const VIP_SMALL: [u8; 80] = [
    0xF0, 0x90, 0x90, 0x90, 0xF0,
    0x60, 0x20, 0x20, 0x20, 0x70,
    0xF0, 0x10, 0xF0, 0x80, 0xF0,
    0xF0, 0x10, 0xF0, 0x10, 0xF0,
    0xA0, 0xA0, 0xF0, 0x20, 0x20,
    0xF0, 0x80, 0xF0, 0x10, 0xF0,
    0xF0, 0x80, 0xF0, 0x90, 0xF0,
    0xF0, 0x10, 0x10, 0x10, 0x10,
    0xF0, 0x90, 0xF0, 0x90, 0xF0,
    0xF0, 0x90, 0xF0, 0x10, 0xF0,
    0xF0, 0x90, 0xF0, 0x90, 0x90,
    0xF0, 0x50, 0x70, 0x50, 0xF0,
    0xF0, 0x80, 0x80, 0x80, 0xF0,
    0xF0, 0x50, 0x50, 0x50, 0xF0,
    0xF0, 0x80, 0xF0, 0x80, 0xF0,
    0xF0, 0x80, 0xF0, 0x80, 0x80,
];

/// The small digits 0 to F of the Dream6800 font, five bytes each.
pub const DREAM6800_SMALL: [u8; 80] = [
    0xE0, 0xA0, 0xA0, 0xA0, 0xE0,
    0x40, 0x40, 0x40, 0x40, 0x40,
    0xE0, 0x20, 0xE0, 0x80, 0xE0,
    0xE0, 0x20, 0xE0, 0x20, 0xE0,
    0x80, 0xA0, 0xA0, 0xE0, 0x20,
    0xE0, 0x80, 0xE0, 0x20, 0xE0,
    0xE0, 0x80, 0xE0, 0xA0, 0xE0,
    0xE0, 0x20, 0x20, 0x20, 0x20,
    0xE0, 0xA0, 0xE0, 0xA0, 0xE0,
    0xE0, 0xA0, 0xE0, 0x20, 0xE0,
    0xE0, 0xA0, 0xE0, 0xA0, 0xA0,
    0xC0, 0xA0, 0xE0, 0xA0, 0xC0,
    0xE0, 0x80, 0x80, 0x80, 0xE0,
    0xC0, 0xA0, 0xA0, 0xA0, 0xC0,
    0xE0, 0x80, 0xE0, 0x80, 0xE0,
    0xE0, 0x80, 0xC0, 0x80, 0x80,
];

/// The small digits 0 to F of the Eti660 font, five bytes each.
pub const ETI660_SMALL: [u8; 80] = [
    0xE0, 0xA0, 0xA0, 0xA0, 0xE0,
    0x20, 0x20, 0x20, 0x20, 0x20,
    0xE0, 0x20, 0xE0, 0x80, 0xE0,
    0xE0, 0x20, 0xE0, 0x20, 0xE0,
    0xA0, 0xA0, 0xE0, 0x20, 0x20,
    0xE0, 0x80, 0xE0, 0x20, 0xE0,
    0xE0, 0x80, 0xE0, 0xA0, 0xE0,
    0xE0, 0x20, 0x20, 0x20, 0x20,
    0xE0, 0xA0, 0xE0, 0xA0, 0xE0,
    0xE0, 0xA0, 0xE0, 0x20, 0xE0,
    0xE0, 0xA0, 0xE0, 0xA0, 0xA0,
    0x80, 0x80, 0xE0, 0xA0, 0xE0,
    0xE0, 0x80, 0x80, 0x80, 0xE0,
    0x20, 0x20, 0xE0, 0xA0, 0xE0,
    0xE0, 0x80, 0xE0, 0x80, 0xE0,
    0xE0, 0x80, 0xC0, 0x80, 0x80,
];

/// The large digits of the Schip font, ten bytes each.
pub const SCHIP_LARGE: [u8; 100] = [
    0x3C, 0x7E, 0xE7, 0xC3, 0xC3, 0xC3, 0xC3, 0xE7, 0x7E, 0x3C,
    0x18, 0x38, 0x58, 0x18, 0x18, 0x18, 0x18, 0x18, 0x18, 0x3C,
    0x3E, 0x7F, 0xC3, 0x06, 0x0C, 0x18, 0x30, 0x60, 0xFF, 0xFF,
    0x3C, 0x7E, 0xC3, 0x03, 0x0E, 0x0E, 0x03, 0xC3, 0x7E, 0x3C,
    0x06, 0x0E, 0x1E, 0x36, 0x66, 0xC6, 0xFF, 0xFF, 0x06, 0x06,
    0xFF, 0xFF, 0xC0, 0xC0, 0xFC, 0xFE, 0x03, 0xC3, 0x7E, 0x3C,
    0x3E, 0x7C, 0xE0, 0xC0, 0xFC, 0xFE, 0xC3, 0xC3, 0x7E, 0x3C,
    0xFF, 0xFF, 0x03, 0x06, 0x0C, 0x18, 0x30, 0x60, 0x60, 0x60,
    0x3C, 0x7E, 0xC3, 0xC3, 0x7E, 0x7E, 0xC3, 0xC3, 0x7E, 0x3C,
    0x3C, 0x7E, 0xC3, 0xC3, 0x7F, 0x3F, 0x03, 0x03, 0x3E, 0x7C,
];

/// The small digits 0 to F of the Fish font, five bytes each.
pub const FISH_SMALL: [u8; 80] = [
    0x60, 0xA0, 0xA0, 0xA0, 0xC0,
    0x40, 0xC0, 0x40, 0x40, 0xE0,
    0xC0, 0x20, 0x40, 0x80, 0xE0,
    0xC0, 0x20, 0x40, 0x20, 0xC0,
    0x20, 0xA0, 0xE0, 0x20, 0x20,
    0xE0, 0x80, 0xC0, 0x20, 0xC0,
    0x40, 0x80, 0xC0, 0xA0, 0x40,
    0xE0, 0x20, 0x60, 0x40, 0x40,
    0x40, 0xA0, 0x40, 0xA0, 0x40,
    0x40, 0xA0, 0x60, 0x20, 0x40,
    0x40, 0xA0, 0xE0, 0xA0, 0xA0,
    0xC0, 0xA0, 0xC0, 0xA0, 0xC0,
    0x60, 0x80, 0x80, 0x80, 0x60,
    0xC0, 0xA0, 0xA0, 0xA0, 0xC0,
    0xE0, 0x80, 0xC0, 0x80, 0xE0,
    0xE0, 0x80, 0xC0, 0x80, 0x80,
];

/// The large digits of the Fish font, ten bytes each.
pub const FISH_LARGE: [u8; 160] = [
    0x7C, 0xC6, 0xCE, 0xDE, 0xD6, 0xF6, 0xE6, 0xC6, 0x7C, 0x00,
    0x10, 0x30, 0xF0, 0x30, 0x30, 0x30, 0x30, 0x30, 0xFC, 0x00,
    0x78, 0xCC, 0xCC, 0x0C, 0x18, 0x30, 0x60, 0xCC, 0xFC, 0x00,
    0x78, 0xCC, 0x0C, 0x0C, 0x38, 0x0C, 0x0C, 0xCC, 0x78, 0x00,
    0x0C, 0x1C, 0x3C, 0x6C, 0xCC, 0xFE, 0x0C, 0x0C, 0x1E, 0x00,
    0xFC, 0xC0, 0xC0, 0xC0, 0xF8, 0x0C, 0x0C, 0xCC, 0x78, 0x00,
    0x38, 0x60, 0xC0, 0xC0, 0xF8, 0xCC, 0xCC, 0xCC, 0x78, 0x00,
    0xFE, 0xC6, 0xC6, 0x06, 0x0C, 0x18, 0x30, 0x30, 0x30, 0x00,
    0x78, 0xCC, 0xCC, 0xEC, 0x78, 0xDC, 0xCC, 0xCC, 0x78, 0x00,
    0x7C, 0xC6, 0xC6, 0xC6, 0x7C, 0x18, 0x18, 0x30, 0x70, 0x00,
    0x30, 0x78, 0xCC, 0xCC, 0xCC, 0xFC, 0xCC, 0xCC, 0xCC, 0x00,
    0xFC, 0x66, 0x66, 0x66, 0x7C, 0x66, 0x66, 0x66, 0xFC, 0x00,
    0x3C, 0x66, 0xC6, 0xC0, 0xC0, 0xC0, 0xC6, 0x66, 0x3C, 0x00,
    0xF8, 0x6C, 0x66, 0x66, 0x66, 0x66, 0x66, 0x6C, 0xF8, 0x00,
    0xFE, 0x62, 0x60, 0x64, 0x7C, 0x64, 0x60, 0x62, 0xFE, 0x00,
    0xFE, 0x66, 0x62, 0x64, 0x7C, 0x64, 0x60, 0x60, 0xF0, 0x00,
];

/// The small digits 0 to F of the AKouZ1 font, five bytes each.
pub const AKOUZ1_SMALL: [u8; 80] = [
    0x60, 0x90, 0x90, 0x90, 0x60,
    0x20, 0x60, 0x20, 0x20, 0x70,
    0xE0, 0x10, 0x60, 0x80, 0xF0,
    0xE0, 0x10, 0xE0, 0x10, 0xE0,
    0x30, 0x50, 0x90, 0xF0, 0x10,
    0xF0, 0x80, 0xF0, 0x10, 0xE0,
    0x70, 0x80, 0xF0, 0x90, 0x60,
    0xF0, 0x10, 0x20, 0x40, 0x40,
    0x60, 0x90, 0x60, 0x90, 0x60,
    0x60, 0x90, 0x70, 0x10, 0x60,
    0x60, 0x90, 0xF0, 0x90, 0x90,
    0xE0, 0x90, 0xE0, 0x90, 0xE0,
    0x70, 0x80, 0x80, 0x80, 0x70,
    0xE0, 0x90, 0x90, 0x90, 0xE0,
    0xF0, 0x80, 0xE0, 0x80, 0xF0,
    0xF0, 0x80, 0xE0, 0x80, 0x80,
];

/// The large digits of the AKouZ1 font, ten bytes each.
pub const AKOUZ1_LARGE: [u8; 160] = [
    0x7E, 0xC7, 0xC7, 0xCB, 0xCB, 0xD3, 0xD3, 0xE3, 0xE3, 0x7E,
    0x18, 0x38, 0x78, 0x18, 0x18, 0x18, 0x18, 0x18, 0x18, 0x7E,
    0x7E, 0xC3, 0x03, 0x03, 0x0E, 0x18, 0x30, 0x60, 0xC0, 0xFF,
    0x7E, 0xC3, 0x03, 0x03, 0x1E, 0x03, 0x03, 0x03, 0xC3, 0x7E,
    0x06, 0x0E, 0x1E, 0x36, 0x66, 0xC6, 0xC6, 0xFF, 0x06, 0x06,
    0xFF, 0xC0, 0xC0, 0xC0, 0xFE, 0x03, 0x03, 0x03, 0xC3, 0x7E,
    0x7E, 0xC3, 0xC0, 0xC0, 0xFE, 0xC3, 0xC3, 0xC3, 0xC3, 0x7E,
    0xFF, 0x03, 0x03, 0x03, 0x06, 0x0C, 0x18, 0x18, 0x18, 0x18,
    0x7E, 0xC3, 0xC3, 0xC3, 0x7E, 0xC3, 0xC3, 0xC3, 0xC3, 0x7E,
    0x7E, 0xC3, 0xC3, 0xC3, 0x7F, 0x03, 0x03, 0x03, 0xC3, 0x7E,
    0x7E, 0xC3, 0xC3, 0xC3, 0xFF, 0xC3, 0xC3, 0xC3, 0xC3, 0xC3,
    0xFE, 0xC3, 0xC3, 0xC3, 0xFE, 0xC3, 0xC3, 0xC3, 0xC3, 0xFE,
    0x7E, 0xC3, 0xC0, 0xC0, 0xC0, 0xC0, 0xC0, 0xC0, 0xC3, 0x7E,
    0xFC, 0xC6, 0xC3, 0xC3, 0xC3, 0xC3, 0xC3, 0xC3, 0xC6, 0xFC,
    0xFF, 0xC0, 0xC0, 0xC0, 0xFE, 0xC0, 0xC0, 0xC0, 0xC0, 0xFF,
    0xFF, 0xC0, 0xC0, 0xC0, 0xFE, 0xC0, 0xC0, 0xC0, 0xC0, 0xC0,
];

/// The sixteen small digits of a font, five bytes each, digit 0 first. Narrower
/// fonts are padded to this size.
pub open spec fn small_glyphs(font: Font) -> Seq<u8> {
    match font {
        Font::Octo => OCTO_SMALL@,
        Font::Vip => VIP_SMALL@,
        Font::Dream6800 => DREAM6800_SMALL@,
        Font::Eti660 => ETI660_SMALL@,
        Font::Schip => OCTO_SMALL@,
        Font::Fish => FISH_SMALL@,
        Font::AKouZ1 => AKOUZ1_SMALL@,
    }
}

/// The large digits of a font, ten bytes each, digit 0 first, where the font
/// has any.
pub open spec fn large_glyphs(font: Font) -> Option<Seq<u8>> {
    match font {
        Font::Octo => Some(OCTO_LARGE@),
        Font::Vip => None,
        Font::Dream6800 => None,
        Font::Eti660 => None,
        Font::Schip => Some(SCHIP_LARGE@),
        Font::Fish => Some(FISH_LARGE@),
        Font::AKouZ1 => Some(AKOUZ1_LARGE@),
    }
}

/// The sprite data of a font: its sixteen small digits, and its large digits
/// where it has any. SUPER-CHIP has large digits for 0 to 9 only.
pub fn get_font_data(font: Font) -> (r: ([u8; 80], Option<Vec<u8>>))
    ensures
        r.0@ == small_glyphs(font),
        match r.1 {
            Some(large) => large_glyphs(font) == Some(large@),
            None => large_glyphs(font) is None,
        },
{
    match font {
        Font::Octo => (OCTO_SMALL, Some(slice_to_vec(OCTO_LARGE.as_slice()))),
        Font::Vip => (VIP_SMALL, None),
        Font::Dream6800 => (DREAM6800_SMALL, None),
        Font::Eti660 => (ETI660_SMALL, None),
        Font::Schip => (OCTO_SMALL, Some(slice_to_vec(SCHIP_LARGE.as_slice()))),
        Font::Fish => (FISH_SMALL, Some(slice_to_vec(FISH_LARGE.as_slice()))),
        Font::AKouZ1 => (AKOUZ1_SMALL, Some(slice_to_vec(AKOUZ1_LARGE.as_slice()))),
    }
}

/// A font has large digits unless it is one of the three early ones, and then
/// ten bytes for each of sixteen digits, or of ten for SUPER-CHIP.
pub proof fn lemma_large_glyphs_len(font: Font)
    ensures
        small_glyphs(font).len() == 80,
        large_glyphs(font) is None <==> (font == Font::Vip || font == Font::Dream6800 || font
            == Font::Eti660),
        font == Font::Schip ==> large_glyphs(font).unwrap().len() == 100,
        large_glyphs(font) is Some && font != Font::Schip ==> large_glyphs(font).unwrap().len()
            == 160,
{
}

} // verus!
