//! The fields of the settings and their keys in the two formats.

use vstd::prelude::*;

use crate::document::key_matches;
use crate::text::{char_at, is_literal, lowered, same_ignoring_case};

verus! {

/// The two text formats that settings are exchanged in.
#[derive(Clone, Copy, Debug, PartialEq, Eq, Structural)]
pub enum Format {
    /// One JSON object with camel-case keys.
    Structured,
    /// Lines of `key = value` with dotted lower-case keys.
    Flat,
}

/// The fields of the settings, in the order in which they are written.
#[derive(Clone, Copy, Debug, PartialEq, Eq, Structural)]
pub enum Field {
    /// The number of instructions run in each frame.
    Tickrate,
    /// The largest size of a program.
    MaxSize,
    /// The orientation of the display.
    ScreenRotation,
    /// The font that the program expects.
    FontStyle,
    /// The touch controls that the program supports.
    TouchInputMode,
    /// The address at which the program is loaded.
    StartAddress,
    /// The color of lit pixels.
    FillColor,
    /// The color of the second plane.
    FillColor2,
    /// The color where both planes overlap.
    BlendColor,
    /// The color of the background.
    BackgroundColor,
    /// The color of the buzzer indicator while it sounds.
    BuzzColor,
    /// The color of the buzzer indicator while it is silent.
    QuietColor,
    /// The shift quirk.
    Shift,
    /// The load and store quirk.
    LoadStore,
    /// The jump quirk.
    Jump0,
    /// The logic quirk.
    Logic,
    /// The clipping quirk.
    Clip,
    /// The frame wait quirk.
    Vblank,
    /// The flag order quirk.
    VfOrder,
    /// What a sprite of height 0 draws in low resolution.
    LoresDxy0,
    /// The quirk of clearing on a change of resolution.
    ResClear,
    /// The delay timer quirk.
    DelayWrap,
    /// The high resolution collision quirk.
    HiresCollision,
    /// The clipped collision quirk.
    ClipCollision,
    /// The scroll quirk.
    Scroll,
    /// The address overflow quirk.
    OverflowI,
}

/// What a field holds.
#[derive(Clone, Copy, Debug, PartialEq, Eq, Structural)]
pub enum Kind {
    /// A 16-bit number, or nothing.
    Number,
    /// An orientation of the display.
    Rotation,
    /// A font.
    Font,
    /// A touch mode.
    Touch,
    /// A color, or nothing.
    Color,
    /// A flag, or nothing.
    Flag,
    /// What a sprite of height 0 draws, or nothing.
    Lores,
}

/// The number of fields.
pub const FIELD_COUNT: usize = 26;

impl Field {
    /// The place of the field in the order of writing.
    pub open spec fn index(self) -> int {
        match self {
            Field::Tickrate => 0,
            Field::MaxSize => 1,
            Field::ScreenRotation => 2,
            Field::FontStyle => 3,
            Field::TouchInputMode => 4,
            Field::StartAddress => 5,
            Field::FillColor => 6,
            Field::FillColor2 => 7,
            Field::BlendColor => 8,
            Field::BackgroundColor => 9,
            Field::BuzzColor => 10,
            Field::QuietColor => 11,
            Field::Shift => 12,
            Field::LoadStore => 13,
            Field::Jump0 => 14,
            Field::Logic => 15,
            Field::Clip => 16,
            Field::Vblank => 17,
            Field::VfOrder => 18,
            Field::LoresDxy0 => 19,
            Field::ResClear => 20,
            Field::DelayWrap => 21,
            Field::HiresCollision => 22,
            Field::ClipCollision => 23,
            Field::Scroll => 24,
            Field::OverflowI => 25,
        }
    }

    /// The field at a place in the order of writing.
    pub open spec fn at(i: int) -> Field {
        if i == 0 {
            Field::Tickrate
        } else if i == 1 {
            Field::MaxSize
        } else if i == 2 {
            Field::ScreenRotation
        } else if i == 3 {
            Field::FontStyle
        } else if i == 4 {
            Field::TouchInputMode
        } else if i == 5 {
            Field::StartAddress
        } else if i == 6 {
            Field::FillColor
        } else if i == 7 {
            Field::FillColor2
        } else if i == 8 {
            Field::BlendColor
        } else if i == 9 {
            Field::BackgroundColor
        } else if i == 10 {
            Field::BuzzColor
        } else if i == 11 {
            Field::QuietColor
        } else if i == 12 {
            Field::Shift
        } else if i == 13 {
            Field::LoadStore
        } else if i == 14 {
            Field::Jump0
        } else if i == 15 {
            Field::Logic
        } else if i == 16 {
            Field::Clip
        } else if i == 17 {
            Field::Vblank
        } else if i == 18 {
            Field::VfOrder
        } else if i == 19 {
            Field::LoresDxy0
        } else if i == 20 {
            Field::ResClear
        } else if i == 21 {
            Field::DelayWrap
        } else if i == 22 {
            Field::HiresCollision
        } else if i == 23 {
            Field::ClipCollision
        } else if i == 24 {
            Field::Scroll
        } else {
            Field::OverflowI
        }
    }

    /// The field at a place in the order of writing.
    pub(crate) fn from_index(i: usize) -> (r: Field)
        requires
            i < FIELD_COUNT,
        ensures
            r == Field::at(i as int),
            r.index() == i,
    {
        if i == 0 {
            Field::Tickrate
        } else if i == 1 {
            Field::MaxSize
        } else if i == 2 {
            Field::ScreenRotation
        } else if i == 3 {
            Field::FontStyle
        } else if i == 4 {
            Field::TouchInputMode
        } else if i == 5 {
            Field::StartAddress
        } else if i == 6 {
            Field::FillColor
        } else if i == 7 {
            Field::FillColor2
        } else if i == 8 {
            Field::BlendColor
        } else if i == 9 {
            Field::BackgroundColor
        } else if i == 10 {
            Field::BuzzColor
        } else if i == 11 {
            Field::QuietColor
        } else if i == 12 {
            Field::Shift
        } else if i == 13 {
            Field::LoadStore
        } else if i == 14 {
            Field::Jump0
        } else if i == 15 {
            Field::Logic
        } else if i == 16 {
            Field::Clip
        } else if i == 17 {
            Field::Vblank
        } else if i == 18 {
            Field::VfOrder
        } else if i == 19 {
            Field::LoresDxy0
        } else if i == 20 {
            Field::ResClear
        } else if i == 21 {
            Field::DelayWrap
        } else if i == 22 {
            Field::HiresCollision
        } else if i == 23 {
            Field::ClipCollision
        } else if i == 24 {
            Field::Scroll
        } else {
            Field::OverflowI
        }
    }

    /// What the field holds.
    pub open spec fn kind(self) -> Kind {
        match self {
            Field::Tickrate => Kind::Number,
            Field::MaxSize => Kind::Number,
            Field::ScreenRotation => Kind::Rotation,
            Field::FontStyle => Kind::Font,
            Field::TouchInputMode => Kind::Touch,
            Field::StartAddress => Kind::Number,
            Field::FillColor => Kind::Color,
            Field::FillColor2 => Kind::Color,
            Field::BlendColor => Kind::Color,
            Field::BackgroundColor => Kind::Color,
            Field::BuzzColor => Kind::Color,
            Field::QuietColor => Kind::Color,
            Field::Shift => Kind::Flag,
            Field::LoadStore => Kind::Flag,
            Field::Jump0 => Kind::Flag,
            Field::Logic => Kind::Flag,
            Field::Clip => Kind::Flag,
            Field::Vblank => Kind::Flag,
            Field::VfOrder => Kind::Flag,
            Field::LoresDxy0 => Kind::Lores,
            Field::ResClear => Kind::Flag,
            Field::DelayWrap => Kind::Flag,
            Field::HiresCollision => Kind::Flag,
            Field::ClipCollision => Kind::Flag,
            Field::Scroll => Kind::Flag,
            Field::OverflowI => Kind::Flag,
        }
    }

    /// The key of the field in the structured format.
    pub open spec fn structured_key(self) -> Seq<char> {
        match self {
            Field::Tickrate => "tickrate"@,
            Field::MaxSize => "maxSize"@,
            Field::ScreenRotation => "screenRotation"@,
            Field::FontStyle => "fontStyle"@,
            Field::TouchInputMode => "touchInputMode"@,
            Field::StartAddress => "startAddress"@,
            Field::FillColor => "fillColor"@,
            Field::FillColor2 => "fillColor2"@,
            Field::BlendColor => "blendColor"@,
            Field::BackgroundColor => "backgroundColor"@,
            Field::BuzzColor => "buzzColor"@,
            Field::QuietColor => "quietColor"@,
            Field::Shift => "shiftQuirks"@,
            Field::LoadStore => "loadStoreQuirks"@,
            Field::Jump0 => "jumpQuirks"@,
            Field::Logic => "logicQuirks"@,
            Field::Clip => "clipQuirks"@,
            Field::Vblank => "vBlankQuirks"@,
            Field::VfOrder => "vfOrderQuirks"@,
            Field::LoresDxy0 => "loresDXY0Quirks"@,
            Field::ResClear => "resClearQuirks"@,
            Field::DelayWrap => "delayWrapQuirks"@,
            Field::HiresCollision => "hiresCollisionQuirks"@,
            Field::ClipCollision => "clipCollisionQuirks"@,
            Field::Scroll => "scrollQuirks"@,
            Field::OverflowI => "overflowIQuirks"@,
        }
    }

    /// The key of the field in the flat format. `colors.plane0` is the
    /// background, and `colors.background` the silent buzzer.
    pub open spec fn flat_key(self) -> Seq<char> {
        match self {
            Field::Tickrate => "core.tickrate"@,
            Field::MaxSize => "core.max_rom"@,
            Field::ScreenRotation => "core.rotation"@,
            Field::FontStyle => "core.font"@,
            Field::TouchInputMode => "core.touch_mode"@,
            Field::StartAddress => "core.start_address"@,
            Field::FillColor => "colors.plane1"@,
            Field::FillColor2 => "colors.plane2"@,
            Field::BlendColor => "colors.plane3"@,
            Field::BackgroundColor => "colors.plane0"@,
            Field::BuzzColor => "colors.sound"@,
            Field::QuietColor => "colors.background"@,
            Field::Shift => "quirks.shift"@,
            Field::LoadStore => "quirks.loadstore"@,
            Field::Jump0 => "quirks.jump0"@,
            Field::Logic => "quirks.logic"@,
            Field::Clip => "quirks.clip"@,
            Field::Vblank => "quirks.vblank"@,
            Field::VfOrder => "quirks.vforder"@,
            Field::LoresDxy0 => "quirks.lores_dxy0"@,
            Field::ResClear => "quirks.resclear"@,
            Field::DelayWrap => "quirks.delaywrap"@,
            Field::HiresCollision => "quirks.hirescollision"@,
            Field::ClipCollision => "quirks.clipcollision"@,
            Field::Scroll => "quirks.scroll"@,
            Field::OverflowI => "quirks.overflow_i"@,
        }
    }

    /// The key of the field in a format.
    pub open spec fn key(self, format: Format) -> Seq<char> {
        match format {
            Format::Structured => self.structured_key(),
            Format::Flat => self.flat_key(),
        }
    }

    /// The key of the field in the structured format.
    pub fn structured_key_str(self) -> (r: &'static str)
        ensures
            r@ == self.structured_key(),
            r.is_ascii(),
    {
        proof {
            reveal_strlit("tickrate");
            reveal_strlit("maxSize");
            reveal_strlit("screenRotation");
            reveal_strlit("fontStyle");
            reveal_strlit("touchInputMode");
            reveal_strlit("startAddress");
            reveal_strlit("fillColor");
            reveal_strlit("fillColor2");
            reveal_strlit("blendColor");
            reveal_strlit("backgroundColor");
            reveal_strlit("buzzColor");
            reveal_strlit("quietColor");
            reveal_strlit("shiftQuirks");
            reveal_strlit("loadStoreQuirks");
            reveal_strlit("jumpQuirks");
            reveal_strlit("logicQuirks");
            reveal_strlit("clipQuirks");
            reveal_strlit("vBlankQuirks");
            reveal_strlit("vfOrderQuirks");
            reveal_strlit("loresDXY0Quirks");
            reveal_strlit("resClearQuirks");
            reveal_strlit("delayWrapQuirks");
            reveal_strlit("hiresCollisionQuirks");
            reveal_strlit("clipCollisionQuirks");
            reveal_strlit("scrollQuirks");
            reveal_strlit("overflowIQuirks");
        }
        match self {
            Field::Tickrate => "tickrate",
            Field::MaxSize => "maxSize",
            Field::ScreenRotation => "screenRotation",
            Field::FontStyle => "fontStyle",
            Field::TouchInputMode => "touchInputMode",
            Field::StartAddress => "startAddress",
            Field::FillColor => "fillColor",
            Field::FillColor2 => "fillColor2",
            Field::BlendColor => "blendColor",
            Field::BackgroundColor => "backgroundColor",
            Field::BuzzColor => "buzzColor",
            Field::QuietColor => "quietColor",
            Field::Shift => "shiftQuirks",
            Field::LoadStore => "loadStoreQuirks",
            Field::Jump0 => "jumpQuirks",
            Field::Logic => "logicQuirks",
            Field::Clip => "clipQuirks",
            Field::Vblank => "vBlankQuirks",
            Field::VfOrder => "vfOrderQuirks",
            Field::LoresDxy0 => "loresDXY0Quirks",
            Field::ResClear => "resClearQuirks",
            Field::DelayWrap => "delayWrapQuirks",
            Field::HiresCollision => "hiresCollisionQuirks",
            Field::ClipCollision => "clipCollisionQuirks",
            Field::Scroll => "scrollQuirks",
            Field::OverflowI => "overflowIQuirks",
        }
    }

    /// The key of the field in the flat format.
    pub fn flat_key_str(self) -> (r: &'static str)
        ensures
            r@ == self.flat_key(),
            r.is_ascii(),
    {
        proof {
            reveal_strlit("core.tickrate");
            reveal_strlit("core.max_rom");
            reveal_strlit("core.rotation");
            reveal_strlit("core.font");
            reveal_strlit("core.touch_mode");
            reveal_strlit("core.start_address");
            reveal_strlit("colors.plane1");
            reveal_strlit("colors.plane2");
            reveal_strlit("colors.plane3");
            reveal_strlit("colors.plane0");
            reveal_strlit("colors.sound");
            reveal_strlit("colors.background");
            reveal_strlit("quirks.shift");
            reveal_strlit("quirks.loadstore");
            reveal_strlit("quirks.jump0");
            reveal_strlit("quirks.logic");
            reveal_strlit("quirks.clip");
            reveal_strlit("quirks.vblank");
            reveal_strlit("quirks.vforder");
            reveal_strlit("quirks.lores_dxy0");
            reveal_strlit("quirks.resclear");
            reveal_strlit("quirks.delaywrap");
            reveal_strlit("quirks.hirescollision");
            reveal_strlit("quirks.clipcollision");
            reveal_strlit("quirks.scroll");
            reveal_strlit("quirks.overflow_i");
        }
        match self {
            Field::Tickrate => "core.tickrate",
            Field::MaxSize => "core.max_rom",
            Field::ScreenRotation => "core.rotation",
            Field::FontStyle => "core.font",
            Field::TouchInputMode => "core.touch_mode",
            Field::StartAddress => "core.start_address",
            Field::FillColor => "colors.plane1",
            Field::FillColor2 => "colors.plane2",
            Field::BlendColor => "colors.plane3",
            Field::BackgroundColor => "colors.plane0",
            Field::BuzzColor => "colors.sound",
            Field::QuietColor => "colors.background",
            Field::Shift => "quirks.shift",
            Field::LoadStore => "quirks.loadstore",
            Field::Jump0 => "quirks.jump0",
            Field::Logic => "quirks.logic",
            Field::Clip => "quirks.clip",
            Field::Vblank => "quirks.vblank",
            Field::VfOrder => "quirks.vforder",
            Field::LoresDxy0 => "quirks.lores_dxy0",
            Field::ResClear => "quirks.resclear",
            Field::DelayWrap => "quirks.delaywrap",
            Field::HiresCollision => "quirks.hirescollision",
            Field::ClipCollision => "quirks.clipcollision",
            Field::Scroll => "quirks.scroll",
            Field::OverflowI => "quirks.overflow_i",
        }
    }

    /// The key of the field in a format.
    pub fn key_str(self, format: Format) -> (r: &'static str)
        ensures
            r@ == self.key(format),
            r.is_ascii(),
    {
        match format {
            Format::Structured => self.structured_key_str(),
            Format::Flat => self.flat_key_str(),
        }
    }
}

/// Each field is the one at its own place.
pub proof fn lemma_field_at_index(f: Field)
    ensures
        0 <= f.index() < FIELD_COUNT,
        Field::at(f.index()) == f,
{
}

/// No two fields have the same key in the structured format.
pub proof fn lemma_structured_keys_distinct(f: Field, g: Field)
    requires
        f != g,
    ensures
        f.structured_key() != g.structured_key(),
{
    let a = f.structured_key();
    let b = g.structured_key();
    reveal_strlit("tickrate");
    reveal_strlit("maxSize");
    reveal_strlit("screenRotation");
    reveal_strlit("fontStyle");
    reveal_strlit("touchInputMode");
    reveal_strlit("startAddress");
    reveal_strlit("fillColor");
    reveal_strlit("fillColor2");
    reveal_strlit("blendColor");
    reveal_strlit("backgroundColor");
    reveal_strlit("buzzColor");
    reveal_strlit("quietColor");
    reveal_strlit("shiftQuirks");
    reveal_strlit("loadStoreQuirks");
    reveal_strlit("jumpQuirks");
    reveal_strlit("logicQuirks");
    reveal_strlit("clipQuirks");
    reveal_strlit("vBlankQuirks");
    reveal_strlit("vfOrderQuirks");
    reveal_strlit("loresDXY0Quirks");
    reveal_strlit("resClearQuirks");
    reveal_strlit("delayWrapQuirks");
    reveal_strlit("hiresCollisionQuirks");
    reveal_strlit("clipCollisionQuirks");
    reveal_strlit("scrollQuirks");
    reveal_strlit("overflowIQuirks");
    assert(a.len() != b.len() || char_at(a, 0) != char_at(b, 0) || char_at(a, 2) != char_at(b, 2));
}

/// The keys of both formats are written as they stand.
pub proof fn lemma_key_literal(f: Field, format: Format)
    ensures
        is_literal(f.key(format)),
{
    reveal_strlit("tickrate");
    reveal_strlit("maxSize");
    reveal_strlit("screenRotation");
    reveal_strlit("fontStyle");
    reveal_strlit("touchInputMode");
    reveal_strlit("startAddress");
    reveal_strlit("fillColor");
    reveal_strlit("fillColor2");
    reveal_strlit("blendColor");
    reveal_strlit("backgroundColor");
    reveal_strlit("buzzColor");
    reveal_strlit("quietColor");
    reveal_strlit("shiftQuirks");
    reveal_strlit("loadStoreQuirks");
    reveal_strlit("jumpQuirks");
    reveal_strlit("logicQuirks");
    reveal_strlit("clipQuirks");
    reveal_strlit("vBlankQuirks");
    reveal_strlit("vfOrderQuirks");
    reveal_strlit("loresDXY0Quirks");
    reveal_strlit("resClearQuirks");
    reveal_strlit("delayWrapQuirks");
    reveal_strlit("hiresCollisionQuirks");
    reveal_strlit("clipCollisionQuirks");
    reveal_strlit("scrollQuirks");
    reveal_strlit("overflowIQuirks");
    reveal_strlit("core.tickrate");
    reveal_strlit("core.max_rom");
    reveal_strlit("core.rotation");
    reveal_strlit("core.font");
    reveal_strlit("core.touch_mode");
    reveal_strlit("core.start_address");
    reveal_strlit("colors.plane1");
    reveal_strlit("colors.plane2");
    reveal_strlit("colors.plane3");
    reveal_strlit("colors.plane0");
    reveal_strlit("colors.sound");
    reveal_strlit("colors.background");
    reveal_strlit("quirks.shift");
    reveal_strlit("quirks.loadstore");
    reveal_strlit("quirks.jump0");
    reveal_strlit("quirks.logic");
    reveal_strlit("quirks.clip");
    reveal_strlit("quirks.vblank");
    reveal_strlit("quirks.vforder");
    reveal_strlit("quirks.lores_dxy0");
    reveal_strlit("quirks.resclear");
    reveal_strlit("quirks.delaywrap");
    reveal_strlit("quirks.hirescollision");
    reveal_strlit("quirks.clipcollision");
    reveal_strlit("quirks.scroll");
    reveal_strlit("quirks.overflow_i");
}

/// The keys of the flat format hold no upper-case letter.
pub proof fn lemma_flat_key_lowered(f: Field)
    ensures
        lowered(f.flat_key()) == f.flat_key(),
{
    reveal_strlit("core.tickrate");
    reveal_strlit("core.max_rom");
    reveal_strlit("core.rotation");
    reveal_strlit("core.font");
    reveal_strlit("core.touch_mode");
    reveal_strlit("core.start_address");
    reveal_strlit("colors.plane1");
    reveal_strlit("colors.plane2");
    reveal_strlit("colors.plane3");
    reveal_strlit("colors.plane0");
    reveal_strlit("colors.sound");
    reveal_strlit("colors.background");
    reveal_strlit("quirks.shift");
    reveal_strlit("quirks.loadstore");
    reveal_strlit("quirks.jump0");
    reveal_strlit("quirks.logic");
    reveal_strlit("quirks.clip");
    reveal_strlit("quirks.vblank");
    reveal_strlit("quirks.vforder");
    reveal_strlit("quirks.lores_dxy0");
    reveal_strlit("quirks.resclear");
    reveal_strlit("quirks.delaywrap");
    reveal_strlit("quirks.hirescollision");
    reveal_strlit("quirks.clipcollision");
    reveal_strlit("quirks.scroll");
    reveal_strlit("quirks.overflow_i");
    assert(lowered(f.flat_key()) =~= f.flat_key());
}

/// No two fields have the same key in the flat format, whatever the case of
/// its letters.
pub proof fn lemma_flat_keys_distinct(f: Field, g: Field)
    requires
        f != g,
    ensures
        !same_ignoring_case(f.flat_key(), g.flat_key()),
{
    lemma_flat_key_lowered(f);
    lemma_flat_key_lowered(g);
    let a = f.flat_key();
    let b = g.flat_key();
    reveal_strlit("core.tickrate");
    reveal_strlit("core.max_rom");
    reveal_strlit("core.rotation");
    reveal_strlit("core.font");
    reveal_strlit("core.touch_mode");
    reveal_strlit("core.start_address");
    reveal_strlit("colors.plane1");
    reveal_strlit("colors.plane2");
    reveal_strlit("colors.plane3");
    reveal_strlit("colors.plane0");
    reveal_strlit("colors.sound");
    reveal_strlit("colors.background");
    reveal_strlit("quirks.shift");
    reveal_strlit("quirks.loadstore");
    reveal_strlit("quirks.jump0");
    reveal_strlit("quirks.logic");
    reveal_strlit("quirks.clip");
    reveal_strlit("quirks.vblank");
    reveal_strlit("quirks.vforder");
    reveal_strlit("quirks.lores_dxy0");
    reveal_strlit("quirks.resclear");
    reveal_strlit("quirks.delaywrap");
    reveal_strlit("quirks.hirescollision");
    reveal_strlit("quirks.clipcollision");
    reveal_strlit("quirks.scroll");
    reveal_strlit("quirks.overflow_i");
    assert(a.len() != b.len() || char_at(a, 9) != char_at(b, 9) || char_at(a, 12) != char_at(
        b,
        12,
    ));
}

/// In either format, the key of a field is taken for the key of a field only
/// where the two fields are the same.
pub proof fn lemma_key_matches_own(f: Field, g: Field, format: Format)
    ensures
        key_matches(g.key(format), f.key(format), format) <==> g == f,
{
    if g != f {
        match format {
            Format::Structured => lemma_structured_keys_distinct(g, f),
            Format::Flat => lemma_flat_keys_distinct(g, f),
        }
    }
}

} // verus!
