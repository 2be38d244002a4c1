//! The spelling of the enumerations in the two formats.

use vstd::prelude::*;

use crate::font::Font;
use crate::names::Format;
use crate::options::{LoResDxy0Behavior, TouchMode};
use crate::text::{char_at, eq_exact, is_literal};

verus! {

/// The name of a font in the structured format.
pub open spec fn font_structured_name(font: Font) -> Seq<char> {
    match font {
        Font::Octo => "octo"@,
        Font::Vip => "vip"@,
        Font::Dream6800 => "dream6800"@,
        Font::Eti660 => "eti660"@,
        Font::Schip => "schip"@,
        Font::Fish => "fish"@,
        Font::AKouZ1 => "akouz1"@,
    }
}

/// The name of a font in the flat format.
pub open spec fn font_flat_name(font: Font) -> Seq<char> {
    match font {
        Font::Octo => "octo"@,
        Font::Vip => "vip"@,
        Font::Dream6800 => "dream6800"@,
        Font::Eti660 => "eti660"@,
        Font::Schip => "schip"@,
        Font::Fish => "fish"@,
        Font::AKouZ1 => "a_kou_z1"@,
    }
}

/// The name of a font in a format.
pub open spec fn font_name(font: Font, format: Format) -> Seq<char> {
    match format {
        Format::Structured => font_structured_name(font),
        Format::Flat => font_flat_name(font),
    }
}

/// The font that a name spells in a format.
pub open spec fn font_named(name: Seq<char>, format: Format) -> Option<Font> {
    if name == font_name(Font::Octo, format) {
        Some(Font::Octo)
    } else if name == font_name(Font::Vip, format) {
        Some(Font::Vip)
    } else if name == font_name(Font::Dream6800, format) {
        Some(Font::Dream6800)
    } else if name == font_name(Font::Eti660, format) {
        Some(Font::Eti660)
    } else if name == font_name(Font::Schip, format) {
        Some(Font::Schip)
    } else if name == font_name(Font::Fish, format) {
        Some(Font::Fish)
    } else if name == font_name(Font::AKouZ1, format) {
        Some(Font::AKouZ1)
    } else {
        None
    }
}

/// The name of a way of handling touch input, the same in both formats.
pub open spec fn touch_name(mode: TouchMode) -> Seq<char> {
    match mode {
        TouchMode::Off => "none"@,
        TouchMode::Swipe => "swipe"@,
        TouchMode::Seg16 => "seg16"@,
        TouchMode::Seg16Fill => "seg16_fill"@,
        TouchMode::Gamepad => "gamepad"@,
        TouchMode::Vip => "vip"@,
    }
}

/// The way of handling touch input that a name spells.
pub open spec fn touch_named(name: Seq<char>) -> Option<TouchMode> {
    if name == touch_name(TouchMode::Off) {
        Some(TouchMode::Off)
    } else if name == touch_name(TouchMode::Swipe) {
        Some(TouchMode::Swipe)
    } else if name == touch_name(TouchMode::Seg16) {
        Some(TouchMode::Seg16)
    } else if name == touch_name(TouchMode::Seg16Fill) {
        Some(TouchMode::Seg16Fill)
    } else if name == touch_name(TouchMode::Gamepad) {
        Some(TouchMode::Gamepad)
    } else if name == touch_name(TouchMode::Vip) {
        Some(TouchMode::Vip)
    } else {
        None
    }
}

/// The name of what a sprite of height 0 draws, the same in both formats.
pub open spec fn lores_name(behavior: LoResDxy0Behavior) -> Seq<char> {
    match behavior {
        LoResDxy0Behavior::NoOp => "no_op"@,
        LoResDxy0Behavior::TallSprite => "tall_sprite"@,
        LoResDxy0Behavior::BigSprite => "big_sprite"@,
    }
}

/// What a sprite of height 0 draws, as a name spells it.
pub open spec fn lores_named(name: Seq<char>) -> Option<LoResDxy0Behavior> {
    if name == lores_name(LoResDxy0Behavior::NoOp) {
        Some(LoResDxy0Behavior::NoOp)
    } else if name == lores_name(LoResDxy0Behavior::TallSprite) {
        Some(LoResDxy0Behavior::TallSprite)
    } else if name == lores_name(LoResDxy0Behavior::BigSprite) {
        Some(LoResDxy0Behavior::BigSprite)
    } else {
        None
    }
}

/// The name of a font in a format.
pub fn font_name_str(font: Font, format: Format) -> (r: &'static str)
    ensures
        r@ == font_name(font, format),
        r.is_ascii(),
{
    proof {
        reveal_strlit("octo");
        reveal_strlit("vip");
        reveal_strlit("dream6800");
        reveal_strlit("eti660");
        reveal_strlit("schip");
        reveal_strlit("fish");
        reveal_strlit("akouz1");
        reveal_strlit("a_kou_z1");
    }
    match format {
        Format::Structured => match font {
            Font::Octo => "octo",
            Font::Vip => "vip",
            Font::Dream6800 => "dream6800",
            Font::Eti660 => "eti660",
            Font::Schip => "schip",
            Font::Fish => "fish",
            Font::AKouZ1 => "akouz1",
        },
        Format::Flat => match font {
            Font::Octo => "octo",
            Font::Vip => "vip",
            Font::Dream6800 => "dream6800",
            Font::Eti660 => "eti660",
            Font::Schip => "schip",
            Font::Fish => "fish",
            Font::AKouZ1 => "a_kou_z1",
        },
    }
}

/// The font that a name spells in a format, if it spells one.
pub fn font_from_name(name: &str, format: Format) -> (r: Option<Font>)
    ensures
        r == font_named(name@, format),
{
    if eq_exact(name, font_name_str(Font::Octo, format)) {
        Some(Font::Octo)
    } else if eq_exact(name, font_name_str(Font::Vip, format)) {
        Some(Font::Vip)
    } else if eq_exact(name, font_name_str(Font::Dream6800, format)) {
        Some(Font::Dream6800)
    } else if eq_exact(name, font_name_str(Font::Eti660, format)) {
        Some(Font::Eti660)
    } else if eq_exact(name, font_name_str(Font::Schip, format)) {
        Some(Font::Schip)
    } else if eq_exact(name, font_name_str(Font::Fish, format)) {
        Some(Font::Fish)
    } else if eq_exact(name, font_name_str(Font::AKouZ1, format)) {
        Some(Font::AKouZ1)
    } else {
        None
    }
}

/// The name of a way of handling touch input.
pub fn touch_name_str(mode: TouchMode) -> (r: &'static str)
    ensures
        r@ == touch_name(mode),
        r.is_ascii(),
{
    proof {
        reveal_strlit("none");
        reveal_strlit("swipe");
        reveal_strlit("seg16");
        reveal_strlit("seg16_fill");
        reveal_strlit("gamepad");
        reveal_strlit("vip");
    }
    match mode {
        TouchMode::Off => "none",
        TouchMode::Swipe => "swipe",
        TouchMode::Seg16 => "seg16",
        TouchMode::Seg16Fill => "seg16_fill",
        TouchMode::Gamepad => "gamepad",
        TouchMode::Vip => "vip",
    }
}

/// The way of handling touch input that a name spells, if it spells one.
pub fn touch_from_name(name: &str) -> (r: Option<TouchMode>)
    ensures
        r == touch_named(name@),
{
    if eq_exact(name, touch_name_str(TouchMode::Off)) {
        Some(TouchMode::Off)
    } else if eq_exact(name, touch_name_str(TouchMode::Swipe)) {
        Some(TouchMode::Swipe)
    } else if eq_exact(name, touch_name_str(TouchMode::Seg16)) {
        Some(TouchMode::Seg16)
    } else if eq_exact(name, touch_name_str(TouchMode::Seg16Fill)) {
        Some(TouchMode::Seg16Fill)
    } else if eq_exact(name, touch_name_str(TouchMode::Gamepad)) {
        Some(TouchMode::Gamepad)
    } else if eq_exact(name, touch_name_str(TouchMode::Vip)) {
        Some(TouchMode::Vip)
    } else {
        None
    }
}

/// The name of what a sprite of height 0 draws.
pub fn lores_name_str(behavior: LoResDxy0Behavior) -> (r: &'static str)
    ensures
        r@ == lores_name(behavior),
        r.is_ascii(),
{
    proof {
        reveal_strlit("no_op");
        reveal_strlit("tall_sprite");
        reveal_strlit("big_sprite");
    }
    match behavior {
        LoResDxy0Behavior::NoOp => "no_op",
        LoResDxy0Behavior::TallSprite => "tall_sprite",
        LoResDxy0Behavior::BigSprite => "big_sprite",
    }
}

/// What a sprite of height 0 draws, as a name spells it, if it spells any.
pub fn lores_from_name(name: &str) -> (r: Option<LoResDxy0Behavior>)
    ensures
        r == lores_named(name@),
{
    if eq_exact(name, lores_name_str(LoResDxy0Behavior::NoOp)) {
        Some(LoResDxy0Behavior::NoOp)
    } else if eq_exact(name, lores_name_str(LoResDxy0Behavior::TallSprite)) {
        Some(LoResDxy0Behavior::TallSprite)
    } else if eq_exact(name, lores_name_str(LoResDxy0Behavior::BigSprite)) {
        Some(LoResDxy0Behavior::BigSprite)
    } else {
        None
    }
}

/// The names of the enumerations are written as they stand.
pub proof fn lemma_names_literal(
    font: Font,
    format: Format,
    mode: TouchMode,
    behavior: LoResDxy0Behavior,
)
    ensures
        is_literal(font_name(font, format)),
        is_literal(touch_name(mode)),
        is_literal(lores_name(behavior)),
{
    reveal_strlit("octo");
    reveal_strlit("vip");
    reveal_strlit("dream6800");
    reveal_strlit("eti660");
    reveal_strlit("schip");
    reveal_strlit("fish");
    reveal_strlit("akouz1");
    reveal_strlit("a_kou_z1");
    reveal_strlit("none");
    reveal_strlit("swipe");
    reveal_strlit("seg16");
    reveal_strlit("seg16_fill");
    reveal_strlit("gamepad");
    reveal_strlit("no_op");
    reveal_strlit("tall_sprite");
    reveal_strlit("big_sprite");
}

/// No two fonts have the same name in a format.
pub proof fn lemma_font_names_distinct(a: Font, b: Font, format: Format)
    requires
        a != b,
    ensures
        font_name(a, format) != font_name(b, format),
{
    reveal_strlit("octo");
    reveal_strlit("vip");
    reveal_strlit("dream6800");
    reveal_strlit("eti660");
    reveal_strlit("schip");
    reveal_strlit("fish");
    reveal_strlit("akouz1");
    reveal_strlit("a_kou_z1");
    let x = font_name(a, format);
    let y = font_name(b, format);
    assert(x.len() != y.len() || char_at(x, 0) != char_at(y, 0) || char_at(x, 1) != char_at(y, 1));
}

/// The name of a font spells that font.
pub proof fn lemma_font_name_round_trip(font: Font, format: Format)
    ensures
        font_named(font_name(font, format), format) == Some(font),
{
    if font != Font::Octo {
        lemma_font_names_distinct(font, Font::Octo, format);
    }
    if font != Font::Vip {
        lemma_font_names_distinct(font, Font::Vip, format);
    }
    if font != Font::Dream6800 {
        lemma_font_names_distinct(font, Font::Dream6800, format);
    }
    if font != Font::Eti660 {
        lemma_font_names_distinct(font, Font::Eti660, format);
    }
    if font != Font::Schip {
        lemma_font_names_distinct(font, Font::Schip, format);
    }
    if font != Font::Fish {
        lemma_font_names_distinct(font, Font::Fish, format);
    }
    if font != Font::AKouZ1 {
        lemma_font_names_distinct(font, Font::AKouZ1, format);
    }
}

/// No two ways of handling touch input have the same name.
pub proof fn lemma_touch_names_distinct(a: TouchMode, b: TouchMode)
    requires
        a != b,
    ensures
        touch_name(a) != touch_name(b),
{
    reveal_strlit("none");
    reveal_strlit("swipe");
    reveal_strlit("seg16");
    reveal_strlit("seg16_fill");
    reveal_strlit("gamepad");
    reveal_strlit("vip");
    let x = touch_name(a);
    let y = touch_name(b);
    assert(x.len() != y.len() || char_at(x, 0) != char_at(y, 0) || char_at(x, 1) != char_at(y, 1));
}

/// The name of a way of handling touch input spells that way.
pub proof fn lemma_touch_name_round_trip(mode: TouchMode)
    ensures
        touch_named(touch_name(mode)) == Some(mode),
{
    if mode != TouchMode::Off {
        lemma_touch_names_distinct(mode, TouchMode::Off);
    }
    if mode != TouchMode::Swipe {
        lemma_touch_names_distinct(mode, TouchMode::Swipe);
    }
    if mode != TouchMode::Seg16 {
        lemma_touch_names_distinct(mode, TouchMode::Seg16);
    }
    if mode != TouchMode::Seg16Fill {
        lemma_touch_names_distinct(mode, TouchMode::Seg16Fill);
    }
    if mode != TouchMode::Gamepad {
        lemma_touch_names_distinct(mode, TouchMode::Gamepad);
    }
    if mode != TouchMode::Vip {
        lemma_touch_names_distinct(mode, TouchMode::Vip);
    }
}

/// The name of what a sprite of height 0 draws spells it.
pub proof fn lemma_lores_name_round_trip(behavior: LoResDxy0Behavior)
    ensures
        lores_named(lores_name(behavior)) == Some(behavior),
{
    reveal_strlit("no_op");
    reveal_strlit("tall_sprite");
    reveal_strlit("big_sprite");
    let x = lores_name(behavior);
    assert(x.len() == 5 || x.len() == 11 || x.len() == 10);
}

} // verus!
