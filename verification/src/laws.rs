//! What holds of reading and writing together.

use vstd::prelude::*;

use crate::codec::{
    color_at, color_of, decode, decode_colors, decode_quirks, flag_at, flag_of, font_of, held,
    lores_at, lores_of, number_at, number_of, rotation_of, touch_of,
};
use crate::color::{lemma_parse_hex_digits, lemma_parse_text, Color};
use crate::error::OptionsError;
use crate::font::Font;
use crate::names::{lemma_field_at_index, Field, Format, Kind, FIELD_COUNT};
use crate::options::{lemma_angle_round_trip, LoResDxy0Behavior, Options, ScreenRotation, TouchMode};
use crate::spelling::{
    font_name, lemma_font_name_round_trip, lemma_lores_name_round_trip,
    lemma_touch_name_round_trip, lores_name, touch_name,
};
use crate::text::{decimal, lemma_u16_round_trip, lemma_u8_round_trip};
use crate::value::{Entries, ValueView};
use crate::writing::{color_value, flag_value, lemma_written_upto_key, number_value};

verus! {

/// The document written for the settings holds, under the key of each field,
/// the value written for that field and no other.
pub proof fn lemma_held_written(o: Options, f: Field, format: Format)
    ensures
        held(o.encode(format), f, format) == Ok::<Option<ValueView>, OptionsError>(
            o.written(f, format),
        ),
{
    lemma_written_upto_key(o, format, FIELD_COUNT as int, f);
    lemma_field_at_index(f);
}

/// The value written for a number is read as that number.
pub proof fn lemma_number_round_trip(n: u16, format: Format)
    ensures
        number_of(Some(number_value(n, format))) == Ok::<Option<u16>, OptionsError>(Some(n)),
{
    lemma_u16_round_trip(n);
}

/// The value written for a rotation is read as that rotation.
pub proof fn lemma_rotation_round_trip(rotation: ScreenRotation, format: Format)
    ensures
        rotation_of(Some(number_value(rotation.angle(), format)), format) == Ok::<
            ScreenRotation,
            OptionsError,
        >(rotation),
{
    lemma_u16_round_trip(rotation.angle());
    lemma_angle_round_trip(rotation);
}

/// The value written for a font is read as that font.
pub proof fn lemma_font_round_trip(font: Font, format: Format)
    ensures
        font_of(Some(ValueView::Text(font_name(font, format))), format) == Ok::<
            Font,
            OptionsError,
        >(font),
{
    lemma_font_name_round_trip(font, format);
}

/// The value written for a touch mode is read as that touch mode.
pub proof fn lemma_touch_round_trip(mode: TouchMode)
    ensures
        touch_of(Some(ValueView::Text(touch_name(mode)))) == Ok::<TouchMode, OptionsError>(mode),
{
    lemma_touch_name_round_trip(mode);
}

/// The value written for a color is read as that color.
pub proof fn lemma_color_round_trip(c: Color, format: Format)
    ensures
        color_of(Some(color_value(c, format))) == Ok::<Option<Color>, OptionsError>(Some(c)),
{
    lemma_parse_text(c);
    lemma_parse_hex_digits(c);
}

/// The value written for a flag is read as that flag.
pub proof fn lemma_flag_round_trip(b: bool, format: Format)
    ensures
        flag_of(Some(flag_value(b, format)), format) == Ok::<Option<bool>, OptionsError>(Some(b)),
{
    lemma_u8_round_trip(0);
    lemma_u8_round_trip(1);
}

/// The value written for a behavior on sprites of height 0 is read as it.
pub proof fn lemma_lores_round_trip(behavior: LoResDxy0Behavior)
    ensures
        lores_of(Some(ValueView::Text(lores_name(behavior)))) == Ok::<
            Option<LoResDxy0Behavior>,
            OptionsError,
        >(Some(behavior)),
{
    lemma_lores_name_round_trip(behavior);
}

/// Round trip, in either format: reading the document written for any
/// settings gives those settings back. `None` stays `None`, and `Some(false)`
/// stays `Some(false)`.
pub proof fn lemma_round_trip(o: Options, format: Format)
    ensures
        decode(o.encode(format), format) == Ok::<Options, OptionsError>(o),
{
    lemma_held_written(o, Field::Tickrate, format);
    lemma_held_written(o, Field::MaxSize, format);
    lemma_held_written(o, Field::ScreenRotation, format);
    lemma_held_written(o, Field::FontStyle, format);
    lemma_held_written(o, Field::TouchInputMode, format);
    lemma_held_written(o, Field::StartAddress, format);
    if o.tickrate is Some {
        lemma_number_round_trip(o.tickrate.unwrap(), format);
    }
    if o.max_size is Some {
        lemma_number_round_trip(o.max_size.unwrap(), format);
    }
    if o.start_address is Some {
        lemma_number_round_trip(o.start_address.unwrap(), format);
    }
    lemma_rotation_round_trip(o.screen_rotation, format);
    lemma_font_round_trip(o.font_style, format);
    lemma_touch_round_trip(o.touch_input_mode);
    lemma_colors_round_trip(o, format);
    lemma_quirks_round_trip(o, format);
}

/// Reading the document written for any settings gives their colors back.
proof fn lemma_colors_round_trip(o: Options, format: Format)
    ensures
        decode_colors(o.encode(format), format) == Ok::<_, OptionsError>(o.colors),
{
    lemma_held_written(o, Field::FillColor, format);
    if o.colors.fill_color is Some {
        lemma_color_round_trip(o.colors.fill_color.unwrap(), format);
    }
    lemma_held_written(o, Field::FillColor2, format);
    if o.colors.fill_color2 is Some {
        lemma_color_round_trip(o.colors.fill_color2.unwrap(), format);
    }
    lemma_held_written(o, Field::BlendColor, format);
    if o.colors.blend_color is Some {
        lemma_color_round_trip(o.colors.blend_color.unwrap(), format);
    }
    lemma_held_written(o, Field::BackgroundColor, format);
    if o.colors.background_color is Some {
        lemma_color_round_trip(o.colors.background_color.unwrap(), format);
    }
    lemma_held_written(o, Field::BuzzColor, format);
    if o.colors.buzz_color is Some {
        lemma_color_round_trip(o.colors.buzz_color.unwrap(), format);
    }
    lemma_held_written(o, Field::QuietColor, format);
    if o.colors.quiet_color is Some {
        lemma_color_round_trip(o.colors.quiet_color.unwrap(), format);
    }
}

/// Where the value written for a field is that of a flag, or the field is
/// left out for want of one, the written document gives that flag back.
proof fn lemma_flag_at_written(o: Options, f: Field, format: Format, flag: Option<bool>)
    requires
        o.written(f, format) == (match flag {
            Some(b) => Some(flag_value(b, format)),
            None => None,
        }),
    ensures
        flag_at(o.encode(format), f, format) == Ok::<Option<bool>, OptionsError>(flag),
{
    lemma_held_written(o, f, format);
    if flag is Some {
        lemma_flag_round_trip(flag.unwrap(), format);
    }
}

/// The written document gives back what the settings say of sprites of
/// height 0.
proof fn lemma_lores_at_written(o: Options, format: Format)
    ensures
        lores_at(o.encode(format), format) == Ok::<Option<LoResDxy0Behavior>, OptionsError>(
            o.quirks.lores_dxy0,
        ),
{
    lemma_held_written(o, Field::LoresDxy0, format);
    if o.quirks.lores_dxy0 is Some {
        lemma_lores_round_trip(o.quirks.lores_dxy0.unwrap());
    }
}

/// Reading the document written for any settings gives their quirks back.
proof fn lemma_quirks_round_trip(o: Options, format: Format)
    ensures
        decode_quirks(o.encode(format), format) == Ok::<_, OptionsError>(o.quirks),
{
    lemma_flag_at_written(o, Field::Shift, format, o.quirks.shift);
    lemma_flag_at_written(o, Field::LoadStore, format, o.quirks.load_store);
    lemma_flag_at_written(o, Field::Jump0, format, o.quirks.jump0);
    lemma_flag_at_written(o, Field::Logic, format, o.quirks.logic);
    lemma_flag_at_written(o, Field::Clip, format, o.quirks.clip);
    lemma_flag_at_written(o, Field::Vblank, format, o.quirks.vblank);
    lemma_flag_at_written(o, Field::VfOrder, format, o.quirks.vf_order);
    lemma_flag_at_written(o, Field::ResClear, format, o.quirks.res_clear);
    lemma_flag_at_written(o, Field::DelayWrap, format, o.quirks.delay_wrap);
    lemma_flag_at_written(o, Field::HiresCollision, format, o.quirks.hires_collision);
    lemma_flag_at_written(o, Field::ClipCollision, format, o.quirks.clip_collision);
    lemma_flag_at_written(o, Field::Scroll, format, o.quirks.scroll);
    lemma_flag_at_written(o, Field::OverflowI, format, o.quirks.overflow_i);
    lemma_lores_at_written(o, format);
}

/// Round trip in the structured format.
pub proof fn lemma_structured_round_trip(o: Options)
    ensures
        decode(o.encode(Format::Structured), Format::Structured) == Ok::<Options, OptionsError>(
            o,
        ),
{
    lemma_round_trip(o, Format::Structured);
}

/// Round trip in the flat format.
pub proof fn lemma_flat_round_trip(o: Options)
    ensures
        decode(o.encode(Format::Flat), Format::Flat) == Ok::<Options, OptionsError>(o),
{
    lemma_round_trip(o, Format::Flat);
}

/// The empty document, in either format, gives the settings that say
/// nothing: every optional field `None`, the display upright, Octo's font and
/// no touch input.
pub proof fn lemma_empty_document(format: Format)
    ensures
        decode(Seq::empty(), format) == Ok::<Options, OptionsError>(Options::unset()),
{
}

/// What a document says of one field.
pub enum Setting {
    /// A 16-bit number, or nothing.
    Number(Option<u16>),
    /// An orientation of the display.
    Rotation(ScreenRotation),
    /// A font.
    Font(Font),
    /// A touch mode.
    Touch(TouchMode),
    /// A color, or nothing.
    Color(Option<Color>),
    /// A flag, or nothing.
    Flag(Option<bool>),
    /// What a sprite of height 0 draws, or nothing.
    Lores(Option<LoResDxy0Behavior>),
}

/// What a value says of a field in a format, or why it is refused.
pub open spec fn meaning(f: Field, v: Option<ValueView>, format: Format) -> Result<
    Setting,
    OptionsError,
> {
    match f.kind() {
        Kind::Number => match number_of(v) {
            Ok(n) => Ok(Setting::Number(n)),
            Err(e) => Err(e),
        },
        Kind::Rotation => match rotation_of(v, format) {
            Ok(r) => Ok(Setting::Rotation(r)),
            Err(e) => Err(e),
        },
        Kind::Font => match font_of(v, format) {
            Ok(font) => Ok(Setting::Font(font)),
            Err(e) => Err(e),
        },
        Kind::Touch => match touch_of(v) {
            Ok(mode) => Ok(Setting::Touch(mode)),
            Err(e) => Err(e),
        },
        Kind::Color => match color_of(v) {
            Ok(c) => Ok(Setting::Color(c)),
            Err(e) => Err(e),
        },
        Kind::Flag => match flag_of(v, format) {
            Ok(b) => Ok(Setting::Flag(b)),
            Err(e) => Err(e),
        },
        Kind::Lores => match lores_of(v) {
            Ok(b) => Ok(Setting::Lores(b)),
            Err(e) => Err(e),
        },
    }
}

/// What a document of a format says of a field, or why it is refused there.
pub open spec fn meaning_at(doc: Entries, f: Field, format: Format) -> Result<
    Setting,
    OptionsError,
> {
    match held(doc, f, format) {
        Ok(v) => meaning(f, v, format),
        Err(e) => Err(e),
    }
}

/// Whether a structured and a flat document say the same of every field.
pub open spec fn same_meaning(structured: Entries, flat: Entries) -> bool {
    forall|f: Field| #[trigger]
        meaning_at(structured, f, Format::Structured) == meaning_at(flat, f, Format::Flat)
}

/// Two documents that say the same of a number give the same number.
proof fn lemma_same_number(structured: Entries, flat: Entries, f: Field)
    requires
        f.kind() == Kind::Number,
        meaning_at(structured, f, Format::Structured) == meaning_at(flat, f, Format::Flat),
    ensures
        number_at(structured, f, Format::Structured) == number_at(flat, f, Format::Flat),
{
}

/// Two documents that say the same of a color give the same color.
proof fn lemma_same_color(structured: Entries, flat: Entries, f: Field)
    requires
        f.kind() == Kind::Color,
        meaning_at(structured, f, Format::Structured) == meaning_at(flat, f, Format::Flat),
    ensures
        color_at(structured, f, Format::Structured) == color_at(flat, f, Format::Flat),
{
}

/// Two documents that say the same of a flag give the same flag.
proof fn lemma_same_flag(structured: Entries, flat: Entries, f: Field)
    requires
        f.kind() == Kind::Flag,
        meaning_at(structured, f, Format::Structured) == meaning_at(flat, f, Format::Flat),
    ensures
        flag_at(structured, f, Format::Structured) == flag_at(flat, f, Format::Flat),
{
}

/// Two documents that say the same of every field give the same colors.
proof fn lemma_same_colors(structured: Entries, flat: Entries)
    requires
        same_meaning(structured, flat),
    ensures
        decode_colors(structured, Format::Structured) == decode_colors(flat, Format::Flat),
{
    lemma_same_color(structured, flat, Field::FillColor);
    lemma_same_color(structured, flat, Field::FillColor2);
    lemma_same_color(structured, flat, Field::BlendColor);
    lemma_same_color(structured, flat, Field::BackgroundColor);
    lemma_same_color(structured, flat, Field::BuzzColor);
    lemma_same_color(structured, flat, Field::QuietColor);
}

/// Two documents that say the same of every field give the same quirks.
proof fn lemma_same_quirks(structured: Entries, flat: Entries)
    requires
        same_meaning(structured, flat),
    ensures
        decode_quirks(structured, Format::Structured) == decode_quirks(flat, Format::Flat),
{
    lemma_same_flag(structured, flat, Field::Shift);
    lemma_same_flag(structured, flat, Field::LoadStore);
    lemma_same_flag(structured, flat, Field::Jump0);
    lemma_same_flag(structured, flat, Field::Logic);
    lemma_same_flag(structured, flat, Field::Clip);
    lemma_same_flag(structured, flat, Field::Vblank);
    lemma_same_flag(structured, flat, Field::VfOrder);
    lemma_same_flag(structured, flat, Field::ResClear);
    lemma_same_flag(structured, flat, Field::DelayWrap);
    lemma_same_flag(structured, flat, Field::HiresCollision);
    lemma_same_flag(structured, flat, Field::ClipCollision);
    lemma_same_flag(structured, flat, Field::Scroll);
    lemma_same_flag(structured, flat, Field::OverflowI);
    assert(meaning_at(structured, Field::LoresDxy0, Format::Structured) == meaning_at(
        flat,
        Field::LoresDxy0,
        Format::Flat,
    ));
}

/// Agreement of the formats: a structured and a flat document that say the
/// same of every field give the same settings, or are refused for the same
/// reason.
pub proof fn lemma_same_meaning_same_settings(structured: Entries, flat: Entries)
    requires
        same_meaning(structured, flat),
    ensures
        decode(structured, Format::Structured) == decode(flat, Format::Flat),
{
    lemma_same_number(structured, flat, Field::Tickrate);
    lemma_same_number(structured, flat, Field::MaxSize);
    lemma_same_number(structured, flat, Field::StartAddress);
    assert(meaning_at(structured, Field::ScreenRotation, Format::Structured) == meaning_at(
        flat,
        Field::ScreenRotation,
        Format::Flat,
    ));
    assert(meaning_at(structured, Field::FontStyle, Format::Structured) == meaning_at(
        flat,
        Field::FontStyle,
        Format::Flat,
    ));
    assert(meaning_at(structured, Field::TouchInputMode, Format::Structured) == meaning_at(
        flat,
        Field::TouchInputMode,
        Format::Flat,
    ));
    lemma_same_colors(structured, flat);
    lemma_same_quirks(structured, flat);
}

/// The two documents written for the same settings give the same settings.
pub proof fn lemma_formats_agree(o: Options)
    ensures
        decode(o.encode(Format::Structured), Format::Structured) == decode(
            o.encode(Format::Flat),
            Format::Flat,
        ),
{
    lemma_round_trip(o, Format::Structured);
    lemma_round_trip(o, Format::Flat);
}

/// A number means the same as a structured number and as its decimal digits
/// in a flat document; a text means the same in both.
pub proof fn lemma_number_spellings(f: Field, n: u16, text: Seq<char>)
    requires
        f.kind() == Kind::Number,
    ensures
        meaning(f, Some(ValueView::Number(Some(n as u64))), Format::Structured) == meaning(
            f,
            Some(ValueView::Text(decimal(n as nat))),
            Format::Flat,
        ),
        meaning(f, Some(ValueView::Text(text)), Format::Structured) == meaning(
            f,
            Some(ValueView::Text(text)),
            Format::Flat,
        ),
{
    lemma_u16_round_trip(n);
}

/// An angle means the same as a structured number and as its decimal digits
/// in a flat document.
pub proof fn lemma_rotation_spellings(n: u16)
    ensures
        meaning(
            Field::ScreenRotation,
            Some(ValueView::Number(Some(n as u64))),
            Format::Structured,
        ) == meaning(
            Field::ScreenRotation,
            Some(ValueView::Text(decimal(n as nat))),
            Format::Flat,
        ),
{
    lemma_u16_round_trip(n);
}

/// A font means the same under its structured name in a structured document
/// and under its flat name in a flat one.
pub proof fn lemma_font_spellings(font: Font)
    ensures
        meaning(
            Field::FontStyle,
            Some(ValueView::Text(font_name(font, Format::Structured))),
            Format::Structured,
        ) == meaning(
            Field::FontStyle,
            Some(ValueView::Text(font_name(font, Format::Flat))),
            Format::Flat,
        ),
{
    lemma_font_name_round_trip(font, Format::Structured);
    lemma_font_name_round_trip(font, Format::Flat);
}

/// The text of a touch mode, of a color or of a behavior on sprites of
/// height 0 means the same in both formats.
pub proof fn lemma_text_spellings(f: Field, text: Seq<char>)
    requires
        f.kind() == Kind::Touch || f.kind() == Kind::Color || f.kind() == Kind::Lores,
    ensures
        meaning(f, Some(ValueView::Text(text)), Format::Structured) == meaning(
            f,
            Some(ValueView::Text(text)),
            Format::Flat,
        ),
{
}

/// A flag means the same as a structured boolean, as the structured number
/// one or zero, and as the digit `1` or `0` in a flat document. An 8-bit
/// number is refused alike as a structured number and as its decimal digits
/// in a flat document.
pub proof fn lemma_flag_spellings(f: Field, b: bool, n: u8)
    requires
        f.kind() == Kind::Flag,
    ensures
        meaning(f, Some(ValueView::Bool(b)), Format::Structured) == meaning(
            f,
            Some(flag_value(b, Format::Flat)),
            Format::Flat,
        ),
        meaning(f, Some(flag_value(b, Format::Structured)), Format::Structured) == meaning(
            f,
            Some(flag_value(b, Format::Flat)),
            Format::Flat,
        ),
        meaning(f, Some(ValueView::Number(Some(n as u64))), Format::Structured) == meaning(
            f,
            Some(ValueView::Text(decimal(n as nat))),
            Format::Flat,
        ),
{
    lemma_u8_round_trip(0);
    lemma_u8_round_trip(1);
    lemma_u8_round_trip(n);
}

/// A field that is missing means the same in both formats.
pub proof fn lemma_missing_means_the_same(f: Field)
    ensures
        meaning(f, None, Format::Structured) == meaning(f, None, Format::Flat),
{
}

} // verus!
