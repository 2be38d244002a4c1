//! How each field of the settings is read from, and written as, a value of a
//! document in either format.

use vstd::prelude::*;

use crate::color::Color;
use crate::document::{find, lookup};
use crate::error::OptionsError;
use crate::font::Font;
use crate::names::{Field, Format};
use crate::options::{Colors, LoResDxy0Behavior, Options, Quirks, ScreenRotation, TouchMode};
use crate::spelling::{
    font_from_name, font_named, lores_from_name, lores_named, touch_from_name, touch_named,
};
use crate::text::{parse_u16, parse_u8, u16_value, u8_value};
use crate::value::{Entries, Value, ValueView};

verus! {

/// The number that a value gives. A missing value gives none. A text that does
/// not spell a 16-bit number gives none either, and is no error.
pub open spec fn number_of(v: Option<ValueView>) -> Result<Option<u16>, OptionsError> {
    match v {
        None => Ok(None),
        Some(ValueView::Number(Some(n))) => if n <= 0xffff {
            Ok(Some(n as u16))
        } else {
            Err(OptionsError::InvalidNumber)
        },
        Some(ValueView::Text(s)) => Ok(u16_value(s)),
        Some(_) => Err(OptionsError::InvalidNumber),
    }
}

/// The rotation of an angle, where there is one.
pub open spec fn rotation_of_angle(degrees: int) -> Result<ScreenRotation, OptionsError> {
    match ScreenRotation::of_angle(degrees) {
        Some(rotation) => Ok(rotation),
        None => Err(OptionsError::InvalidRotation),
    }
}

/// The rotation that a value gives: that of the angle it holds as a number
/// or, in the flat format, spells. A missing value gives the upright display.
pub open spec fn rotation_of(v: Option<ValueView>, format: Format) -> Result<
    ScreenRotation,
    OptionsError,
> {
    match v {
        None => Ok(ScreenRotation::Normal),
        Some(ValueView::Number(Some(n))) => rotation_of_angle(n as int),
        Some(ValueView::Text(s)) => match u16_value(s) {
            Some(n) => if format == Format::Flat {
                rotation_of_angle(n as int)
            } else {
                Err(OptionsError::InvalidRotation)
            },
            None => Err(OptionsError::InvalidRotation),
        },
        Some(_) => Err(OptionsError::InvalidRotation),
    }
}

/// The font that a value gives: the one its text names in the format. A
/// missing value gives Octo's font.
pub open spec fn font_of(v: Option<ValueView>, format: Format) -> Result<Font, OptionsError> {
    match v {
        None => Ok(Font::Octo),
        Some(ValueView::Text(s)) => match font_named(s, format) {
            Some(font) => Ok(font),
            None => Err(OptionsError::InvalidFont),
        },
        Some(_) => Err(OptionsError::InvalidFont),
    }
}

/// The touch mode that a value gives: the one its text names. A missing
/// value gives none.
pub open spec fn touch_of(v: Option<ValueView>) -> Result<TouchMode, OptionsError> {
    match v {
        None => Ok(TouchMode::Off),
        Some(ValueView::Text(s)) => match touch_named(s) {
            Some(mode) => Ok(mode),
            None => Err(OptionsError::InvalidTouchMode),
        },
        Some(_) => Err(OptionsError::InvalidTouchMode),
    }
}

/// The color that a value gives: the one its text denotes. A missing value
/// and `null` give none.
pub open spec fn color_of(v: Option<ValueView>) -> Result<Option<Color>, OptionsError> {
    match v {
        None => Ok(None),
        Some(ValueView::Null) => Ok(None),
        Some(ValueView::Text(s)) => match Color::parse(s) {
            Ok(c) => Ok(Some(c)),
            Err(_) => Err(OptionsError::ColorParse),
        },
        Some(_) => Err(OptionsError::ColorParse),
    }
}

/// The flag that a number gives: off for zero, on for one.
pub open spec fn flag_of_number(n: int) -> Result<Option<bool>, OptionsError> {
    if n == 0 {
        Ok(Some(false))
    } else if n == 1 {
        Ok(Some(true))
    } else if 0 <= n <= 0xff {
        Err(OptionsError::InvalidQuirkValue(Some(n as u8)))
    } else {
        Err(OptionsError::InvalidQuirkValue(None))
    }
}

/// The flag that a value gives: a boolean itself, a number zero or one and, in
/// the flat format, a text that spells zero or one. A missing value gives
/// none. Anything else is refused.
pub open spec fn flag_of(v: Option<ValueView>, format: Format) -> Result<
    Option<bool>,
    OptionsError,
> {
    match v {
        None => Ok(None),
        Some(ValueView::Bool(b)) => Ok(Some(b)),
        Some(ValueView::Number(Some(n))) => flag_of_number(n as int),
        Some(ValueView::Text(s)) => match u8_value(s) {
            Some(n) => if format == Format::Flat {
                flag_of_number(n as int)
            } else {
                Err(OptionsError::InvalidQuirkValue(None))
            },
            None => Err(OptionsError::InvalidQuirkValue(None)),
        },
        Some(_) => Err(OptionsError::InvalidQuirkValue(None)),
    }
}

/// What a value says of sprites of height 0: the behavior that its text
/// names. A missing value and `null` say nothing.
pub open spec fn lores_of(v: Option<ValueView>) -> Result<
    Option<LoResDxy0Behavior>,
    OptionsError,
> {
    match v {
        None => Ok(None),
        Some(ValueView::Null) => Ok(None),
        Some(ValueView::Text(s)) => match lores_named(s) {
            Some(behavior) => Ok(Some(behavior)),
            None => Err(OptionsError::InvalidLoresBehavior),
        },
        Some(_) => Err(OptionsError::InvalidLoresBehavior),
    }
}

/// What a document holds under the key of a field.
pub open spec fn held(doc: Entries, f: Field, format: Format) -> Result<
    Option<ValueView>,
    OptionsError,
> {
    lookup(doc, f.key(format), format)
}

/// The number that a document gives for a field.
pub open spec fn number_at(doc: Entries, f: Field, format: Format) -> Result<
    Option<u16>,
    OptionsError,
> {
    match held(doc, f, format) {
        Ok(v) => number_of(v),
        Err(e) => Err(e),
    }
}

/// The rotation that a document gives.
pub open spec fn rotation_at(doc: Entries, format: Format) -> Result<
    ScreenRotation,
    OptionsError,
> {
    match held(doc, Field::ScreenRotation, format) {
        Ok(v) => rotation_of(v, format),
        Err(e) => Err(e),
    }
}

/// The font that a document gives.
pub open spec fn font_at(doc: Entries, format: Format) -> Result<Font, OptionsError> {
    match held(doc, Field::FontStyle, format) {
        Ok(v) => font_of(v, format),
        Err(e) => Err(e),
    }
}

/// The touch mode that a document gives.
pub open spec fn touch_at(doc: Entries, format: Format) -> Result<TouchMode, OptionsError> {
    match held(doc, Field::TouchInputMode, format) {
        Ok(v) => touch_of(v),
        Err(e) => Err(e),
    }
}

/// The color that a document gives for a field.
pub open spec fn color_at(doc: Entries, f: Field, format: Format) -> Result<
    Option<Color>,
    OptionsError,
> {
    match held(doc, f, format) {
        Ok(v) => color_of(v),
        Err(e) => Err(e),
    }
}

/// The flag that a document gives for a field.
pub open spec fn flag_at(doc: Entries, f: Field, format: Format) -> Result<
    Option<bool>,
    OptionsError,
> {
    match held(doc, f, format) {
        Ok(v) => flag_of(v, format),
        Err(e) => Err(e),
    }
}

/// What a document says of sprites of height 0.
pub open spec fn lores_at(doc: Entries, format: Format) -> Result<
    Option<LoResDxy0Behavior>,
    OptionsError,
> {
    match held(doc, Field::LoresDxy0, format) {
        Ok(v) => lores_of(v),
        Err(e) => Err(e),
    }
}

/// The colors that a document gives, or the error of the first color, in the
/// order of the fields, that it gives none for.
pub open spec fn decode_colors(doc: Entries, format: Format) -> Result<Colors, OptionsError> {
    let fill = color_at(doc, Field::FillColor, format);
    let fill2 = color_at(doc, Field::FillColor2, format);
    let blend = color_at(doc, Field::BlendColor, format);
    let background = color_at(doc, Field::BackgroundColor, format);
    let buzz = color_at(doc, Field::BuzzColor, format);
    let quiet = color_at(doc, Field::QuietColor, format);
    if fill is Err {
        Err(fill->Err_0)
    } else if fill2 is Err {
        Err(fill2->Err_0)
    } else if blend is Err {
        Err(blend->Err_0)
    } else if background is Err {
        Err(background->Err_0)
    } else if buzz is Err {
        Err(buzz->Err_0)
    } else if quiet is Err {
        Err(quiet->Err_0)
    } else {
        Ok(
            Colors {
                fill_color: fill->Ok_0,
                fill_color2: fill2->Ok_0,
                blend_color: blend->Ok_0,
                background_color: background->Ok_0,
                buzz_color: buzz->Ok_0,
                quiet_color: quiet->Ok_0,
            },
        )
    }
}

/// The quirks that a document gives, or the error of the first quirk, in the
/// order of the fields, that it gives none for.
pub open spec fn decode_quirks(doc: Entries, format: Format) -> Result<Quirks, OptionsError> {
    let shift = flag_at(doc, Field::Shift, format);
    let load_store = flag_at(doc, Field::LoadStore, format);
    let jump0 = flag_at(doc, Field::Jump0, format);
    let logic = flag_at(doc, Field::Logic, format);
    let clip = flag_at(doc, Field::Clip, format);
    let vblank = flag_at(doc, Field::Vblank, format);
    let vf_order = flag_at(doc, Field::VfOrder, format);
    let lores_dxy0 = lores_at(doc, format);
    let res_clear = flag_at(doc, Field::ResClear, format);
    let delay_wrap = flag_at(doc, Field::DelayWrap, format);
    let hires_collision = flag_at(doc, Field::HiresCollision, format);
    let clip_collision = flag_at(doc, Field::ClipCollision, format);
    let scroll = flag_at(doc, Field::Scroll, format);
    let overflow_i = flag_at(doc, Field::OverflowI, format);
    if shift is Err {
        Err(shift->Err_0)
    } else if load_store is Err {
        Err(load_store->Err_0)
    } else if jump0 is Err {
        Err(jump0->Err_0)
    } else if logic is Err {
        Err(logic->Err_0)
    } else if clip is Err {
        Err(clip->Err_0)
    } else if vblank is Err {
        Err(vblank->Err_0)
    } else if vf_order is Err {
        Err(vf_order->Err_0)
    } else if lores_dxy0 is Err {
        Err(lores_dxy0->Err_0)
    } else if res_clear is Err {
        Err(res_clear->Err_0)
    } else if delay_wrap is Err {
        Err(delay_wrap->Err_0)
    } else if hires_collision is Err {
        Err(hires_collision->Err_0)
    } else if clip_collision is Err {
        Err(clip_collision->Err_0)
    } else if scroll is Err {
        Err(scroll->Err_0)
    } else if overflow_i is Err {
        Err(overflow_i->Err_0)
    } else {
        Ok(
            Quirks {
                shift: shift->Ok_0,
                load_store: load_store->Ok_0,
                jump0: jump0->Ok_0,
                logic: logic->Ok_0,
                clip: clip->Ok_0,
                vblank: vblank->Ok_0,
                vf_order: vf_order->Ok_0,
                lores_dxy0: lores_dxy0->Ok_0,
                res_clear: res_clear->Ok_0,
                delay_wrap: delay_wrap->Ok_0,
                hires_collision: hires_collision->Ok_0,
                clip_collision: clip_collision->Ok_0,
                scroll: scroll->Ok_0,
                overflow_i: overflow_i->Ok_0,
            },
        )
    }
}

/// The settings that a document of a format gives. Keys that are no key of
/// the settings are passed over. A field whose key is missing is `None` or,
/// for the rotation, the font and the touch mode, at its default. The
/// document is refused with the error of the first field, in the order of the
/// fields, whose key occurs twice or whose value is not accepted.
pub open spec fn decode(doc: Entries, format: Format) -> Result<Options, OptionsError> {
    let tickrate = number_at(doc, Field::Tickrate, format);
    let max_size = number_at(doc, Field::MaxSize, format);
    let rotation = rotation_at(doc, format);
    let font = font_at(doc, format);
    let touch = touch_at(doc, format);
    let start_address = number_at(doc, Field::StartAddress, format);
    let colors = decode_colors(doc, format);
    let quirks = decode_quirks(doc, format);
    if tickrate is Err {
        Err(tickrate->Err_0)
    } else if max_size is Err {
        Err(max_size->Err_0)
    } else if rotation is Err {
        Err(rotation->Err_0)
    } else if font is Err {
        Err(font->Err_0)
    } else if touch is Err {
        Err(touch->Err_0)
    } else if start_address is Err {
        Err(start_address->Err_0)
    } else if colors is Err {
        Err(colors->Err_0)
    } else if quirks is Err {
        Err(quirks->Err_0)
    } else {
        Ok(
            Options {
                tickrate: tickrate->Ok_0,
                max_size: max_size->Ok_0,
                screen_rotation: rotation->Ok_0,
                font_style: font->Ok_0,
                touch_input_mode: touch->Ok_0,
                start_address: start_address->Ok_0,
                colors: colors->Ok_0,
                quirks: quirks->Ok_0,
            },
        )
    }
}

/// Reads a number from a value.
pub fn read_number(v: Option<&Value>) -> (r: Result<Option<u16>, OptionsError>)
    ensures
        r == number_of(v.deep_view()),
{
    match v {
        None => Ok(None),
        Some(Value::Number(Some(n))) => if *n <= 0xffff {
            Ok(Some(*n as u16))
        } else {
            Err(OptionsError::InvalidNumber)
        },
        Some(Value::Text(s)) => Ok(parse_u16(s.as_str())),
        Some(_) => Err(OptionsError::InvalidNumber),
    }
}

/// Reads a rotation from an angle.
fn read_angle(degrees: u64) -> (r: Result<ScreenRotation, OptionsError>)
    ensures
        r == rotation_of_angle(degrees as int),
{
    match ScreenRotation::from_degrees(degrees) {
        Some(rotation) => Ok(rotation),
        None => Err(OptionsError::InvalidRotation),
    }
}

/// Reads a rotation from a value.
pub fn read_rotation(v: Option<&Value>, format: Format) -> (r: Result<
    ScreenRotation,
    OptionsError,
>)
    ensures
        r == rotation_of(v.deep_view(), format),
{
    match v {
        None => Ok(ScreenRotation::Normal),
        Some(Value::Number(Some(n))) => read_angle(*n),
        Some(Value::Text(s)) => match parse_u16(s.as_str()) {
            Some(n) => match format {
                Format::Flat => read_angle(n as u64),
                Format::Structured => Err(OptionsError::InvalidRotation),
            },
            None => Err(OptionsError::InvalidRotation),
        },
        Some(_) => Err(OptionsError::InvalidRotation),
    }
}

/// Reads a font from a value.
pub fn read_font(v: Option<&Value>, format: Format) -> (r: Result<Font, OptionsError>)
    ensures
        r == font_of(v.deep_view(), format),
{
    match v {
        None => Ok(Font::Octo),
        Some(Value::Text(s)) => match font_from_name(s.as_str(), format) {
            Some(font) => Ok(font),
            None => Err(OptionsError::InvalidFont),
        },
        Some(_) => Err(OptionsError::InvalidFont),
    }
}

/// Reads a touch mode from a value.
pub fn read_touch(v: Option<&Value>) -> (r: Result<TouchMode, OptionsError>)
    ensures
        r == touch_of(v.deep_view()),
{
    match v {
        None => Ok(TouchMode::Off),
        Some(Value::Text(s)) => match touch_from_name(s.as_str()) {
            Some(mode) => Ok(mode),
            None => Err(OptionsError::InvalidTouchMode),
        },
        Some(_) => Err(OptionsError::InvalidTouchMode),
    }
}

/// Reads a color from a value.
pub fn read_color(v: Option<&Value>) -> (r: Result<Option<Color>, OptionsError>)
    ensures
        r == color_of(v.deep_view()),
{
    match v {
        None => Ok(None),
        Some(Value::Null) => Ok(None),
        Some(Value::Text(s)) => match Color::from_str(s.as_str()) {
            Ok(c) => Ok(Some(c)),
            Err(_) => Err(OptionsError::ColorParse),
        },
        Some(_) => Err(OptionsError::ColorParse),
    }
}

/// Reads a flag from a number.
fn read_flag_number(n: u64) -> (r: Result<Option<bool>, OptionsError>)
    ensures
        r == flag_of_number(n as int),
{
    if n == 0 {
        Ok(Some(false))
    } else if n == 1 {
        Ok(Some(true))
    } else if n <= 0xff {
        Err(OptionsError::InvalidQuirkValue(Some(n as u8)))
    } else {
        Err(OptionsError::InvalidQuirkValue(None))
    }
}

/// Reads a flag from a value.
pub fn read_flag(v: Option<&Value>, format: Format) -> (r: Result<Option<bool>, OptionsError>)
    ensures
        r == flag_of(v.deep_view(), format),
{
    match v {
        None => Ok(None),
        Some(Value::Bool(b)) => Ok(Some(*b)),
        Some(Value::Number(Some(n))) => read_flag_number(*n),
        Some(Value::Text(s)) => match parse_u8(s.as_str()) {
            Some(n) => match format {
                Format::Flat => read_flag_number(n as u64),
                Format::Structured => Err(OptionsError::InvalidQuirkValue(None)),
            },
            None => Err(OptionsError::InvalidQuirkValue(None)),
        },
        Some(_) => Err(OptionsError::InvalidQuirkValue(None)),
    }
}

/// Reads the behavior for sprites of height 0 from a value.
pub fn read_lores(v: Option<&Value>) -> (r: Result<Option<LoResDxy0Behavior>, OptionsError>)
    ensures
        r == lores_of(v.deep_view()),
{
    match v {
        None => Ok(None),
        Some(Value::Null) => Ok(None),
        Some(Value::Text(s)) => match lores_from_name(s.as_str()) {
            Some(behavior) => Ok(Some(behavior)),
            None => Err(OptionsError::InvalidLoresBehavior),
        },
        Some(_) => Err(OptionsError::InvalidLoresBehavior),
    }
}

/// Searches a document for the one value under the key of a field.
fn held_in<'a>(doc: &'a Vec<(String, Value)>, f: Field, format: Format) -> (r: Result<
    Option<&'a Value>,
    OptionsError,
>)
    ensures
        match r {
            Ok(v) => held(doc.deep_view(), f, format) == Ok::<Option<ValueView>, OptionsError>(
                v.deep_view(),
            ),
            Err(e) => held(doc.deep_view(), f, format) == Err::<Option<ValueView>, OptionsError>(
                e,
            ),
        },
{
    find(doc, f.key_str(format), format)
}

/// Reads the number of a field from a document.
fn number_in(doc: &Vec<(String, Value)>, f: Field, format: Format) -> (r: Result<
    Option<u16>,
    OptionsError,
>)
    ensures
        r == number_at(doc.deep_view(), f, format),
{
    match held_in(doc, f, format) {
        Ok(v) => read_number(v),
        Err(e) => Err(e),
    }
}

/// Reads the color of a field from a document.
fn color_in(doc: &Vec<(String, Value)>, f: Field, format: Format) -> (r: Result<
    Option<Color>,
    OptionsError,
>)
    ensures
        r == color_at(doc.deep_view(), f, format),
{
    match held_in(doc, f, format) {
        Ok(v) => read_color(v),
        Err(e) => Err(e),
    }
}

/// Reads the flag of a field from a document.
fn flag_in(doc: &Vec<(String, Value)>, f: Field, format: Format) -> (r: Result<
    Option<bool>,
    OptionsError,
>)
    ensures
        r == flag_at(doc.deep_view(), f, format),
{
    match held_in(doc, f, format) {
        Ok(v) => read_flag(v, format),
        Err(e) => Err(e),
    }
}

/// Reads the six colors from a document.
pub fn colors_from_entries(doc: &Vec<(String, Value)>, format: Format) -> (r: Result<
    Colors,
    OptionsError,
>)
    ensures
        r == decode_colors(doc.deep_view(), format),
{
    let fill_color = match color_in(doc, Field::FillColor, format) {
        Ok(v) => v,
        Err(e) => return Err(e),
    };
    let fill_color2 = match color_in(doc, Field::FillColor2, format) {
        Ok(v) => v,
        Err(e) => return Err(e),
    };
    let blend_color = match color_in(doc, Field::BlendColor, format) {
        Ok(v) => v,
        Err(e) => return Err(e),
    };
    let background_color = match color_in(doc, Field::BackgroundColor, format) {
        Ok(v) => v,
        Err(e) => return Err(e),
    };
    let buzz_color = match color_in(doc, Field::BuzzColor, format) {
        Ok(v) => v,
        Err(e) => return Err(e),
    };
    let quiet_color = match color_in(doc, Field::QuietColor, format) {
        Ok(v) => v,
        Err(e) => return Err(e),
    };
    Ok(
        Colors {
            fill_color,
            fill_color2,
            blend_color,
            background_color,
            buzz_color,
            quiet_color,
        },
    )
}

/// Reads the quirks from a document.
pub fn quirks_from_entries(doc: &Vec<(String, Value)>, format: Format) -> (r: Result<
    Quirks,
    OptionsError,
>)
    ensures
        r == decode_quirks(doc.deep_view(), format),
{
    let shift = match flag_in(doc, Field::Shift, format) {
        Ok(v) => v,
        Err(e) => return Err(e),
    };
    let load_store = match flag_in(doc, Field::LoadStore, format) {
        Ok(v) => v,
        Err(e) => return Err(e),
    };
    let jump0 = match flag_in(doc, Field::Jump0, format) {
        Ok(v) => v,
        Err(e) => return Err(e),
    };
    let logic = match flag_in(doc, Field::Logic, format) {
        Ok(v) => v,
        Err(e) => return Err(e),
    };
    let clip = match flag_in(doc, Field::Clip, format) {
        Ok(v) => v,
        Err(e) => return Err(e),
    };
    let vblank = match flag_in(doc, Field::Vblank, format) {
        Ok(v) => v,
        Err(e) => return Err(e),
    };
    let vf_order = match flag_in(doc, Field::VfOrder, format) {
        Ok(v) => v,
        Err(e) => return Err(e),
    };
    let lores_dxy0 = match held_in(doc, Field::LoresDxy0, format) {
        Ok(v) => match read_lores(v) {
            Ok(v) => v,
            Err(e) => return Err(e),
        },
        Err(e) => return Err(e),
    };
    let res_clear = match flag_in(doc, Field::ResClear, format) {
        Ok(v) => v,
        Err(e) => return Err(e),
    };
    let delay_wrap = match flag_in(doc, Field::DelayWrap, format) {
        Ok(v) => v,
        Err(e) => return Err(e),
    };
    let hires_collision = match flag_in(doc, Field::HiresCollision, format) {
        Ok(v) => v,
        Err(e) => return Err(e),
    };
    let clip_collision = match flag_in(doc, Field::ClipCollision, format) {
        Ok(v) => v,
        Err(e) => return Err(e),
    };
    let scroll = match flag_in(doc, Field::Scroll, format) {
        Ok(v) => v,
        Err(e) => return Err(e),
    };
    let overflow_i = match flag_in(doc, Field::OverflowI, format) {
        Ok(v) => v,
        Err(e) => return Err(e),
    };
    Ok(
        Quirks {
            shift,
            load_store,
            jump0,
            logic,
            clip,
            vblank,
            vf_order,
            lores_dxy0,
            res_clear,
            delay_wrap,
            hires_collision,
            clip_collision,
            scroll,
            overflow_i,
        },
    )
}

impl Options {
    /// Reads the settings from the keys and values of a document of a format.
    pub fn from_entries(doc: &Vec<(String, Value)>, format: Format) -> (r: Result<
        Options,
        OptionsError,
    >)
        ensures
            r == decode(doc.deep_view(), format),
    {
        let tickrate = match number_in(doc, Field::Tickrate, format) {
            Ok(v) => v,
            Err(e) => return Err(e),
        };
        let max_size = match number_in(doc, Field::MaxSize, format) {
            Ok(v) => v,
            Err(e) => return Err(e),
        };
        let screen_rotation = match held_in(doc, Field::ScreenRotation, format) {
            Ok(v) => match read_rotation(v, format) {
                Ok(v) => v,
                Err(e) => return Err(e),
            },
            Err(e) => return Err(e),
        };
        let font_style = match held_in(doc, Field::FontStyle, format) {
            Ok(v) => match read_font(v, format) {
                Ok(v) => v,
                Err(e) => return Err(e),
            },
            Err(e) => return Err(e),
        };
        let touch_input_mode = match held_in(doc, Field::TouchInputMode, format) {
            Ok(v) => match read_touch(v) {
                Ok(v) => v,
                Err(e) => return Err(e),
            },
            Err(e) => return Err(e),
        };
        let start_address = match number_in(doc, Field::StartAddress, format) {
            Ok(v) => v,
            Err(e) => return Err(e),
        };
        let colors = match colors_from_entries(doc, format) {
            Ok(v) => v,
            Err(e) => return Err(e),
        };
        let quirks = match quirks_from_entries(doc, format) {
            Ok(v) => v,
            Err(e) => return Err(e),
        };
        Ok(
            Options {
                tickrate,
                max_size,
                screen_rotation,
                font_style,
                touch_input_mode,
                start_address,
                colors,
                quirks,
            },
        )
    }
}

} // verus!
