//! How the settings are written as the keys and values of a document in
//! either format.

use vstd::prelude::*;
use vstd::string::StringExecFns;

use crate::color::Color;
use crate::document::{first_match, occurrences};
use crate::names::{lemma_field_at_index, lemma_key_matches_own, Field, Format, FIELD_COUNT};
use crate::options::Options;
use crate::spelling::{
    font_name, font_name_str, lores_name, lores_name_str, touch_name, touch_name_str,
};
use crate::text::{decimal, decimal_string};
use crate::value::{Entries, Value, ValueView};

verus! {

/// The value written for a number: the number itself in the structured
/// format, its decimal digits in the flat format.
pub open spec fn number_value(n: u16, format: Format) -> ValueView {
    match format {
        Format::Structured => ValueView::Number(Some(n as u64)),
        Format::Flat => ValueView::Text(decimal(n as nat)),
    }
}

/// The value written for a color: `#RRGGBB` in the structured format, the
/// six digits without the `#` in the flat format.
pub open spec fn color_value(c: Color, format: Format) -> ValueView {
    match format {
        Format::Structured => ValueView::Text(c.text()),
        Format::Flat => ValueView::Text(c.hex_digits()),
    }
}

/// The value written for a flag: the number one where it is on, zero where
/// it is off.
pub open spec fn flag_value(b: bool, format: Format) -> ValueView {
    if b {
        number_value(1, format)
    } else {
        number_value(0, format)
    }
}

impl Options {
    /// The value written for a field, or `None` where the field is `None`
    /// and so left out of the document.
    pub open spec fn written(self, f: Field, format: Format) -> Option<ValueView> {
        let o = self;
        match f {
            Field::Tickrate => match o.tickrate {
                Some(n) => Some(number_value(n, format)),
                None => None,
            },
            Field::MaxSize => match o.max_size {
                Some(n) => Some(number_value(n, format)),
                None => None,
            },
            Field::ScreenRotation => Some(number_value(o.screen_rotation.angle(), format)),
            Field::FontStyle => Some(ValueView::Text(font_name(o.font_style, format))),
            Field::TouchInputMode => Some(ValueView::Text(touch_name(o.touch_input_mode))),
            Field::StartAddress => match o.start_address {
                Some(n) => Some(number_value(n, format)),
                None => None,
            },
            Field::FillColor => match o.colors.fill_color {
                Some(c) => Some(color_value(c, format)),
                None => None,
            },
            Field::FillColor2 => match o.colors.fill_color2 {
                Some(c) => Some(color_value(c, format)),
                None => None,
            },
            Field::BlendColor => match o.colors.blend_color {
                Some(c) => Some(color_value(c, format)),
                None => None,
            },
            Field::BackgroundColor => match o.colors.background_color {
                Some(c) => Some(color_value(c, format)),
                None => None,
            },
            Field::BuzzColor => match o.colors.buzz_color {
                Some(c) => Some(color_value(c, format)),
                None => None,
            },
            Field::QuietColor => match o.colors.quiet_color {
                Some(c) => Some(color_value(c, format)),
                None => None,
            },
            Field::Shift => match o.quirks.shift {
                Some(b) => Some(flag_value(b, format)),
                None => None,
            },
            Field::LoadStore => match o.quirks.load_store {
                Some(b) => Some(flag_value(b, format)),
                None => None,
            },
            Field::Jump0 => match o.quirks.jump0 {
                Some(b) => Some(flag_value(b, format)),
                None => None,
            },
            Field::Logic => match o.quirks.logic {
                Some(b) => Some(flag_value(b, format)),
                None => None,
            },
            Field::Clip => match o.quirks.clip {
                Some(b) => Some(flag_value(b, format)),
                None => None,
            },
            Field::Vblank => match o.quirks.vblank {
                Some(b) => Some(flag_value(b, format)),
                None => None,
            },
            Field::VfOrder => match o.quirks.vf_order {
                Some(b) => Some(flag_value(b, format)),
                None => None,
            },
            Field::LoresDxy0 => match o.quirks.lores_dxy0 {
                Some(b) => Some(ValueView::Text(lores_name(b))),
                None => None,
            },
            Field::ResClear => match o.quirks.res_clear {
                Some(b) => Some(flag_value(b, format)),
                None => None,
            },
            Field::DelayWrap => match o.quirks.delay_wrap {
                Some(b) => Some(flag_value(b, format)),
                None => None,
            },
            Field::HiresCollision => match o.quirks.hires_collision {
                Some(b) => Some(flag_value(b, format)),
                None => None,
            },
            Field::ClipCollision => match o.quirks.clip_collision {
                Some(b) => Some(flag_value(b, format)),
                None => None,
            },
            Field::Scroll => match o.quirks.scroll {
                Some(b) => Some(flag_value(b, format)),
                None => None,
            },
            Field::OverflowI => match o.quirks.overflow_i {
                Some(b) => Some(flag_value(b, format)),
                None => None,
            },
        }
    }

    /// The entries written for the first `n` fields: for each field that is
    /// not left out, in the order of the fields, its key and its value.
    pub open spec fn written_upto(self, format: Format, n: int) -> Entries
        decreases n,
    {
        if n <= 0 {
            Seq::empty()
        } else {
            let before = self.written_upto(format, n - 1);
            let f = Field::at(n - 1);
            match self.written(f, format) {
                Some(v) => before.push((f.key(format), v)),
                None => before,
            }
        }
    }

    /// The document written for the settings in a format.
    pub open spec fn encode(self, format: Format) -> Entries {
        self.written_upto(format, FIELD_COUNT as int)
    }

    /// Writes the value of a field, if the field is not left out.
    pub fn write_field(&self, f: Field, format: Format) -> (r: Option<Value>)
        ensures
            r.deep_view() == self.written(f, format),
    {
        match f {
            Field::Tickrate => match self.tickrate {
                Some(n) => Some(write_number(n, format)),
                None => None,
            },
            Field::MaxSize => match self.max_size {
                Some(n) => Some(write_number(n, format)),
                None => None,
            },
            Field::ScreenRotation => Some(write_number(self.screen_rotation.degrees(), format)),
            Field::FontStyle => Some(
                Value::Text(String::from_str(font_name_str(self.font_style, format))),
            ),
            Field::TouchInputMode => Some(
                Value::Text(String::from_str(touch_name_str(self.touch_input_mode))),
            ),
            Field::StartAddress => match self.start_address {
                Some(n) => Some(write_number(n, format)),
                None => None,
            },
            Field::FillColor => match self.colors.fill_color {
                Some(c) => Some(write_color(c, format)),
                None => None,
            },
            Field::FillColor2 => match self.colors.fill_color2 {
                Some(c) => Some(write_color(c, format)),
                None => None,
            },
            Field::BlendColor => match self.colors.blend_color {
                Some(c) => Some(write_color(c, format)),
                None => None,
            },
            Field::BackgroundColor => match self.colors.background_color {
                Some(c) => Some(write_color(c, format)),
                None => None,
            },
            Field::BuzzColor => match self.colors.buzz_color {
                Some(c) => Some(write_color(c, format)),
                None => None,
            },
            Field::QuietColor => match self.colors.quiet_color {
                Some(c) => Some(write_color(c, format)),
                None => None,
            },
            Field::Shift => match self.quirks.shift {
                Some(b) => Some(write_flag(b, format)),
                None => None,
            },
            Field::LoadStore => match self.quirks.load_store {
                Some(b) => Some(write_flag(b, format)),
                None => None,
            },
            Field::Jump0 => match self.quirks.jump0 {
                Some(b) => Some(write_flag(b, format)),
                None => None,
            },
            Field::Logic => match self.quirks.logic {
                Some(b) => Some(write_flag(b, format)),
                None => None,
            },
            Field::Clip => match self.quirks.clip {
                Some(b) => Some(write_flag(b, format)),
                None => None,
            },
            Field::Vblank => match self.quirks.vblank {
                Some(b) => Some(write_flag(b, format)),
                None => None,
            },
            Field::VfOrder => match self.quirks.vf_order {
                Some(b) => Some(write_flag(b, format)),
                None => None,
            },
            Field::LoresDxy0 => match self.quirks.lores_dxy0 {
                Some(b) => Some(Value::Text(String::from_str(lores_name_str(b)))),
                None => None,
            },
            Field::ResClear => match self.quirks.res_clear {
                Some(b) => Some(write_flag(b, format)),
                None => None,
            },
            Field::DelayWrap => match self.quirks.delay_wrap {
                Some(b) => Some(write_flag(b, format)),
                None => None,
            },
            Field::HiresCollision => match self.quirks.hires_collision {
                Some(b) => Some(write_flag(b, format)),
                None => None,
            },
            Field::ClipCollision => match self.quirks.clip_collision {
                Some(b) => Some(write_flag(b, format)),
                None => None,
            },
            Field::Scroll => match self.quirks.scroll {
                Some(b) => Some(write_flag(b, format)),
                None => None,
            },
            Field::OverflowI => match self.quirks.overflow_i {
                Some(b) => Some(write_flag(b, format)),
                None => None,
            },
        }
    }

    /// Writes the settings as the keys and values of a document of a format.
    /// Fields that are `None` are left out.
    pub fn to_entries(&self, format: Format) -> (r: Vec<(String, Value)>)
        ensures
            r.deep_view() == self.encode(format),
    {
        let mut out: Vec<(String, Value)> = Vec::new();
        let mut i: usize = 0;
        assert(out.deep_view() =~= self.written_upto(format, 0));
        while i < FIELD_COUNT
            invariant
                0 <= i <= FIELD_COUNT,
                out.deep_view() == self.written_upto(format, i as int),
            decreases FIELD_COUNT - i,
        {
            let f = Field::from_index(i);
            let ghost before = out.deep_view();
            match self.write_field(f, format) {
                Some(v) => {
                    let key = String::from_str(f.key_str(format));
                    let ghost entry = (key@, v.deep_view());
                    out.push((key, v));
                    assert(out.deep_view() =~= before.push(entry));
                },
                None => {},
            }
            i = i + 1;
        }
        out
    }
}

/// Writes the value of a number.
fn write_number(n: u16, format: Format) -> (r: Value)
    ensures
        r.deep_view() == number_value(n, format),
{
    match format {
        Format::Structured => Value::Number(Some(n as u64)),
        Format::Flat => Value::Text(decimal_string(n)),
    }
}

/// Writes the value of a color.
fn write_color(c: Color, format: Format) -> (r: Value)
    ensures
        r.deep_view() == color_value(c, format),
{
    match format {
        Format::Structured => Value::Text(c.to_string()),
        Format::Flat => Value::Text(c.to_hex_digits()),
    }
}

/// Writes the value of a flag.
fn write_flag(b: bool, format: Format) -> (r: Value)
    ensures
        r.deep_view() == flag_value(b, format),
{
    if b {
        write_number(1, format)
    } else {
        write_number(0, format)
    }
}

/// Among the entries written for the first `n` fields, the key of a field
/// occurs once with the value written for it, or not at all where the field
/// is left out or not among the first `n`.
pub proof fn lemma_written_upto_key(o: Options, format: Format, n: int, f: Field)
    requires
        0 <= n <= FIELD_COUNT,
    ensures
        occurrences(o.written_upto(format, n), f.key(format), format) == (if f.index() < n
            && o.written(f, format) is Some {
            1nat
        } else {
            0nat
        }),
        first_match(o.written_upto(format, n), f.key(format), format) == (if f.index() < n {
            o.written(f, format)
        } else {
            None
        }),
    decreases n,
{
    if n > 0 {
        lemma_written_upto_key(o, format, n - 1, f);
        let g = Field::at(n - 1);
        lemma_key_matches_own(f, g, format);
        lemma_field_at_index(f);
        let before = o.written_upto(format, n - 1);
        match o.written(g, format) {
            Some(v) => {
                let entries = before.push((g.key(format), v));
                assert(entries.drop_last() =~= before);
                assert(entries.last() == (g.key(format), v));
            },
            None => {},
        }
    }
}

} // verus!
