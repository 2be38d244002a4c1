//! The structured format: one JSON object, whose members are the fields.

use vstd::prelude::*;

use crate::codec::decode;
use crate::color::lemma_color_text_literal;
use crate::document::lemma_absent_key;
use crate::error::OptionsError;
use crate::names::{
    lemma_field_at_index, lemma_key_literal, lemma_key_matches_own, Field, Format, FIELD_COUNT,
};
use crate::font::Font;
use crate::options::{LoResDxy0Behavior, Options, TouchMode};
use crate::spelling::lemma_names_literal;
use crate::text::{decimal, is_literal, lemma_decimal_literal};
use crate::value::{Entries, Value, ValueView};
use crate::writing::lemma_written_upto_key;

verus! {

/// The error of `serde_json`, which says where a text stops being JSON.
#[verifier::external_type_specification]
#[verifier::external_body]
pub struct ExJsonError(serde_json::Error);

/// The members of the JSON object that a text holds, in the order of the
/// text, as `serde_json` reads them; `None` where the text is no JSON object.
/// A key that the text repeats is held once, with the last of its values.
pub uninterp spec fn json_entries(text: Seq<char>) -> Option<Entries>;

/// A text between quotes.
pub open spec fn quoted(s: Seq<char>) -> Seq<char> {
    seq!['"'] + s + seq!['"']
}

/// The JSON text of a value that is a number or a text: the decimal digits
/// of the number, the text between quotes.
pub open spec fn value_text(v: ValueView) -> Seq<char> {
    match v {
        ValueView::Number(Some(n)) => decimal(n as nat),
        ValueView::Text(s) => quoted(s),
        _ => Seq::empty(),
    }
}

/// The JSON text of the members of an object: each key between quotes, a
/// colon and the value, with commas between the members.
pub open spec fn members_text(entries: Entries) -> Seq<char>
    decreases entries.len(),
{
    if entries.len() == 0 {
        Seq::empty()
    } else {
        let member = quoted(entries.last().0) + seq![':'] + value_text(entries.last().1);
        if entries.len() == 1 {
            member
        } else {
            members_text(entries.drop_last()) + seq![','] + member
        }
    }
}

/// The JSON text of an object, without blanks: its members between braces.
pub open spec fn object_text(entries: Entries) -> Seq<char> {
    seq!['{'] + members_text(entries) + seq!['}']
}

/// Whether a value is a number from 0 to 2^64 - 1, or a text that is written
/// as it stands.
pub open spec fn is_writable(v: ValueView) -> bool {
    match v {
        ValueView::Number(Some(_)) => true,
        ValueView::Text(s) => is_literal(s),
        _ => false,
    }
}

/// Whether the members can be written as they stand: no key occurs twice,
/// and every key and value is written without an escape.
pub open spec fn writable_entries(entries: Entries) -> bool {
    &&& forall|i: int|
        0 <= i < entries.len() ==> is_literal((#[trigger] entries[i]).0) && is_writable(
            entries[i].1,
        )
    &&& forall|i: int, j: int|
        0 <= i < j < entries.len() ==> (#[trigger] entries[i]).0 != (#[trigger] entries[j]).0
}

/// Calls `serde_json::from_str` for an object, and hands out its members:
/// each key with its value, of which a number is kept where `as_u64` gives
/// it, a text whole, and of an array or an object only that it is one.
///
/// Not proved: that the members are `json_entries` of the text, and that the
/// call fails exactly where that is `None`.
#[verifier::external_body]
fn parse_object(text: &str) -> (r: Result<Vec<(String, Value)>, serde_json::Error>)
    ensures
        match r {
            Ok(doc) => json_entries(text@) == Some(doc.deep_view()),
            Err(_) => json_entries(text@) is None,
        },
{
    let object: serde_json::Map<String, serde_json::Value> = serde_json::from_str(text)?;
    Ok(object.into_iter().map(|(key, value)| (key, match value {
        serde_json::Value::Null => Value::Null,
        serde_json::Value::Bool(b) => Value::Bool(b),
        serde_json::Value::Number(n) => Value::Number(n.as_u64()),
        serde_json::Value::String(s) => Value::Text(s),
        serde_json::Value::Array(_) => Value::Array,
        serde_json::Value::Object(_) => Value::Object,
    })).collect())
}

/// Builds a `serde_json::Map` of the members, in their order, and calls
/// `to_string` on the object that holds it. The map keeps the order in which
/// it was filled, for which `serde_json` is built with `preserve_order`.
///
/// Not proved: that `serde_json` writes an object without blanks, a number
/// from 0 to 2^64 - 1 in decimal digits, and a text without quote, backslash
/// and control character between quotes as it stands.
#[verifier::external_body]
fn write_object(doc: &Vec<(String, Value)>) -> (r: String)
    requires
        writable_entries(doc.deep_view()),
    ensures
        r@ == object_text(doc.deep_view()),
{
    let members = doc.iter().map(|(key, value)| (key.clone(), match value {
        Value::Number(Some(n)) => serde_json::Value::from(*n),
        Value::Text(s) => serde_json::Value::String(s.clone()),
        _ => serde_json::Value::Null,
    }));
    serde_json::Value::Object(members.collect::<serde_json::Map<_, _>>()).to_string()
}

impl Options {
    /// The settings that a text in the structured format gives: those of the
    /// members of its JSON object.
    pub open spec fn parse_structured(text: Seq<char>) -> Result<Options, OptionsError> {
        match json_entries(text) {
            Some(doc) => decode(doc, Format::Structured),
            None => Err(OptionsError::Syntax),
        }
    }

    /// Reads the settings from a text in the structured format.
    pub fn from_str(s: &str) -> (r: Result<Options, OptionsError>)
        ensures
            r == Options::parse_structured(s@),
    {
        match parse_object(s) {
            Ok(doc) => Options::from_entries(&doc, Format::Structured),
            Err(_) => Err(OptionsError::Syntax),
        }
    }

    /// The text of the settings in the structured format: a JSON object
    /// without blanks that holds, for each field that is not `None`, in the
    /// order of the fields, its key and its value.
    pub open spec fn structured_text(self) -> Seq<char> {
        object_text(self.encode(Format::Structured))
    }

    /// Writes the settings as a text in the structured format.
    pub fn to_string(&self) -> (r: String)
        ensures
            r@ == self.structured_text(),
    {
        let doc = self.to_entries(Format::Structured);
        proof {
            lemma_written_upto_writable(*self, Format::Structured, FIELD_COUNT as int);
        }
        write_object(&doc)
    }
}

/// The value written for a field is a number or a text that is written as it
/// stands.
pub proof fn lemma_written_writable(o: Options, f: Field, format: Format)
    ensures
        o.written(f, format) matches Some(v) ==> is_writable(v),
{
    match f {
        Field::Tickrate => if o.tickrate is Some {
            lemma_decimal_literal(o.tickrate.unwrap() as nat);
        },
        Field::MaxSize => if o.max_size is Some {
            lemma_decimal_literal(o.max_size.unwrap() as nat);
        },
        Field::ScreenRotation => lemma_decimal_literal(o.screen_rotation.angle() as nat),
        Field::FontStyle => lemma_names_literal(
            o.font_style,
            format,
            TouchMode::Off,
            LoResDxy0Behavior::NoOp,
        ),
        Field::TouchInputMode => lemma_names_literal(
            Font::Octo,
            format,
            o.touch_input_mode,
            LoResDxy0Behavior::NoOp,
        ),
        Field::StartAddress => if o.start_address is Some {
            lemma_decimal_literal(o.start_address.unwrap() as nat);
        },
        Field::FillColor => if o.colors.fill_color is Some {
            lemma_color_text_literal(o.colors.fill_color.unwrap());
        },
        Field::FillColor2 => if o.colors.fill_color2 is Some {
            lemma_color_text_literal(o.colors.fill_color2.unwrap());
        },
        Field::BlendColor => if o.colors.blend_color is Some {
            lemma_color_text_literal(o.colors.blend_color.unwrap());
        },
        Field::BackgroundColor => if o.colors.background_color is Some {
            lemma_color_text_literal(o.colors.background_color.unwrap());
        },
        Field::BuzzColor => if o.colors.buzz_color is Some {
            lemma_color_text_literal(o.colors.buzz_color.unwrap());
        },
        Field::QuietColor => if o.colors.quiet_color is Some {
            lemma_color_text_literal(o.colors.quiet_color.unwrap());
        },
        Field::Shift => {
            lemma_decimal_literal(0);
            lemma_decimal_literal(1);
        },
        Field::LoadStore => {
            lemma_decimal_literal(0);
            lemma_decimal_literal(1);
        },
        Field::Jump0 => {
            lemma_decimal_literal(0);
            lemma_decimal_literal(1);
        },
        Field::Logic => {
            lemma_decimal_literal(0);
            lemma_decimal_literal(1);
        },
        Field::Clip => {
            lemma_decimal_literal(0);
            lemma_decimal_literal(1);
        },
        Field::Vblank => {
            lemma_decimal_literal(0);
            lemma_decimal_literal(1);
        },
        Field::VfOrder => {
            lemma_decimal_literal(0);
            lemma_decimal_literal(1);
        },
        Field::LoresDxy0 => if o.quirks.lores_dxy0 is Some {
            lemma_names_literal(Font::Octo, format, TouchMode::Off, o.quirks.lores_dxy0.unwrap());
        },
        Field::ResClear => {
            lemma_decimal_literal(0);
            lemma_decimal_literal(1);
        },
        Field::DelayWrap => {
            lemma_decimal_literal(0);
            lemma_decimal_literal(1);
        },
        Field::HiresCollision => {
            lemma_decimal_literal(0);
            lemma_decimal_literal(1);
        },
        Field::ClipCollision => {
            lemma_decimal_literal(0);
            lemma_decimal_literal(1);
        },
        Field::Scroll => {
            lemma_decimal_literal(0);
            lemma_decimal_literal(1);
        },
        Field::OverflowI => {
            lemma_decimal_literal(0);
            lemma_decimal_literal(1);
        },
    }
}

/// The entries written for the first `n` fields can be written as they
/// stand.
pub proof fn lemma_written_upto_writable(o: Options, format: Format, n: int)
    requires
        0 <= n <= FIELD_COUNT,
    ensures
        writable_entries(o.written_upto(format, n)),
    decreases n,
{
    if n > 0 {
        lemma_written_upto_writable(o, format, n - 1);
        let f = Field::at(n - 1);
        let before = o.written_upto(format, n - 1);
        lemma_written_writable(o, f, format);
        lemma_key_literal(f, format);
        lemma_written_upto_key(o, format, n - 1, f);
        lemma_field_at_index(Field::at(n - 1));
        lemma_absent_key(before, f.key(format), format);
        assert forall|i: int| 0 <= i < before.len() implies (#[trigger] before[i]).0 != f.key(
            format,
        ) by {
            lemma_key_matches_own(f, f, format);
        }
    }
}

} // verus!
