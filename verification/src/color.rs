//! An RGB color triplet and its hexadecimal text form.

use vstd::prelude::*;
use vstd::string::StringExecFns;

use crate::text::{hex_digit, hex_digit_str, hex_value, is_literal, lemma_hex_digit_value};

verus! {

/// An RGB color. Its text form is `#RRGGBB`, in upper-case hexadecimal.
#[derive(Clone, Copy, Debug, PartialEq, Eq, Structural)]
pub struct Color {
    /// Red
    pub r: u8,
    /// Green
    pub g: u8,
    /// Blue
    pub b: u8,
}

/// The text given was not accepted as a color.
#[derive(Clone, Copy, Debug, PartialEq, Eq, Structural)]
pub struct ColorParseError;

/// The two hexadecimal digits of a channel, high digit first.
pub open spec fn hex_pair(v: u8) -> Seq<char> {
    seq![hex_digit(v as int / 16), hex_digit(v as int % 16)]
}

/// Six hexadecimal digits, of either case, and nothing else.
pub open spec fn is_hex6(text: Seq<char>) -> bool {
    &&& text.len() == 6
    &&& forall|i: int| 0 <= i < 6 ==> (#[trigger] hex_value(text[i])) is Some
}

/// The channel that two hexadecimal digits spell.
pub open spec fn channel_of(high: char, low: char) -> u8 {
    (hex_value(high).unwrap() * 16 + hex_value(low).unwrap()) as u8
}

/// The color that six hexadecimal digits spell, two digits a channel, in the
/// order red, green, blue.
pub open spec fn hex6_color(text: Seq<char>) -> Color {
    Color {
        r: channel_of(text[0], text[1]),
        g: channel_of(text[2], text[3]),
        b: channel_of(text[4], text[5]),
    }
}

/// A `#` followed by six hexadecimal digits, of either case, and nothing else.
pub open spec fn is_marked_hex6(text: Seq<char>) -> bool {
    &&& text.len() == 7
    &&& text[0] == '#'
    &&& is_hex6(text.skip(1))
}

/// What the CSS color grammar of `css_color_parser2` makes of a text: the red,
/// green and blue channels of the color it denotes, or `None` where the
/// grammar rejects it.
pub uninterp spec fn css_color(text: Seq<char>) -> Option<Color>;

/// Calls `css_color_parser2::Color::from_str` and keeps the three color
/// channels of its result, dropping alpha. Its error says no more than that
/// the text is no color, and becomes `None`.
///
/// Not proved: that the result is `css_color` of the text; that six bare
/// hexadecimal digits are rejected (they are no color keyword, have no `#` and
/// no bracket); and that `#` followed by six hexadecimal digits is read two
/// digits a channel.
#[verifier::external_body]
fn parse_css(text: &str) -> (r: Option<Color>)
    ensures
        r == css_color(text@),
        is_hex6(text@) ==> r is None,
        is_marked_hex6(text@) ==> r == Some(hex6_color(text@.skip(1))),
{
    match text.parse::<css_color_parser2::Color>() {
        Ok(c) => Some(Color { r: c.r, g: c.g, b: c.b }),
        Err(_) => None,
    }
}

/// Appends the two hexadecimal digits of a channel.
fn push_hex_pair(out: &mut String, v: u8)
    ensures
        final(out)@ == old(out)@ + hex_pair(v),
{
    out.append(hex_digit_str(v / 16));
    out.append(hex_digit_str(v % 16));
    assert(out@ =~= old(out)@ + hex_pair(v));
}

impl Color {
    /// The six hexadecimal digits of the color, without a leading `#`.
    pub open spec fn hex_digits(self) -> Seq<char> {
        hex_pair(self.r) + hex_pair(self.g) + hex_pair(self.b)
    }

    /// The text form of the color: `#` and its six hexadecimal digits.
    pub open spec fn text(self) -> Seq<char> {
        seq!['#'] + self.hex_digits()
    }

    /// The color that a text denotes. Six hexadecimal digits, with or without
    /// a leading `#`, spell it two digits a channel. Any other text denotes
    /// what the CSS color grammar reads in it or, where that fails, in the
    /// text with a `#` put before it.
    pub open spec fn parse(text: Seq<char>) -> Result<Color, ColorParseError> {
        if is_marked_hex6(text) {
            Ok(hex6_color(text.skip(1)))
        } else if is_hex6(text) {
            Ok(hex6_color(text))
        } else {
            match css_color(text) {
                Some(c) => Ok(c),
                None => match css_color(seq!['#'] + text) {
                    Some(c) => Ok(c),
                    None => Err(ColorParseError),
                },
            }
        }
    }

    /// Reads a color from a CSS color expression, or from hexadecimal digits
    /// without the leading `#`.
    pub fn from_str(s: &str) -> (r: Result<Color, ColorParseError>)
        ensures
            r == Color::parse(s@),
    {
        match parse_css(s) {
            Some(c) => Ok(c),
            None => {
                proof {
                    reveal_strlit("#");
                }
                let mut marked = String::from_str("#");
                marked.append(s);
                assert(marked@ =~= seq!['#'] + s@);
                assert(marked@.skip(1) =~= s@);
                match parse_css(marked.as_str()) {
                    Some(c) => Ok(c),
                    None => Err(ColorParseError),
                }
            },
        }
    }

    /// Writes the color as `#RRGGBB`.
    pub fn to_string(&self) -> (r: String)
        ensures
            r@ == self.text(),
    {
        proof {
            reveal_strlit("#");
        }
        let mut out = String::from_str("#");
        push_hex_pair(&mut out, self.r);
        push_hex_pair(&mut out, self.g);
        push_hex_pair(&mut out, self.b);
        assert(out@ =~= self.text());
        out
    }

    /// Writes the six hexadecimal digits of the color, without the `#`.
    pub fn to_hex_digits(&self) -> (r: String)
        ensures
            r@ == self.hex_digits(),
    {
        let mut out = String::new();
        push_hex_pair(&mut out, self.r);
        push_hex_pair(&mut out, self.g);
        push_hex_pair(&mut out, self.b);
        assert(out@ =~= self.hex_digits());
        out
    }
}

impl Default for Color {
    fn default() -> (r: Color)
        ensures
            r == (Color { r: 0, g: 0, b: 0 }),
    {
        Color { r: 0, g: 0, b: 0 }
    }
}

/// The two digits written for a channel spell that channel.
pub proof fn lemma_hex_pair_channel(v: u8)
    ensures
        hex_pair(v).len() == 2,
        hex_value(hex_pair(v)[0]) is Some,
        hex_value(hex_pair(v)[1]) is Some,
        channel_of(hex_pair(v)[0], hex_pair(v)[1]) == v,
{
    lemma_hex_digit_value(v as int / 16);
    lemma_hex_digit_value(v as int % 16);
}

/// The six digits written for a color are hexadecimal digits that spell it.
pub proof fn lemma_hex_digits_spell(c: Color)
    ensures
        is_hex6(c.hex_digits()),
        hex6_color(c.hex_digits()) == c,
{
    lemma_hex_pair_channel(c.r);
    lemma_hex_pair_channel(c.g);
    lemma_hex_pair_channel(c.b);
    let d = c.hex_digits();
    assert(d.len() == 6);
    assert(d[0] == hex_pair(c.r)[0] && d[1] == hex_pair(c.r)[1]);
    assert(d[2] == hex_pair(c.g)[0] && d[3] == hex_pair(c.g)[1]);
    assert(d[4] == hex_pair(c.b)[0] && d[5] == hex_pair(c.b)[1]);
    assert forall|i: int| 0 <= i < 6 implies (#[trigger] hex_value(d[i])) is Some by {
        if i == 0 {
        } else if i == 1 {
        } else if i == 2 {
        } else if i == 3 {
        } else if i == 4 {
        } else {
        }
    }
}

/// The text form of a color and its six digits are written as they stand.
pub proof fn lemma_color_text_literal(c: Color)
    ensures
        is_literal(c.text()),
        is_literal(c.hex_digits()),
{
    lemma_hex_pair_channel(c.r);
    lemma_hex_pair_channel(c.g);
    lemma_hex_pair_channel(c.b);
    let d = c.hex_digits();
    assert forall|i: int| 0 <= i < d.len() implies ' ' <= #[trigger] d[i] && d[i] != '"' && d[i]
        != '\\' by {
        if i < 2 {
            assert(d[i] == hex_pair(c.r)[i]);
        } else if i < 4 {
            assert(d[i] == hex_pair(c.g)[i - 2]);
        } else {
            assert(d[i] == hex_pair(c.b)[i - 4]);
        }
    }
    let t = c.text();
    assert forall|i: int| 0 <= i < t.len() implies ' ' <= #[trigger] t[i] && t[i] != '"' && t[i]
        != '\\' by {
        if i > 0 {
            assert(t[i] == d[i - 1]);
        }
    }
}

/// Reading the text form of a color gives the color back.
pub proof fn lemma_parse_text(c: Color)
    ensures
        Color::parse(c.text()) == Ok::<Color, ColorParseError>(c),
{
    lemma_hex_digits_spell(c);
    assert(c.text().skip(1) =~= c.hex_digits());
}

/// Reading the six bare hexadecimal digits of a color gives the color back.
pub proof fn lemma_parse_hex_digits(c: Color)
    ensures
        Color::parse(c.hex_digits()) == Ok::<Color, ColorParseError>(c),
{
    lemma_hex_digits_spell(c);
}

} // verus!
