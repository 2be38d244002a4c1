//! The flat format: lines of `key = value`.

use vstd::prelude::*;
use vstd::string::StringExecFns;

use crate::codec::decode;
use crate::error::OptionsError;
use crate::names::Format;
use crate::options::Options;
use crate::value::{Entries, Value, ValueView};

verus! {

/// A line of a flat document.
#[derive(Debug, PartialEq, Eq)]
pub enum Line {
    /// A line that holds nothing.
    Empty,
    /// The heading of a section, without its brackets.
    Section(String),
    /// A key and the value assigned to it, both without the blanks around
    /// them.
    Assignment(String, String),
    /// A comment, with the `;` or `#` that begins it.
    Comment(String),
}

/// A line of a flat document, with its texts as sequences of characters.
pub enum LineView {
    /// A line that holds nothing.
    Empty,
    /// The heading of a section, without its brackets.
    Section(Seq<char>),
    /// A key and the value assigned to it.
    Assignment(Seq<char>, Seq<char>),
    /// A comment.
    Comment(Seq<char>),
}

impl View for Line {
    type V = LineView;

    open spec fn view(&self) -> LineView {
        match self {
            Line::Empty => LineView::Empty,
            Line::Section(name) => LineView::Section(name@),
            Line::Assignment(key, value) => LineView::Assignment(key@, value@),
            Line::Comment(text) => LineView::Comment(text@),
        }
    }
}

impl DeepView for Line {
    type V = LineView;

    open spec fn deep_view(&self) -> LineView {
        self@
    }
}

/// The error of `serde_ini` for a text that it cannot read.
#[verifier::external_type_specification]
#[verifier::external_body]
pub struct ExIniError(serde_ini::de::Error);

/// The lines of a flat document as the parser of `serde_ini` reads them, one
/// for each line of the text; `None` where a line is none of the four kinds.
pub uninterp spec fn ini_lines(text: Seq<char>) -> Option<Seq<LineView>>;

/// Runs `serde_ini::Parser::from_str` over the text to its end or to the
/// first line that it refuses, and hands out each `Item` as a `Line`.
///
/// Not proved: that the lines are `ini_lines` of the text, and that the
/// parser refuses a line exactly where that is `None`.
#[verifier::external_body]
fn parse_lines(text: &str) -> (r: Result<Vec<Line>, serde_ini::de::Error>)
    ensures
        match r {
            Ok(lines) => ini_lines(text@) == Some(lines.deep_view()),
            Err(_) => ini_lines(text@) is None,
        },
{
    serde_ini::Parser::from_str(text).map(|item| match item {
        Ok(serde_ini::Item::Empty) => Ok(Line::Empty),
        Ok(serde_ini::Item::Section { name }) => Ok(Line::Section(name)),
        Ok(serde_ini::Item::Value { key, value }) => Ok(Line::Assignment(key, value)),
        Ok(serde_ini::Item::Comment { text }) => Ok(Line::Comment(text)),
        Err(e) => Err(serde_ini::de::Error::from(e)),
    }).collect()
}

/// The line that assigns a value to a key: the key, `=`, the value, and a
/// carriage return with a line feed.
pub open spec fn assignment_text(key: Seq<char>, value: Seq<char>) -> Seq<char> {
    key + seq!['='] + value + seq!['\r', '\n']
}

/// Has `serde_ini::Writer::write` write one `Item::Value`, with the line
/// ending `CrLf`, into an empty buffer.
///
/// Not proved: that this writes the key, `=`, the value and the line ending,
/// and nothing else.
#[verifier::external_body]
fn write_assignment(key: &str, value: &str) -> (r: String)
    ensures
        r@ == assignment_text(key@, value@),
{
    let mut writer = serde_ini::Writer::new(Vec::new(), serde_ini::LineEnding::CrLf);
    let item = serde_ini::Item::Value { key: key.to_string(), value: value.to_string() };
    writer.write(&item).unwrap();
    String::from_utf8(writer.into_inner()).unwrap()
}

/// The keys and values that the lines of a flat document assign, in their
/// order. Comments and empty lines are passed over. What follows the heading
/// of a section belongs to that section and assigns nothing to the settings.
pub open spec fn assignments(lines: Seq<LineView>) -> Entries
    decreases lines.len(),
{
    if lines.len() == 0 {
        Seq::empty()
    } else {
        match lines[0] {
            LineView::Section(_) => Seq::empty(),
            LineView::Assignment(key, value) => seq![(key, ValueView::Text(value))] + assignments(
                lines.skip(1),
            ),
            _ => assignments(lines.skip(1)),
        }
    }
}

/// The text of a flat document: a line for each entry whose value is a text.
pub open spec fn flat_text(entries: Entries) -> Seq<char>
    decreases entries.len(),
{
    if entries.len() == 0 {
        Seq::empty()
    } else {
        let before = flat_text(entries.drop_last());
        match entries.last().1 {
            ValueView::Text(value) => before + assignment_text(entries.last().0, value),
            _ => before,
        }
    }
}

/// Collects the keys and values that the lines of a flat document assign.
pub fn entries_of_lines(lines: &Vec<Line>) -> (r: Vec<(String, Value)>)
    ensures
        r.deep_view() == assignments(lines.deep_view()),
{
    let ghost all = lines.deep_view();
    let mut out: Vec<(String, Value)> = Vec::new();
    let mut i: usize = 0;
    assert(all.skip(0) =~= all);
    assert(out.deep_view() + assignments(all) =~= assignments(all));
    while i < lines.len()
        invariant
            0 <= i <= lines.len(),
            all == lines.deep_view(),
            all.len() == lines.len(),
            assignments(all) == out.deep_view() + assignments(all.skip(i as int)),
        decreases lines.len() - i,
    {
        let ghost rest = all.skip(i as int);
        let ghost before = out.deep_view();
        proof {
            assert(rest[0] == all[i as int]);
            assert(all[i as int] == lines@[i as int].deep_view());
            assert(rest.skip(1) =~= all.skip(i + 1));
        }
        match &lines[i] {
            Line::Section(_) => {
                assert(before + assignments(rest) =~= before);
                return out;
            },
            Line::Assignment(key, value) => {
                let ghost entry = (key@, ValueView::Text(value@));
                out.push((key.clone(), Value::Text(value.clone())));
                assert(out.deep_view() =~= before.push(entry));
                assert(before + (seq![entry] + assignments(all.skip(i + 1))) =~= before.push(entry)
                    + assignments(all.skip(i + 1)));
            },
            _ => {},
        }
        i = i + 1;
    }
    assert(out.deep_view() + assignments(all.skip(i as int)) =~= out.deep_view());
    out
}

/// Writes the text of a flat document: a line for each entry whose value is
/// a text.
pub fn write_entries(doc: &Vec<(String, Value)>) -> (r: String)
    ensures
        r@ == flat_text(doc.deep_view()),
{
    let ghost all = doc.deep_view();
    let mut out = String::new();
    let mut i: usize = 0;
    while i < doc.len()
        invariant
            0 <= i <= doc.len(),
            all == doc.deep_view(),
            all.len() == doc.len(),
            out@ == flat_text(all.take(i as int)),
        decreases doc.len() - i,
    {
        proof {
            let next = all.take(i + 1);
            assert(next.drop_last() =~= all.take(i as int));
            assert(next.last() == all[i as int]);
            assert(all[i as int] == doc@[i as int].deep_view());
        }
        let entry = &doc[i];
        match &entry.1 {
            Value::Text(value) => {
                let line = write_assignment(entry.0.as_str(), value.as_str());
                out.append(line.as_str());
            },
            _ => {},
        }
        i = i + 1;
    }
    assert(all.take(i as int) =~= all);
    out
}

impl Options {
    /// The settings that the lines of a flat document give.
    pub open spec fn of_lines(lines: Seq<LineView>) -> Result<Options, OptionsError> {
        decode(assignments(lines), Format::Flat)
    }

    /// The settings that a text in the flat format gives: those of its lines.
    pub open spec fn parse_flat(text: Seq<char>) -> Result<Options, OptionsError> {
        match ini_lines(text) {
            Some(lines) => Options::of_lines(lines),
            None => Err(OptionsError::Syntax),
        }
    }

    /// Reads the settings from the lines of a flat document.
    pub fn from_lines(lines: &Vec<Line>) -> (r: Result<Options, OptionsError>)
        ensures
            r == Options::of_lines(lines.deep_view()),
    {
        let doc = entries_of_lines(lines);
        Options::from_entries(&doc, Format::Flat)
    }

    /// Reads the settings from a text in the flat format.
    pub fn from_ini(s: &str) -> (r: Result<Options, OptionsError>)
        ensures
            r == Options::parse_flat(s@),
    {
        match parse_lines(s) {
            Ok(lines) => Options::from_lines(&lines),
            Err(_) => Err(OptionsError::Syntax),
        }
    }

    /// Writes the settings as a text in the flat format: for each field that
    /// is not `None`, in the order of the fields, a line with its key and its
    /// value.
    pub fn to_ini(o: Options) -> (r: String)
        ensures
            r@ == flat_text(o.encode(Format::Flat)),
    {
        let doc = o.to_entries(Format::Flat);
        write_entries(&doc)
    }
}

} // verus!
