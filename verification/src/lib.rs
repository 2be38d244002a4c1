//! Configuration settings of a CHIP-8 interpreter: the value type, and its
//! exchange with a structured (JSON object) and a flat (`key = value`) text
//! format.
//!
//! [`Options`] is the value. A document of either format is a list of keys
//! and [`value::Value`]s; [`codec`] reads the settings from such a list and
//! [`writing`] writes them as one, with the keys of [`names`] and the
//! spellings of [`spelling`]. [`json`] and [`ini`] pass between documents and
//! text, with `serde_json` and `serde_ini`; [`color`] reads colors with
//! `css_color_parser2`. [`laws`] holds what is proved of reading and writing
//! together.

pub mod codec;
pub mod color;
pub mod document;
pub mod error;
pub mod font;
pub mod ini;
pub mod json;
pub mod laws;
pub mod names;
pub mod options;
pub mod spelling;
pub mod text;
pub mod value;
pub mod writing;

pub use color::Color;
pub use error::OptionsError;
pub use font::{get_font_data, Font};
pub use options::{Colors, LoResDxy0Behavior, Options, Quirks, ScreenRotation, TouchMode};
