use octopt::color::Color;
use octopt::error::OptionsError;
use octopt::font::Font;
use octopt::names::{Field, Format};
use octopt::options::{Colors, LoResDxy0Behavior, Options, Quirks, ScreenRotation, TouchMode};
use octopt::value::Value;

fn unset() -> Options {
    Options {
        tickrate: None,
        max_size: None,
        screen_rotation: ScreenRotation::Normal,
        font_style: Font::Octo,
        touch_input_mode: TouchMode::Off,
        start_address: None,
        colors: Colors {
            fill_color: None,
            fill_color2: None,
            blend_color: None,
            background_color: None,
            buzz_color: None,
            quiet_color: None,
        },
        quirks: Quirks {
            shift: None,
            load_store: None,
            jump0: None,
            logic: None,
            clip: None,
            vblank: None,
            vf_order: None,
            lores_dxy0: None,
            res_clear: None,
            delay_wrap: None,
            hires_collision: None,
            clip_collision: None,
            scroll: None,
            overflow_i: None,
        },
    }
}

fn entry(key: &str, value: Value) -> (String, Value) {
    (key.to_string(), value)
}

#[test]
fn empty_document_gives_unset_options() {
    assert_eq!(Options::from_str("{}"), Ok(unset()));
    assert_eq!(Options::from_str(" { } "), Ok(unset()));
    assert_eq!(Options::from_entries(&Vec::new(), Format::Structured), Ok(unset()));
}

#[test]
fn default_options_are_fresh() {
    let o = Options::default();
    assert_eq!(o.tickrate, Some(500));
    assert_eq!(o.max_size, Some(3584));
    assert_eq!(o.start_address, Some(512));
    assert_eq!(o.screen_rotation, ScreenRotation::Normal);
    assert_eq!(o.font_style, Font::Octo);
    assert_eq!(o.touch_input_mode, TouchMode::Off);
    assert_eq!(o.colors, Colors::default());
    assert_eq!(o.quirks, Quirks::default());
    assert_eq!(o.quirks.res_clear, Some(true));
    assert_eq!(o.quirks.shift, Some(false));
    assert_eq!(o.quirks.overflow_i, Some(false));
    assert_eq!(o.quirks.lores_dxy0, Some(LoResDxy0Behavior::BigSprite));
    assert_eq!(o.colors.fill_color, Some(Color { r: 255, g: 255, b: 255 }));
    assert_eq!(o.colors.fill_color2, Some(Color { r: 255, g: 255, b: 0 }));
    assert_eq!(o.colors.blend_color, Some(Color { r: 255, g: 0, b: 0 }));
    assert_eq!(o.colors.background_color, Some(Color { r: 0, g: 0, b: 0 }));
    assert_eq!(o.colors.buzz_color, Some(Color { r: 153, g: 0, b: 0 }));
    assert_eq!(o.colors.quiet_color, Some(Color { r: 51, g: 0, b: 0 }));
    assert_eq!(ScreenRotation::default(), ScreenRotation::Normal);
    assert_eq!(Font::default(), Font::Octo);
    assert_eq!(TouchMode::default(), TouchMode::Off);
    assert_eq!(LoResDxy0Behavior::default(), LoResDxy0Behavior::BigSprite);
}

#[test]
fn default_options_as_structured_text() {
    assert_eq!(
        Options::default().to_string(),
        r##"{"tickrate":500,"maxSize":3584,"screenRotation":0,"fontStyle":"octo","touchInputMode":"none","startAddress":512,"fillColor":"#FFFFFF","fillColor2":"#FFFF00","blendColor":"#FF0000","backgroundColor":"#000000","buzzColor":"#990000","quietColor":"#330000","shiftQuirks":0,"loadStoreQuirks":0,"jumpQuirks":0,"logicQuirks":0,"clipQuirks":0,"vBlankQuirks":0,"vfOrderQuirks":0,"loresDXY0Quirks":"big_sprite","resClearQuirks":1,"delayWrapQuirks":0,"hiresCollisionQuirks":0,"clipCollisionQuirks":0,"scrollQuirks":0,"overflowIQuirks":0}"##
    );
}

#[test]
fn structured_round_trip_of_defaults() {
    let o = Options::default();
    assert_eq!(Options::from_str(&o.to_string()), Ok(o));
    assert_eq!(Options::from_entries(&o.to_entries(Format::Structured), Format::Structured), Ok(o));
}

#[test]
fn structured_round_trip_keeps_none_apart_from_false() {
    let mut o = unset();
    o.quirks.shift = Some(false);
    o.quirks.logic = Some(true);
    o.screen_rotation = ScreenRotation::CounterClockWise;
    o.font_style = Font::AKouZ1;
    o.touch_input_mode = TouchMode::Seg16Fill;
    o.quirks.lores_dxy0 = Some(LoResDxy0Behavior::NoOp);
    o.start_address = Some(65535);
    o.colors.blend_color = Some(Color { r: 0x0a, g: 0xbc, b: 0xde });
    let text = o.to_string();
    assert_eq!(
        text,
        r##"{"screenRotation":270,"fontStyle":"akouz1","touchInputMode":"seg16_fill","startAddress":65535,"blendColor":"#0ABCDE","shiftQuirks":0,"logicQuirks":1,"loresDXY0Quirks":"no_op"}"##
    );
    let back = Options::from_str(&text).unwrap();
    assert_eq!(back, o);
    assert_eq!(back.quirks.shift, Some(false));
    assert_eq!(back.quirks.jump0, None);
}

#[test]
fn quirk_values_are_strict() {
    assert_eq!(
        Options::from_str(r#"{"shiftQuirks":2}"#),
        Err(OptionsError::InvalidQuirkValue(Some(2)))
    );
    assert_eq!(
        Options::from_str(r#"{"shiftQuirks":255}"#),
        Err(OptionsError::InvalidQuirkValue(Some(255)))
    );
    assert_eq!(
        Options::from_str(r#"{"shiftQuirks":256}"#),
        Err(OptionsError::InvalidQuirkValue(None))
    );
    assert_eq!(
        Options::from_str(r#"{"shiftQuirks":"1"}"#),
        Err(OptionsError::InvalidQuirkValue(None))
    );
    assert_eq!(
        Options::from_str(r#"{"shiftQuirks":null}"#),
        Err(OptionsError::InvalidQuirkValue(None))
    );
    assert_eq!(
        Options::from_str(r#"{"shiftQuirks":-1}"#),
        Err(OptionsError::InvalidQuirkValue(None))
    );
    assert_eq!(
        Options::from_str(r#"{"shiftQuirks":1.0}"#),
        Err(OptionsError::InvalidQuirkValue(None))
    );
    assert_eq!(Options::from_str(r#"{"shiftQuirks":1}"#).unwrap().quirks.shift, Some(true));
    assert_eq!(Options::from_str(r#"{"shiftQuirks":0}"#).unwrap().quirks.shift, Some(false));
    assert_eq!(Options::from_str(r#"{"shiftQuirks":true}"#).unwrap().quirks.shift, Some(true));
    assert_eq!(Options::from_str(r#"{"shiftQuirks":false}"#).unwrap().quirks.shift, Some(false));
    assert_eq!(Options::from_str(r#"{}"#).unwrap().quirks.shift, None);
}

#[test]
fn numbers_are_lenient() {
    let o = Options::from_str(r#"{"tickrate":"fast","maxSize":"3215","startAddress":512}"#).unwrap();
    assert_eq!(o.tickrate, None);
    assert_eq!(o.max_size, Some(3215));
    assert_eq!(o.start_address, Some(512));
    assert_eq!(Options::from_str(r#"{"tickrate":"+7"}"#).unwrap().tickrate, Some(7));
    assert_eq!(Options::from_str(r#"{"tickrate":" 7"}"#).unwrap().tickrate, None);
    assert_eq!(Options::from_str(r#"{"tickrate":"65536"}"#).unwrap().tickrate, None);
    assert_eq!(Options::from_str(r#"{"tickrate":"65535"}"#).unwrap().tickrate, Some(65535));
    assert_eq!(Options::from_str(r#"{"tickrate":65535}"#).unwrap().tickrate, Some(65535));
    assert_eq!(Options::from_str(r#"{"tickrate":65536}"#), Err(OptionsError::InvalidNumber));
    assert_eq!(Options::from_str(r#"{"tickrate":-1}"#), Err(OptionsError::InvalidNumber));
    assert_eq!(Options::from_str(r#"{"tickrate":1.5}"#), Err(OptionsError::InvalidNumber));
    assert_eq!(Options::from_str(r#"{"tickrate":null}"#), Err(OptionsError::InvalidNumber));
    assert_eq!(Options::from_str(r#"{"tickrate":true}"#), Err(OptionsError::InvalidNumber));
    assert_eq!(Options::from_str(r#"{"maxSize":[1]}"#), Err(OptionsError::InvalidNumber));
    assert_eq!(Options::from_str(r#"{"startAddress":{}}"#), Err(OptionsError::InvalidNumber));
}

#[test]
fn malformed_structured_text_is_a_syntax_error() {
    assert_eq!(Options::from_str(""), Err(OptionsError::Syntax));
    assert_eq!(Options::from_str("{"), Err(OptionsError::Syntax));
    assert_eq!(Options::from_str("[]"), Err(OptionsError::Syntax));
    assert_eq!(Options::from_str("20"), Err(OptionsError::Syntax));
    assert_eq!(Options::from_str(r#"{"tickrate":20,}"#), Err(OptionsError::Syntax));
    assert_eq!(Options::from_str(r#"{"tickrate":20} x"#), Err(OptionsError::Syntax));
}

#[test]
fn structured_enums() {
    let o = Options::from_str(
        r#"{"screenRotation":180,"fontStyle":"dream6800","touchInputMode":"seg16_fill","loresDXY0Quirks":"tall_sprite"}"#,
    )
    .unwrap();
    assert_eq!(o.screen_rotation, ScreenRotation::UpsideDown);
    assert_eq!(o.font_style, Font::Dream6800);
    assert_eq!(o.touch_input_mode, TouchMode::Seg16Fill);
    assert_eq!(o.quirks.lores_dxy0, Some(LoResDxy0Behavior::TallSprite));
    assert_eq!(Options::from_str(r#"{"screenRotation":90}"#).unwrap().screen_rotation, ScreenRotation::ClockWise);
    assert_eq!(Options::from_str(r#"{"screenRotation":270}"#).unwrap().screen_rotation, ScreenRotation::CounterClockWise);
    assert_eq!(Options::from_str(r#"{"screenRotation":45}"#), Err(OptionsError::InvalidRotation));
    assert_eq!(Options::from_str(r#"{"screenRotation":"90"}"#), Err(OptionsError::InvalidRotation));
    assert_eq!(Options::from_str(r#"{"screenRotation":null}"#), Err(OptionsError::InvalidRotation));
    assert_eq!(Options::from_str(r#"{"fontStyle":"comic"}"#), Err(OptionsError::InvalidFont));
    assert_eq!(Options::from_str(r#"{"fontStyle":"a_kou_z1"}"#), Err(OptionsError::InvalidFont));
    assert_eq!(Options::from_str(r#"{"fontStyle":"Octo"}"#), Err(OptionsError::InvalidFont));
    assert_eq!(Options::from_str(r#"{"fontStyle":3}"#), Err(OptionsError::InvalidFont));
    assert_eq!(Options::from_str(r#"{"fontStyle":"akouz1"}"#).unwrap().font_style, Font::AKouZ1);
    assert_eq!(Options::from_str(r#"{"fontStyle":"eti660"}"#).unwrap().font_style, Font::Eti660);
    assert_eq!(Options::from_str(r#"{"fontStyle":"schip"}"#).unwrap().font_style, Font::Schip);
    assert_eq!(Options::from_str(r#"{"fontStyle":"fish"}"#).unwrap().font_style, Font::Fish);
    assert_eq!(Options::from_str(r#"{"fontStyle":"vip"}"#).unwrap().font_style, Font::Vip);
    assert_eq!(Options::from_str(r#"{"touchInputMode":"swipe"}"#).unwrap().touch_input_mode, TouchMode::Swipe);
    assert_eq!(Options::from_str(r#"{"touchInputMode":"seg16"}"#).unwrap().touch_input_mode, TouchMode::Seg16);
    assert_eq!(Options::from_str(r#"{"touchInputMode":"gamepad"}"#).unwrap().touch_input_mode, TouchMode::Gamepad);
    assert_eq!(Options::from_str(r#"{"touchInputMode":"vip"}"#).unwrap().touch_input_mode, TouchMode::Vip);
    assert_eq!(Options::from_str(r#"{"touchInputMode":"mouse"}"#), Err(OptionsError::InvalidTouchMode));
    assert_eq!(Options::from_str(r#"{"touchInputMode":null}"#), Err(OptionsError::InvalidTouchMode));
    assert_eq!(Options::from_str(r#"{"loresDXY0Quirks":"huge"}"#), Err(OptionsError::InvalidLoresBehavior));
    assert_eq!(Options::from_str(r#"{"loresDXY0Quirks":1}"#), Err(OptionsError::InvalidLoresBehavior));
    assert_eq!(Options::from_str(r#"{"loresDXY0Quirks":null}"#).unwrap().quirks.lores_dxy0, None);
    assert_eq!(Options::from_str(r#"{"loresDXY0Quirks":"big_sprite"}"#).unwrap().quirks.lores_dxy0, Some(LoResDxy0Behavior::BigSprite));
}

#[test]
fn structured_colors() {
    let o = Options::from_str(r##"{"fillColor":"#ffcc00","fillColor2":"FF6600","blendColor":"red","quietColor":null,"buzzColor":"rgb(1, 2, 3)"}"##).unwrap();
    assert_eq!(o.colors.fill_color, Some(Color { r: 0xFF, g: 0xCC, b: 0 }));
    assert_eq!(o.colors.fill_color2, Some(Color { r: 0xFF, g: 0x66, b: 0 }));
    assert_eq!(o.colors.blend_color, Some(Color { r: 255, g: 0, b: 0 }));
    assert_eq!(o.colors.buzz_color, Some(Color { r: 1, g: 2, b: 3 }));
    assert_eq!(o.colors.quiet_color, None);
    assert_eq!(o.colors.background_color, None);
    assert_eq!(Options::from_str(r##"{"fillColor":"#12345"}"##), Err(OptionsError::ColorParse));
    assert_eq!(Options::from_str(r##"{"fillColor":"#GG0000"}"##), Err(OptionsError::ColorParse));
    assert_eq!(Options::from_str(r##"{"fillColor":"nocolor"}"##), Err(OptionsError::ColorParse));
    assert_eq!(Options::from_str(r##"{"fillColor":16711680}"##), Err(OptionsError::ColorParse));
}

#[test]
fn unknown_structured_keys_are_passed_over() {
    let o = Options::from_str(r#"{"tickRate":7,"enableXO":true,"tickrate":9,"nested":{"tickrate":1}}"#).unwrap();
    assert_eq!(o.tickrate, Some(9));
    let mut expected = unset();
    expected.tickrate = Some(9);
    assert_eq!(o, expected);
}

#[test]
fn the_first_refused_field_in_field_order_gives_the_error() {
    assert_eq!(
        Options::from_str(r#"{"shiftQuirks":2,"fillColor":"nocolor","tickrate":70000}"#),
        Err(OptionsError::InvalidNumber)
    );
    assert_eq!(
        Options::from_str(r#"{"shiftQuirks":2,"fillColor":"nocolor"}"#),
        Err(OptionsError::ColorParse)
    );
    assert_eq!(
        Options::from_str(r#"{"overflowIQuirks":3,"shiftQuirks":2}"#),
        Err(OptionsError::InvalidQuirkValue(Some(2)))
    );
}

#[test]
fn entries_are_read_and_written() {
    let doc = vec![
        entry("tickrate", Value::Number(Some(20))),
        entry("comment", Value::Array),
        entry("clipQuirks", Value::Bool(true)),
        entry("fillColor", Value::Text("#FFCC00".to_string())),
        entry("quietColor", Value::Null),
    ];
    let o = Options::from_entries(&doc, Format::Structured).unwrap();
    let mut expected = unset();
    expected.tickrate = Some(20);
    expected.quirks.clip = Some(true);
    expected.colors.fill_color = Some(Color { r: 0xFF, g: 0xCC, b: 0 });
    assert_eq!(o, expected);
    assert_eq!(
        o.to_entries(Format::Structured),
        vec![
            entry("tickrate", Value::Number(Some(20))),
            entry("screenRotation", Value::Number(Some(0))),
            entry("fontStyle", Value::Text("octo".to_string())),
            entry("touchInputMode", Value::Text("none".to_string())),
            entry("fillColor", Value::Text("#FFCC00".to_string())),
            entry("clipQuirks", Value::Number(Some(1))),
        ]
    );
    assert_eq!(
        Options::from_entries(&vec![entry("tickrate", Value::Number(None))], Format::Structured),
        Err(OptionsError::InvalidNumber)
    );
    assert_eq!(
        Options::from_entries(&vec![entry("tickrate", Value::Object)], Format::Structured),
        Err(OptionsError::InvalidNumber)
    );
}

#[test]
fn a_key_given_twice_is_refused() {
    let doc = vec![
        entry("tickrate", Value::Number(Some(20))),
        entry("tickrate", Value::Number(Some(20))),
    ];
    assert_eq!(Options::from_entries(&doc, Format::Structured), Err(OptionsError::DuplicateKey));
    let other = vec![
        entry("tickrate", Value::Number(Some(20))),
        entry("Tickrate", Value::Number(Some(30))),
    ];
    assert_eq!(Options::from_entries(&other, Format::Structured).unwrap().tickrate, Some(20));
    assert_eq!(
        Options::from_entries(
            &vec![
                entry("unknown", Value::Null),
                entry("unknown", Value::Null),
            ],
            Format::Structured
        ),
        Ok(unset())
    );
}

#[test]
fn a_repeated_member_of_a_json_object_keeps_its_last_value() {
    let o = Options::from_str(r#"{"tickrate":1,"maxSize":5,"tickrate":2}"#).unwrap();
    assert_eq!(o.tickrate, Some(2));
    assert_eq!(o.max_size, Some(5));
}

#[test]
fn write_field_leaves_out_what_is_none() {
    let o = unset();
    assert_eq!(o.write_field(Field::Tickrate, Format::Structured), None);
    assert_eq!(o.write_field(Field::Shift, Format::Flat), None);
    assert_eq!(o.write_field(Field::FillColor, Format::Flat), None);
    assert_eq!(o.write_field(Field::LoresDxy0, Format::Structured), None);
    assert_eq!(
        o.write_field(Field::ScreenRotation, Format::Structured),
        Some(Value::Number(Some(0)))
    );
    assert_eq!(
        o.write_field(Field::ScreenRotation, Format::Flat),
        Some(Value::Text("0".to_string()))
    );
    let d = Options::default();
    assert_eq!(d.write_field(Field::Tickrate, Format::Flat), Some(Value::Text("500".to_string())));
    assert_eq!(d.write_field(Field::ResClear, Format::Structured), Some(Value::Number(Some(1))));
    assert_eq!(d.write_field(Field::ResClear, Format::Flat), Some(Value::Text("1".to_string())));
    assert_eq!(d.write_field(Field::BuzzColor, Format::Structured), Some(Value::Text("#990000".to_string())));
    assert_eq!(d.write_field(Field::BuzzColor, Format::Flat), Some(Value::Text("990000".to_string())));
}
