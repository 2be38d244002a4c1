use octopt::color::Color;
use octopt::error::OptionsError;
use octopt::font::Font;
use octopt::ini::{entries_of_lines, write_entries, Line};
use octopt::names::Format;
use octopt::options::{LoResDxy0Behavior, Options, ScreenRotation, TouchMode};
use octopt::value::Value;

fn nothing() -> Options {
    Options::from_ini("").unwrap()
}

fn assignment(key: &str, value: &str) -> Line {
    Line::Assignment(key.to_string(), value.to_string())
}

#[test]
fn flat_color_keys() {
    let o = Options::from_ini("colors.plane0=996600").unwrap();
    assert_eq!(o.colors.background_color, Some(Color { r: 0x99, g: 0x66, b: 0x00 }));
    assert_eq!(o.colors.quiet_color, None);
    let o = Options::from_ini("colors.background=FFAA00").unwrap();
    assert_eq!(o.colors.quiet_color, Some(Color { r: 0xFF, g: 0xAA, b: 0x00 }));
    assert_eq!(o.colors.background_color, None);
    let o = Options::from_ini("colors.plane1=010203\ncolors.plane2=040506\ncolors.plane3=070809\ncolors.sound=0a0b0c").unwrap();
    assert_eq!(o.colors.fill_color, Some(Color { r: 1, g: 2, b: 3 }));
    assert_eq!(o.colors.fill_color2, Some(Color { r: 4, g: 5, b: 6 }));
    assert_eq!(o.colors.blend_color, Some(Color { r: 7, g: 8, b: 9 }));
    assert_eq!(o.colors.buzz_color, Some(Color { r: 10, g: 11, b: 12 }));
}

#[test]
fn flat_end_to_end() {
    let o = Options::from_ini("core.tickrate = 20\ncore.max_rom=3215\ncore.rotation=0\ncore.font=octo\ncore.touch_mode=none\ncolors.plane0=996600\nquirks.shift=0\nquirks.logic=1").unwrap();
    let mut expected = nothing();
    expected.tickrate = Some(20);
    expected.max_size = Some(3215);
    expected.screen_rotation = ScreenRotation::Normal;
    expected.font_style = Font::Octo;
    expected.touch_input_mode = TouchMode::Off;
    expected.colors.background_color = Some(Color { r: 0x99, g: 0x66, b: 0x00 });
    expected.quirks.shift = Some(false);
    expected.quirks.logic = Some(true);
    assert_eq!(o, expected);
    assert_eq!(o.start_address, None);
    assert_eq!(o.colors.fill_color, None);
    assert_eq!(o.quirks.jump0, None);
    assert_eq!(o.quirks.lores_dxy0, None);
}

#[test]
fn default_options_as_flat_text() {
    assert_eq!(
        Options::to_ini(Options::default()),
        "core.tickrate=500\r\ncore.max_rom=3584\r\ncore.rotation=0\r\ncore.font=octo\r\ncore.touch_mode=none\r\ncore.start_address=512\r\ncolors.plane1=FFFFFF\r\ncolors.plane2=FFFF00\r\ncolors.plane3=FF0000\r\ncolors.plane0=000000\r\ncolors.sound=990000\r\ncolors.background=330000\r\nquirks.shift=0\r\nquirks.loadstore=0\r\nquirks.jump0=0\r\nquirks.logic=0\r\nquirks.clip=0\r\nquirks.vblank=0\r\nquirks.vforder=0\r\nquirks.lores_dxy0=big_sprite\r\nquirks.resclear=1\r\nquirks.delaywrap=0\r\nquirks.hirescollision=0\r\nquirks.clipcollision=0\r\nquirks.scroll=0\r\nquirks.overflow_i=0\r\n"
    );
    assert_eq!(
        Options::to_ini(nothing()),
        "core.rotation=0\r\ncore.font=octo\r\ncore.touch_mode=none\r\n"
    );
}

#[test]
fn flat_round_trip() {
    let o = Options::default();
    assert_eq!(Options::from_ini(&Options::to_ini(o)), Ok(o));
    let mut p = nothing();
    p.quirks.scroll = Some(false);
    p.quirks.delay_wrap = Some(true);
    p.screen_rotation = ScreenRotation::ClockWise;
    p.font_style = Font::AKouZ1;
    p.touch_input_mode = TouchMode::Seg16Fill;
    p.quirks.lores_dxy0 = Some(LoResDxy0Behavior::TallSprite);
    p.max_size = Some(65024);
    p.colors.quiet_color = Some(Color { r: 0xfe, g: 0xdc, b: 0xba });
    let text = Options::to_ini(p);
    assert_eq!(
        text,
        "core.max_rom=65024\r\ncore.rotation=90\r\ncore.font=a_kou_z1\r\ncore.touch_mode=seg16_fill\r\ncolors.background=FEDCBA\r\nquirks.lores_dxy0=tall_sprite\r\nquirks.delaywrap=1\r\nquirks.scroll=0\r\n"
    );
    let back = Options::from_ini(&text).unwrap();
    assert_eq!(back, p);
    assert_eq!(back.quirks.scroll, Some(false));
    assert_eq!(back.quirks.shift, None);
    assert_eq!(Options::from_entries(&p.to_entries(Format::Flat), Format::Flat), Ok(p));
}

#[test]
fn both_formats_give_the_same_settings() {
    let structured = Options::from_str(r##"{"tickrate":"15","maxSize":3583,"screenRotation":180,"fontStyle":"akouz1","touchInputMode":"gamepad","fillColor":"#ABCDEF","jumpQuirks":true,"vfOrderQuirks":0,"loresDXY0Quirks":"no_op"}"##).unwrap();
    let flat = Options::from_ini("core.tickrate=15\ncore.max_rom=3583\ncore.rotation=180\ncore.font=a_kou_z1\ncore.touch_mode=gamepad\ncolors.plane1=ABCDEF\nquirks.jump0=1\nquirks.vforder=0\nquirks.lores_dxy0=no_op\n").unwrap();
    assert_eq!(structured, flat);
    assert_eq!(structured.tickrate, Some(15));
    assert_eq!(structured.quirks.jump0, Some(true));
    let o = Options::default();
    assert_eq!(Options::from_str(&o.to_string()), Options::from_ini(&Options::to_ini(o)));
}

#[test]
fn flat_quirk_values_are_strict() {
    assert_eq!(Options::from_ini("quirks.shift=1").unwrap().quirks.shift, Some(true));
    assert_eq!(Options::from_ini("quirks.shift=0").unwrap().quirks.shift, Some(false));
    assert_eq!(Options::from_ini("quirks.shift=01").unwrap().quirks.shift, Some(true));
    assert_eq!(Options::from_ini("quirks.shift=2"), Err(OptionsError::InvalidQuirkValue(Some(2))));
    assert_eq!(Options::from_ini("quirks.shift=255"), Err(OptionsError::InvalidQuirkValue(Some(255))));
    assert_eq!(Options::from_ini("quirks.shift=256"), Err(OptionsError::InvalidQuirkValue(None)));
    assert_eq!(Options::from_ini("quirks.shift=true"), Err(OptionsError::InvalidQuirkValue(None)));
    assert_eq!(Options::from_ini("quirks.shift="), Err(OptionsError::InvalidQuirkValue(None)));
    assert_eq!(Options::from_ini("quirks.shift=-1"), Err(OptionsError::InvalidQuirkValue(None)));
}

#[test]
fn flat_numbers_are_lenient() {
    assert_eq!(Options::from_ini("core.tickrate=fast").unwrap().tickrate, None);
    assert_eq!(Options::from_ini("core.tickrate=").unwrap().tickrate, None);
    assert_eq!(Options::from_ini("core.tickrate=65536").unwrap().tickrate, None);
    assert_eq!(Options::from_ini("core.tickrate=65535").unwrap().tickrate, Some(65535));
    assert_eq!(Options::from_ini("core.max_rom=007").unwrap().max_size, Some(7));
    assert_eq!(Options::from_ini("core.start_address = 1536 ").unwrap().start_address, Some(1536));
}

#[test]
fn flat_enums() {
    assert_eq!(Options::from_ini("core.rotation=270").unwrap().screen_rotation, ScreenRotation::CounterClockWise);
    assert_eq!(Options::from_ini("core.rotation=180").unwrap().screen_rotation, ScreenRotation::UpsideDown);
    assert_eq!(Options::from_ini("core.rotation=90").unwrap().screen_rotation, ScreenRotation::ClockWise);
    assert_eq!(Options::from_ini("core.rotation=91"), Err(OptionsError::InvalidRotation));
    assert_eq!(Options::from_ini("core.rotation=north"), Err(OptionsError::InvalidRotation));
    assert_eq!(Options::from_ini("core.font=a_kou_z1").unwrap().font_style, Font::AKouZ1);
    assert_eq!(Options::from_ini("core.font=akouz1"), Err(OptionsError::InvalidFont));
    assert_eq!(Options::from_ini("core.font=dream6800").unwrap().font_style, Font::Dream6800);
    assert_eq!(Options::from_ini("core.font=OCTO"), Err(OptionsError::InvalidFont));
    assert_eq!(Options::from_ini("core.touch_mode=seg16_fill").unwrap().touch_input_mode, TouchMode::Seg16Fill);
    assert_eq!(Options::from_ini("core.touch_mode=vip").unwrap().touch_input_mode, TouchMode::Vip);
    assert_eq!(Options::from_ini("core.touch_mode=pen"), Err(OptionsError::InvalidTouchMode));
    assert_eq!(Options::from_ini("quirks.lores_dxy0=big_sprite").unwrap().quirks.lores_dxy0, Some(LoResDxy0Behavior::BigSprite));
    assert_eq!(Options::from_ini("quirks.lores_dxy0=bigsprite"), Err(OptionsError::InvalidLoresBehavior));
    assert_eq!(Options::from_ini("colors.plane0=12345"), Err(OptionsError::ColorParse));
    assert_eq!(Options::from_ini("colors.plane0=blue").unwrap().colors.background_color, Some(Color { r: 0, g: 0, b: 255 }));
}

#[test]
fn flat_grammar() {
    let text = "; settings\r\n# more\r\n\r\nCore.TickRate =  12 \r\nfuture.key=1\nCOLORS.PLANE0=#102030\n[section]\ncore.max_rom=1\nquirks.shift=7\n";
    let o = Options::from_ini(text).unwrap();
    let mut expected = nothing();
    expected.tickrate = Some(12);
    expected.colors.background_color = Some(Color { r: 0x10, g: 0x20, b: 0x30 });
    assert_eq!(o, expected);
    assert_eq!(Options::from_ini("core.tickrate"), Err(OptionsError::Syntax));
    assert_eq!(Options::from_ini("[core"), Err(OptionsError::Syntax));
    assert_eq!(Options::from_ini("[co]re]"), Err(OptionsError::Syntax));
    assert_eq!(
        Options::from_ini("core.tickrate=1\ncore.tickrate=2"),
        Err(OptionsError::DuplicateKey)
    );
    assert_eq!(
        Options::from_ini("core.tickrate=1\nCORE.TICKRATE=1"),
        Err(OptionsError::DuplicateKey)
    );
    assert_eq!(Options::from_ini("other=1\nother=2"), Ok(nothing()));
}

#[test]
fn lines_are_read() {
    let lines = vec![
        Line::Comment("; first".to_string()),
        Line::Empty,
        assignment("core.tickrate", "30"),
        assignment("quirks.clip", "1"),
        Line::Section("later".to_string()),
        assignment("quirks.shift", "1"),
    ];
    assert_eq!(
        entries_of_lines(&lines),
        vec![
            ("core.tickrate".to_string(), Value::Text("30".to_string())),
            ("quirks.clip".to_string(), Value::Text("1".to_string())),
        ]
    );
    let o = Options::from_lines(&lines).unwrap();
    let mut expected = nothing();
    expected.tickrate = Some(30);
    expected.quirks.clip = Some(true);
    assert_eq!(o, expected);
    assert_eq!(Options::from_lines(&Vec::new()), Ok(nothing()));
    assert_eq!(
        Options::from_lines(&vec![assignment("quirks.clip", "9")]),
        Err(OptionsError::InvalidQuirkValue(Some(9)))
    );
}

#[test]
fn entries_are_written_as_lines() {
    let doc = vec![
        ("a".to_string(), Value::Text("1".to_string())),
        ("skipped".to_string(), Value::Number(Some(2))),
        ("b.c".to_string(), Value::Text("".to_string())),
    ];
    assert_eq!(write_entries(&doc), "a=1\r\nb.c=\r\n");
    assert_eq!(write_entries(&Vec::new()), "");
}

#[test]
fn flat_values_in_a_flat_document_may_be_typed() {
    let doc = vec![
        ("core.rotation".to_string(), Value::Number(Some(90))),
        ("quirks.clip".to_string(), Value::Bool(true)),
        ("Quirks.Shift".to_string(), Value::Number(Some(0))),
    ];
    let o = Options::from_entries(&doc, Format::Flat).unwrap();
    assert_eq!(o.screen_rotation, ScreenRotation::ClockWise);
    assert_eq!(o.quirks.clip, Some(true));
    assert_eq!(o.quirks.shift, Some(false));
}
