use octopt::color::{Color, ColorParseError};
use octopt::font::{get_font_data, Font};
use octopt::names::{Field, Format};
use octopt::options::{LoResDxy0Behavior, ScreenRotation, TouchMode};
use octopt::spelling::{
    font_from_name, font_name_str, lores_from_name, lores_name_str, touch_from_name,
    touch_name_str,
};
use octopt::text::{decimal_string, parse_u16, parse_u8};

#[test]
fn color_round_trip() {
    let red = Color { r: 255, g: 0, b: 0 };
    assert_eq!(Color::from_str("#FF0000"), Ok(red));
    assert_eq!(Color::from_str("FF0000"), Ok(red));
    assert_eq!(red.to_string(), "#FF0000");
    assert_eq!(red.to_hex_digits(), "FF0000");
    let c = Color { r: 0x0a, g: 0xb1, b: 0x9f };
    assert_eq!(c.to_string(), "#0AB19F");
    assert_eq!(Color::from_str(&c.to_string()), Ok(c));
    assert_eq!(Color::from_str(&c.to_hex_digits()), Ok(c));
    assert_eq!(Color::from_str("#0ab19f"), Ok(c));
    assert_eq!(Color::from_str("0ab19F"), Ok(c));
    assert_eq!(Color::default(), Color { r: 0, g: 0, b: 0 });
}

#[test]
fn every_channel_is_written_and_read_back() {
    for v in 0..=255u8 {
        let c = Color { r: v, g: 255 - v, b: v / 2 };
        let text = c.to_string();
        assert_eq!(text, format!("#{:02X}{:02X}{:02X}", c.r, c.g, c.b));
        assert_eq!(c.to_hex_digits(), format!("{:02X}{:02X}{:02X}", c.r, c.g, c.b));
        assert_eq!(Color::from_str(&text), Ok(c));
        assert_eq!(Color::from_str(&c.to_hex_digits()), Ok(c));
        assert_eq!(Color::from_str(&text.to_lowercase()), Ok(c));
        assert_eq!(Color::from_str(&c.to_hex_digits().to_lowercase()), Ok(c));
    }
}

#[test]
fn color_of_css_expressions() {
    let red = Color { r: 255, g: 0, b: 0 };
    assert_eq!(Color::from_str("red"), Ok(red));
    assert_eq!(Color::from_str("RED"), Ok(red));
    assert_eq!(Color::from_str("#f00"), Ok(red));
    assert_eq!(Color::from_str("f00"), Ok(red));
    assert_eq!(Color::from_str("rgb(255, 0, 0)"), Ok(red));
    assert_eq!(Color::from_str("rgba(255, 0, 0, 0.5)"), Ok(red));
    assert_eq!(Color::from_str(" #FF0000 "), Ok(red));
    assert_eq!(Color::from_str("beige"), Ok(Color { r: 245, g: 245, b: 220 }));
    assert_eq!(Color::from_str("transparent"), Ok(Color { r: 0, g: 0, b: 0 }));
}

#[test]
fn color_refused() {
    assert_eq!(Color::from_str(""), Err(ColorParseError));
    assert_eq!(Color::from_str("#"), Err(ColorParseError));
    assert_eq!(Color::from_str("#FF00"), Err(ColorParseError));
    assert_eq!(Color::from_str("#FF00000"), Err(ColorParseError));
    assert_eq!(Color::from_str("#FF0000FF"), Err(ColorParseError));
    assert_eq!(Color::from_str("GG0000"), Err(ColorParseError));
    assert_eq!(Color::from_str("reddish"), Err(ColorParseError));
    assert_eq!(Color::from_str("rgb(1,2)"), Err(ColorParseError));
    assert_eq!(Color::from_str("é"), Err(ColorParseError));
}

#[test]
fn decimal_numbers() {
    assert_eq!(parse_u16("0"), Some(0));
    assert_eq!(parse_u16("20"), Some(20));
    assert_eq!(parse_u16("+20"), Some(20));
    assert_eq!(parse_u16("00020"), Some(20));
    assert_eq!(parse_u16("65535"), Some(65535));
    assert_eq!(parse_u16("65536"), None);
    assert_eq!(parse_u16("99999999999999999999999999"), None);
    assert_eq!(parse_u16("0000000000000000000000000000000000000000012"), Some(12));
    assert_eq!(parse_u16(""), None);
    assert_eq!(parse_u16("+"), None);
    assert_eq!(parse_u16("++1"), None);
    assert_eq!(parse_u16("-1"), None);
    assert_eq!(parse_u16("1 "), None);
    assert_eq!(parse_u16(" 1"), None);
    assert_eq!(parse_u16("1_000"), None);
    assert_eq!(parse_u16("12a"), None);
    assert_eq!(parse_u16("１２"), None);
    assert_eq!(parse_u16("1é"), None);
    assert_eq!(parse_u8("255"), Some(255));
    assert_eq!(parse_u8("256"), None);
    assert_eq!(parse_u8("+0"), Some(0));
    assert_eq!(parse_u8("x"), None);
    assert_eq!(decimal_string(0), "0");
    assert_eq!(decimal_string(9), "9");
    assert_eq!(decimal_string(10), "10");
    assert_eq!(decimal_string(3215), "3215");
    assert_eq!(decimal_string(65535), "65535");
    for n in [0u16, 1, 9, 10, 99, 100, 255, 256, 1000, 40000, 65535] {
        assert_eq!(decimal_string(n), n.to_string());
        assert_eq!(parse_u16(&decimal_string(n)), Some(n));
        assert_eq!(n.to_string().parse::<u16>().ok(), parse_u16(&n.to_string()));
    }
    for text in ["+5", "05", "", "+", "-0", "65536", "7 "] {
        assert_eq!(text.parse::<u16>().ok(), parse_u16(text));
        assert_eq!(text.parse::<u8>().ok(), parse_u8(text));
    }
}

#[test]
fn rotation_angles() {
    assert_eq!(ScreenRotation::Normal.degrees(), 0);
    assert_eq!(ScreenRotation::ClockWise.degrees(), 90);
    assert_eq!(ScreenRotation::UpsideDown.degrees(), 180);
    assert_eq!(ScreenRotation::CounterClockWise.degrees(), 270);
    assert_eq!(ScreenRotation::from_degrees(0), Some(ScreenRotation::Normal));
    assert_eq!(ScreenRotation::from_degrees(90), Some(ScreenRotation::ClockWise));
    assert_eq!(ScreenRotation::from_degrees(180), Some(ScreenRotation::UpsideDown));
    assert_eq!(ScreenRotation::from_degrees(270), Some(ScreenRotation::CounterClockWise));
    assert_eq!(ScreenRotation::from_degrees(360), None);
    assert_eq!(ScreenRotation::from_degrees(1), None);
    assert_eq!(ScreenRotation::from_degrees(u64::MAX), None);
}

#[test]
fn names_of_the_enumerations() {
    assert_eq!(font_name_str(Font::AKouZ1, Format::Structured), "akouz1");
    assert_eq!(font_name_str(Font::AKouZ1, Format::Flat), "a_kou_z1");
    assert_eq!(font_name_str(Font::Dream6800, Format::Structured), "dream6800");
    assert_eq!(font_name_str(Font::Dream6800, Format::Flat), "dream6800");
    for font in [Font::Octo, Font::Vip, Font::Dream6800, Font::Eti660, Font::Schip, Font::Fish, Font::AKouZ1] {
        for format in [Format::Structured, Format::Flat] {
            assert_eq!(font_from_name(font_name_str(font, format), format), Some(font));
        }
    }
    assert_eq!(font_from_name("a_kou_z1", Format::Structured), None);
    assert_eq!(font_from_name("akouz1", Format::Flat), None);
    assert_eq!(touch_name_str(TouchMode::Off), "none");
    assert_eq!(touch_name_str(TouchMode::Seg16Fill), "seg16_fill");
    for mode in [TouchMode::Off, TouchMode::Swipe, TouchMode::Seg16, TouchMode::Seg16Fill, TouchMode::Gamepad, TouchMode::Vip] {
        assert_eq!(touch_from_name(touch_name_str(mode)), Some(mode));
    }
    assert_eq!(touch_from_name("seg16fill"), None);
    assert_eq!(lores_name_str(LoResDxy0Behavior::NoOp), "no_op");
    assert_eq!(lores_name_str(LoResDxy0Behavior::TallSprite), "tall_sprite");
    assert_eq!(lores_name_str(LoResDxy0Behavior::BigSprite), "big_sprite");
    for behavior in [LoResDxy0Behavior::NoOp, LoResDxy0Behavior::TallSprite, LoResDxy0Behavior::BigSprite] {
        assert_eq!(lores_from_name(lores_name_str(behavior)), Some(behavior));
    }
    assert_eq!(lores_from_name("noop"), None);
}

#[test]
fn keys_of_the_fields() {
    assert_eq!(Field::Tickrate.key_str(Format::Structured), "tickrate");
    assert_eq!(Field::Tickrate.key_str(Format::Flat), "core.tickrate");
    assert_eq!(Field::MaxSize.structured_key_str(), "maxSize");
    assert_eq!(Field::MaxSize.flat_key_str(), "core.max_rom");
    assert_eq!(Field::BackgroundColor.structured_key_str(), "backgroundColor");
    assert_eq!(Field::BackgroundColor.flat_key_str(), "colors.plane0");
    assert_eq!(Field::QuietColor.flat_key_str(), "colors.background");
    assert_eq!(Field::BuzzColor.flat_key_str(), "colors.sound");
    assert_eq!(Field::Jump0.structured_key_str(), "jumpQuirks");
    assert_eq!(Field::Jump0.flat_key_str(), "quirks.jump0");
    assert_eq!(Field::LoresDxy0.structured_key_str(), "loresDXY0Quirks");
    assert_eq!(Field::OverflowI.flat_key_str(), "quirks.overflow_i");
}

#[test]
fn font_data() {
    let (small, large) = get_font_data(Font::Octo);
    assert_eq!(&small[..5], &[0xF0, 0x90, 0x90, 0x90, 0xF0]);
    assert_eq!(&small[75..], &[0xF0, 0x80, 0xF0, 0x80, 0x80]);
    let large = large.unwrap();
    assert_eq!(large.len(), 160);
    assert_eq!(&large[..10], &[0xFF, 0xFF, 0xC3, 0xC3, 0xC3, 0xC3, 0xC3, 0xC3, 0xFF, 0xFF]);
    let (schip_small, schip_large) = get_font_data(Font::Schip);
    assert_eq!(schip_small, small);
    let schip_large = schip_large.unwrap();
    assert_eq!(schip_large.len(), 100);
    assert_eq!(&schip_large[90..], &[0x3C, 0x7E, 0xC3, 0xC3, 0x7F, 0x3F, 0x03, 0x03, 0x3E, 0x7C]);
    let (vip, none) = get_font_data(Font::Vip);
    assert_eq!(&vip[5..10], &[0x60, 0x20, 0x20, 0x20, 0x70]);
    assert_eq!(none, None);
    assert_eq!(get_font_data(Font::Dream6800).1, None);
    assert_eq!(get_font_data(Font::Dream6800).0[0], 0xE0);
    assert_eq!(get_font_data(Font::Eti660).1, None);
    assert_eq!(get_font_data(Font::Eti660).0[5], 0x20);
    assert_eq!(get_font_data(Font::Fish).1.unwrap()[..3], [0x7C, 0xC6, 0xCE]);
    assert_eq!(get_font_data(Font::Fish).0[0], 0x60);
    assert_eq!(get_font_data(Font::AKouZ1).1.unwrap()[159], 0xC0);
    assert_eq!(get_font_data(Font::AKouZ1).0[79], 0x80);
}
