use octopt::color::Color;
use octopt::options::Options;

const OCTO_DEFAULTS: &str = r##"{"tickrate":20,"fillColor":"#FFCC00","fillColor2":"#FF6600","blendColor":"#662200","backgroundColor":"#996600","buzzColor":"#FFAA00","quietColor":"#000000","shiftQuirks":0,"loadStoreQuirks":0,"vfOrderQuirks":0,"clipQuirks":1,"vBlankQuirks":1,"jumpQuirks":0,"screenRotation":0,"maxSize":3215,"touchInputMode":"none","logicQuirks":1,"fontStyle":"octo"}"##;

const OCTO_DEFAULTS_BOOL: &str = r##"{"tickrate":20,"fillColor":"#FFCC00","fillColor2":"#FF6600","blendColor":"#662200","backgroundColor":"#996600","buzzColor":"#FFAA00","quietColor":"#000000","shiftQuirks":false,"loadStoreQuirks":false,"vfOrderQuirks":false,"clipQuirks":true,"vBlankQuirks":true,"jumpQuirks":false,"screenRotation":0,"maxSize":3215,"touchInputMode":"none","logicQuirks":true,"fontStyle":"octo"}"##;

fn json(text: &str) -> serde_json::Value {
    serde_json::from_str(text).unwrap()
}

/// The settings that both documents above describe.
fn octo_defaults() -> Options {
    let mut o = Options::from_str("{}").unwrap();
    o.tickrate = Some(20);
    o.max_size = Some(3215);
    o.colors.fill_color = Some(Color { r: 0xFF, g: 0xCC, b: 0x00 });
    o.colors.fill_color2 = Some(Color { r: 0xFF, g: 0x66, b: 0x00 });
    o.colors.blend_color = Some(Color { r: 0x66, g: 0x22, b: 0x00 });
    o.colors.background_color = Some(Color { r: 0x99, g: 0x66, b: 0x00 });
    o.colors.buzz_color = Some(Color { r: 0xFF, g: 0xAA, b: 0x00 });
    o.colors.quiet_color = Some(Color { r: 0, g: 0, b: 0 });
    o.quirks.shift = Some(false);
    o.quirks.load_store = Some(false);
    o.quirks.vf_order = Some(false);
    o.quirks.clip = Some(true);
    o.quirks.vblank = Some(true);
    o.quirks.jump0 = Some(false);
    o.quirks.logic = Some(true);
    o
}

/// Reads the options that Octo sets for a new game.
#[test]
fn default_octo_options() {
    let deserialized_defaults = Options::from_str(OCTO_DEFAULTS).unwrap();
    assert_eq!(octo_defaults(), deserialized_defaults);
    assert_eq!(Options::from_str(OCTO_DEFAULTS_BOOL).unwrap(), deserialized_defaults);
    assert_eq!(json(OCTO_DEFAULTS), json(&deserialized_defaults.to_string()));
}

#[test]
fn deserialize_default_octo_options() {
    let deserialized_defaults = Options::from_str(OCTO_DEFAULTS).unwrap();
    assert_eq!(octo_defaults(), deserialized_defaults);
    assert_eq!(Options::from_str(OCTO_DEFAULTS_BOOL).unwrap(), deserialized_defaults);
    assert_eq!(json(OCTO_DEFAULTS), json(&deserialized_defaults.to_string()));
}

/// Reads the options that Octo sets for a new game, with quirks as booleans.
#[test]
fn default_octo_options_bool() {
    let deserialized_defaults = Options::from_str(OCTO_DEFAULTS_BOOL).unwrap();
    assert_eq!(octo_defaults(), deserialized_defaults);
    assert_eq!(json(OCTO_DEFAULTS), json(&deserialized_defaults.to_string()));
}

/// Reads the empty set of options.
#[test]
fn empty_options() {
    let deserialized_empty = Options::from_str("{}").unwrap();
    println!("{}", deserialized_empty.to_string());
    assert_eq!(deserialized_empty.to_string(), r#"{"screenRotation":0,"fontStyle":"octo","touchInputMode":"none"}"#);
}

#[test]
fn octo_rc_deserialize() {
    let deserialized_defaults = Options::from_str(OCTO_DEFAULTS).unwrap();
    let ini_defaults = "core.tickrate = 20\ncore.max_rom=3215\r\ncore.rotation=0\r\ncore.font=octo\r\ncore.touch_mode=none\r\ncolors.plane0=#996600\r\ncolors.plane1=FFCC00\r\ncolors.plane2=FF6600\r\ncolors.plane3=662200\r\ncolors.background=000000\r\ncolors.sound=FFAA00\r\nquirks.shift=0\r\nquirks.loadstore=0\r\nquirks.clip=1\r\nquirks.vblank=1\r\nquirks.jump0=0\r\nquirks.logic=1\r\nquirks.vforder=0\r\n";
    let deserialized_ini_defaults = Options::from_ini(ini_defaults).unwrap();
    assert_eq!(deserialized_defaults, deserialized_ini_defaults);
    assert_eq!(
        json(&deserialized_defaults.to_string()),
        json(&deserialized_ini_defaults.to_string())
    );
}

#[test]
fn octo_rc_serialize() {
    let deserialized_defaults = Options::from_str(OCTO_DEFAULTS).unwrap();
    let ini_defaults = "core.tickrate=20\r\ncore.max_rom=3215\r\ncore.rotation=0\r\ncore.font=octo\r\ncore.touch_mode=none\r\ncolors.plane1=FFCC00\r\ncolors.plane2=FF6600\r\ncolors.plane3=662200\r\ncolors.plane0=996600\r\ncolors.sound=FFAA00\r\ncolors.background=000000\r\nquirks.shift=0\r\nquirks.loadstore=0\r\nquirks.jump0=0\r\nquirks.logic=1\r\nquirks.clip=1\r\nquirks.vblank=1\r\nquirks.vforder=0\r\n";
    let ini_defaults_deserialized = Options::to_ini(deserialized_defaults);
    assert_eq!(ini_defaults, ini_defaults_deserialized);
}
