//! The settings of a CHIP-8 interpreter.

use vstd::prelude::*;

use crate::color::Color;
use crate::font::Font;

verus! {

/// The colors an interpreter may use for its visual elements. A slot that is
/// `None` leaves the choice to the interpreter.
#[derive(Clone, Copy, Debug, PartialEq, Eq)]
pub struct Colors {
    /// The color of lit pixels; with two planes, of the first plane.
    pub fill_color: Option<Color>,
    /// The color of the second plane.
    pub fill_color2: Option<Color>,
    /// The color where both planes overlap.
    pub blend_color: Option<Color>,
    /// The color of the background.
    pub background_color: Option<Color>,
    /// The color of an indicator that shows the buzzer sounding.
    pub buzz_color: Option<Color>,
    /// The color of that indicator while the buzzer is silent.
    pub quiet_color: Option<Color>,
}

impl Colors {
    /// Every slot left to the interpreter.
    pub open spec fn unset() -> Colors {
        Colors {
            fill_color: None,
            fill_color2: None,
            blend_color: None,
            background_color: None,
            buzz_color: None,
            quiet_color: None,
        }
    }

    /// The default palette: white on black, yellow for the second plane, red
    /// for the overlap, and two dark reds for the buzzer.
    pub open spec fn palette() -> Colors {
        Colors {
            fill_color: Some(Color { r: 255, g: 255, b: 255 }),
            fill_color2: Some(Color { r: 255, g: 255, b: 0 }),
            blend_color: Some(Color { r: 255, g: 0, b: 0 }),
            background_color: Some(Color { r: 0, g: 0, b: 0 }),
            buzz_color: Some(Color { r: 153, g: 0, b: 0 }),
            quiet_color: Some(Color { r: 51, g: 0, b: 0 }),
        }
    }
}

impl Default for Colors {
    fn default() -> (r: Colors)
        ensures
            r == Colors::palette(),
    {
        Colors {
            fill_color: Some(Color { r: 255, g: 255, b: 255 }),
            fill_color2: Some(Color { r: 255, g: 255, b: 0 }),
            blend_color: Some(Color { r: 255, g: 0, b: 0 }),
            background_color: Some(Color { r: 0, g: 0, b: 0 }),
            buzz_color: Some(Color { r: 153, g: 0, b: 0 }),
            quiet_color: Some(Color { r: 51, g: 0, b: 0 }),
        }
    }
}

/// The ways of handling touch input that Octo knows.
#[derive(Clone, Copy, Debug, PartialEq, Eq, Structural)]
pub enum TouchMode {
    /// Touch input is not handled.
    Off,
    /// A tap is key 6; swipes and holds are a directional pad on keys 5, 8, 7
    /// and 9.
    Swipe,
    /// The middle of the screen is an invisible 4 by 4 hex keypad.
    Seg16,
    /// As `Seg16`, with the keypad filling the whole display.
    Seg16Fill,
    /// A translucent gamepad is drawn around the screen.
    Gamepad,
    /// A 4 by 4 hex keypad is shown under the screen.
    Vip,
}

impl Default for TouchMode {
    fn default() -> (r: TouchMode)
        ensures
            r == TouchMode::Off,
    {
        TouchMode::Off
    }
}

/// What drawing a sprite of height 0 does in low resolution.
#[derive(Clone, Copy, Debug, PartialEq, Eq, Structural)]
pub enum LoResDxy0Behavior {
    /// Nothing is drawn.
    NoOp,
    /// A sprite of 8 by 16 pixels is drawn.
    TallSprite,
    /// A sprite of 16 by 16 pixels is drawn, as in high resolution.
    BigSprite,
}

impl Default for LoResDxy0Behavior {
    fn default() -> (r: LoResDxy0Behavior)
        ensures
            r == LoResDxy0Behavior::BigSprite,
    {
        LoResDxy0Behavior::BigSprite
    }
}

/// The orientation of the display.
#[derive(Clone, Copy, Debug, PartialEq, Eq, Structural)]
pub enum ScreenRotation {
    /// Landscape, the usual orientation.
    Normal,
    /// Portrait, turned a quarter clockwise.
    ClockWise,
    /// Landscape, upside down.
    UpsideDown,
    /// Portrait, turned a quarter counter-clockwise.
    CounterClockWise,
}

impl ScreenRotation {
    /// The clockwise angle of the orientation, in degrees.
    pub open spec fn angle(self) -> u16 {
        match self {
            ScreenRotation::Normal => 0,
            ScreenRotation::ClockWise => 90,
            ScreenRotation::UpsideDown => 180,
            ScreenRotation::CounterClockWise => 270,
        }
    }

    /// The orientation of a clockwise angle: 0, 90, 180 or 270 degrees.
    pub open spec fn of_angle(degrees: int) -> Option<ScreenRotation> {
        if degrees == 0 {
            Some(ScreenRotation::Normal)
        } else if degrees == 90 {
            Some(ScreenRotation::ClockWise)
        } else if degrees == 180 {
            Some(ScreenRotation::UpsideDown)
        } else if degrees == 270 {
            Some(ScreenRotation::CounterClockWise)
        } else {
            None
        }
    }

    /// The clockwise angle of the orientation, in degrees.
    pub fn degrees(&self) -> (r: u16)
        ensures
            r == self.angle(),
    {
        match self {
            ScreenRotation::Normal => 0,
            ScreenRotation::ClockWise => 90,
            ScreenRotation::UpsideDown => 180,
            ScreenRotation::CounterClockWise => 270,
        }
    }

    /// The orientation of a clockwise angle, if it is 0, 90, 180 or 270.
    pub fn from_degrees(degrees: u64) -> (r: Option<ScreenRotation>)
        ensures
            r == ScreenRotation::of_angle(degrees as int),
    {
        if degrees == 0 {
            Some(ScreenRotation::Normal)
        } else if degrees == 90 {
            Some(ScreenRotation::ClockWise)
        } else if degrees == 180 {
            Some(ScreenRotation::UpsideDown)
        } else if degrees == 270 {
            Some(ScreenRotation::CounterClockWise)
        } else {
            None
        }
    }
}

impl Default for ScreenRotation {
    fn default() -> (r: ScreenRotation)
        ensures
            r == ScreenRotation::Normal,
    {
        ScreenRotation::Normal
    }
}

/// The behaviors in which interpreters differ. Each is three-valued:
/// `Some(true)` asks for the quirk, `Some(false)` asks for it to be off, and
/// `None` says that nothing is known of what the program needs.
#[derive(Clone, Copy, Debug, PartialEq, Eq)]
pub struct Quirks {
    /// The shifts 8XY6 and 8XYE shift VX in place and ignore VY.
    pub shift: Option<bool>,
    /// FX55 and FX65 leave the I register unchanged.
    pub load_store: Option<bool>,
    /// The jump BXNN adds VX, not V0.
    pub jump0: Option<bool>,
    /// The logic instructions 8XY1, 8XY2 and 8XY3 leave VF undefined.
    pub logic: Option<bool>,
    /// Sprites are clipped at the edges of the screen, not wrapped.
    pub clip: Option<bool>,
    /// After drawing, the interpreter waits for the end of the frame.
    pub vblank: Option<bool>,
    /// With VF as an operand, the flag is kept and the value dropped.
    pub vf_order: Option<bool>,
    /// What drawing a sprite of height 0 does in low resolution.
    pub lores_dxy0: Option<LoResDxy0Behavior>,
    /// A change of resolution clears the screen.
    pub res_clear: Option<bool>,
    /// The delay timer wraps around from 0 to 255.
    pub delay_wrap: Option<bool>,
    /// In high resolution, VF counts the sprite rows that collided.
    pub hires_collision: Option<bool>,
    /// A sprite that runs off the bottom of the screen sets VF.
    pub clip_collision: Option<bool>,
    /// In low resolution, scrolling moves half as many pixels.
    pub scroll: Option<bool>,
    /// The I register sets VF when it passes `0x0FFF`.
    pub overflow_i: Option<bool>,
}

impl Quirks {
    /// Nothing known of any quirk.
    pub open spec fn unset() -> Quirks {
        Quirks {
            shift: None,
            load_store: None,
            jump0: None,
            logic: None,
            clip: None,
            vblank: None,
            vf_order: None,
            lores_dxy0: None,
            res_clear: None,
            delay_wrap: None,
            hires_collision: None,
            clip_collision: None,
            scroll: None,
            overflow_i: None,
        }
    }

    /// The baseline: every quirk off, but for the two that Octo observes, the
    /// cleared screen on a change of resolution and the big sprite.
    pub open spec fn baseline() -> Quirks {
        Quirks {
            shift: Some(false),
            load_store: Some(false),
            jump0: Some(false),
            logic: Some(false),
            clip: Some(false),
            vblank: Some(false),
            vf_order: Some(false),
            lores_dxy0: Some(LoResDxy0Behavior::BigSprite),
            res_clear: Some(true),
            delay_wrap: Some(false),
            hires_collision: Some(false),
            clip_collision: Some(false),
            scroll: Some(false),
            overflow_i: Some(false),
        }
    }
}

impl Default for Quirks {
    fn default() -> (r: Quirks)
        ensures
            r == Quirks::baseline(),
    {
        Quirks {
            shift: Some(false),
            load_store: Some(false),
            jump0: Some(false),
            logic: Some(false),
            clip: Some(false),
            vblank: Some(false),
            vf_order: Some(false),
            lores_dxy0: Some(LoResDxy0Behavior::BigSprite),
            res_clear: Some(true),
            delay_wrap: Some(false),
            hires_collision: Some(false),
            clip_collision: Some(false),
            scroll: Some(false),
            overflow_i: Some(false),
        }
    }
}

/// The settings of an interpreter for one program.
#[derive(Clone, Copy, Debug, PartialEq, Eq)]
pub struct Options {
    /// The number of instructions run in each frame of a 60th of a second.
    pub tickrate: Option<u16>,
    /// The largest size of a program, in bytes.
    pub max_size: Option<u16>,
    /// The orientation of the display.
    pub screen_rotation: ScreenRotation,
    /// The font that the program expects.
    pub font_style: Font,
    /// The touch controls that the program supports.
    pub touch_input_mode: TouchMode,
    /// The address at which the program is loaded.
    pub start_address: Option<u16>,
    /// The colors that the program would like.
    pub colors: Colors,
    /// The behaviors that the program expects.
    pub quirks: Quirks,
}

impl Options {
    /// The settings that say nothing: every optional field `None`, the
    /// display upright, Octo's font, no touch input.
    pub open spec fn unset() -> Options {
        Options {
            tickrate: None,
            max_size: None,
            screen_rotation: ScreenRotation::Normal,
            font_style: Font::Octo,
            touch_input_mode: TouchMode::Off,
            start_address: None,
            colors: Colors::unset(),
            quirks: Quirks::unset(),
        }
    }

    /// The settings of a fresh interpreter: 500 instructions a frame, 3584
    /// bytes of program from address 512, the default palette and the
    /// baseline quirks.
    pub open spec fn fresh() -> Options {
        Options {
            tickrate: Some(500u16),
            max_size: Some(3584u16),
            screen_rotation: ScreenRotation::Normal,
            font_style: Font::Octo,
            touch_input_mode: TouchMode::Off,
            start_address: Some(512u16),
            colors: Colors::palette(),
            quirks: Quirks::baseline(),
        }
    }
}

impl Default for Options {
    fn default() -> (r: Options)
        ensures
            r == Options::fresh(),
    {
        Options {
            tickrate: Some(500),
            max_size: Some(3584),
            screen_rotation: ScreenRotation::Normal,
            font_style: Font::Octo,
            touch_input_mode: TouchMode::Off,
            start_address: Some(512),
            colors: Colors::default(),
            quirks: Quirks::default(),
        }
    }
}

/// The orientation of an angle that an orientation gives is that orientation.
pub proof fn lemma_angle_round_trip(rotation: ScreenRotation)
    ensures
        ScreenRotation::of_angle(rotation.angle() as int) == Some(rotation),
{
}

} // verus!
