//! The configuration: appearance, keys, joysticks.

use crate::config_font::Font;
use crate::config_joystick::JoystickConfig;
use crate::config_keycode::{
    Keycode, KEY_DOWN, KEY_EQUALS, KEY_LALT, KEY_LCTRL, KEY_LEFT, KEY_LEFT_BRACKET, KEY_LSHIFT,
    KEY_MINUS, KEY_RETURN, KEY_RIGHT, KEY_RIGHT_BRACKET, KEY_SPACE, KEY_UP,
};
use crate::config_rgb::Rgb;
use std::collections::HashMap;
use vstd::prelude::*;

verus! {

broadcast use vstd::std_specs::hash::group_hash_axioms;

/// The colours of the display.
#[derive(Debug, Clone, Copy, PartialEq, Eq, Structural)]
pub struct ThemeConfig {
    pub screen: Rgb,
    pub text_default: Rgb,
    pub text_value: Rgb,
    pub text_title: Rgb,
    pub text_info: Rgb,
    pub cursor: Rgb,
    pub octave_bg: Rgb,
    pub octave_fg: Rgb,
    pub velocity_bg: Rgb,
    pub velocity_fg: Rgb,
}

/// The colours of a display that was never configured.
pub open spec fn default_theme() -> ThemeConfig {
    ThemeConfig {
        octave_bg: Rgb(0, 0, 255),
        octave_fg: Rgb(255, 255, 255),
        velocity_bg: Rgb(255, 0, 0),
        velocity_fg: Rgb(255, 255, 255),
        screen: Rgb(0, 0, 0),
        text_default: Rgb(0x8c, 0x8c, 0xba),
        text_value: Rgb(0xfa, 0xfa, 0xfa),
        text_title: Rgb(0x32, 0xec, 0xff),
        text_info: Rgb(0x60, 0x60, 0x8e),
        cursor: Rgb(0x32, 0xec, 0xff),
    }
}

impl Default for ThemeConfig {
    fn default() -> (r: Self)
        ensures
            r == default_theme(),
    {
        Self {
            octave_bg: Rgb(0, 0, 255),
            octave_fg: Rgb(255, 255, 255),
            velocity_bg: Rgb(255, 0, 0),
            velocity_fg: Rgb(255, 255, 255),
            screen: Rgb(0, 0, 0),
            text_default: Rgb(0x8c, 0x8c, 0xba),
            text_value: Rgb(0xfa, 0xfa, 0xfa),
            text_title: Rgb(0x32, 0xec, 0xff),
            text_info: Rgb(0x60, 0x60, 0x8e),
            cursor: Rgb(0x32, 0xec, 0xff),
        }
    }
}

/// The settings of the window and of the session.
#[derive(Debug, Clone, Copy, PartialEq, Eq, Structural)]
pub struct AppConfig {
    pub fullscreen: bool,
    pub font: Font,
    pub zoom: u32,
    pub key_sensibility: u64,
    pub fps: usize,
    pub show_fps: bool,
    pub reconnect: bool,
}

/// The settings of a session that was never configured.
pub open spec fn default_app() -> AppConfig {
    AppConfig {
        fullscreen: false,
        font: Font::Uppercase,
        zoom: 4,
        key_sensibility: 60,
        fps: 60,
        show_fps: false,
        reconnect: false,
    }
}

impl Default for AppConfig {
    fn default() -> (r: Self)
        ensures
            r == default_app(),
    {
        Self {
            fullscreen: false,
            font: Font::Uppercase,
            zoom: 4,
            key_sensibility: 60,
            fps: 60,
            show_fps: false,
            reconnect: false,
        }
    }
}

/// The keys that stand for the buttons of the device.
#[derive(Debug, Clone, Copy, PartialEq, Eq, Structural)]
pub struct M8KeyboardConfig {
    pub up: Keycode,
    pub down: Keycode,
    pub left: Keycode,
    pub right: Keycode,
    pub edit: Keycode,
    pub option: Keycode,
    pub shift: Keycode,
    pub play: Keycode,
}

/// The keys that stand for the buttons where none were chosen.
pub open spec fn default_m8_keys() -> M8KeyboardConfig {
    M8KeyboardConfig {
        up: Keycode(KEY_UP),
        down: Keycode(KEY_DOWN),
        left: Keycode(KEY_LEFT),
        right: Keycode(KEY_RIGHT),
        edit: Keycode(KEY_LCTRL),
        option: Keycode(KEY_LALT),
        shift: Keycode(KEY_LSHIFT),
        play: Keycode(KEY_SPACE),
    }
}

impl Default for M8KeyboardConfig {
    fn default() -> (r: Self)
        ensures
            r == default_m8_keys(),
    {
        Self {
            up: Keycode(KEY_UP),
            down: Keycode(KEY_DOWN),
            left: Keycode(KEY_LEFT),
            right: Keycode(KEY_RIGHT),
            edit: Keycode(KEY_LCTRL),
            option: Keycode(KEY_LALT),
            shift: Keycode(KEY_LSHIFT),
            play: Keycode(KEY_SPACE),
        }
    }
}

/// The keys that act on the host's side of the session.
#[derive(Debug, Clone, Copy, PartialEq, Eq, Structural)]
pub struct RM8KeyboardConfig {
    pub keyjazz: Keycode,
    pub velocity_minus: Keycode,
    pub velocity_plus: Keycode,
    pub octave_minus: Keycode,
    pub octave_plus: Keycode,
}

/// The keys of the host where none were chosen.
pub open spec fn default_rm8_keys() -> RM8KeyboardConfig {
    RM8KeyboardConfig {
        keyjazz: Keycode(KEY_RETURN),
        velocity_minus: Keycode(KEY_MINUS),
        velocity_plus: Keycode(KEY_EQUALS),
        octave_minus: Keycode(KEY_LEFT_BRACKET),
        octave_plus: Keycode(KEY_RIGHT_BRACKET),
    }
}

impl Default for RM8KeyboardConfig {
    fn default() -> (r: Self)
        ensures
            r == default_rm8_keys(),
    {
        Self {
            keyjazz: Keycode(KEY_RETURN),
            velocity_minus: Keycode(KEY_MINUS),
            velocity_plus: Keycode(KEY_EQUALS),
            octave_minus: Keycode(KEY_LEFT_BRACKET),
            octave_plus: Keycode(KEY_RIGHT_BRACKET),
        }
    }
}

/// The keys that play notes, by key code, with the note of each: two rows of
/// the keyboard for the lower octave, two for the upper.
pub open spec fn default_keyjazz() -> Map<i32, u8> {
    Map::<i32, u8>::empty().insert(122, 0).insert(115, 1).insert(120, 2).insert(100, 3).insert(99, 4).insert(118, 5).insert(103, 6).insert(98, 7).insert(104, 8).insert(110, 9).insert(106, 10).insert(109, 11).insert(44, 12).insert(108, 13).insert(46, 14).insert(59, 15).insert(47, 16).insert(113, 12).insert(50, 13).insert(119, 14).insert(51, 15).insert(101, 16).insert(114, 17).insert(53, 18).insert(116, 19).insert(54, 20).insert(121, 21).insert(55, 22).insert(117, 23).insert(105, 24).insert(57, 25).insert(111, 26).insert(48, 27).insert(112, 28)
}

/// Whether a key that plays a note is also bound to a button of the device
/// or to an action of the host.
pub open spec fn keys_overlap(
    keyjazz: Map<i32, u8>,
    m8: M8KeyboardConfig,
    rm8: RM8KeyboardConfig,
) -> bool {
    ||| keyjazz.contains_key(m8.up.0)
    ||| keyjazz.contains_key(m8.down.0)
    ||| keyjazz.contains_key(m8.left.0)
    ||| keyjazz.contains_key(m8.right.0)
    ||| keyjazz.contains_key(m8.shift.0)
    ||| keyjazz.contains_key(m8.play.0)
    ||| keyjazz.contains_key(m8.edit.0)
    ||| keyjazz.contains_key(m8.option.0)
    ||| keyjazz.contains_key(rm8.keyjazz.0)
    ||| keyjazz.contains_key(rm8.octave_minus.0)
    ||| keyjazz.contains_key(rm8.octave_plus.0)
    ||| keyjazz.contains_key(rm8.velocity_minus.0)
    ||| keyjazz.contains_key(rm8.velocity_plus.0)
}

/// The whole configuration. `joysticks` pairs the identifier of each known
/// joystick with its bindings; `keyjazz` gives the note of each key that
/// plays one, by key code.
#[derive(Debug, Clone)]
pub struct Config {
    pub app: AppConfig,
    pub theme: ThemeConfig,
    pub m8: M8KeyboardConfig,
    pub rm8: RM8KeyboardConfig,
    pub joysticks: Vec<(String, JoystickConfig)>,
    pub keyjazz: HashMap<i32, u8>,
    pub overlap: bool,
}

impl Default for Config {
    fn default() -> (r: Self)
        ensures
            r.app == default_app(),
            r.theme == default_theme(),
            r.m8 == default_m8_keys(),
            r.rm8 == default_rm8_keys(),
            r.joysticks@.len() == 0,
            r.keyjazz@ == default_keyjazz(),
            !r.overlap,
    {
        let mut keyjazz: HashMap<i32, u8> = HashMap::new();
        keyjazz.insert(122, 0);
        keyjazz.insert(115, 1);
        keyjazz.insert(120, 2);
        keyjazz.insert(100, 3);
        keyjazz.insert(99, 4);
        keyjazz.insert(118, 5);
        keyjazz.insert(103, 6);
        keyjazz.insert(98, 7);
        keyjazz.insert(104, 8);
        keyjazz.insert(110, 9);
        keyjazz.insert(106, 10);
        keyjazz.insert(109, 11);
        keyjazz.insert(44, 12);
        keyjazz.insert(108, 13);
        keyjazz.insert(46, 14);
        keyjazz.insert(59, 15);
        keyjazz.insert(47, 16);
        keyjazz.insert(113, 12);
        keyjazz.insert(50, 13);
        keyjazz.insert(119, 14);
        keyjazz.insert(51, 15);
        keyjazz.insert(101, 16);
        keyjazz.insert(114, 17);
        keyjazz.insert(53, 18);
        keyjazz.insert(116, 19);
        keyjazz.insert(54, 20);
        keyjazz.insert(121, 21);
        keyjazz.insert(55, 22);
        keyjazz.insert(117, 23);
        keyjazz.insert(105, 24);
        keyjazz.insert(57, 25);
        keyjazz.insert(111, 26);
        keyjazz.insert(48, 27);
        keyjazz.insert(112, 28);
        Self {
            app: AppConfig::default(),
            theme: ThemeConfig::default(),
            m8: M8KeyboardConfig::default(),
            rm8: RM8KeyboardConfig::default(),
            keyjazz,
            joysticks: Vec::new(),
            overlap: false,
        }
    }
}

impl Config {
    /// Notes whether a key that plays a note is bound to something else too.
    pub fn check_overlap(&mut self)
        ensures
            final(self).overlap == keys_overlap(old(self).keyjazz@, old(self).m8, old(self).rm8),
            final(self).app == old(self).app,
            final(self).theme == old(self).theme,
            final(self).m8 == old(self).m8,
            final(self).rm8 == old(self).rm8,
            final(self).joysticks == old(self).joysticks,
            final(self).keyjazz == old(self).keyjazz,
    {
        self.overlap = self.keyjazz.contains_key(&self.m8.up.0) || self.keyjazz.contains_key(
            &self.m8.down.0,
        ) || self.keyjazz.contains_key(&self.m8.left.0) || self.keyjazz.contains_key(
            &self.m8.right.0,
        ) || self.keyjazz.contains_key(&self.m8.shift.0) || self.keyjazz.contains_key(
            &self.m8.play.0,
        ) || self.keyjazz.contains_key(&self.m8.edit.0) || self.keyjazz.contains_key(
            &self.m8.option.0,
        ) || self.keyjazz.contains_key(&self.rm8.keyjazz.0) || self.keyjazz.contains_key(
            &self.rm8.octave_minus.0,
        ) || self.keyjazz.contains_key(&self.rm8.octave_plus.0) || self.keyjazz.contains_key(
            &self.rm8.velocity_minus.0,
        ) || self.keyjazz.contains_key(&self.rm8.velocity_plus.0);
    }
}

} // verus!
