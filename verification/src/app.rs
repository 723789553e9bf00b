//! What the host does with its input: keys, joysticks and the menu.
//!
//! The event loop, the window and the clock are the caller's. The state kept
//! here is what decides: which key of the device a key of the keyboard or a
//! control of a joystick stands for, and what a key does while the menu is
//! shown.

use crate::config::{Config, M8KeyboardConfig, RM8KeyboardConfig};
use crate::config_command::Command;
use crate::config_joystick::{Axis, HatConfig, JoystickConfig};
use crate::config_keycode::Keycode;
use crate::m8::{
    M8View, KEYS_DIR, KEYS_DOWN, KEYS_EDIT, KEYS_LEFT, KEYS_OPTION, KEYS_PLAY, KEYS_RIGHT,
    KEYS_SHIFT, KEYS_UP, M8, MAX_OCTAVE, MAX_VELOCITY, MIN_OCTAVE, MIN_VELOCITY, NOTE_OFF,
};
use crate::menu_items::int_at;
use crate::menu_tools::{
    joystick_place, selected_joystick_config, selected_joystick_id, shown_guid,
};
use crate::nav::{navigated, shown, with_shown, Navigation, NavigationView};
use crate::nav_item::{fresh_names, lookup_of, Action, ActionView, Direction, Edit, Lookup};
use crate::nav_page::{edited_page, moved, place_of, Page};
use crate::remap::{released, remapped, with_items, Remap};
use crate::value::{
    assigned, lowered, raised, toggled, with_bits_cleared, with_bits_set, Value, ValueView,
};
use vstd::prelude::*;

verus! {

broadcast use vstd::std_specs::hash::group_hash_axioms;

/// Where the configuration is kept.
pub const CONFIG_FILE: &'static str = "rm8.json";

pub const KEY_VEL_INC: u8 = 0x01;

pub const KEY_VEL_DEC: u8 = 0x02;

pub const KEY_OCT_INC: u8 = 0x04;

pub const KEY_OCT_DEC: u8 = 0x08;

pub const KEY_JAZZ: u8 = 0x10;

pub const KEY_FAST: u8 = 0x20;

/// The position of a hat.
#[derive(Debug, Clone, Copy, PartialEq, Eq, Structural)]
pub enum HatState {
    Centered,
    Up,
    Right,
    Down,
    Left,
    RightUp,
    RightDown,
    LeftUp,
    LeftDown,
}

/// Whose keys a key of the keyboard acts on, and on which of them.
pub enum Target {
    /// The keys of the device.
    Device(u8),
    /// The keys of the host.
    Host(u8),
}

/// The bit of a velocity key: with the fast bit when the key is released (so
/// that both are cleared) or when it is pressed with shift.
pub open spec fn velocity_mask(bit: u8, shift: bool, clear: bool) -> u8 {
    if clear || shift {
        bit | KEY_FAST
    } else {
        bit
    }
}

/// What a key of the keyboard stands for. The keys of the device come
/// first, in the order of their bits in the configuration.
pub open spec fn key_target(
    m8: M8KeyboardConfig,
    rm8: RM8KeyboardConfig,
    key: Keycode,
    shift: bool,
    clear: bool,
) -> Option<Target> {
    if key == m8.up {
        Some(Target::Device(KEYS_UP))
    } else if key == m8.down {
        Some(Target::Device(KEYS_DOWN))
    } else if key == m8.left {
        Some(Target::Device(KEYS_LEFT))
    } else if key == m8.right {
        Some(Target::Device(KEYS_RIGHT))
    } else if key == m8.edit {
        Some(Target::Device(KEYS_EDIT))
    } else if key == m8.option {
        Some(Target::Device(KEYS_OPTION))
    } else if key == m8.shift {
        Some(Target::Device(KEYS_SHIFT))
    } else if key == m8.play {
        Some(Target::Device(KEYS_PLAY))
    } else if key == rm8.octave_minus {
        Some(Target::Host(KEY_OCT_DEC))
    } else if key == rm8.octave_plus {
        Some(Target::Host(KEY_OCT_INC))
    } else if key == rm8.velocity_minus {
        Some(Target::Host(velocity_mask(KEY_VEL_DEC, shift, clear)))
    } else if key == rm8.velocity_plus {
        Some(Target::Host(velocity_mask(KEY_VEL_INC, shift, clear)))
    } else {
        None
    }
}

/// The keys after the bits of `mask` were set, or cleared where `clear`.
pub open spec fn switched(keys: ValueView<u8>, mask: u8, clear: bool) -> ValueView<u8> {
    if clear {
        with_bits_cleared(keys, mask)
    } else {
        with_bits_set(keys, mask)
    }
}

/// The bit of the device's or the host's keys that a command stands for; a
/// command that unbinds stands for none.
pub open spec fn command_mask(cmd: Command) -> Option<u8> {
    match cmd {
        Command::Up => Some(KEYS_UP),
        Command::Down => Some(KEYS_DOWN),
        Command::Left => Some(KEYS_LEFT),
        Command::Right => Some(KEYS_RIGHT),
        Command::Edit => Some(KEYS_EDIT),
        Command::Opt => Some(KEYS_OPTION),
        Command::Shift => Some(KEYS_SHIFT),
        Command::Play => Some(KEYS_PLAY),
        Command::Keyjazz => Some(KEY_JAZZ),
        Command::VelocityMinus => Some(KEY_VEL_DEC),
        Command::VelocityPlus => Some(KEY_VEL_INC),
        Command::OctaveMinus => Some(KEY_OCT_DEC),
        Command::OctavePlus => Some(KEY_OCT_INC),
        Command::Unset => None,
    }
}

/// The keys of the device after a command of a joystick: the bit of the
/// command is set or cleared; the command that unbinds lets the direction
/// keys go.
pub open spec fn commanded(keys: ValueView<u8>, cmd: Option<(Command, bool)>) -> ValueView<u8> {
    match cmd {
        Some((cmd, clear)) => match command_mask(cmd) {
            Some(mask) => switched(keys, mask, clear),
            None => with_bits_cleared(keys, KEYS_DIR),
        },
        None => keys,
    }
}

/// What an axis that stands at `value` asks for: within the threshold the
/// keys are let go; beyond it, the command of the side is pressed, where the
/// negative side has one.
pub open spec fn axis_command(axis: Axis, value: i16) -> Option<(Command, bool)> {
    let distance = if value < 0 {
        -(value as int)
    } else {
        value as int
    };
    let reach = if distance > i16::MAX {
        i16::MAX as int
    } else {
        distance
    };
    if reach <= axis.sensibility {
        Some((Command::Unset, true))
    } else if value < 0 {
        if axis.negative != Command::Unset {
            Some((axis.negative, false))
        } else {
            None
        }
    } else {
        Some((axis.positive, false))
    }
}

/// The command of a position of a hat; none where it is centered.
pub open spec fn hat_position_command(hat: HatConfig, state: HatState) -> Command {
    match state {
        HatState::Up => hat.up,
        HatState::Down => hat.down,
        HatState::Left => hat.left,
        HatState::Right => hat.right,
        HatState::LeftUp => hat.left_up,
        HatState::LeftDown => hat.left_down,
        HatState::RightUp => hat.right_up,
        HatState::RightDown => hat.right_down,
        HatState::Centered => Command::Unset,
    }
}

/// What a key does once the time between two steps of a held key is over.
pub enum KeyStep {
    /// Step to another page of the menu, and let the direction keys go.
    Navigate(Direction),
    /// Edit the item under the cursor.
    Edit(Edit),
    /// Reset or click the item under the cursor, then let the direction
    /// keys go, and the edit key too where the edit asks for something.
    Press(Edit),
    /// Move the cursor.
    Move(Direction),
    OctaveDown,
    OctaveUp,
    VelocityDown(bool),
    VelocityUp(bool),
    ToggleKeyjazz,
    Nothing,
}

/// Whether one of the bits of `mask` is set in `keys`.
pub open spec fn holds(keys: u8, mask: u8) -> bool {
    keys & mask != 0
}

/// What a direction key does in the menu: with shift it leads to another
/// page, with edit it changes the item, alone it moves the cursor.
pub open spec fn menu_step(device: u8, to: Direction, edit: Edit) -> KeyStep {
    if holds(device, KEYS_SHIFT) {
        KeyStep::Navigate(to)
    } else if holds(device, KEYS_EDIT) {
        KeyStep::Edit(edit)
    } else {
        KeyStep::Move(to)
    }
}

/// What the keys held do. In the menu the keys of the device act on it; up
/// and right edit forward, down and left backward, up and down by the big
/// step. Outside the menu the keys of the host act on the session.
pub open spec fn key_step(in_config: bool, device: u8, host: u8) -> KeyStep {
    if in_config {
        if holds(device, KEYS_UP) {
            menu_step(device, Direction::Above, Edit::Next(true))
        } else if holds(device, KEYS_DOWN) {
            menu_step(device, Direction::Below, Edit::Prev(true))
        } else if holds(device, KEYS_LEFT) {
            menu_step(device, Direction::Left, Edit::Prev(false))
        } else if holds(device, KEYS_RIGHT) {
            menu_step(device, Direction::Right, Edit::Next(false))
        } else if holds(device, KEYS_EDIT) {
            if holds(device, KEYS_OPTION) {
                KeyStep::Press(Edit::Reset)
            } else {
                KeyStep::Press(Edit::Click)
            }
        } else {
            KeyStep::Nothing
        }
    } else if holds(host, KEY_OCT_DEC) {
        KeyStep::OctaveDown
    } else if holds(host, KEY_OCT_INC) {
        KeyStep::OctaveUp
    } else if holds(host, KEY_VEL_DEC) {
        KeyStep::VelocityDown(holds(host, KEY_FAST))
    } else if holds(host, KEY_VEL_INC) {
        KeyStep::VelocityUp(holds(host, KEY_FAST))
    } else if holds(host, KEY_JAZZ) {
        KeyStep::ToggleKeyjazz
    } else {
        KeyStep::Nothing
    }
}

/// The edit that a step makes of the item under the cursor, if it makes one.
pub open spec fn step_edit(step: KeyStep) -> Option<Edit> {
    match step {
        KeyStep::Edit(edit) => Some(edit),
        KeyStep::Press(edit) => Some(edit),
        _ => None,
    }
}

/// What the escape key does.
#[derive(Debug, Clone, Copy, PartialEq, Eq, Structural)]
pub enum Escape {
    /// Leave full screen.
    LeaveFullscreen,
    /// The menu or the rebinding was left: draw the device's screen anew.
    Refresh,
    /// End the program.
    Quit,
}

fn test(keys: u8, mask: u8) -> (r: bool)
    ensures
        r == holds(keys, mask),
{
    keys & mask != 0
}

fn switch(keys: &mut Value<u8>, mask: u8, clear: bool)
    ensures
        final(keys)@ == switched(old(keys)@, mask, clear),
{
    if clear {
        keys.clr_bit(mask)
    } else {
        keys.set_bit(mask)
    }
}

fn mask_of(cmd: Command) -> (r: Option<u8>)
    ensures
        r == command_mask(cmd),
{
    match cmd {
        Command::Up => Some(KEYS_UP),
        Command::Down => Some(KEYS_DOWN),
        Command::Left => Some(KEYS_LEFT),
        Command::Right => Some(KEYS_RIGHT),
        Command::Edit => Some(KEYS_EDIT),
        Command::Opt => Some(KEYS_OPTION),
        Command::Shift => Some(KEYS_SHIFT),
        Command::Play => Some(KEYS_PLAY),
        Command::Keyjazz => Some(KEY_JAZZ),
        Command::VelocityMinus => Some(KEY_VEL_DEC),
        Command::VelocityPlus => Some(KEY_VEL_INC),
        Command::OctaveMinus => Some(KEY_OCT_DEC),
        Command::OctavePlus => Some(KEY_OCT_INC),
        Command::Unset => None,
    }
}

/// What an axis that stands at `value` asks for.
pub fn axis_cmd_of(axis: &Axis, value: i16) -> (r: Option<(Command, bool)>)
    ensures
        r == axis_command(*axis, value),
{
    let reach: usize = if value == i16::MIN {
        i16::MAX as usize
    } else if value < 0 {
        (-value) as usize
    } else {
        value as usize
    };
    if reach <= axis.sensibility {
        return Some((Command::Unset, true));
    }
    if value < 0 {
        if !axis.negative.is_none() {
            return Some((axis.negative, false));
        }
    } else if value > 0 {
        return Some((axis.positive, false));
    }
    None
}

/// The command of a position of a hat.
pub fn hat_cmd_of(hat: &HatConfig, state: HatState) -> (r: Command)
    ensures
        r == hat_position_command(*hat, state),
{
    match state {
        HatState::Up => hat.up,
        HatState::Down => hat.down,
        HatState::Left => hat.left,
        HatState::Right => hat.right,
        HatState::LeftUp => hat.left_up,
        HatState::LeftDown => hat.left_down,
        HatState::RightUp => hat.right_up,
        HatState::RightDown => hat.right_down,
        HatState::Centered => Command::Unset,
    }
}

/// What the keys held do.
pub fn next_step(in_config: bool, device: u8, host: u8) -> (r: KeyStep)
    ensures
        r == key_step(in_config, device, host),
{
    if in_config {
        if test(device, KEYS_UP) {
            menu_step_of(device, Direction::Above, Edit::Next(true))
        } else if test(device, KEYS_DOWN) {
            menu_step_of(device, Direction::Below, Edit::Prev(true))
        } else if test(device, KEYS_LEFT) {
            menu_step_of(device, Direction::Left, Edit::Prev(false))
        } else if test(device, KEYS_RIGHT) {
            menu_step_of(device, Direction::Right, Edit::Next(false))
        } else if test(device, KEYS_EDIT) {
            if test(device, KEYS_OPTION) {
                KeyStep::Press(Edit::Reset)
            } else {
                KeyStep::Press(Edit::Click)
            }
        } else {
            KeyStep::Nothing
        }
    } else if test(host, KEY_OCT_DEC) {
        KeyStep::OctaveDown
    } else if test(host, KEY_OCT_INC) {
        KeyStep::OctaveUp
    } else if test(host, KEY_VEL_DEC) {
        KeyStep::VelocityDown(test(host, KEY_FAST))
    } else if test(host, KEY_VEL_INC) {
        KeyStep::VelocityUp(test(host, KEY_FAST))
    } else if test(host, KEY_JAZZ) {
        KeyStep::ToggleKeyjazz
    } else {
        KeyStep::Nothing
    }
}

fn menu_step_of(device: u8, to: Direction, edit: Edit) -> (r: KeyStep)
    ensures
        r == menu_step(device, to, edit),
{
    if test(device, KEYS_SHIFT) {
        KeyStep::Navigate(to)
    } else if test(device, KEYS_EDIT) {
        KeyStep::Edit(edit)
    } else {
        KeyStep::Move(to)
    }
}

/// The state of the host's side.
pub struct App {
    pub config: Config,
    pub menu: Navigation,
    /// The page of the joysticks that is not in the menu: the full one while
    /// no joystick is plugged in, the empty one while one is.
    pub joystick_page: Option<Page>,
    /// What the menu asked for and was not done yet.
    pub action: Action,
    pub in_config: bool,
    pub remap: Option<Remap>,
    /// The keys of the host that are held.
    pub keys: Value<u8>,
    pub fps: usize,
    pub fps_count: usize,
}

/// The joystick bindings that the menu shows as chosen, for the joystick
/// with the number `joystick_id`: those of the identifier that the page of
/// the joysticks shows, where that page has this number chosen.
pub open spec fn chosen_joystick(
    menu: NavigationView,
    joysticks: Seq<(String, JoystickConfig)>,
    joystick_id: u32,
) -> Option<JoystickConfig> {
    match place_of(menu.pages, 'J', 0) {
        Some(i) => if int_at(menu.pages[i].items, 1) as u32 == joystick_id {
            match shown_guid(menu.pages[i].items) {
                Some(guid) => match joystick_place(joysticks, guid, 0) {
                    Some(j) => Some(joysticks[j].1),
                    None => None,
                },
                None => None,
            }
        } else {
            None
        },
        None => None,
    }
}

impl App {
    /// The state as the program starts with `config`: outside the menu, no
    /// key held, nothing asked for, and the full page of the joysticks
    /// waiting for a joystick.
    pub fn new(config: Config, joystick_page: Option<Page>) -> (r: Self)
        ensures
            r.config == config,
            r.menu@ == (NavigationView { pages: Seq::empty(), page: (0, 0), changed: true }),
            r.joystick_page == joystick_page,
            r.action == Action::Idle,
            !r.in_config,
            r.remap is None,
            r.keys@ == (ValueView { value: 0u8, modified: false }),
            r.fps == config.app.fps,
            r.fps_count == 0,
    {
        let fps = config.app.fps;
        Self {
            config,
            menu: Navigation::new(),
            joystick_page,
            action: Action::Idle,
            in_config: false,
            remap: None,
            keys: Value::new(0),
            fps,
            fps_count: 0,
        }
    }

    pub fn config_mode(&self) -> (r: bool)
        ensures
            r == self.in_config,
    {
        self.in_config
    }

    /// Shows the menu.
    pub fn start_config_mode(&mut self)
        ensures
            final(self).in_config,
            final(self).menu@ == (NavigationView { changed: true, ..old(self).menu@ }),
            *final(self) == (App { menu: final(self).menu, in_config: true, ..*old(self) }),
    {
        self.menu.dirty();
        self.in_config = true;
    }

    /// Leaves the menu.
    pub fn cancel_config_mode(&mut self)
        ensures
            *final(self) == (App { in_config: false, ..*old(self) }),
    {
        self.in_config = false;
    }

    pub fn remap_mode(&self) -> (r: bool)
        ensures
            r == self.remap is Some,
    {
        self.remap.is_some()
    }

    pub fn config(&self) -> (r: &Config)
        ensures
            *r == self.config,
    {
        &self.config
    }

    /// A key of the keyboard was pressed, or released where `clear`. `shift`
    /// tells whether a shift key was held. A released key that plays a note
    /// ends the note while key jazz is on.
    pub fn handle_key(&mut self, m8: &mut M8, keycode: Keycode, shift: bool, clear: bool)
        ensures
            final(m8)@ == (M8View {
                note: if clear && old(m8)@.keyjazz.value && old(self).config.keyjazz@.contains_key(
                    keycode.0,
                ) {
                    assigned(old(m8)@.note, NOTE_OFF, old(m8)@.note.value == NOTE_OFF)
                } else {
                    old(m8)@.note
                },
                keys: match key_target(
                    old(self).config.m8,
                    old(self).config.rm8,
                    keycode,
                    shift,
                    clear,
                ) {
                    Some(Target::Device(mask)) => switched(old(m8)@.keys, mask, clear),
                    _ => old(m8)@.keys,
                },
                ..old(m8)@
            }),
            final(self).keys@ == match key_target(
                old(self).config.m8,
                old(self).config.rm8,
                keycode,
                shift,
                clear,
            ) {
                Some(Target::Host(mask)) => switched(old(self).keys@, mask, clear),
                _ => old(self).keys@,
            },
            *final(self) == (App { keys: final(self).keys, ..*old(self) }),
    {
        if clear && m8.keyjazz().get() && self.config.keyjazz.contains_key(&keycode.0) {
            m8.set_note_off()
        }
        let fast: u8 = if clear || shift {
            KEY_FAST
        } else {
            0
        };
        if keycode == self.config.m8.up {
            switch(m8.keys_mut(), KEYS_UP, clear);
        } else if keycode == self.config.m8.down {
            switch(m8.keys_mut(), KEYS_DOWN, clear);
        } else if keycode == self.config.m8.left {
            switch(m8.keys_mut(), KEYS_LEFT, clear);
        } else if keycode == self.config.m8.right {
            switch(m8.keys_mut(), KEYS_RIGHT, clear);
        } else if keycode == self.config.m8.edit {
            switch(m8.keys_mut(), KEYS_EDIT, clear);
        } else if keycode == self.config.m8.option {
            switch(m8.keys_mut(), KEYS_OPTION, clear);
        } else if keycode == self.config.m8.shift {
            switch(m8.keys_mut(), KEYS_SHIFT, clear);
        } else if keycode == self.config.m8.play {
            switch(m8.keys_mut(), KEYS_PLAY, clear);
        } else if keycode == self.config.rm8.octave_minus {
            switch(&mut self.keys, KEY_OCT_DEC, clear);
        } else if keycode == self.config.rm8.octave_plus {
            switch(&mut self.keys, KEY_OCT_INC, clear);
        } else if keycode == self.config.rm8.velocity_minus {
            assert(KEY_VEL_DEC | 0 == KEY_VEL_DEC) by (bit_vector);
            switch(&mut self.keys, KEY_VEL_DEC | fast, clear);
        } else if keycode == self.config.rm8.velocity_plus {
            assert(KEY_VEL_INC | 0 == KEY_VEL_INC) by (bit_vector);
            switch(&mut self.keys, KEY_VEL_INC | fast, clear);
        }
    }

    /// The command of a button of a joystick, with `release` passed on. A
    /// joystick that is not the one chosen in the menu, and a button that is
    /// not bound, give nothing.
    pub fn button_cmd(&self, joystick_id: u32, button_id: u8, release: bool) -> (r: Option<
        (Command, bool),
    >)
        ensures
            r == match chosen_joystick(self.menu@, self.config.joysticks@, joystick_id) {
                Some(joystick) => if joystick.buttons@.contains_key(button_id) {
                    Some((joystick.buttons@[button_id], release))
                } else {
                    None
                },
                None => None,
            },
    {
        if let Some(page) = self.menu.find('J') {
            if selected_joystick_id(page) == joystick_id {
                if let Some(joystick) = selected_joystick_config(page, &self.config) {
                    if let Some(cmd) = joystick.buttons.get(&button_id) {
                        return Some((*cmd, release));
                    }
                }
            }
        }
        None
    }

    /// What an axis of a joystick asks for at `value`.
    pub fn axis_cmd(&self, joystick_id: u32, axis_id: u8, value: i16) -> (r: Option<
        (Command, bool),
    >)
        ensures
            r == match chosen_joystick(self.menu@, self.config.joysticks@, joystick_id) {
                Some(joystick) => if joystick.axes@.contains_key(axis_id) {
                    axis_command(joystick.axes@[axis_id], value)
                } else {
                    None
                },
                None => None,
            },
    {
        if let Some(page) = self.menu.find('J') {
            if selected_joystick_id(page) == joystick_id {
                if let Some(joystick) = selected_joystick_config(page, &self.config) {
                    if let Some(axis) = joystick.axes.get(&axis_id) {
                        return axis_cmd_of(axis, value);
                    }
                }
            }
        }
        None
    }

    /// What the first hat of a joystick asks for in the position `state`:
    /// its command is pressed, and the keys are let go where it has none.
    pub fn hat_cmd(&self, joystick_id: u32, state: HatState) -> (r: Option<(Command, bool)>)
        ensures
            r == match chosen_joystick(self.menu@, self.config.joysticks@, joystick_id) {
                Some(joystick) => match joystick.hats {
                    Some(hats) => if hats@.contains_key(0) {
                        Some(
                            (
                                hat_position_command(hats@[0], state),
                                hat_position_command(hats@[0], state) == Command::Unset,
                            ),
                        )
                    } else {
                        None
                    },
                    None => None,
                },
                None => None,
            },
    {
        if let Some(page) = self.menu.find('J') {
            if selected_joystick_id(page) == joystick_id {
                if let Some(joystick) = selected_joystick_config(page, &self.config) {
                    if let Some(hats) = &joystick.hats {
                        if let Some(hat) = hats.get(&0) {
                            let cmd = hat_cmd_of(hat, state);
                            return Some((cmd, cmd.is_none()));
                        }
                    }
                }
            }
        }
        None
    }

    /// Acts on the keys of the device as a command of a joystick asks.
    pub fn handle_cmd(&mut self, m8: &mut M8, cmd: Option<(Command, bool)>)
        ensures
            final(m8)@ == (M8View { keys: commanded(old(m8)@.keys, cmd), ..old(m8)@ }),
            *final(self) == *old(self),
    {
        if let Some((cmd, clear)) = cmd {
            match mask_of(cmd) {
                Some(mask) => switch(m8.keys_mut(), mask, clear),
                None => m8.keys_mut().clr_bit(KEYS_DIR),
            }
        }
    }

    /// Which list the caller is to look up and hand to [`App::process_key`]
    /// for the step that is due.
    pub fn lookup(&self, m8: &M8) -> (r: Option<Lookup>)
        ensures
            r == match step_edit(
                key_step(self.in_config, m8@.keys.value, self.keys@.value),
            ) {
                Some(edit) => match shown(self.menu@) {
                    Some(page) => if page.cursor.1 < page.items.len() {
                        lookup_of(page.items[page.cursor.1 as int], edit, page.cursor.0)
                    } else {
                        None
                    },
                    None => None,
                },
                None => None,
            },
    {
        match next_step(self.in_config, m8.keys().get(), self.keys.get()) {
            KeyStep::Edit(edit) => self.menu.lookup(edit),
            KeyStep::Press(edit) => self.menu.lookup(edit),
            _ => None,
        }
    }

    /// Lets the keys held act, where `due`: the time between two steps of a
    /// held key is over. `fresh` is the list that [`App::lookup`] asked for,
    /// where the lookup worked. In any case the keys of the host are let go.
    pub fn process_key(&mut self, m8: &mut M8, due: bool, fresh: Option<Vec<String>>)
        ensures
            final(self).keys@ == assigned(old(self).keys@, 0, old(self).keys@.value == 0),
            final(self).config == old(self).config,
            final(self).joystick_page == old(self).joystick_page,
            final(self).in_config == old(self).in_config,
            final(self).remap == old(self).remap,
            final(self).fps == old(self).fps,
            final(self).fps_count == old(self).fps_count,
            !due ==> {
                &&& final(m8)@ == old(m8)@
                &&& final(self).menu@ == old(self).menu@
                &&& final(self).action == old(self).action
            },
            due ==> match key_step(
                old(self).in_config,
                old(m8)@.keys.value,
                old(self).keys@.value,
            ) {
                KeyStep::Navigate(to) => {
                    &&& final(self).menu@ == navigated(old(self).menu@, to)
                    &&& final(m8)@ == (M8View {
                        keys: with_bits_cleared(old(m8)@.keys, KEYS_DIR),
                        ..old(m8)@
                    })
                    &&& final(self).action == old(self).action
                },
                KeyStep::Move(to) => {
                    &&& final(self).menu@ == match shown(old(self).menu@) {
                        Some(page) => with_shown(old(self).menu@, moved(page, to)),
                        None => old(self).menu@,
                    }
                    &&& final(m8)@ == old(m8)@
                    &&& final(self).action == old(self).action
                },
                KeyStep::Edit(edit) => {
                    &&& final(self).menu@ == match shown(old(self).menu@) {
                        Some(page) => with_shown(
                            old(self).menu@,
                            edited_page(page, edit, fresh_names(fresh)).0,
                        ),
                        None => old(self).menu@,
                    }
                    &&& final(m8)@ == old(m8)@
                    &&& old(self).action is Idle ==> final(self).action@ == match shown(
                        old(self).menu@,
                    ) {
                        Some(page) => edited_page(page, edit, fresh_names(fresh)).1,
                        None => ActionView::Idle,
                    }
                    &&& !(old(self).action is Idle) ==> final(self).action == old(self).action
                },
                KeyStep::Press(edit) => {
                    let asked = match shown(old(self).menu@) {
                        Some(page) => edited_page(page, edit, fresh_names(fresh)).1,
                        None => ActionView::Idle,
                    };
                    &&& final(self).menu@ == match shown(old(self).menu@) {
                        Some(page) => with_shown(
                            old(self).menu@,
                            edited_page(page, edit, fresh_names(fresh)).0,
                        ),
                        None => old(self).menu@,
                    }
                    &&& final(m8)@ == (M8View {
                        keys: with_bits_cleared(
                            if asked is Idle {
                                old(m8)@.keys
                            } else {
                                with_bits_cleared(old(m8)@.keys, KEYS_EDIT)
                            },
                            KEYS_DIR,
                        ),
                        ..old(m8)@
                    })
                    &&& old(self).action is Idle ==> final(self).action@ == asked
                    &&& !(old(self).action is Idle) ==> final(self).action == old(self).action
                },
                KeyStep::OctaveDown => {
                    &&& final(m8)@ == (M8View {
                        octave: lowered(old(m8)@.octave, 1, MIN_OCTAVE),
                        ..old(m8)@
                    })
                    &&& final(self).menu@ == old(self).menu@
                    &&& final(self).action == old(self).action
                },
                KeyStep::OctaveUp => {
                    &&& final(m8)@ == (M8View {
                        octave: raised(old(m8)@.octave, 1, MAX_OCTAVE),
                        ..old(m8)@
                    })
                    &&& final(self).menu@ == old(self).menu@
                    &&& final(self).action == old(self).action
                },
                KeyStep::VelocityDown(fast) => {
                    &&& final(m8)@ == (M8View {
                        velocity: lowered(
                            old(m8)@.velocity,
                            crate::m8::stride(fast),
                            MIN_VELOCITY,
                        ),
                        ..old(m8)@
                    })
                    &&& final(self).menu@ == old(self).menu@
                    &&& final(self).action == old(self).action
                },
                KeyStep::VelocityUp(fast) => {
                    &&& final(m8)@ == (M8View {
                        velocity: raised(
                            old(m8)@.velocity,
                            crate::m8::stride(fast),
                            MAX_VELOCITY,
                        ),
                        ..old(m8)@
                    })
                    &&& final(self).menu@ == old(self).menu@
                    &&& final(self).action == old(self).action
                },
                KeyStep::ToggleKeyjazz => {
                    &&& final(m8)@ == (M8View { keyjazz: toggled(old(m8)@.keyjazz), ..old(m8)@ })
                    &&& final(self).menu@ == old(self).menu@
                    &&& final(self).action == old(self).action
                },
                KeyStep::Nothing => {
                    &&& final(m8)@ == old(m8)@
                    &&& final(self).menu@ == old(self).menu@
                    &&& final(self).action == old(self).action
                },
            },
    {
        if due {
            match next_step(self.in_config, m8.keys().get(), self.keys.get()) {
                KeyStep::Navigate(to) => {
                    self.menu.navigate(to);
                    m8.keys_mut().clr_bit(KEYS_DIR);
                },
                KeyStep::Move(to) => {
                    self.menu.cursor_move(to);
                },
                KeyStep::Edit(edit) => {
                    let asked = self.menu.edit_item(edit, fresh);
                    self.action.map(asked);
                },
                KeyStep::Press(edit) => {
                    let asked = self.menu.edit_item(edit, fresh);
                    match asked {
                        Action::Idle => {},
                        _ => {
                            m8.keys_mut().clr_bit(KEYS_EDIT);
                        },
                    }
                    self.action.map(asked);
                    m8.keys_mut().clr_bit(KEYS_DIR);
                },
                KeyStep::OctaveDown => {
                    m8.dec_octave();
                },
                KeyStep::OctaveUp => {
                    m8.inc_octave();
                },
                KeyStep::VelocityDown(fast) => {
                    m8.dec_velocity(fast);
                },
                KeyStep::VelocityUp(fast) => {
                    m8.inc_velocity(fast);
                },
                KeyStep::ToggleKeyjazz => {
                    m8.keyjazz_mut().toggle();
                },
                KeyStep::Nothing => {},
            }
        }
        self.keys.set(0);
    }

    /// What the escape key does: it leaves full screen first, then the
    /// rebinding or the menu, and ends the program where nothing is left to
    /// leave.
    pub fn escape_command(&mut self, fullscreen: bool) -> (r: Escape)
        requires
            old(self).in_config && old(self).remap is Some ==> shown(old(self).menu@) is Some,
        ensures
            r == if fullscreen {
                Escape::LeaveFullscreen
            } else if old(self).in_config {
                Escape::Refresh
            } else {
                Escape::Quit
            },
            fullscreen || !old(self).in_config ==> *final(self) == *old(self),
            !fullscreen && old(self).in_config && old(self).remap is Some ==> {
                &&& final(self).remap is None
                &&& final(self).menu@ == released(old(self).menu@)
                &&& *final(self) == (App { menu: final(self).menu, remap: None, ..*old(self) })
            },
            !fullscreen && old(self).in_config && old(self).remap is None ==> *final(self) == (App {
                in_config: false,
                ..*old(self)
            }),
    {
        if fullscreen {
            Escape::LeaveFullscreen
        } else if self.in_config {
            if self.remap.is_some() {
                self.cancel_remap_mode();
            } else {
                self.cancel_config_mode();
            }
            Escape::Refresh
        } else {
            Escape::Quit
        }
    }

    /// Gives a rebinding up: no binding of the page shown waits for a key
    /// any more.
    pub fn cancel_remap_mode(&mut self)
        requires
            old(self).remap is Some ==> shown(old(self).menu@) is Some,
        ensures
            old(self).remap is None ==> *final(self) == *old(self),
            old(self).remap is Some ==> {
                &&& final(self).menu@ == released(old(self).menu@)
                &&& *final(self) == (App { menu: final(self).menu, remap: None, ..*old(self) })
            },
    {
        if let Some(mut r) = self.remap.take() {
            r.abort(&mut self.menu);
        }
    }

    /// Hands a key that was pressed to the rebinding, which goes on as
    /// [`remapped`] says. Returns whether the rebinding is over, because
    /// every binding has its key; it is then ended, and no binding waits for
    /// a key any more. Without a rebinding nothing happens.
    pub fn remap(&mut self, keycode: Keycode) -> (r: bool)
        requires
            old(self).remap is Some ==> shown(old(self).menu@) is Some,
        ensures
            match old(self).remap {
                None => !r && *final(self) == *old(self),
                Some(progress) => {
                    let (next, items) = remapped(
                        progress@,
                        shown(old(self).menu@).unwrap().items,
                        keycode,
                    );
                    let bound = with_items(old(self).menu@, items);
                    &&& r == (next.pos >= next.keys.len())
                    &&& r ==> {
                        &&& final(self).remap is None
                        &&& final(self).menu@ == released(bound)
                    }
                    &&& !r ==> {
                        &&& final(self).remap is Some
                        &&& final(self).remap.unwrap()@ == next
                        &&& final(self).menu@ == bound
                    }
                    &&& *final(self) == (App {
                        menu: final(self).menu,
                        remap: final(self).remap,
                        ..*old(self)
                    })
                },
            },
    {
        if let Some(mut r) = self.remap.take() {
            if r.remap(&mut self.menu, keycode) {
                r.abort(&mut self.menu);
                return true;
            }
            self.remap = Some(r);
        }
        false
    }

    /// Counts a frame, and every five seconds (`lapse`) takes the count as
    /// the new rate. Returns the frames per second to show, where they are
    /// shown.
    pub fn render_fps(&mut self, lapse: bool) -> (r: Option<usize>)
        requires
            old(self).config.app.show_fps ==> old(self).fps_count < usize::MAX,
        ensures
            !old(self).config.app.show_fps ==> r is None && *final(self) == *old(self),
            old(self).config.app.show_fps ==> {
                &&& final(self).fps == if lapse {
                    (old(self).fps_count + 1) as usize
                } else {
                    old(self).fps
                }
                &&& final(self).fps_count == if lapse {
                    0
                } else {
                    (old(self).fps_count + 1) as usize
                }
                &&& r == Some(final(self).fps / 5)
                &&& *final(self) == (App {
                    fps: final(self).fps,
                    fps_count: final(self).fps_count,
                    ..*old(self)
                })
            },
    {
        if self.config.app.show_fps {
            self.fps_count += 1;
            if lapse {
                self.fps = self.fps_count;
                self.fps_count = 0;
            }
            Some(self.fps / 5)
        } else {
            None
        }
    }
}

} // verus!
