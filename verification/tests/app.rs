use rm8::actions::{Modified, Task};
use rm8::app::{
    axis_cmd_of, hat_cmd_of, next_step, App, Escape, HatState, KeyStep, KEY_FAST, KEY_JAZZ,
    KEY_OCT_DEC, KEY_OCT_INC, KEY_VEL_DEC, KEY_VEL_INC,
};
use rm8::config::Config;
use rm8::config_command::Command;
use rm8::config_font::Font;
use rm8::config_joystick::{Axis, HatConfig, JoystickConfig};
use rm8::config_keycode::Keycode;
use rm8::config_rgb::Rgb;
use rm8::m8::{
    KEYS_DIR, KEYS_DOWN, KEYS_EDIT, KEYS_LEFT, KEYS_OPTION, KEYS_PLAY, KEYS_RIGHT, KEYS_SHIFT,
    KEYS_UP, M8,
};
use rm8::menu::{build_joystick_page, build_menu};
use rm8::menu_items::{bool_from_item, int_from_item, rgb_from_item};
use rm8::menu_tools::{
    axes_from_page, buttons_from_page, fill_joystick_page, hats_from_page, update_joystick_page,
    JoystickInfo,
};
use rm8::nav_item::{Action, Direction, Edit, Input, Item, Lookup};
use std::collections::HashMap;

fn app() -> App {
    let config = Config::default();
    let mut app = App::new(config, build_joystick_page());
    build_menu(&mut app.menu, &Config::default(), vec!["a".to_string(), "b".to_string()], None);
    app
}

fn step_eq(a: KeyStep, b: KeyStep) -> bool {
    match (a, b) {
        (KeyStep::Navigate(x), KeyStep::Navigate(y)) => x == y,
        (KeyStep::Edit(x), KeyStep::Edit(y)) => x == y,
        (KeyStep::Press(x), KeyStep::Press(y)) => x == y,
        (KeyStep::Move(x), KeyStep::Move(y)) => x == y,
        (KeyStep::OctaveDown, KeyStep::OctaveDown) => true,
        (KeyStep::OctaveUp, KeyStep::OctaveUp) => true,
        (KeyStep::VelocityDown(x), KeyStep::VelocityDown(y)) => x == y,
        (KeyStep::VelocityUp(x), KeyStep::VelocityUp(y)) => x == y,
        (KeyStep::ToggleKeyjazz, KeyStep::ToggleKeyjazz) => true,
        (KeyStep::Nothing, KeyStep::Nothing) => true,
        _ => false,
    }
}

#[test]
fn app_starts_outside_the_menu() {
    let mut app = App::new(Config::default(), None);
    assert!(!app.config_mode());
    assert!(!app.remap_mode());
    assert_eq!(app.action, Action::Idle);
    assert_eq!(app.keys.get(), 0);
    assert!(!app.keys.changed());
    assert_eq!(app.fps, 60);
    assert_eq!(app.fps_count, 0);
    assert!(app.joystick_page.is_none());
    assert!(!app.menu.has_page());
    assert_eq!(app.config().app.zoom, 4);
    app.menu.take_changed();
    app.start_config_mode();
    assert!(app.config_mode());
    assert!(app.menu.take_changed());
    app.cancel_config_mode();
    assert!(!app.config_mode());
}

#[test]
fn keys_of_the_device_are_switched() {
    let mut app = app();
    let mut m8 = M8::new();
    let c = Config::default();
    let keys = [
        (c.m8.up, KEYS_UP),
        (c.m8.down, KEYS_DOWN),
        (c.m8.left, KEYS_LEFT),
        (c.m8.right, KEYS_RIGHT),
        (c.m8.edit, KEYS_EDIT),
        (c.m8.option, KEYS_OPTION),
        (c.m8.shift, KEYS_SHIFT),
        (c.m8.play, KEYS_PLAY),
    ];
    let mut held = 0u8;
    for (key, bit) in keys {
        app.handle_key(&mut m8, key, false, false);
        held |= bit;
        assert_eq!(m8.keys.get(), held);
        assert!(m8.keys.changed());
        app.handle_key(&mut m8, key, false, false);
        assert!(!m8.keys.changed());
    }
    assert_eq!(held, 0xff);
    for (key, bit) in keys {
        app.handle_key(&mut m8, key, true, true);
        held &= !bit;
        assert_eq!(m8.keys.get(), held);
        assert!(m8.keys.changed());
    }
    assert_eq!(app.keys.get(), 0);
    app.handle_key(&mut m8, Keycode(999), false, false);
    assert_eq!(m8.keys.get(), 0);
    assert_eq!(app.keys.get(), 0);
}

#[test]
fn keys_of_the_host_are_switched() {
    let mut app = app();
    let mut m8 = M8::new();
    let c = Config::default();
    app.handle_key(&mut m8, c.rm8.octave_minus, false, false);
    assert_eq!(app.keys.get(), KEY_OCT_DEC);
    app.handle_key(&mut m8, c.rm8.octave_plus, true, false);
    assert_eq!(app.keys.get(), KEY_OCT_DEC | KEY_OCT_INC);
    app.handle_key(&mut m8, c.rm8.octave_minus, false, true);
    assert_eq!(app.keys.get(), KEY_OCT_INC);
    app.handle_key(&mut m8, c.rm8.velocity_minus, false, false);
    assert_eq!(app.keys.get(), KEY_OCT_INC | KEY_VEL_DEC);
    app.handle_key(&mut m8, c.rm8.velocity_plus, true, false);
    assert_eq!(app.keys.get(), KEY_OCT_INC | KEY_VEL_DEC | KEY_VEL_INC | KEY_FAST);
    app.handle_key(&mut m8, c.rm8.velocity_minus, false, true);
    assert_eq!(app.keys.get(), KEY_OCT_INC | KEY_VEL_INC);
    app.handle_key(&mut m8, c.rm8.velocity_plus, false, true);
    assert_eq!(app.keys.get(), KEY_OCT_INC);
    assert_eq!(m8.keys.get(), 0);
    // the key of key jazz is not among the keys that are held
    app.handle_key(&mut m8, c.rm8.keyjazz, false, false);
    assert_eq!(app.keys.get(), KEY_OCT_INC);
}

#[test]
fn a_key_of_the_device_wins_over_a_key_of_the_host() {
    let mut app = app();
    let mut m8 = M8::new();
    app.config.rm8.octave_plus = app.config.m8.play;
    app.handle_key(&mut m8, Keycode(32), false, false);
    assert_eq!(m8.keys.get(), KEYS_PLAY);
    assert_eq!(app.keys.get(), 0);
}

#[test]
fn released_note_key_ends_the_note() {
    let mut app = app();
    let mut m8 = M8::new();
    let z = Keycode('z' as i32);
    m8.set_note(0);
    assert_eq!(m8.note.get(), 36);
    app.handle_key(&mut m8, z, false, true);
    assert_eq!(m8.note.get(), 36);
    m8.keyjazz.toggle();
    app.handle_key(&mut m8, z, false, false);
    assert_eq!(m8.note.get(), 36);
    app.handle_key(&mut m8, Keycode(999), false, true);
    assert_eq!(m8.note.get(), 36);
    app.handle_key(&mut m8, z, false, true);
    assert_eq!(m8.note.get(), 255);
}

#[test]
fn axis_commands() {
    let axis = Axis::new(Command::Left, Command::Right, 1000);
    assert_eq!(axis_cmd_of(&axis, 0), Some((Command::Unset, true)));
    assert_eq!(axis_cmd_of(&axis, 1000), Some((Command::Unset, true)));
    assert_eq!(axis_cmd_of(&axis, -1000), Some((Command::Unset, true)));
    assert_eq!(axis_cmd_of(&axis, 1001), Some((Command::Right, false)));
    assert_eq!(axis_cmd_of(&axis, -1001), Some((Command::Left, false)));
    assert_eq!(axis_cmd_of(&axis, i16::MAX), Some((Command::Right, false)));
    assert_eq!(axis_cmd_of(&axis, i16::MIN), Some((Command::Left, false)));
    let one_sided = Axis::new(Command::Unset, Command::Unset, 1000);
    assert_eq!(axis_cmd_of(&one_sided, -2000), None);
    assert_eq!(axis_cmd_of(&one_sided, 2000), Some((Command::Unset, false)));
    let wide = Axis::new(Command::Left, Command::Right, 32767);
    assert_eq!(axis_cmd_of(&wide, i16::MIN), Some((Command::Unset, true)));
    assert_eq!(axis_cmd_of(&wide, i16::MAX), Some((Command::Unset, true)));
    let tight = Axis::new(Command::Left, Command::Right, 0);
    assert_eq!(axis_cmd_of(&tight, 0), Some((Command::Unset, true)));
    assert_eq!(axis_cmd_of(&tight, 1), Some((Command::Right, false)));
    assert_eq!(axis_cmd_of(&tight, -1), Some((Command::Left, false)));
}

fn hat() -> HatConfig {
    HatConfig {
        up: Command::Up,
        down: Command::Down,
        left: Command::Left,
        right: Command::Right,
        left_up: Command::Edit,
        right_up: Command::Opt,
        left_down: Command::Shift,
        right_down: Command::Unset,
    }
}

#[test]
fn hat_commands() {
    let h = hat();
    assert_eq!(hat_cmd_of(&h, HatState::Up), Command::Up);
    assert_eq!(hat_cmd_of(&h, HatState::Down), Command::Down);
    assert_eq!(hat_cmd_of(&h, HatState::Left), Command::Left);
    assert_eq!(hat_cmd_of(&h, HatState::Right), Command::Right);
    assert_eq!(hat_cmd_of(&h, HatState::LeftUp), Command::Edit);
    assert_eq!(hat_cmd_of(&h, HatState::RightUp), Command::Opt);
    assert_eq!(hat_cmd_of(&h, HatState::LeftDown), Command::Shift);
    assert_eq!(hat_cmd_of(&h, HatState::RightDown), Command::Unset);
    assert_eq!(hat_cmd_of(&h, HatState::Centered), Command::Unset);
}

fn info() -> JoystickInfo {
    JoystickInfo { guid: "pad-1".to_string(), name: "Pad".to_string(), axes: 2, buttons: 4, hats: 1 }
}

fn bindings() -> JoystickConfig {
    let mut j = JoystickConfig::default();
    j.buttons.insert(2, Command::Play);
    j.axes.insert(1, Axis::new(Command::Left, Command::Right, 500));
    let mut hats = HashMap::new();
    hats.insert(0, hat());
    j.hats = Some(hats);
    j
}

fn with_joystick() -> App {
    let mut app = app();
    app.config.joysticks.push(("pad-0".to_string(), JoystickConfig::default()));
    app.config.joysticks.push(("pad-1".to_string(), bindings()));
    app.joystick_added(true);
    let page = app.menu.find_mut('J').unwrap();
    update_joystick_page(page, 2);
    page.reset_cursor();
    page.edit_item(Edit::Next(false), None);
    fill_joystick_page(page, &info());
    app
}

#[test]
fn joystick_controls_give_the_commands_of_the_joystick_chosen() {
    let app = with_joystick();
    assert_eq!(app.button_cmd(1, 2, false), Some((Command::Play, false)));
    assert_eq!(app.button_cmd(1, 2, true), Some((Command::Play, true)));
    assert_eq!(app.button_cmd(1, 3, false), None);
    assert_eq!(app.button_cmd(0, 2, false), None);
    assert_eq!(app.axis_cmd(1, 1, 600), Some((Command::Right, false)));
    assert_eq!(app.axis_cmd(1, 1, -600), Some((Command::Left, false)));
    assert_eq!(app.axis_cmd(1, 1, 10), Some((Command::Unset, true)));
    assert_eq!(app.axis_cmd(1, 0, 600), None);
    assert_eq!(app.axis_cmd(2, 1, 600), None);
    assert_eq!(app.hat_cmd(1, HatState::Up), Some((Command::Up, false)));
    assert_eq!(app.hat_cmd(1, HatState::Centered), Some((Command::Unset, true)));
    assert_eq!(app.hat_cmd(1, HatState::RightDown), Some((Command::Unset, true)));
    assert_eq!(app.hat_cmd(0, HatState::Up), None);
}

#[test]
fn joystick_controls_without_a_joystick_chosen_give_nothing() {
    let mut app = app();
    assert_eq!(app.button_cmd(0, 0, false), None);
    assert_eq!(app.axis_cmd(0, 0, 30000), None);
    assert_eq!(app.hat_cmd(0, HatState::Up), None);
    app.config.joysticks.push(("pad-1".to_string(), bindings()));
    app.joystick_added(true);
    // the page names no joystick yet
    assert_eq!(app.button_cmd(0, 2, false), None);
    fill_joystick_page(app.menu.find_mut('J').unwrap(), &info());
    assert_eq!(app.button_cmd(0, 2, false), Some((Command::Play, false)));
    let mut no_hats = app;
    no_hats.config.joysticks[0].1.hats = None;
    assert_eq!(no_hats.hat_cmd(0, HatState::Up), None);
    no_hats.config.joysticks[0].1.hats = Some(HashMap::new());
    assert_eq!(no_hats.hat_cmd(0, HatState::Up), None);
}

#[test]
fn commands_act_on_the_keys_of_the_device() {
    let mut app = app();
    let mut m8 = M8::new();
    app.handle_cmd(&mut m8, None);
    assert_eq!(m8.keys.get(), 0);
    let masks = [
        (Command::Up, KEYS_UP),
        (Command::Down, KEYS_DOWN),
        (Command::Left, KEYS_LEFT),
        (Command::Right, KEYS_RIGHT),
        (Command::Edit, KEYS_EDIT),
        (Command::Opt, KEYS_OPTION),
        (Command::Shift, KEYS_SHIFT),
        (Command::Play, KEYS_PLAY),
        (Command::Keyjazz, KEY_JAZZ),
        (Command::VelocityMinus, KEY_VEL_DEC),
        (Command::VelocityPlus, KEY_VEL_INC),
        (Command::OctaveMinus, KEY_OCT_DEC),
        (Command::OctavePlus, KEY_OCT_INC),
    ];
    for (cmd, mask) in masks {
        m8.keys.set(0);
        app.handle_cmd(&mut m8, Some((cmd, false)));
        assert_eq!(m8.keys.get(), mask);
        app.handle_cmd(&mut m8, Some((cmd, true)));
        assert_eq!(m8.keys.get(), 0);
    }
    m8.keys.set(0xff);
    app.handle_cmd(&mut m8, Some((Command::Unset, false)));
    assert_eq!(m8.keys.get(), 0xff & !KEYS_DIR);
    assert_eq!(KEYS_DIR, KEYS_UP | KEYS_DOWN | KEYS_LEFT | KEYS_RIGHT);
    m8.keys.set(0xff);
    app.handle_cmd(&mut m8, Some((Command::Unset, true)));
    assert_eq!(m8.keys.get(), 0x1b);
}

#[test]
fn steps_of_held_keys() {
    assert!(step_eq(next_step(true, 0, 0xff), KeyStep::Nothing));
    assert!(step_eq(next_step(true, KEYS_UP, 0), KeyStep::Move(Direction::Above)));
    assert!(step_eq(next_step(true, KEYS_DOWN, 0), KeyStep::Move(Direction::Below)));
    assert!(step_eq(next_step(true, KEYS_LEFT, 0), KeyStep::Move(Direction::Left)));
    assert!(step_eq(next_step(true, KEYS_RIGHT, 0), KeyStep::Move(Direction::Right)));
    assert!(step_eq(
        next_step(true, KEYS_UP | KEYS_SHIFT | KEYS_EDIT, 0),
        KeyStep::Navigate(Direction::Above)
    ));
    assert!(step_eq(
        next_step(true, KEYS_RIGHT | KEYS_SHIFT, 0),
        KeyStep::Navigate(Direction::Right)
    ));
    assert!(step_eq(next_step(true, KEYS_UP | KEYS_EDIT, 0), KeyStep::Edit(Edit::Next(true))));
    assert!(step_eq(next_step(true, KEYS_DOWN | KEYS_EDIT, 0), KeyStep::Edit(Edit::Prev(true))));
    assert!(step_eq(next_step(true, KEYS_LEFT | KEYS_EDIT, 0), KeyStep::Edit(Edit::Prev(false))));
    assert!(step_eq(
        next_step(true, KEYS_RIGHT | KEYS_EDIT, 0),
        KeyStep::Edit(Edit::Next(false))
    ));
    assert!(step_eq(next_step(true, KEYS_UP | KEYS_DOWN, 0), KeyStep::Move(Direction::Above)));
    assert!(step_eq(next_step(true, KEYS_EDIT, 0), KeyStep::Press(Edit::Click)));
    assert!(step_eq(next_step(true, KEYS_EDIT | KEYS_OPTION, 0), KeyStep::Press(Edit::Reset)));
    assert!(step_eq(next_step(true, KEYS_OPTION | KEYS_PLAY | KEYS_SHIFT, 0), KeyStep::Nothing));
    assert!(step_eq(next_step(false, 0xff, 0), KeyStep::Nothing));
    assert!(step_eq(next_step(false, 0, KEY_OCT_DEC | KEY_OCT_INC), KeyStep::OctaveDown));
    assert!(step_eq(next_step(false, 0, KEY_OCT_INC | KEY_VEL_DEC), KeyStep::OctaveUp));
    assert!(step_eq(next_step(false, 0, KEY_VEL_DEC), KeyStep::VelocityDown(false)));
    assert!(step_eq(next_step(false, 0, KEY_VEL_DEC | KEY_FAST), KeyStep::VelocityDown(true)));
    assert!(step_eq(next_step(false, 0, KEY_VEL_INC), KeyStep::VelocityUp(false)));
    assert!(step_eq(next_step(false, 0, KEY_VEL_INC | KEY_FAST), KeyStep::VelocityUp(true)));
    assert!(step_eq(next_step(false, 0, KEY_JAZZ), KeyStep::ToggleKeyjazz));
    assert!(step_eq(next_step(false, 0, KEY_FAST), KeyStep::Nothing));
}

#[test]
fn held_keys_of_the_host_act_on_the_session() {
    let mut app = app();
    let mut m8 = M8::new();
    app.keys.set(KEY_OCT_INC);
    app.process_key(&mut m8, false, None);
    assert_eq!(m8.octave.get(), 3);
    assert_eq!(app.keys.get(), 0);
    assert!(app.keys.changed());
    app.keys.set(KEY_OCT_INC);
    app.process_key(&mut m8, true, None);
    assert_eq!(m8.octave.get(), 4);
    assert_eq!(app.keys.get(), 0);
    app.keys.set(KEY_OCT_DEC);
    app.process_key(&mut m8, true, None);
    assert_eq!(m8.octave.get(), 3);
    app.keys.set(KEY_VEL_INC | KEY_FAST);
    app.process_key(&mut m8, true, None);
    assert_eq!(m8.velocity.get(), 116);
    app.keys.set(KEY_VEL_DEC);
    app.process_key(&mut m8, true, None);
    assert_eq!(m8.velocity.get(), 115);
    app.keys.set(KEY_JAZZ);
    app.process_key(&mut m8, true, None);
    assert!(m8.keyjazz.get());
    assert!(m8.keyjazz.changed());
    // the keys of the device do nothing outside the menu
    m8.keys.set(KEYS_UP | KEYS_EDIT);
    app.process_key(&mut m8, true, None);
    assert_eq!(m8.keys.get(), KEYS_UP | KEYS_EDIT);
    assert_eq!(app.action, Action::Idle);
}

#[test]
fn held_keys_of_the_device_act_on_the_menu() {
    let mut app = app();
    let mut m8 = M8::new();
    app.start_config_mode();
    assert_eq!(app.menu.page().cursor(), (0, 0));
    m8.keys.set(KEYS_DOWN);
    app.process_key(&mut m8, true, None);
    assert_eq!(app.menu.page().cursor(), (0, 1));
    assert_eq!(m8.keys.get(), KEYS_DOWN);
    app.process_key(&mut m8, false, None);
    assert_eq!(app.menu.page().cursor(), (0, 1));
    m8.keys.set(KEYS_UP | KEYS_EDIT);
    app.process_key(&mut m8, true, None);
    assert_eq!(int_from_item(app.menu.page().items(), 1), 6);
    assert_eq!(app.action, Action::Modified);
    m8.keys.set(KEYS_LEFT | KEYS_EDIT);
    app.process_key(&mut m8, true, None);
    assert_eq!(int_from_item(app.menu.page().items(), 1), 5);
    m8.keys.set(KEYS_UP | KEYS_SHIFT);
    app.process_key(&mut m8, true, None);
    assert_eq!(app.menu.page().short_name(), 'T');
    assert_eq!(m8.keys.get(), KEYS_SHIFT);
    m8.keys.set(KEYS_RIGHT | KEYS_SHIFT);
    app.process_key(&mut m8, true, None);
    assert_eq!(app.menu.page().short_name(), 'K');
    // the host's keys do nothing in the menu, and are let go
    app.keys.set(KEY_OCT_INC);
    m8.keys.set(0);
    app.process_key(&mut m8, true, None);
    assert_eq!(m8.octave.get(), 3);
    assert_eq!(app.keys.get(), 0);
}

#[test]
fn edit_key_presses_the_item() {
    let mut app = app();
    let mut m8 = M8::new();
    app.start_config_mode();
    // on a yes or no a click does nothing: the edit key stays held
    m8.keys.set(KEYS_EDIT | KEYS_PLAY);
    app.process_key(&mut m8, true, None);
    assert_eq!(app.action, Action::Idle);
    assert_eq!(m8.keys.get(), KEYS_EDIT | KEYS_PLAY);
    for _ in 0..9 {
        app.menu.cursor_move(Direction::Below);
    }
    assert_eq!(app.menu.page().cursor(), (0, 9));
    app.menu.cursor_move(Direction::Right);
    m8.keys.set(KEYS_EDIT | KEYS_PLAY);
    app.process_key(&mut m8, true, None);
    assert_eq!(app.action, Action::Do("SAVE"));
    assert_eq!(m8.keys.get(), KEYS_PLAY);
    // what was asked for first stays
    app.menu.cursor_move(Direction::Left);
    m8.keys.set(KEYS_EDIT);
    app.process_key(&mut m8, true, None);
    assert_eq!(app.action, Action::Do("SAVE"));
    assert_eq!(app.process_action(), Task::Save);
    assert_eq!(app.action, Action::Idle);
    assert_eq!(app.process_action(), Task::Nothing);
    // edit with option resets
    app.menu.page_mut().reset_cursor();
    app.menu.edit_item(Edit::Next(false), None);
    assert!(bool_from_item(app.menu.page().items(), 0));
    m8.keys.set(KEYS_EDIT | KEYS_OPTION);
    app.process_key(&mut m8, true, None);
    assert!(!bool_from_item(app.menu.page().items(), 0));
    assert_eq!(app.process_action(), Task::Modified);
    assert_eq!(m8.keys.get(), KEYS_OPTION);
}

#[test]
fn refresh_of_the_ports_is_looked_up() {
    let mut app = app();
    let mut m8 = M8::new();
    app.start_config_mode();
    for _ in 0..7 {
        app.menu.cursor_move(Direction::Below);
    }
    assert_eq!(app.menu.page().cursor(), (0, 7));
    m8.keys.set(KEYS_EDIT);
    assert_eq!(app.lookup(&m8), None);
    app.menu.cursor_move(Direction::Right);
    assert_eq!(app.lookup(&m8), Some(Lookup::Ports));
    m8.keys.set(KEYS_EDIT | KEYS_OPTION);
    assert_eq!(app.lookup(&m8), None);
    m8.keys.set(KEYS_UP);
    assert_eq!(app.lookup(&m8), None);
    m8.keys.set(KEYS_EDIT);
    app.process_key(&mut m8, true, Some(vec!["x".to_string()]));
    match &app.menu.page().items()[7] {
        Item::Input(_, Input::Device(d)) => assert_eq!(d.value(), Some("x")),
        _ => unreachable!(),
    }
    assert_eq!(app.action, Action::Modified);
    app.cancel_config_mode();
    assert_eq!(app.lookup(&m8), None);
}

#[test]
fn tasks_of_the_menu() {
    let mut app = app();
    for (action, task) in [
        (Action::Idle, Task::Nothing),
        (Action::Modified, Task::Modified),
        (Action::Do("SAVE"), Task::Save),
        (Action::Do("RESET"), Task::Reset),
        (Action::Do("REMAP"), Task::Remap),
        (Action::Do("OTHER"), Task::Unknown),
        (Action::Do("save"), Task::Unknown),
        (Action::Do(""), Task::Unknown),
    ] {
        app.action = action;
        assert_eq!(app.process_action(), task);
        assert_eq!(app.action, Action::Idle);
    }
}

#[test]
fn escape_leaves_one_thing_at_a_time() {
    let mut app = app();
    assert_eq!(app.escape_command(true), Escape::LeaveFullscreen);
    assert_eq!(app.escape_command(false), Escape::Quit);
    app.start_config_mode();
    app.menu.navigate(Direction::Right);
    app.start_remap();
    assert!(app.remap_mode());
    assert_eq!(app.escape_command(true), Escape::LeaveFullscreen);
    assert!(app.remap_mode());
    assert_eq!(app.escape_command(false), Escape::Refresh);
    assert!(!app.remap_mode());
    assert!(app.config_mode());
    assert_eq!(app.escape_command(false), Escape::Refresh);
    assert!(!app.config_mode());
    assert_eq!(app.escape_command(false), Escape::Quit);
}

#[test]
fn rebinding_through_the_app() {
    let mut app = app();
    assert!(!app.remap(Keycode(1)));
    app.cancel_remap_mode();
    app.start_config_mode();
    app.menu.navigate(Direction::Right);
    app.menu.navigate(Direction::Below);
    assert_eq!(app.menu.page().short_name(), 'R');
    app.start_remap();
    assert_eq!(app.menu.page().cursor(), (0, 0));
    assert!(!app.remap(Keycode(100)));
    for k in 100..104 {
        assert!(!app.remap(Keycode(k)));
        assert!(app.remap_mode());
    }
    assert!(app.remap(Keycode(104)));
    assert!(!app.remap_mode());
    let keys = rm8::menu_tools::rm8_keys_from_page(app.menu.page());
    assert_eq!(keys.keyjazz, Keycode(100));
    assert_eq!(keys.octave_plus, Keycode(104));
    assert_eq!(app.menu.page().cursor(), (0, 6));
    app.start_remap();
    app.remap(Keycode(1));
    assert_eq!(app.menu.page().cursor(), (0, 0));
    app.cancel_remap_mode();
    assert!(!app.remap_mode());
    assert_eq!(app.menu.page().cursor(), (0, 6));
}

#[test]
fn frames_are_counted() {
    let mut app = app();
    assert_eq!(app.render_fps(false), None);
    assert_eq!(app.fps_count, 0);
    app.config.app.show_fps = true;
    for _ in 0..299 {
        assert_eq!(app.render_fps(false), Some(12));
    }
    assert_eq!(app.render_fps(true), Some(60));
    assert_eq!(app.fps, 300);
    assert_eq!(app.fps_count, 0);
    assert_eq!(app.render_fps(true), Some(0));
    assert_eq!(app.fps, 1);
}

#[test]
fn modified_settings_are_taken_over() {
    let mut app = app();
    let none = Modified { zoom: None, open: None, keyjazz: None, joysticks: false };
    assert_eq!(App::new(Config::default(), None).action_modified(None), none);
    app.menu.take_changed();
    let page = app.menu.page_mut();
    page.edit_item(Edit::Next(false), None);
    page.cursor_move(Direction::Below);
    page.edit_item(Edit::Next(true), None);
    let r = app.action_modified(Some("a"));
    assert_eq!(
        r,
        Modified { zoom: Some(6), open: None, keyjazz: Some(true), joysticks: false }
    );
    assert!(app.config.app.fullscreen);
    assert_eq!(app.config.app.zoom, 6);
    assert!(app.menu.take_changed());
    assert_eq!(app.action_modified(None).open, Some("a".to_string()));
    assert_eq!(app.action_modified(Some("b")).open, Some("a".to_string()));
    assert_eq!(app.action_modified(Some("b")).zoom, None);
    app.config.overlap = true;
    assert_eq!(app.action_modified(Some("a")).keyjazz, Some(false));
}

#[test]
fn modified_pages_are_taken_over() {
    let mut app = app();
    let none = Modified { zoom: None, open: None, keyjazz: None, joysticks: false };
    app.menu.navigate(Direction::Above);
    app.menu.take_changed();
    app.menu.edit_item(Edit::Next(true), None);
    assert_eq!(app.action_modified(None), none);
    assert_eq!(app.config.theme.text_default, Rgb(0x9c, 0x8c, 0xba));
    assert_eq!(app.config.app, Config::default().app);
    assert!(app.menu.take_changed());
    app.menu.navigate(Direction::Right);
    app.menu.take_changed();
    rm8::menu_items::key_to_item(app.menu.page_mut().items_mut(), 0, Keycode(5));
    assert_eq!(app.action_modified(None), none);
    assert_eq!(app.config.m8.up, Keycode(5));
    assert!(!app.menu.take_changed());
    app.menu.navigate(Direction::Below);
    app.menu.take_changed();
    rm8::menu_items::key_to_item(app.menu.page_mut().items_mut(), 4, Keycode(6));
    assert_eq!(app.action_modified(None), none);
    assert_eq!(app.config.rm8.octave_plus, Keycode(6));
    assert!(!app.menu.take_changed());
    app.menu.navigate(Direction::Right);
    app.menu.take_changed();
    assert_eq!(
        app.action_modified(None),
        Modified { zoom: None, open: None, keyjazz: None, joysticks: true }
    );
    assert!(app.menu.take_changed());
}

#[test]
fn modified_bindings_are_taken_over() {
    let mut app = with_joystick();
    app.menu.navigate(Direction::Right);
    app.menu.navigate(Direction::Right);
    app.menu.navigate(Direction::Above);
    assert_eq!(app.menu.page().short_name(), 'A');
    app.menu.edit_item(Edit::Next(false), None);
    app.action_modified(None);
    assert_eq!(app.config.joysticks.len(), 2);
    let j = &app.config.joysticks[1].1;
    assert_eq!(j.axes.len(), 6);
    assert_eq!(j.axes[&0], Axis::new(Command::Up, Command::Unset, 20000));
    assert_eq!(j.buttons.len(), 1);
    assert!(j.hats.is_some());
    app.menu.navigate(Direction::Above);
    assert_eq!(app.menu.page().short_name(), 'B');
    app.menu.cursor_move(Direction::Right);
    app.menu.edit_item(Edit::Next(false), None);
    app.action_modified(None);
    let j = &app.config.joysticks[1].1;
    assert_eq!(j.buttons.len(), 20);
    assert_eq!(j.buttons[&10], Command::Up);
    assert_eq!(j.buttons[&2], Command::Unset);
    assert_eq!(j.axes.len(), 6);
    app.menu.main_page_reset();
    app.menu.navigate(Direction::Below);
    assert_eq!(app.menu.page().short_name(), 'H');
    app.menu.edit_item(Edit::Next(false), None);
    app.action_modified(None);
    assert_eq!(app.config.joysticks[1].1.hats.as_ref().unwrap()[&0].up, Command::Up);
    assert_eq!(app.config.joysticks[1].1.hats.as_ref().unwrap()[&0].down, Command::Unset);
    // a joystick without hats keeps what it has
    rm8::menu_items::str_to_label(app.menu.find_mut('J').unwrap().items_mut(), 7, "0");
    app.menu.edit_item(Edit::Next(false), None);
    app.action_modified(None);
    assert_eq!(app.config.joysticks[1].1.hats.as_ref().unwrap()[&0].up, Command::Up);
    // a joystick that the configuration does not hold is added
    rm8::menu_items::str_to_label(app.menu.find_mut('J').unwrap().items_mut(), 4, "GUID new");
    rm8::menu_items::str_to_label(app.menu.find_mut('J').unwrap().items_mut(), 7, "1");
    app.action_modified(None);
    assert_eq!(app.config.joysticks.len(), 3);
    assert_eq!(app.config.joysticks[2].0, "new");
    assert!(app.config.joysticks[2].1.buttons.is_empty());
    assert_eq!(app.config.joysticks[2].1.hats.as_ref().unwrap()[&0].up, Command::Down);
    // no joystick chosen: nothing is taken over
    rm8::menu_items::str_to_label(app.menu.find_mut('J').unwrap().items_mut(), 4, "GUID");
    app.menu.edit_item(Edit::Next(false), None);
    app.action_modified(None);
    assert_eq!(app.config.joysticks.len(), 3);
    assert_eq!(app.config.joysticks[2].1.hats.as_ref().unwrap()[&0].up, Command::Down);
}

#[test]
fn save_takes_the_hanging_pages_over() {
    let mut app = app();
    assert!(!App::new(Config::default(), None).action_save());
    app.menu.find_mut('C').unwrap().find_mut('T').unwrap().edit_item(Edit::Next(false), None);
    app.menu.edit_item(Edit::Next(false), None);
    assert!(app.action_save());
    assert_eq!(app.config.theme.text_default, Rgb(0x8d, 0x8c, 0xba));
    // the settings themselves are taken over when they change, not when saved
    assert!(!app.config.app.fullscreen);
    app.menu.navigate(Direction::Above);
    assert!(app.action_save());
    app.menu.navigate(Direction::Right);
    let r = app.menu.find_mut('K').unwrap().find_mut('R').unwrap();
    rm8::menu_items::key_to_item(r.items_mut(), 0, Keycode(77));
    assert!(app.action_save());
    assert_eq!(app.config.rm8.keyjazz, Keycode(77));
    app.menu.navigate(Direction::Below);
    assert!(app.action_save());
    app.menu.navigate(Direction::Right);
    assert_eq!(app.menu.page().short_name(), 'J');
    assert!(!app.action_save());
    assert!(app.config.joysticks.is_empty());
}

#[test]
fn save_of_the_joystick_pages() {
    let mut app = with_joystick();
    app.menu.navigate(Direction::Right);
    app.menu.navigate(Direction::Right);
    let j = app.menu.find_mut('J').unwrap();
    j.find_mut('B').unwrap().edit_item(Edit::Next(false), None);
    j.find_mut('A').unwrap().edit_item(Edit::Next(false), None);
    j.find_mut('H').unwrap().edit_item(Edit::Next(false), None);
    assert!(app.action_save());
    let cfg = &app.config.joysticks[1].1;
    assert_eq!(cfg.buttons[&0], Command::Up);
    assert_eq!(cfg.axes[&0].negative, Command::Up);
    assert_eq!(cfg.hats.as_ref().unwrap()[&0].up, Command::Up);
    for d in [Direction::Above, Direction::Above] {
        app.menu.navigate(d);
        assert!(app.action_save());
    }
    app.menu.main_page_reset();
    app.menu.navigate(Direction::Below);
    assert!(app.action_save());
    rm8::menu_items::str_to_label(app.menu.find_mut('J').unwrap().items_mut(), 7, "0");
    assert!(!app.action_save());
    app.menu.main_page_reset();
    app.config.joysticks[1].1.hats = None;
    assert!(app.action_save());
    assert!(app.config.joysticks[1].1.hats.is_none());
    rm8::menu_items::str_to_label(app.menu.find_mut('J').unwrap().items_mut(), 4, "GUID");
    assert!(!app.action_save());
    app.menu.navigate(Direction::Above);
    assert!(!app.action_save());
}

#[test]
fn reset_brings_the_settings_back() {
    let mut app = app();
    assert!(!App::new(Config::default(), None).action_reset(Config::default()));
    let mut loaded = Config::default();
    loaded.app.zoom = 2;
    loaded.app.font = Font::Lowercase;
    loaded.theme.screen = Rgb(9, 9, 9);
    loaded.m8.up = Keycode(3);
    loaded.rm8.keyjazz = Keycode(4);
    app.menu.take_changed();
    assert!(!app.action_reset(loaded.clone()));
    assert_eq!(app.config.app, loaded.app);
    assert_eq!(app.config.theme, Config::default().theme);
    assert_eq!(int_from_item(app.menu.page().items(), 1), 2);
    assert!(app.menu.take_changed());
    app.menu.navigate(Direction::Above);
    assert!(!app.action_reset(loaded.clone()));
    assert_eq!(app.config.theme, loaded.theme);
    assert_eq!(rgb_from_item(app.menu.page().items(), 5), Rgb(9, 9, 9));
    app.menu.navigate(Direction::Right);
    assert!(!app.action_reset(loaded.clone()));
    assert_eq!(app.config.m8, loaded.m8);
    assert_eq!(app.config.rm8, Config::default().rm8);
    assert_eq!(rm8::menu_items::key_from_item(app.menu.page().items(), 0), Keycode(3));
    app.menu.navigate(Direction::Below);
    assert!(!app.action_reset(loaded.clone()));
    assert_eq!(app.config.rm8, loaded.rm8);
    assert_eq!(rm8::menu_items::key_from_item(app.menu.page().items(), 0), Keycode(4));
    app.menu.navigate(Direction::Right);
    app.menu.take_changed();
    assert!(!app.action_reset(loaded));
    assert!(app.menu.take_changed());
}

#[test]
fn reset_brings_the_bindings_back() {
    let mut app = with_joystick();
    let mut loaded = Config::default();
    let mut other = JoystickConfig::default();
    other.buttons.insert(1, Command::Shift);
    other.axes.insert(0, Axis::new(Command::Up, Command::Down, 300));
    loaded.joysticks.push(("pad-1".to_string(), other));
    app.menu.navigate(Direction::Right);
    app.menu.navigate(Direction::Right);
    assert!(app.action_reset(loaded.clone()));
    assert_eq!(app.config.joysticks[1].1.buttons.len(), 1);
    assert_eq!(app.config.joysticks[1].1.buttons[&1], Command::Shift);
    assert!(app.config.joysticks[1].1.hats.is_none());
    app.config.joysticks[1].1 = bindings();
    app.menu.navigate(Direction::Above);
    assert!(!app.action_reset(loaded.clone()));
    assert_eq!(app.config.joysticks[1].1.axes.len(), 1);
    assert_eq!(app.config.joysticks[1].1.axes[&0].sensibility, 300);
    assert_eq!(app.config.joysticks[1].1.buttons[&2], Command::Play);
    assert_eq!(axes_from_page(app.menu.page())[&0], Axis::new(Command::Up, Command::Down, 300));
    app.menu.navigate(Direction::Above);
    assert!(!app.action_reset(loaded.clone()));
    assert_eq!(app.config.joysticks[1].1.buttons.len(), 1);
    assert_eq!(buttons_from_page(app.menu.page())[&1], Command::Shift);
    app.menu.main_page_reset();
    app.menu.navigate(Direction::Below);
    assert!(!app.action_reset(loaded.clone()));
    assert!(app.config.joysticks[1].1.hats.is_none());
    assert_eq!(hats_from_page(app.menu.page())[&0], HatConfig::default());
    // where the configuration read holds no such joystick the page is cleared
    app.config.joysticks[1].1 = bindings();
    rm8::menu_tools::update_hats_page(app.menu.page_mut(), &bindings());
    assert!(!app.action_reset(Config::default()));
    assert_eq!(hats_from_page(app.menu.page())[&0], HatConfig::default());
    assert!(app.config.joysticks[1].1.hats.is_some());
    app.menu.main_page_reset();
    assert!(!app.action_reset(Config::default()));
    assert!(app.config.joysticks[1].1.hats.is_some());
}

#[test]
fn joystick_pages_are_swapped() {
    let mut app = app();
    app.menu.take_changed();
    assert_eq!(app.menu.find('J').unwrap().items().len(), 1);
    app.joystick_added(false);
    assert_eq!(app.menu.find('J').unwrap().items().len(), 1);
    assert!(!app.menu.take_changed());
    app.joystick_added(true);
    assert_eq!(app.menu.find('J').unwrap().items().len(), 10);
    assert_eq!(app.menu.find('J').unwrap().cursor(), (0, 1));
    assert_eq!(app.joystick_page.as_ref().unwrap().items().len(), 1);
    assert!(!app.menu.take_changed());
    app.menu.navigate(Direction::Right);
    app.menu.navigate(Direction::Right);
    app.menu.navigate(Direction::Above);
    app.menu.take_changed();
    app.joystick_added(false);
    assert!(app.menu.take_changed());
    assert_eq!(app.menu.page().short_name(), 'A');
    app.joystick_removed(false);
    assert!(app.menu.take_changed());
    assert_eq!(app.menu.page().short_name(), 'J');
    assert_eq!(app.menu.page().items().len(), 10);
    app.menu.navigate(Direction::Above);
    app.joystick_removed(true);
    assert_eq!(app.menu.page().short_name(), 'J');
    assert_eq!(app.menu.page().items().len(), 1);
    assert_eq!(app.joystick_page.as_ref().unwrap().items().len(), 10);
    app.menu.navigate(Direction::Left);
    app.menu.take_changed();
    app.joystick_removed(false);
    assert!(!app.menu.take_changed());
    let mut none = App::new(Config::default(), None);
    none.joystick_added(true);
    none.joystick_removed(true);
    assert!(none.joystick_page.is_none());
}
