use rm8::config::Config;
use rm8::config_command::Command;
use rm8::config_font::Font;
use rm8::config_joystick::{Axis, HatConfig, JoystickConfig};
use rm8::config_keycode::Keycode;
use rm8::config_rgb::Rgb;
use rm8::menu::{build_joystick_page, build_menu};
use rm8::menu_items::{
    bool_from_item, bool_to_item, cmd_from_item, cmd_to_item, decimal, font_from_item,
    font_to_item, int_from_item, int_to_item, key_from_item, key_to_item, pair_to_item,
    rgb_from_item, rgb_to_item, str_to_label, usize_to_label,
};
use rm8::menu_tools::{
    app_from_page, app_to_page, axes_from_page, buttons_from_page, clear_axes_page,
    clear_buttons_page, clear_hats_page, clear_joystick_subpages, count_joysticks,
    fill_joystick_page, find_joystick, hats_from_page, joystick_has_hats, m8_keys_from_page,
    m8_to_page, rm8_keys_from_page, rm8_to_page, selected_joystick_config,
    selected_joystick_guid, selected_joystick_id, theme_from_page, theme_to_page,
    update_axes_page, update_buttons_page, update_hats_page, update_joystick_page,
    update_joystick_pages, update_joystick_subpages, JoystickInfo,
};
use rm8::nav::Navigation;
use rm8::nav_item::{Input, Item};
use rm8::nav_page::Page;
use std::collections::HashMap;

fn built() -> Navigation {
    let mut menu = Navigation::new();
    let config = Config::default();
    build_menu(
        &mut menu,
        &config,
        vec!["/dev/ttyACM0".to_string(), "/dev/ttyACM1".to_string()],
        Some("/dev/ttyACM1".to_string()),
    );
    menu
}

fn labels(page: &Page) -> Vec<String> {
    page.items()
        .iter()
        .map(|item| match item {
            Item::Empty => "".to_string(),
            Item::Text(t) => t.clone(),
            Item::Label(l, _) | Item::Label2(l, _) | Item::Input(l, _) => l.clone(),
            Item::Title2(a, b, _) => format!("{}|{}", a, b),
            Item::Action2(a, b) => format!("{}|{}", a, b),
            Item::Action3(a, b, c) => format!("{}|{}|{}", a, b, c),
        })
        .collect()
}

#[test]
fn menu_has_its_main_pages() {
    let menu = built();
    let c = menu.find('C').unwrap();
    assert_eq!(c.name(), "CONFIG");
    assert_eq!(
        labels(c),
        vec![
            "FULLSCREEN",
            "ZOOM",
            "FONT",
            "KEY SENS.",
            "SHOW_FPS",
            "FPS",
            "RECONNECT",
            "DEVICE",
            "",
            "RESET|SAVE"
        ]
    );
    assert_eq!(c.pad(), 10);
    assert_eq!(c.cursor(), (0, 0));
    assert_eq!(c.above().len(), 1);
    assert!(c.below().is_empty());
    let t = &c.above()[0];
    assert_eq!(t.name(), "THEME");
    assert_eq!(t.short_name(), 'T');
    assert_eq!(
        labels(t),
        vec![
            "TEXT:DEFAULT",
            "TEXT:VALUE",
            "TEXT:TITLE",
            "TEXT:INFO",
            "CURSOR",
            "SCREEN",
            "VELOCITY FG",
            "VELOCITY BG",
            "OCTAVE FG",
            "OCTAVE BG",
            "",
            "RESET|SAVE"
        ]
    );
    let k = menu.find('K').unwrap();
    assert_eq!(k.name(), "M8 KEYS");
    assert_eq!(
        labels(k),
        vec!["UP", "DOWN", "LEFT", "RIGHT", "EDIT", "OPTION", "SHIFT", "PLAY", "", "REMAP|RESET|SAVE"]
    );
    // key bindings take the cursor only while they wait for a key
    assert_eq!(k.cursor(), (0, 9));
    assert_eq!(k.below().len(), 1);
    let r = &k.below()[0];
    assert_eq!(r.name(), "RM8 KEYS");
    assert_eq!(
        labels(r),
        vec!["KEYJAZZ", "VELOCITY-", "VELOCITY+", "OCTAVE-", "OCTAVE+", "", "REMAP|RESET|SAVE"]
    );
    let j = menu.find('J').unwrap();
    assert_eq!(j.items(), &vec![Item::Label2("N.JOYSTICKS".to_string(), "0".to_string())]);
    assert!(menu.has_page());
    assert_eq!(menu.page().short_name(), 'C');
}

#[test]
fn menu_shows_the_configuration() {
    let menu = built();
    let config = Config::default();
    let c = menu.find('C').unwrap();
    assert_eq!(app_from_page(c), config.app);
    match &c.items()[7] {
        Item::Input(_, Input::Device(d)) => assert_eq!(d.value(), Some("/dev/ttyACM1")),
        _ => unreachable!(),
    }
    assert_eq!(theme_from_page(&c.above()[0]), config.theme);
    let k = menu.find('K').unwrap();
    assert_eq!(m8_keys_from_page(k), config.m8);
    assert_eq!(rm8_keys_from_page(&k.below()[0]), config.rm8);
}

#[test]
fn joystick_page_has_its_pages() {
    let j = build_joystick_page().unwrap();
    assert_eq!(j.name(), "JOYSTICK");
    assert_eq!(j.short_name(), 'J');
    assert_eq!(
        labels(&j),
        vec![
            "N.JOYSTICKS",
            "SEL.ID",
            "",
            "",
            "GUID",
            "N.AXES",
            "N.BUTTONS",
            "N.HATS",
            "",
            "RESET|SAVE"
        ]
    );
    assert_eq!(j.above().len(), 2);
    assert_eq!(j.below().len(), 1);
    let a = j.find('A').unwrap();
    assert_eq!(a.name(), "AXES");
    assert_eq!(a.items().len(), 15);
    assert_eq!(a.items()[0], Item::Title2("NEG.".to_string(), "POS.".to_string(), 9));
    assert_eq!(
        a.items()[1],
        Item::Input("AXIS 0".to_string(), Input::Command2(Command::Unset, Command::Unset))
    );
    assert_eq!(int_from_item(a.items(), 2), 20000);
    assert_eq!(labels(a)[11], "AXIS 5");
    assert_eq!(labels(a)[12], "AXIS 5 SENS.");
    assert_eq!(a.cursor(), (0, 1));
    let b = j.find('B').unwrap();
    assert_eq!(b.name(), "BUTTONS");
    assert_eq!(b.items().len(), 12);
    assert_eq!(
        b.items()[9],
        Item::Input(
            "B.9".to_string(),
            Input::CommandLabel2(Command::Unset, "B.19".to_string(), 4, Command::Unset)
        )
    );
    let h = j.find('H').unwrap();
    assert_eq!(h.name(), "HAT");
    assert_eq!(
        labels(h),
        vec![
            "UP",
            "DOWN",
            "LEFT",
            "RIGHT",
            "UP LEFT",
            "UP RIGHT",
            "DOWN LEFT",
            "DOWN RIGHT",
            "",
            "RESET|SAVE"
        ]
    );
}

#[test]
fn decimal_digits() {
    assert_eq!(decimal(0), "0");
    assert_eq!(decimal(7), "7");
    assert_eq!(decimal(10), "10");
    assert_eq!(decimal(32767), "32767");
    assert_eq!(decimal(1000000), "1000000");
    assert_eq!(decimal(usize::MAX), usize::MAX.to_string());
    for n in 0..2000usize {
        assert_eq!(decimal(n), n.to_string());
    }
}

#[test]
fn item_values_are_read_and_written_by_row() {
    let mut p = Page::new("P", 'P');
    p.add_cmd("C", Command::Up); // 0
    p.add_int("I", 5, 1, 9, 1); // 1
    p.add_font("F", Font::Lowercase); // 2
    p.add_bool("B", true); // 3
    p.add_rgb("R", Rgb(1, 2, 3)); // 4
    p.add_key("K", Keycode(9)); // 5
    p.add_cmd2("C2", Command::Up, Command::Down); // 6
    p.add_info("L", "V"); // 7
    p.add_title("T"); // 8
    p.add_text("X"); // 9
    let items = p.items_mut();
    assert_eq!(cmd_from_item(items, 0), Command::Up);
    assert_eq!(int_from_item(items, 1), 5);
    assert_eq!(font_from_item(items, 2), Font::Lowercase);
    assert!(bool_from_item(items, 3));
    assert_eq!(rgb_from_item(items, 4), Rgb(1, 2, 3));
    assert_eq!(key_from_item(items, 5), Keycode(9));
    // rows of another kind, and rows that are not there, give the fallback
    assert_eq!(cmd_from_item(items, 1), Command::Unset);
    assert_eq!(cmd_from_item(items, 99), Command::Unset);
    assert_eq!(int_from_item(items, 0), 0);
    assert_eq!(int_from_item(items, 99), 0);
    assert_eq!(font_from_item(items, 0), Font::Uppercase);
    assert!(!bool_from_item(items, 0));
    assert_eq!(rgb_from_item(items, 0), Rgb(0, 0, 0));
    assert_eq!(key_from_item(items, 0), Keycode(1073741926));
    assert_eq!(key_from_item(items, 99), Keycode(1073741926));

    cmd_to_item(items, 0, Command::Play);
    int_to_item(items, 1, 9);
    font_to_item(items, 2, Font::UpperAltZero);
    bool_to_item(items, 3, false);
    rgb_to_item(items, 4, Rgb(9, 8, 7));
    key_to_item(items, 5, Keycode(77));
    pair_to_item(items, 6, Command::Left, Command::Right);
    str_to_label(items, 7, "W");
    str_to_label(items, 8, "U");
    usize_to_label(items, 9, 42);
    assert_eq!(cmd_from_item(items, 0), Command::Play);
    assert_eq!(int_from_item(items, 1), 9);
    assert_eq!(font_from_item(items, 2), Font::UpperAltZero);
    assert!(!bool_from_item(items, 3));
    assert_eq!(rgb_from_item(items, 4), Rgb(9, 8, 7));
    assert_eq!(key_from_item(items, 5), Keycode(77));
    assert_eq!(
        items[6],
        Item::Input("C2".to_string(), Input::Command2(Command::Left, Command::Right))
    );
    assert_eq!(items[7], Item::Label2("L".to_string(), "W".to_string()));
    assert_eq!(items[8], Item::Label("U".to_string(), true));
    assert_eq!(items[9], Item::Text("42".to_string()));

    // a number outside the bounds is not taken, and rows of another kind stay
    int_to_item(items, 1, 10);
    assert_eq!(int_from_item(items, 1), 9);
    let before = format!("{:?}", items);
    cmd_to_item(items, 1, Command::Up);
    int_to_item(items, 0, 3);
    font_to_item(items, 0, Font::Lowercase);
    bool_to_item(items, 0, true);
    rgb_to_item(items, 0, Rgb(1, 1, 1));
    key_to_item(items, 0, Keycode(1));
    pair_to_item(items, 0, Command::Up, Command::Up);
    str_to_label(items, 0, "Z");
    usize_to_label(items, 1, 3);
    cmd_to_item(items, 99, Command::Up);
    str_to_label(items, 99, "Z");
    assert_eq!(format!("{:?}", items), before);
}

#[test]
fn theme_goes_to_the_page_and_back() {
    let menu = built();
    let mut config = Config::default();
    config.theme.screen = Rgb(1, 2, 3);
    config.theme.octave_bg = Rgb(4, 5, 6);
    config.theme.text_default = Rgb(7, 8, 9);
    let mut page = Page::new("THEME", 'T');
    for item in labels(&menu.find('C').unwrap().above()[0]).iter().take(10) {
        page.add_rgb(item, Rgb(0, 0, 0));
    }
    theme_to_page(&mut page, &config);
    assert_eq!(theme_from_page(&page), config.theme);
    assert_eq!(rgb_from_item(page.items(), 0), Rgb(7, 8, 9));
    assert_eq!(rgb_from_item(page.items(), 5), Rgb(1, 2, 3));
    assert_eq!(rgb_from_item(page.items(), 9), Rgb(4, 5, 6));
}

#[test]
fn settings_go_to_the_page_and_back() {
    let mut menu = built();
    let mut config = Config::default();
    config.app.fullscreen = true;
    config.app.zoom = 7;
    config.app.font = Font::LowerAltZero;
    config.app.key_sensibility = 150;
    config.app.show_fps = true;
    config.app.fps = 120;
    config.app.reconnect = true;
    let page = menu.find_mut('C').unwrap();
    app_to_page(page, &config);
    assert_eq!(app_from_page(page), config.app);
    // values outside the bounds of their rows stay as they are
    config.app.zoom = 10;
    config.app.key_sensibility = 59;
    config.app.fps = 0;
    app_to_page(page, &config);
    let back = app_from_page(page);
    assert_eq!(back.zoom, 7);
    assert_eq!(back.key_sensibility, 150);
    assert_eq!(back.fps, 120);
    assert_eq!(app_from_page(&Page::new("E", 'E')), {
        let mut empty = Config::default().app;
        empty.zoom = 0;
        empty.key_sensibility = 0;
        empty.fps = 0;
        empty
    });
}

#[test]
fn keys_go_to_the_page_and_back() {
    let mut menu = built();
    let mut config = Config::default();
    config.m8.up = Keycode(1);
    config.m8.play = Keycode(8);
    config.rm8.keyjazz = Keycode(11);
    config.rm8.octave_plus = Keycode(15);
    let k = menu.find_mut('K').unwrap();
    m8_to_page(k, &config);
    assert_eq!(m8_keys_from_page(k), config.m8);
    let r = k.find_mut('R').unwrap();
    rm8_to_page(r, &config);
    assert_eq!(rm8_keys_from_page(r), config.rm8);
    let empty = Page::new("E", 'E');
    assert_eq!(m8_keys_from_page(&empty).up, Keycode(1073741926));
    assert_eq!(rm8_keys_from_page(&empty).octave_plus, Keycode(1073741926));
}

fn joystick() -> JoystickConfig {
    let mut j = JoystickConfig::default();
    j.buttons.insert(0, Command::Edit);
    j.buttons.insert(3, Command::Play);
    j.buttons.insert(10, Command::Shift);
    j.buttons.insert(19, Command::Opt);
    j.buttons.insert(200, Command::Up);
    j.axes.insert(0, Axis::new(Command::Left, Command::Right, 1000));
    j.axes.insert(5, Axis::new(Command::Up, Command::Down, 32767));
    j.axes.insert(3, Axis::new(Command::Unset, Command::Play, 40000));
    let mut hats = HashMap::new();
    hats.insert(
        0,
        HatConfig {
            up: Command::Up,
            down: Command::Down,
            left: Command::Left,
            right: Command::Right,
            left_up: Command::Edit,
            right_up: Command::Opt,
            left_down: Command::Shift,
            right_down: Command::Play,
        },
    );
    j.hats = Some(hats);
    j
}

#[test]
fn buttons_go_to_the_page_and_back() {
    let mut j = build_joystick_page().unwrap();
    let page = j.find_mut('B').unwrap();
    update_buttons_page(page, &joystick());
    assert_eq!(
        page.items()[0],
        Item::Input(
            "B.0".to_string(),
            Input::CommandLabel2(Command::Edit, "B.10".to_string(), 4, Command::Shift)
        )
    );
    assert_eq!(
        page.items()[3],
        Item::Input(
            "B.3".to_string(),
            Input::CommandLabel2(Command::Play, "B.13".to_string(), 4, Command::Unset)
        )
    );
    assert_eq!(
        page.items()[9],
        Item::Input(
            "B.9".to_string(),
            Input::CommandLabel2(Command::Unset, "B.19".to_string(), 4, Command::Opt)
        )
    );
    let back = buttons_from_page(page);
    assert_eq!(back.len(), 20);
    for k in 0..20u8 {
        assert_eq!(back[&k], *joystick().buttons.get(&k).unwrap_or(&Command::Unset));
    }
    clear_buttons_page(page);
    assert!(buttons_from_page(page).values().all(|c| c.is_none()));
    assert_eq!(buttons_from_page(page).len(), 20);
    assert!(buttons_from_page(&Page::new("E", 'E')).is_empty());
}

#[test]
fn axes_go_to_the_page_and_back() {
    let mut j = build_joystick_page().unwrap();
    let page = j.find_mut('A').unwrap();
    update_axes_page(page, &joystick());
    assert_eq!(
        page.items()[1],
        Item::Input("AXIS 0".to_string(), Input::Command2(Command::Left, Command::Right))
    );
    assert_eq!(int_from_item(page.items(), 2), 1000);
    assert_eq!(
        page.items()[3],
        Item::Input("AXIS 1".to_string(), Input::Command2(Command::Unset, Command::Unset))
    );
    assert_eq!(int_from_item(page.items(), 4), 0);
    assert_eq!(
        page.items()[7],
        Item::Input("AXIS 3".to_string(), Input::Command2(Command::Unset, Command::Play))
    );
    // a threshold beyond the bounds of the row is not shown
    assert_eq!(int_from_item(page.items(), 8), 0);
    assert_eq!(int_from_item(page.items(), 12), 32767);
    let back = axes_from_page(page);
    assert_eq!(back.len(), 6);
    assert_eq!(back[&0], Axis::new(Command::Left, Command::Right, 1000));
    assert_eq!(back[&1], Axis::new(Command::Unset, Command::Unset, 0));
    assert_eq!(back[&3], Axis::new(Command::Unset, Command::Play, 0));
    assert_eq!(back[&5], Axis::new(Command::Up, Command::Down, 32767));
    clear_axes_page(page);
    let cleared = axes_from_page(page);
    assert_eq!(cleared.len(), 6);
    assert!(cleared.values().all(|a| a.is_unset()));
    assert_eq!(page.items()[0], Item::Title2("NEG.".to_string(), "POS.".to_string(), 9));
    assert!(axes_from_page(&Page::new("E", 'E')).is_empty());
}

#[test]
fn axes_are_read_from_any_page() {
    let mut p = Page::new("P", 'P');
    p.add_int("HEAD", 9, 0, 99, 1); // the first row is the heading
    p.add_int("A", 1, 0, 99, 1); // 1 -> axis 0 of nothing seen
    p.add_cmd2("B", Command::Up, Command::Down); // 2
    p.add_cmd2("C", Command::Left, Command::Right); // 3
    p.add_empty(); // 4
    p.add_int("D", 2, 0, 99, 1); // 5 -> axis 2 of the pair seen last
    p.add_int("E", 3, 0, 99, 1); // 6 -> axis 2 again
    let axes = axes_from_page(&p);
    assert_eq!(axes.len(), 2);
    assert_eq!(axes[&0], Axis::new(Command::Unset, Command::Unset, 1));
    assert_eq!(axes[&2], Axis::new(Command::Left, Command::Right, 3));
}

#[test]
fn hats_go_to_the_page_and_back() {
    let mut j = build_joystick_page().unwrap();
    let page = j.find_mut('H').unwrap();
    update_hats_page(page, &joystick());
    let expected = [
        Command::Up,
        Command::Down,
        Command::Left,
        Command::Right,
        Command::Edit,
        Command::Opt,
        Command::Shift,
        Command::Play,
    ];
    for (i, c) in expected.iter().enumerate() {
        assert_eq!(cmd_from_item(page.items(), i), *c);
    }
    let back = hats_from_page(page);
    assert_eq!(back.len(), 1);
    assert_eq!(back[&0], joystick().hats.unwrap()[&0]);
    update_hats_page(page, &JoystickConfig::default());
    assert_eq!(hats_from_page(page)[&0], HatConfig::default());
    update_hats_page(page, &joystick());
    clear_hats_page(page);
    assert_eq!(hats_from_page(page)[&0], HatConfig::default());
    let mut other = joystick();
    other.hats = Some(HashMap::new());
    update_hats_page(page, &joystick());
    update_hats_page(page, &other);
    assert_eq!(hats_from_page(page)[&0], HatConfig::default());
}

fn info() -> JoystickInfo {
    JoystickInfo {
        guid: "030000005e0400008e02".to_string(),
        name: "Pad".to_string(),
        axes: 6,
        buttons: 11,
        hats: 1,
    }
}

#[test]
fn joystick_page_shows_the_joystick_chosen() {
    let mut page = build_joystick_page().unwrap();
    assert_eq!(selected_joystick_id(&page), 0);
    assert!(!joystick_has_hats(&page));
    assert_eq!(update_joystick_page(&mut page, 3), 0);
    assert_eq!(page.items()[0], Item::Label2("N.JOYSTICKS".to_string(), "3".to_string()));
    page.reset_cursor();
    page.edit_item(rm8::nav_item::Edit::Next(false), None);
    page.edit_item(rm8::nav_item::Edit::Next(false), None);
    assert_eq!(selected_joystick_id(&page), 2);
    page.edit_item(rm8::nav_item::Edit::Next(false), None);
    assert_eq!(selected_joystick_id(&page), 2);
    assert_eq!(update_joystick_page(&mut page, 2), 1);
    assert_eq!(selected_joystick_id(&page), 1);
    assert_eq!(update_joystick_page(&mut page, 0), 1);
    fill_joystick_page(&mut page, &info());
    assert_eq!(page.items()[3], Item::Label("Pad".to_string(), true));
    assert_eq!(page.items()[4], Item::Text("GUID 030000005e0400008e02".to_string()));
    assert_eq!(page.items()[5], Item::Label2("N.AXES".to_string(), "6".to_string()));
    assert_eq!(page.items()[6], Item::Label2("N.BUTTONS".to_string(), "11".to_string()));
    assert_eq!(page.items()[7], Item::Label2("N.HATS".to_string(), "1".to_string()));
    assert!(joystick_has_hats(&page));
    let mut none = info();
    none.hats = 0;
    fill_joystick_page(&mut page, &none);
    assert!(!joystick_has_hats(&page));
    assert!(!joystick_has_hats(&Page::new("E", 'E')));
}

#[test]
fn joystick_chosen_is_found_by_its_identifier() {
    let mut menu = built();
    let mut config = Config::default();
    assert_eq!(selected_joystick_guid(&menu), None);
    menu.replace('J', build_joystick_page().unwrap());
    // "GUID" alone names no joystick
    assert_eq!(selected_joystick_guid(&menu), None);
    assert!(selected_joystick_config(menu.find('J').unwrap(), &config).is_none());
    fill_joystick_page(menu.find_mut('J').unwrap(), &info());
    assert_eq!(selected_joystick_guid(&menu), Some("030000005e0400008e02"));
    assert!(selected_joystick_config(menu.find('J').unwrap(), &config).is_none());
    config.joysticks.push(("other".to_string(), JoystickConfig::default()));
    config.joysticks.push(("030000005e0400008e02".to_string(), joystick()));
    assert_eq!(find_joystick(&config.joysticks, "other"), Some(0));
    assert_eq!(find_joystick(&config.joysticks, "030000005e0400008e02"), Some(1));
    assert_eq!(find_joystick(&config.joysticks, "none"), None);
    let found = selected_joystick_config(menu.find('J').unwrap(), &config).unwrap();
    assert_eq!(found.buttons.len(), 5);
    // a text that is cut within a character names no joystick
    str_to_label(menu.find_mut('J').unwrap().items_mut(), 4, "GUIDé123");
    assert_eq!(selected_joystick_guid(&menu), None);
    str_to_label(menu.find_mut('J').unwrap().items_mut(), 4, "GUID ");
    assert_eq!(selected_joystick_guid(&menu), None);
    str_to_label(menu.find_mut('J').unwrap().items_mut(), 4, "GUID é");
    assert_eq!(selected_joystick_guid(&menu), Some("é"));
}

#[test]
fn joystick_pages_are_updated_together() {
    let mut menu = built();
    let mut config = Config::default();
    config.joysticks.push(("030000005e0400008e02".to_string(), joystick()));
    assert_eq!(count_joysticks(&mut menu, 1), Some(0));
    assert_eq!(
        menu.find('J').unwrap().items()[0],
        Item::Label2("N.JOYSTICKS".to_string(), "1".to_string())
    );
    menu.replace('J', build_joystick_page().unwrap());
    assert_eq!(count_joysticks(&mut menu, 2), Some(0));
    update_joystick_pages(&mut menu, Some(&info()), &config);
    let j = menu.find('J').unwrap();
    assert_eq!(j.items()[3], Item::Label("Pad".to_string(), true));
    assert_eq!(buttons_from_page(j.find('B').unwrap())[&3], Command::Play);
    assert_eq!(axes_from_page(j.find('A').unwrap())[&0].sensibility, 1000);
    assert_eq!(hats_from_page(j.find('H').unwrap())[&0].up, Command::Up);
    // a joystick without bindings leaves the pages as they are
    let mut other = info();
    other.guid = "unknown".to_string();
    update_joystick_pages(&mut menu, Some(&other), &config);
    let j = menu.find('J').unwrap();
    assert_eq!(j.items()[4], Item::Text("GUID unknown".to_string()));
    assert_eq!(buttons_from_page(j.find('B').unwrap())[&3], Command::Play);
    update_joystick_subpages(menu.find_mut('J').unwrap(), &JoystickConfig::default());
    let j = menu.find('J').unwrap();
    assert!(buttons_from_page(j.find('B').unwrap()).values().all(|c| c.is_none()));
    assert!(axes_from_page(j.find('A').unwrap()).values().all(|a| a.is_unset()));
    assert_eq!(hats_from_page(j.find('H').unwrap())[&0], HatConfig::default());
    let mut empty = Navigation::new();
    assert_eq!(count_joysticks(&mut empty, 1), None);
    update_joystick_pages(&mut empty, Some(&info()), &config);
    assert!(!empty.has_page());
}

#[test]
fn joystick_main_pages_are_cleared() {
    let mut menu = Navigation::new();
    let mut j = build_joystick_page().unwrap();
    update_joystick_subpages(&mut j, &joystick());
    let mut a = Page::new("AXES", 'A');
    a.add_title2("NEG.", "POS.", 9);
    a.add_cmd2("AXIS 0", Command::Up, Command::Down);
    a.add_int("AXIS 0 SENS.", 7, 0, 9, 1);
    let mut b = Page::new("BUTTONS", 'B');
    b.add_cmd_label2("B.0", Command::Up, "B.10", Command::Down, 4);
    let mut h = Page::new("HAT", 'H');
    h.add_cmd("UP", Command::Up);
    menu.add_page(j);
    menu.add_page(a);
    menu.add_page(b);
    menu.add_page(h);
    clear_joystick_subpages(&mut menu);
    assert_eq!(
        menu.find('A').unwrap().items()[1],
        Item::Input("AXIS 0".to_string(), Input::Command2(Command::Unset, Command::Unset))
    );
    assert_eq!(int_from_item(menu.find('A').unwrap().items(), 2), 0);
    assert_eq!(
        menu.find('B').unwrap().items()[0],
        Item::Input(
            "B.0".to_string(),
            Input::CommandLabel2(Command::Unset, "B.10".to_string(), 4, Command::Unset)
        )
    );
    assert_eq!(cmd_from_item(menu.find('H').unwrap().items(), 0), Command::Unset);
    // the pages that hang under the page of the joysticks are not main pages
    let j = menu.find('J').unwrap();
    assert_eq!(buttons_from_page(j.find('B').unwrap())[&3], Command::Play);
}
