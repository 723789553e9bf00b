use rm8::config_command::Command;
use rm8::config_font::Font;
use rm8::config_keycode::Keycode;
use rm8::config_rgb::Rgb;
use rm8::nav::Navigation;
use rm8::nav_item::{Action, Bool, Device, Direction, Edit, Input, Int, Item, Key, Lookup};
use rm8::nav_page::Page;

fn sample() -> Page {
    let mut p = Page::new("SAMPLE", 'S');
    p.add_title("TITLE"); // 0
    p.add_bool("FLAG", true); // 1
    p.add_empty(); // 2
    p.add_rgb("COLOUR", Rgb(1, 2, 3)); // 3
    p.add_info("INFO", "0"); // 4
    p.add_action2("RESET", "SAVE"); // 5
    p
}

#[test]
fn new_page_is_empty() {
    let p = Page::new("CONFIG", 'C');
    assert_eq!(p.name(), "CONFIG");
    assert_eq!(p.short_name(), 'C');
    assert!(p.items().is_empty());
    assert_eq!(p.pad(), 0);
    assert_eq!(p.cursor(), (0, 0));
    assert_eq!(p.cursor_rect(), (0, 0, 0, 0));
    assert!(p.above().is_empty());
    assert!(p.below().is_empty());
}

#[test]
fn add_item_grows_the_label_column() {
    let mut p = Page::new("P", 'P');
    p.add_empty();
    p.add_text("a long text that is no label");
    p.add_title2("LEFT", "RIGHT", 9);
    p.add_action2("RESET", "SAVE");
    p.add_action3("REMAP", "RESET", "SAVE");
    assert_eq!(p.pad(), 0);
    p.add_title("ABC");
    assert_eq!(p.pad(), 3);
    p.add_info("ABCDE", "a much longer value");
    assert_eq!(p.pad(), 5);
    p.add_bool("AB", false);
    assert_eq!(p.pad(), 5);
    p.add_int("ABCDEFG", 1, 0, 9, 1);
    assert_eq!(p.pad(), 7);
    p.add_text("é");
    p.add_title("éé");
    assert_eq!(p.pad(), 7);
    p.add_title("éééé");
    assert_eq!(p.pad(), 8);
    assert_eq!(p.items().len(), 12);
}

#[test]
fn builders_make_the_items() {
    let mut p = Page::new("P", 'P');
    p.add_bool("B", true);
    p.add_int("I", 4, 1, 9, 2);
    p.add_empty();
    p.add_title("T");
    p.add_text("X");
    p.add_font("F", Font::Lowercase);
    p.add_action2("A", "B");
    p.add_action3("A", "B", "C");
    p.add_rgb("R", Rgb(1, 2, 3));
    p.add_key("K", Keycode(7));
    p.add_info("L", "V");
    p.add_title2("L", "R", 9);
    p.add_cmd("C", Command::Up);
    p.add_cmd2("C2", Command::Up, Command::Down);
    p.add_cmd_label2("CL", Command::Left, "CR", Command::Right, 4);
    p.add_device("D", vec!["a".to_string(), "b".to_string()], Some("b".to_string()));
    p.add_audio("AU", vec!["x".to_string()], None);
    let expected = vec![
        Item::Input("B".to_string(), Input::Bool(Bool::new(true))),
        Item::Input("I".to_string(), Input::Int(Int::new(4, 1, 9, 2))),
        Item::Empty,
        Item::Label("T".to_string(), true),
        Item::Text("X".to_string()),
        Item::Input("F".to_string(), Input::Font(rm8::nav_item::Font::new(Font::Lowercase))),
        Item::Action2("A", "B"),
        Item::Action3("A", "B", "C"),
        Item::Input("R".to_string(), Input::Rgb(rm8::nav_item::Rgb::new(Rgb(1, 2, 3)))),
        Item::Input("K".to_string(), Input::Key(Key::new(Keycode(7)))),
        Item::Label2("L".to_string(), "V".to_string()),
        Item::Title2("L".to_string(), "R".to_string(), 9),
        Item::Input("C".to_string(), Input::Command(Command::Up)),
        Item::Input("C2".to_string(), Input::Command2(Command::Up, Command::Down)),
        Item::Input(
            "CL".to_string(),
            Input::CommandLabel2(Command::Left, "CR".to_string(), 4, Command::Right),
        ),
        Item::Input(
            "D".to_string(),
            Input::Device(Device::new(
                vec!["a".to_string(), "b".to_string()],
                Some("b".to_string()),
            )),
        ),
        Item::Input(
            "AU".to_string(),
            Input::Audio(rm8::nav_item::Audio::new(vec!["x".to_string()], None)),
        ),
    ];
    assert_eq!(p.items(), &expected);
}

#[test]
fn reset_cursor_goes_to_the_first_stop() {
    let mut p = sample();
    assert_eq!(p.cursor(), (0, 0));
    p.reset_cursor();
    assert_eq!(p.cursor(), (0, 1));
    p.cursor_move(Direction::Below);
    p.cursor_move(Direction::Right);
    assert_eq!(p.cursor(), (1, 3));
    p.reset_cursor();
    assert_eq!(p.cursor(), (0, 1));
    let mut plain = Page::new("P", 'P');
    plain.add_empty();
    plain.add_text("T");
    plain.reset_cursor();
    assert_eq!(plain.cursor(), (0, 0));
    let mut none = Page::new("P", 'P');
    none.reset_cursor();
    assert_eq!(none.cursor(), (0, 0));
}

#[test]
fn cursor_moves_skip_plain_lines() {
    let mut p = sample();
    p.reset_cursor();
    p.cursor_move(Direction::Above);
    assert_eq!(p.cursor(), (0, 1));
    p.cursor_move(Direction::Below);
    assert_eq!(p.cursor(), (0, 3));
    p.cursor_move(Direction::Below);
    assert_eq!(p.cursor(), (0, 5));
    p.cursor_move(Direction::Below);
    assert_eq!(p.cursor(), (0, 5));
    p.cursor_move(Direction::Above);
    assert_eq!(p.cursor(), (0, 3));
    p.cursor_move(Direction::Above);
    assert_eq!(p.cursor(), (0, 1));
}

#[test]
fn cursor_stays_within_the_item() {
    let mut p = sample();
    p.reset_cursor();
    p.cursor_move(Direction::Right);
    assert_eq!(p.cursor(), (0, 1));
    p.cursor_move(Direction::Left);
    assert_eq!(p.cursor(), (0, 1));
    p.cursor_move(Direction::Below);
    p.cursor_move(Direction::Right);
    p.cursor_move(Direction::Right);
    assert_eq!(p.cursor(), (2, 3));
    p.cursor_move(Direction::Right);
    assert_eq!(p.cursor(), (2, 3));
    p.cursor_move(Direction::Below);
    assert_eq!(p.cursor(), (1, 5));
    p.cursor_move(Direction::Above);
    assert_eq!(p.cursor(), (1, 3));
    p.cursor_move(Direction::Above);
    assert_eq!(p.cursor(), (0, 1));
    p.cursor_move(Direction::Below);
    p.cursor_move(Direction::Left);
    assert_eq!(p.cursor(), (0, 3));
}

#[test]
fn cursor_on_an_empty_page_does_not_move() {
    let mut p = Page::new("P", 'P');
    for d in [Direction::Above, Direction::Below, Direction::Left, Direction::Right] {
        p.cursor_move(d);
        assert_eq!(p.cursor(), (0, 0));
    }
    assert_eq!(p.edit_item(Edit::Click, None), Action::Idle);
    assert_eq!(p.lookup(Edit::Click), None);
}

#[test]
fn edit_item_edits_under_the_cursor() {
    let mut p = sample();
    p.reset_cursor();
    assert_eq!(p.edit_item(Edit::Next(false), None), Action::Modified);
    let mut off = Bool::new(true);
    off.set_value(false);
    assert_eq!(p.items()[1], Item::Input("FLAG".to_string(), Input::Bool(off)));
    p.cursor_move(Direction::Below);
    p.cursor_move(Direction::Right);
    assert_eq!(p.edit_item(Edit::Next(true), None), Action::Modified);
    let mut c = rm8::nav_item::Rgb::new(Rgb(1, 2, 3));
    c.set_value(Rgb(1, 18, 3));
    assert_eq!(p.items()[3], Item::Input("COLOUR".to_string(), Input::Rgb(c)));
    p.cursor_move(Direction::Below);
    assert_eq!(p.edit_item(Edit::Click, None), Action::Do("SAVE"));
    p.cursor_move(Direction::Left);
    assert_eq!(p.edit_item(Edit::Click, None), Action::Do("RESET"));
    assert_eq!(p.edit_item(Edit::Reset, None), Action::Idle);
}

#[test]
fn page_lookup_and_refresh() {
    let mut p = Page::new("CONFIG", 'C');
    p.add_bool("FLAG", true);
    p.add_device("DEVICE", vec!["a".to_string()], None);
    p.reset_cursor();
    assert_eq!(p.lookup(Edit::Click), None);
    p.cursor_move(Direction::Below);
    assert_eq!(p.lookup(Edit::Click), None);
    p.cursor_move(Direction::Right);
    assert_eq!(p.lookup(Edit::Click), Some(Lookup::Ports));
    assert_eq!(p.lookup(Edit::Reset), None);
    assert_eq!(p.edit_item(Edit::Click, Some(vec!["n".to_string()])), Action::Modified);
    match &p.items()[1] {
        Item::Input(_, Input::Device(d)) => assert_eq!(d.value(), Some("n")),
        _ => unreachable!(),
    }
}

#[test]
fn pages_above_and_below() {
    let mut p = sample();
    let mut a1 = Page::new("A1", 'A');
    a1.add_empty();
    a1.add_bool("X", false);
    let a2 = Page::new("A2", 'B');
    let b1 = Page::new("B1", 'A');
    let b2 = Page::new("B2", 'H');
    p.add_page_above(a1);
    p.add_page_above(a2);
    p.add_page_below(b1);
    p.add_page_below(b2);
    assert_eq!(p.above().len(), 2);
    assert_eq!(p.below().len(), 2);
    assert_eq!(p.above()[0].cursor(), (0, 1));
    assert_eq!(p.find('A').map(|q| q.name()), Some("A1"));
    assert_eq!(p.find('B').map(|q| q.name()), Some("A2"));
    assert_eq!(p.find('H').map(|q| q.name()), Some("B2"));
    assert!(p.find('S').is_none());
    assert!(p.find('Z').is_none());
    assert_eq!(p.get(0).map(|q| q.name()), Some("SAMPLE"));
    assert_eq!(p.get(1).map(|q| q.name()), Some("A1"));
    assert_eq!(p.get(2).map(|q| q.name()), Some("A2"));
    assert!(p.get(3).is_none());
    assert_eq!(p.get(-1).map(|q| q.name()), Some("B1"));
    assert_eq!(p.get(-2).map(|q| q.name()), Some("B2"));
    assert!(p.get(-3).is_none());
    assert!(p.get(isize::MAX).is_none());
    assert!(p.get(isize::MIN).is_none());
    p.find_mut('H').unwrap().add_empty();
    assert_eq!(p.below()[1].items().len(), 1);
    p.get_mut(2).unwrap().add_empty();
    assert_eq!(p.above()[1].items().len(), 1);
    p.get_mut(-1).unwrap().add_text("T");
    assert_eq!(p.below()[0].items().len(), 1);
    p.get_mut(0).unwrap().add_empty();
    assert_eq!(p.items().len(), 7);
    assert!(p.get_mut(3).is_none());
    assert!(p.get_mut(-3).is_none());
    assert!(p.find_mut('Z').is_none());
    p.find_mut('A').unwrap().set_cursor_rect((1, 2, 3, 4));
    assert_eq!(p.above()[0].cursor_rect(), (1, 2, 3, 4));
    assert_eq!(p.below()[0].cursor_rect(), (0, 0, 0, 0));
    p.items_mut().push(Item::Empty);
    assert_eq!(p.items().len(), 8);
}

fn menu() -> Navigation {
    let mut c = Page::new("CONFIG", 'C');
    c.add_title("T");
    c.add_bool("FLAG", false);
    let mut t = Page::new("THEME", 'T');
    t.add_rgb("SCREEN", Rgb(0, 0, 0));
    c.add_page_above(t);
    let mut k = Page::new("M8 KEYS", 'K');
    k.add_key("UP", Keycode(1));
    k.add_action3("REMAP", "RESET", "SAVE");
    let mut r = Page::new("RM8 KEYS", 'R');
    r.add_key("KEYJAZZ", Keycode(2));
    k.add_page_below(r);
    let mut j = Page::new("JOYSTICK", 'J');
    j.add_info("N.JOYSTICKS", "0");
    let mut n = Navigation::new();
    n.add_page(c);
    n.add_page(k);
    n.add_page(j);
    n
}

#[test]
fn empty_menu_shows_no_page() {
    let mut n = Navigation::new();
    assert!(!n.has_page());
    assert!(!n.main_page_exists());
    assert!(n.find('C').is_none());
    assert!(n.find_mut('C').is_none());
    assert!(n.take_changed());
    assert!(!n.take_changed());
    for d in [Direction::Above, Direction::Below, Direction::Left, Direction::Right] {
        n.navigate(d);
        n.cursor_move(d);
    }
    assert!(!n.has_page());
    assert!(!n.take_changed());
    assert_eq!(n.edit_item(Edit::Click, None), Action::Idle);
    assert_eq!(n.lookup(Edit::Click), None);
}

#[test]
fn menu_navigation() {
    let mut n = menu();
    assert!(n.has_page());
    assert!(n.take_changed());
    assert_eq!(n.page().name(), "CONFIG");
    assert_eq!(n.page().cursor(), (0, 1));
    assert_eq!(n.main_page_short_name(), 'C');
    n.navigate(Direction::Left);
    assert!(!n.take_changed());
    n.navigate(Direction::Below);
    assert!(!n.take_changed());
    assert_eq!(n.page().name(), "CONFIG");
    n.navigate(Direction::Above);
    assert!(n.take_changed());
    assert_eq!(n.page().name(), "THEME");
    assert_eq!(n.main_page().name(), "CONFIG");
    n.navigate(Direction::Above);
    assert!(!n.take_changed());
    n.navigate(Direction::Below);
    assert_eq!(n.page().name(), "CONFIG");
    n.navigate(Direction::Above);
    n.navigate(Direction::Right);
    assert!(n.take_changed());
    assert_eq!(n.page().name(), "M8 KEYS");
    n.navigate(Direction::Below);
    assert_eq!(n.page().name(), "RM8 KEYS");
    assert_eq!(n.main_page_short_name(), 'K');
    n.navigate(Direction::Below);
    assert_eq!(n.page().name(), "RM8 KEYS");
    n.main_page_reset();
    assert_eq!(n.page().name(), "M8 KEYS");
    n.navigate(Direction::Right);
    assert_eq!(n.page().name(), "JOYSTICK");
    n.take_changed();
    n.navigate(Direction::Right);
    assert!(!n.take_changed());
    n.dirty();
    assert!(n.take_changed());
    n.navigate(Direction::Left);
    n.navigate(Direction::Left);
    assert_eq!(n.page().name(), "CONFIG");
}

#[test]
fn menu_finds_main_pages_only() {
    let mut n = menu();
    assert_eq!(n.find('K').map(|p| p.name()), Some("M8 KEYS"));
    assert_eq!(n.find('J').map(|p| p.name()), Some("JOYSTICK"));
    assert!(n.find('T').is_none());
    assert!(n.find('R').is_none());
    n.find_mut('J').unwrap().add_empty();
    assert_eq!(n.find('J').unwrap().items().len(), 2);
    assert!(n.find_mut('T').is_none());
}

#[test]
fn menu_edits_and_moves_on_the_page_shown() {
    let mut n = menu();
    assert_eq!(n.edit_item(Edit::Next(false), None), Action::Modified);
    let mut on = Bool::new(false);
    on.set_value(true);
    assert_eq!(n.page().items()[1], Item::Input("FLAG".to_string(), Input::Bool(on)));
    n.navigate(Direction::Above);
    n.cursor_move(Direction::Right);
    assert_eq!(n.page().cursor(), (1, 0));
    assert_eq!(n.edit_item(Edit::Next(false), None), Action::Modified);
    let mut c = rm8::nav_item::Rgb::new(Rgb(0, 0, 0));
    c.set_value(Rgb(0, 1, 0));
    assert_eq!(n.page().items()[0], Item::Input("SCREEN".to_string(), Input::Rgb(c)));
    n.navigate(Direction::Right);
    assert_eq!(n.page().cursor(), (0, 1));
    n.cursor_move(Direction::Right);
    assert_eq!(n.lookup(Edit::Click), None);
    assert_eq!(n.edit_item(Edit::Click, None), Action::Do("RESET"));
    n.page_mut().add_empty();
    assert_eq!(n.page().items().len(), 3);
    assert_eq!(n.find('K').unwrap().items().len(), 3);
}

#[test]
fn menu_replaces_a_page() {
    let mut n = menu();
    let mut full = Page::new("JOYSTICK", 'J');
    full.add_info("N.JOYSTICKS", "1");
    full.add_int("SEL.ID", 0, 0, 10, 1);
    let old = n.replace('J', full);
    assert_eq!(old.items().len(), 1);
    assert_eq!(n.find('J').unwrap().items().len(), 2);
    assert_eq!(n.find('J').unwrap().cursor(), (0, 1));
    let other = Page::new("OTHER", 'O');
    let back = n.replace('O', other);
    assert_eq!(back.name(), "OTHER");
    assert!(n.find('O').is_none());
}
