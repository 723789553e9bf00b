//! The pages of the menu as they are first built.

use crate::config::{AppConfig, Config, M8KeyboardConfig, RM8KeyboardConfig, ThemeConfig};
use crate::config_command::Command;
use crate::config_joystick::DEFAULT_SENSIBILITY;
use crate::names::names_of;
use crate::nav::{Navigation, NavigationView};
use crate::nav_item::{
    bool_item, first_choice, font_item, int_item, key_item, rgb_item, wanted_name, InputView,
    ItemView,
};
use crate::nav_page::{empty_page, with_cursor_reset, with_item, Page, PageView};
use vstd::prelude::*;

verus! {

/// The page of the colours.
pub open spec fn theme_page(theme: ThemeConfig) -> PageView {
    let p = empty_page("THEME"@, 'T');
    let p = with_item(p, rgb_item("TEXT:DEFAULT"@, theme.text_default));
    let p = with_item(p, rgb_item("TEXT:VALUE"@, theme.text_value));
    let p = with_item(p, rgb_item("TEXT:TITLE"@, theme.text_title));
    let p = with_item(p, rgb_item("TEXT:INFO"@, theme.text_info));
    let p = with_item(p, rgb_item("CURSOR"@, theme.cursor));
    let p = with_item(p, rgb_item("SCREEN"@, theme.screen));
    let p = with_item(p, rgb_item("VELOCITY FG"@, theme.velocity_fg));
    let p = with_item(p, rgb_item("VELOCITY BG"@, theme.velocity_bg));
    let p = with_item(p, rgb_item("OCTAVE FG"@, theme.octave_fg));
    let p = with_item(p, rgb_item("OCTAVE BG"@, theme.octave_bg));
    let p = with_item(p, ItemView::Empty);
    let p = with_item(p, ItemView::Action2("RESET"@, "SAVE"@));
    p
}

/// The page of the settings, with the page of the colours above it. `ports`
/// are the ports at which a device answers, `device` the port in use.
pub open spec fn app_page(
    app: AppConfig,
    theme: ThemeConfig,
    ports: Seq<Seq<char>>,
    device: Option<Seq<char>>,
) -> PageView {
    let p = empty_page("CONFIG"@, 'C');
    let p = with_item(p, bool_item("FULLSCREEN"@, app.fullscreen));
    let p = with_item(p, int_item("ZOOM"@, app.zoom as usize, 1, 9, 2));
    let p = with_item(p, font_item("FONT"@, app.font));
    let p = with_item(p, int_item("KEY SENS."@, app.key_sensibility as usize, 60, 200, 10));
    let p = with_item(p, bool_item("SHOW_FPS"@, app.show_fps));
    let p = with_item(p, int_item("FPS"@, app.fps, 1, 200, 10));
    let p = with_item(p, bool_item("RECONNECT"@, app.reconnect));
    let p = with_item(
        p,
        ItemView::Input("DEVICE"@, InputView::Device(first_choice(ports, device))),
    );
    let p = with_item(p, ItemView::Empty);
    let p = with_item(p, ItemView::Action2("RESET"@, "SAVE"@));
    PageView { above: p.above.push(with_cursor_reset(theme_page(theme))), ..p }
}

/// The page of the keys of the host.
pub open spec fn rm8_keys_page(rm8: RM8KeyboardConfig) -> PageView {
    let p = empty_page("RM8 KEYS"@, 'R');
    let p = with_item(p, key_item("KEYJAZZ"@, rm8.keyjazz));
    let p = with_item(p, key_item("VELOCITY-"@, rm8.velocity_minus));
    let p = with_item(p, key_item("VELOCITY+"@, rm8.velocity_plus));
    let p = with_item(p, key_item("OCTAVE-"@, rm8.octave_minus));
    let p = with_item(p, key_item("OCTAVE+"@, rm8.octave_plus));
    let p = with_item(p, ItemView::Empty);
    let p = with_item(p, ItemView::Action3("REMAP"@, "RESET"@, "SAVE"@));
    p
}

/// The page of the keys of the device, with the page of the keys of the
/// host below it.
pub open spec fn m8_keys_page(m8: M8KeyboardConfig, rm8: RM8KeyboardConfig) -> PageView {
    let p = empty_page("M8 KEYS"@, 'K');
    let p = with_item(p, key_item("UP"@, m8.up));
    let p = with_item(p, key_item("DOWN"@, m8.down));
    let p = with_item(p, key_item("LEFT"@, m8.left));
    let p = with_item(p, key_item("RIGHT"@, m8.right));
    let p = with_item(p, key_item("EDIT"@, m8.edit));
    let p = with_item(p, key_item("OPTION"@, m8.option));
    let p = with_item(p, key_item("SHIFT"@, m8.shift));
    let p = with_item(p, key_item("PLAY"@, m8.play));
    let p = with_item(p, ItemView::Empty);
    let p = with_item(p, ItemView::Action3("REMAP"@, "RESET"@, "SAVE"@));
    PageView { below: p.below.push(with_cursor_reset(rm8_keys_page(rm8))), ..p }
}

/// The page of the joysticks while none is plugged in.
pub open spec fn no_joystick_page() -> PageView {
    with_item(empty_page("JOYSTICK"@, 'J'), ItemView::Label2("N.JOYSTICKS"@, "0"@))
}

/// The page of the axes of a joystick.
pub open spec fn axes_page() -> PageView {
    let p = empty_page("AXES"@, 'A');
    let p = with_item(p, ItemView::Title2("NEG."@, "POS."@, 9));
    let p = with_item(p, ItemView::Input("AXIS 0"@, InputView::Command2(Command::Unset, Command::Unset)));
    let p = with_item(p, int_item("AXIS 0 SENS."@, DEFAULT_SENSIBILITY, 0, 32767, 100));
    let p = with_item(p, ItemView::Input("AXIS 1"@, InputView::Command2(Command::Unset, Command::Unset)));
    let p = with_item(p, int_item("AXIS 1 SENS."@, DEFAULT_SENSIBILITY, 0, 32767, 100));
    let p = with_item(p, ItemView::Input("AXIS 2"@, InputView::Command2(Command::Unset, Command::Unset)));
    let p = with_item(p, int_item("AXIS 2 SENS."@, DEFAULT_SENSIBILITY, 0, 32767, 100));
    let p = with_item(p, ItemView::Input("AXIS 3"@, InputView::Command2(Command::Unset, Command::Unset)));
    let p = with_item(p, int_item("AXIS 3 SENS."@, DEFAULT_SENSIBILITY, 0, 32767, 100));
    let p = with_item(p, ItemView::Input("AXIS 4"@, InputView::Command2(Command::Unset, Command::Unset)));
    let p = with_item(p, int_item("AXIS 4 SENS."@, DEFAULT_SENSIBILITY, 0, 32767, 100));
    let p = with_item(p, ItemView::Input("AXIS 5"@, InputView::Command2(Command::Unset, Command::Unset)));
    let p = with_item(p, int_item("AXIS 5 SENS."@, DEFAULT_SENSIBILITY, 0, 32767, 100));
    let p = with_item(p, ItemView::Empty);
    let p = with_item(p, ItemView::Action2("RESET"@, "SAVE"@));
    p
}

/// The page of the buttons of a joystick.
pub open spec fn buttons_page() -> PageView {
    let p = empty_page("BUTTONS"@, 'B');
    let p = with_item(p, ItemView::Input("B.0"@, InputView::CommandLabel2(Command::Unset, "B.10"@, 4, Command::Unset)));
    let p = with_item(p, ItemView::Input("B.1"@, InputView::CommandLabel2(Command::Unset, "B.11"@, 4, Command::Unset)));
    let p = with_item(p, ItemView::Input("B.2"@, InputView::CommandLabel2(Command::Unset, "B.12"@, 4, Command::Unset)));
    let p = with_item(p, ItemView::Input("B.3"@, InputView::CommandLabel2(Command::Unset, "B.13"@, 4, Command::Unset)));
    let p = with_item(p, ItemView::Input("B.4"@, InputView::CommandLabel2(Command::Unset, "B.14"@, 4, Command::Unset)));
    let p = with_item(p, ItemView::Input("B.5"@, InputView::CommandLabel2(Command::Unset, "B.15"@, 4, Command::Unset)));
    let p = with_item(p, ItemView::Input("B.6"@, InputView::CommandLabel2(Command::Unset, "B.16"@, 4, Command::Unset)));
    let p = with_item(p, ItemView::Input("B.7"@, InputView::CommandLabel2(Command::Unset, "B.17"@, 4, Command::Unset)));
    let p = with_item(p, ItemView::Input("B.8"@, InputView::CommandLabel2(Command::Unset, "B.18"@, 4, Command::Unset)));
    let p = with_item(p, ItemView::Input("B.9"@, InputView::CommandLabel2(Command::Unset, "B.19"@, 4, Command::Unset)));
    let p = with_item(p, ItemView::Empty);
    let p = with_item(p, ItemView::Action2("RESET"@, "SAVE"@));
    p
}

/// The page of the hat of a joystick.
pub open spec fn hats_page() -> PageView {
    let p = empty_page("HAT"@, 'H');
    let p = with_item(p, ItemView::Input("UP"@, InputView::Command(Command::Unset)));
    let p = with_item(p, ItemView::Input("DOWN"@, InputView::Command(Command::Unset)));
    let p = with_item(p, ItemView::Input("LEFT"@, InputView::Command(Command::Unset)));
    let p = with_item(p, ItemView::Input("RIGHT"@, InputView::Command(Command::Unset)));
    let p = with_item(p, ItemView::Input("UP LEFT"@, InputView::Command(Command::Unset)));
    let p = with_item(p, ItemView::Input("UP RIGHT"@, InputView::Command(Command::Unset)));
    let p = with_item(p, ItemView::Input("DOWN LEFT"@, InputView::Command(Command::Unset)));
    let p = with_item(p, ItemView::Input("DOWN RIGHT"@, InputView::Command(Command::Unset)));
    let p = with_item(p, ItemView::Empty);
    let p = with_item(p, ItemView::Action2("RESET"@, "SAVE"@));
    p
}

/// The page of the joysticks while one is plugged in, with the pages of its
/// axes and buttons above and the page of its hat below.
pub open spec fn joystick_page() -> PageView {
    let p = empty_page("JOYSTICK"@, 'J');
    let p = with_item(p, ItemView::Label2("N.JOYSTICKS"@, "0"@));
    let p = with_item(p, int_item("SEL.ID"@, 0, 0, 10, 1));
    let p = with_item(p, ItemView::Empty);
    let p = with_item(p, ItemView::Label(""@, true));
    let p = with_item(p, ItemView::Text("GUID"@));
    let p = with_item(p, ItemView::Label2("N.AXES"@, "0"@));
    let p = with_item(p, ItemView::Label2("N.BUTTONS"@, "0"@));
    let p = with_item(p, ItemView::Label2("N.HATS"@, "0"@));
    let p = with_item(p, ItemView::Empty);
    let p = with_item(p, ItemView::Action2("RESET"@, "SAVE"@));
    PageView {
        above: p.above.push(with_cursor_reset(axes_page())).push(
            with_cursor_reset(buttons_page()),
        ),
        below: p.below.push(with_cursor_reset(hats_page())),
        ..p
    }
}

fn build_theme_page(theme: &ThemeConfig) -> (page: Page)
    ensures
        page@ == theme_page(*theme),
{
    let mut page = Page::new("THEME", 'T');
    page.add_rgb("TEXT:DEFAULT", theme.text_default);
    page.add_rgb("TEXT:VALUE", theme.text_value);
    page.add_rgb("TEXT:TITLE", theme.text_title);
    page.add_rgb("TEXT:INFO", theme.text_info);
    page.add_rgb("CURSOR", theme.cursor);
    page.add_rgb("SCREEN", theme.screen);
    page.add_rgb("VELOCITY FG", theme.velocity_fg);
    page.add_rgb("VELOCITY BG", theme.velocity_bg);
    page.add_rgb("OCTAVE FG", theme.octave_fg);
    page.add_rgb("OCTAVE BG", theme.octave_bg);
    page.add_empty();
    page.add_action2("RESET", "SAVE");
    page
}

fn build_rm8_keys_page(rm8: &RM8KeyboardConfig) -> (page: Page)
    ensures
        page@ == rm8_keys_page(*rm8),
{
    let mut page = Page::new("RM8 KEYS", 'R');
    page.add_key("KEYJAZZ", rm8.keyjazz);
    page.add_key("VELOCITY-", rm8.velocity_minus);
    page.add_key("VELOCITY+", rm8.velocity_plus);
    page.add_key("OCTAVE-", rm8.octave_minus);
    page.add_key("OCTAVE+", rm8.octave_plus);
    page.add_empty();
    page.add_action3("REMAP", "RESET", "SAVE");
    page
}

fn build_m8_keys_page(m8: &M8KeyboardConfig, rm8: &RM8KeyboardConfig) -> (page: Page)
    ensures
        page@ == m8_keys_page(*m8, *rm8),
{
    let mut page = Page::new("M8 KEYS", 'K');
    page.add_key("UP", m8.up);
    page.add_key("DOWN", m8.down);
    page.add_key("LEFT", m8.left);
    page.add_key("RIGHT", m8.right);
    page.add_key("EDIT", m8.edit);
    page.add_key("OPTION", m8.option);
    page.add_key("SHIFT", m8.shift);
    page.add_key("PLAY", m8.play);
    page.add_empty();
    page.add_action3("REMAP", "RESET", "SAVE");
    page.add_page_below(build_rm8_keys_page(rm8));
    page
}

fn build_axes_page() -> (page: Page)
    ensures
        page@ == axes_page(),
{
    let mut page = Page::new("AXES", 'A');
    page.add_title2("NEG.", "POS.", Command::MAX_LENGTH);
    page.add_cmd2("AXIS 0", Command::Unset, Command::Unset);
    page.add_int("AXIS 0 SENS.", DEFAULT_SENSIBILITY, 0, 32767, 100);
    page.add_cmd2("AXIS 1", Command::Unset, Command::Unset);
    page.add_int("AXIS 1 SENS.", DEFAULT_SENSIBILITY, 0, 32767, 100);
    page.add_cmd2("AXIS 2", Command::Unset, Command::Unset);
    page.add_int("AXIS 2 SENS.", DEFAULT_SENSIBILITY, 0, 32767, 100);
    page.add_cmd2("AXIS 3", Command::Unset, Command::Unset);
    page.add_int("AXIS 3 SENS.", DEFAULT_SENSIBILITY, 0, 32767, 100);
    page.add_cmd2("AXIS 4", Command::Unset, Command::Unset);
    page.add_int("AXIS 4 SENS.", DEFAULT_SENSIBILITY, 0, 32767, 100);
    page.add_cmd2("AXIS 5", Command::Unset, Command::Unset);
    page.add_int("AXIS 5 SENS.", DEFAULT_SENSIBILITY, 0, 32767, 100);
    page.add_empty();
    page.add_action2("RESET", "SAVE");
    page
}

fn build_buttons_page() -> (page: Page)
    ensures
        page@ == buttons_page(),
{
    let mut page = Page::new("BUTTONS", 'B');
    page.add_cmd_label2("B.0", Command::Unset, "B.10", Command::Unset, 4);
    page.add_cmd_label2("B.1", Command::Unset, "B.11", Command::Unset, 4);
    page.add_cmd_label2("B.2", Command::Unset, "B.12", Command::Unset, 4);
    page.add_cmd_label2("B.3", Command::Unset, "B.13", Command::Unset, 4);
    page.add_cmd_label2("B.4", Command::Unset, "B.14", Command::Unset, 4);
    page.add_cmd_label2("B.5", Command::Unset, "B.15", Command::Unset, 4);
    page.add_cmd_label2("B.6", Command::Unset, "B.16", Command::Unset, 4);
    page.add_cmd_label2("B.7", Command::Unset, "B.17", Command::Unset, 4);
    page.add_cmd_label2("B.8", Command::Unset, "B.18", Command::Unset, 4);
    page.add_cmd_label2("B.9", Command::Unset, "B.19", Command::Unset, 4);
    page.add_empty();
    page.add_action2("RESET", "SAVE");
    page
}

fn build_hats_page() -> (page: Page)
    ensures
        page@ == hats_page(),
{
    let mut page = Page::new("HAT", 'H');
    page.add_cmd("UP", Command::Unset);
    page.add_cmd("DOWN", Command::Unset);
    page.add_cmd("LEFT", Command::Unset);
    page.add_cmd("RIGHT", Command::Unset);
    page.add_cmd("UP LEFT", Command::Unset);
    page.add_cmd("UP RIGHT", Command::Unset);
    page.add_cmd("DOWN LEFT", Command::Unset);
    page.add_cmd("DOWN RIGHT", Command::Unset);
    page.add_empty();
    page.add_action2("RESET", "SAVE");
    page
}

/// Appends the main pages to the menu: the settings (with the colours), the
/// keys of the device (with those of the host), and the joysticks. `ports`
/// are the ports at which a device answers, `device` the port in use.
pub fn build_menu(
    menu: &mut Navigation,
    config: &Config,
    ports: Vec<String>,
    device: Option<String>,
)
    ensures
        final(menu)@ == (NavigationView {
            pages: old(menu)@.pages.push(
                with_cursor_reset(
                    app_page(config.app, config.theme, names_of(ports@), wanted_name(device)),
                ),
            ).push(with_cursor_reset(m8_keys_page(config.m8, config.rm8))).push(
                with_cursor_reset(no_joystick_page()),
            ),
            ..old(menu)@
        }),
{
    let mut app = Page::new("CONFIG", 'C');
    app.add_bool("FULLSCREEN", config.app.fullscreen);
    app.add_int("ZOOM", config.app.zoom as usize, 1, 9, 2);
    app.add_font("FONT", config.app.font);
    app.add_int("KEY SENS.", config.app.key_sensibility as usize, 60, 200, 10);
    app.add_bool("SHOW_FPS", config.app.show_fps);
    app.add_int("FPS", config.app.fps, 1, 200, 10);
    app.add_bool("RECONNECT", config.app.reconnect);
    app.add_device("DEVICE", ports, device);
    app.add_empty();
    app.add_action2("RESET", "SAVE");
    app.add_page_above(build_theme_page(&config.theme));

    let keys = build_m8_keys_page(&config.m8, &config.rm8);

    let mut joystick = Page::new("JOYSTICK", 'J');
    joystick.add_info("N.JOYSTICKS", "0");

    menu.add_page(app);
    menu.add_page(keys);
    menu.add_page(joystick);
}

/// The page of the joysticks for when a joystick is plugged in.
pub fn build_joystick_page() -> (r: Option<Page>)
    ensures
        r is Some,
        r.unwrap()@ == joystick_page(),
{
    let mut page = Page::new("JOYSTICK", 'J');
    page.add_info("N.JOYSTICKS", "0");
    page.add_int("SEL.ID", 0, 0, 10, 1);
    page.add_empty();
    page.add_title("");
    page.add_text("GUID");
    page.add_info("N.AXES", "0");
    page.add_info("N.BUTTONS", "0");
    page.add_info("N.HATS", "0");
    page.add_empty();
    page.add_action2("RESET", "SAVE");
    page.add_page_above(build_axes_page());
    page.add_page_above(build_buttons_page());
    page.add_page_below(build_hats_page());
    Some(page)
}

} // verus!
