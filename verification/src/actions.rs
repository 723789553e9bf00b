//! What is done when the menu asks for something: the values of the page
//! shown go to the configuration, or come back from it.

use crate::app::App;
use crate::config::Config;
use crate::config_command::Command;
use crate::config_joystick::{no_bindings, Axis, HatConfig, JoystickConfig, JoystickView};
use crate::menu_tools::{
    app_from_page, app_of, app_to_page, axes_from_page, axes_of, axes_shown, buttons_from_page,
    buttons_of, buttons_shown, clear_axes_page, clear_buttons_page, clear_hats_page,
    clear_joystick_subpages, find_joystick, first_hat, hat_of, hats_from_page, hats_shown, joystick_has_hats, joystick_place, m8_keys_from_page, m8_keys_of,
    m8_to_page, page_with, rm8_keys_from_page, rm8_keys_of, rm8_to_page,
    selected_joystick_guid, shown_guid, theme_from_page, theme_of, theme_to_page,
    update_axes_page, update_buttons_page, update_hats_page, with_app, with_bindings_cleared,
    with_m8_keys, with_rm8_keys, with_theme,
};
use crate::nav::{shown, with_shown, NavigationView};
use crate::nav_item::{Action, ActionView, Input, Item, ItemView};
use crate::nav_page::{hook_of, hooked, item_views, place_of, PageView};
use crate::remap::{begun, first_progress, Remap};
use std::collections::HashMap;
use vstd::prelude::*;
use vstd::string::StringExecFns;
use vstd::utf8::encode_utf8;

verus! {

broadcast use vstd::std_specs::hash::group_hash_axioms;

/// What the menu asked for.
#[derive(Debug, Clone, Copy, PartialEq, Eq, Structural)]
pub enum Task {
    Nothing,
    /// A value was changed: take it over.
    Modified,
    /// Write the configuration.
    Save,
    /// Read the configuration again.
    Reset,
    /// Rebind the keys of the page.
    Remap,
    /// A word that no task has.
    Unknown,
}

/// The task that an action stands for.
pub open spec fn task_of(action: ActionView) -> Task {
    match action {
        ActionView::Idle => Task::Nothing,
        ActionView::Modified => Task::Modified,
        ActionView::Do(word) => if word == "SAVE"@ {
            Task::Save
        } else if word == "RESET"@ {
            Task::Reset
        } else if word == "REMAP"@ {
            Task::Remap
        } else {
            Task::Unknown
        },
    }
}

/// What remains to be done outside once a changed value was taken over.
#[derive(Debug, Clone, PartialEq, Eq)]
pub struct Modified {
    /// The zoom, where it changed: resize the window.
    pub zoom: Option<u32>,
    /// The port chosen, where it is not the port in use: connect to it.
    pub open: Option<String>,
    /// Whether key jazz is to be on, where the settings were taken over.
    pub keyjazz: Option<bool>,
    /// The page of the joysticks is shown: show the joystick chosen.
    pub joysticks: bool,
}

/// The port that row 7 of the page of the settings shows as chosen.
pub open spec fn chosen_port(items: Seq<ItemView>) -> Option<Seq<char>> {
    if 7 < items.len() {
        match items[7] {
            ItemView::Input(_, crate::nav_item::InputView::Device(c)) => if c.selected
                < c.list.len() {
                Some(c.list[c.selected as int])
            } else {
                None
            },
            _ => None,
        }
    } else {
        None
    }
}

/// The name of a port as a sequence of characters.
pub open spec fn port_name(port: Option<&str>) -> Option<Seq<char>> {
    match port {
        Some(name) => Some(name@),
        None => None,
    }
}

fn same_text(a: &str, b: &str) -> (r: bool)
    ensures
        r == (a@ == b@),
{
    String::from_str(a) == String::from_str(b)
}

/// The joysticks `after` are the joysticks `before` with the bindings of
/// the joystick `guid` changed by `change`. A joystick that `before` does not
/// hold stands at the end of `after`, with what `change` makes of no
/// bindings.
pub open spec fn entry_changed(
    before: Seq<(String, JoystickConfig)>,
    after: Seq<(String, JoystickConfig)>,
    guid: Seq<u8>,
    change: spec_fn(JoystickView) -> JoystickView,
) -> bool {
    match joystick_place(before, guid, 0) {
        Some(i) => {
            &&& after.len() == before.len()
            &&& after[i].0 == before[i].0
            &&& after[i].1@ == change(before[i].1@)
            &&& forall|k: int| 0 <= k < before.len() && k != i ==> after[k] == before[k]
        },
        None => {
            &&& after.len() == before.len() + 1
            &&& after.drop_last() == before
            &&& encode_utf8(after.last().0@) == guid
            &&& after.last().1@ == change(no_bindings())
        },
    }
}

/// The joysticks as an action leaves them that changes the bindings of the
/// joystick chosen, where one is chosen and `wanted`; else unchanged.
pub open spec fn joysticks_after(
    before: Seq<(String, JoystickConfig)>,
    after: Seq<(String, JoystickConfig)>,
    guid: Option<Seq<u8>>,
    wanted: bool,
    change: spec_fn(JoystickView) -> JoystickView,
) -> bool {
    match guid {
        Some(guid) => if wanted {
            entry_changed(before, after, guid, change)
        } else {
            after == before
        },
        None => after == before,
    }
}

/// The identifier of the joystick chosen: what the main page of the
/// joysticks shows.
pub open spec fn chosen_guid(menu: NavigationView) -> Option<Seq<u8>> {
    match place_of(menu.pages, 'J', 0) {
        Some(i) => shown_guid(menu.pages[i].items),
        None => None,
    }
}

/// Whether the main page of the page shown tells of hats.
pub open spec fn tells_of_hats(menu: NavigationView) -> bool {
    menu.page.0 < menu.pages.len() && {
        let items = menu.pages[menu.page.0 as int].items;
        7 < items.len() && match items[7] {
            ItemView::Label2(_, value) => value != "0"@,
            _ => false,
        }
    }
}

/// The place of the joystick `guid` in `list`; where the list does not hold
/// it, it is added at the end, with nothing bound.
fn joystick_entry(list: &mut Vec<(String, JoystickConfig)>, guid: &str) -> (r: usize)
    ensures
        r < final(list)@.len(),
        match joystick_place(old(list)@, encode_utf8(guid@), 0) {
            Some(i) => r == i && final(list)@ == old(list)@,
            None => {
                &&& r == old(list)@.len()
                &&& final(list)@.len() == old(list)@.len() + 1
                &&& final(list)@.drop_last() == old(list)@
                &&& final(list)@[r as int].0@ == guid@
                &&& final(list)@[r as int].1@ == no_bindings()
            },
        },
{
    match find_joystick(list, guid) {
        Some(i) => i,
        None => {
            list.push((String::from_str(guid), JoystickConfig::default()));
            assert(list@.drop_last() =~= old(list)@);
            list.len() - 1
        },
    }
}

/// The bindings `v` with those replaced that are given.
pub open spec fn with_given(
    v: JoystickView,
    buttons: Option<Map<u8, Command>>,
    axes: Option<Map<u8, Axis>>,
    hats: Option<Map<u32, HatConfig>>,
) -> JoystickView {
    JoystickView {
        buttons: match buttons {
            Some(b) => b,
            None => v.buttons,
        },
        axes: match axes {
            Some(a) => a,
            None => v.axes,
        },
        hats: match hats {
            Some(h) => Some(h),
            None => v.hats,
        },
    }
}

/// The view of a map that may be given.
pub open spec fn given<K, V>(map: Option<HashMap<K, V>>) -> Option<Map<K, V>> {
    match map {
        Some(m) => Some(m@),
        None => None,
    }
}

/// Sets those bindings of the joystick `guid` that are given. A joystick
/// that the list does not hold is added.
fn set_bindings(
    list: &mut Vec<(String, JoystickConfig)>,
    guid: &str,
    buttons: Option<HashMap<u8, Command>>,
    axes: Option<HashMap<u8, Axis>>,
    hats: Option<HashMap<u32, HatConfig>>,
)
    ensures
        entry_changed(
            old(list)@,
            final(list)@,
            encode_utf8(guid@),
            |v: JoystickView| with_given(v, given(buttons), given(axes), given(hats)),
        ),
{
    let i = joystick_entry(list, guid);
    let ghost mid = list@;
    if let Some(b) = buttons {
        list[i].1.buttons = b;
    }
    if let Some(a) = axes {
        list[i].1.axes = a;
    }
    if let Some(h) = hats {
        list[i].1.hats = Some(h);
    }
    proof {
        if joystick_place(old(list)@, encode_utf8(guid@), 0) is None {
            assert(list@.drop_last() =~= old(list)@);
        }
    }
}

/// Whether the configuration is written when a page with the short name
/// `short` asks for it: the pages of a joystick need a joystick chosen, and
/// the page of the hat a joystick with hats.
pub open spec fn save_wanted(short: char, chosen: bool, hats: bool) -> bool {
    if short == 'C' || short == 'T' || short == 'K' || short == 'R' {
        true
    } else if short == 'J' || short == 'B' || short == 'A' {
        chosen
    } else if short == 'H' {
        chosen && hats
    } else {
        false
    }
}

/// The items of the page that hangs under `p` by the short name `short`.
pub open spec fn sub_items(p: PageView, short: char) -> Option<Seq<ItemView>> {
    match hook_of(p, short) {
        Some(hook) => Some(hooked(p, hook).items),
        None => None,
    }
}

impl App {
    /// Takes what the menu asked for: the task comes back, and nothing is
    /// asked for any more.
    pub fn process_action(&mut self) -> (r: Task)
        ensures
            r == task_of(old(self).action@),
            *final(self) == (App { action: Action::Idle, ..*old(self) }),
    {
        let task = match &self.action {
            Action::Idle => Task::Nothing,
            Action::Modified => Task::Modified,
            Action::Do(word) => {
                if same_text(word, "SAVE") {
                    Task::Save
                } else if same_text(word, "RESET") {
                    Task::Reset
                } else if same_text(word, "REMAP") {
                    Task::Remap
                } else {
                    Task::Unknown
                }
            },
        };
        self.action.reset();
        task
    }

    /// Begins the rebinding of the keys of the page shown: their keys are
    /// noted, and the binding of the first row waits for a key.
    pub fn start_remap(&mut self)
        requires
            shown(old(self).menu@) is Some,
        ensures
            final(self).remap is Some,
            final(self).remap.unwrap()@ == first_progress(old(self).menu@),
            final(self).menu@ == begun(old(self).menu@),
            *final(self) == (App {
                menu: final(self).menu,
                remap: final(self).remap,
                ..*old(self)
            }),
    {
        self.remap = Some(Remap::new(&mut self.menu));
    }

    /// Takes the values of the page shown over into the configuration.
    /// `device` is the port in use. What remains to be done outside comes
    /// back.
    ///
    /// The page is told by its short name: the settings (`C`), the colours
    /// (`T`), the keys (`K`, `R`), and the buttons, axes and hat (`B`, `A`,
    /// `H`) of the joystick whose identifier the page of the joysticks shows.
    pub fn action_modified(&mut self, device: Option<&str>) -> (r: Modified)
        ensures
            final(self).joystick_page == old(self).joystick_page,
            final(self).action == old(self).action,
            final(self).in_config == old(self).in_config,
            final(self).remap == old(self).remap,
            final(self).keys == old(self).keys,
            final(self).fps == old(self).fps,
            final(self).fps_count == old(self).fps_count,
            final(self).config.keyjazz == old(self).config.keyjazz,
            final(self).config.overlap == old(self).config.overlap,
            match shown(old(self).menu@) {
                Some(page) => {
                    let settings = page.short == 'C';
                    &&& final(self).config.app == if settings {
                        app_of(page.items)
                    } else {
                        old(self).config.app
                    }
                    &&& final(self).config.theme == if page.short == 'T' {
                        theme_of(page.items)
                    } else {
                        old(self).config.theme
                    }
                    &&& final(self).config.m8 == if page.short == 'K' {
                        m8_keys_of(page.items)
                    } else {
                        old(self).config.m8
                    }
                    &&& final(self).config.rm8 == if page.short == 'R' {
                        rm8_keys_of(page.items)
                    } else {
                        old(self).config.rm8
                    }
                    &&& final(self).menu@ == (NavigationView {
                        changed: old(self).menu@.changed || settings || page.short == 'T'
                            || page.short == 'J',
                        ..old(self).menu@
                    })
                    &&& r.zoom == if settings && app_of(page.items).zoom
                        != old(self).config.app.zoom {
                        Some(app_of(page.items).zoom)
                    } else {
                        None
                    }
                    &&& match r.open {
                        Some(name) => settings && chosen_port(page.items) == Some(name@)
                            && port_name(device) != Some(name@),
                        None => !settings || chosen_port(page.items) is None || chosen_port(
                            page.items,
                        ) == port_name(device),
                    }
                    &&& r.keyjazz == if settings {
                        Some(!old(self).config.overlap)
                    } else {
                        None
                    }
                    &&& r.joysticks == (page.short == 'J')
                    &&& !(page.short == 'B' || page.short == 'A' || page.short == 'H')
                        ==> final(self).config.joysticks == old(self).config.joysticks
                    &&& page.short == 'B' ==> joysticks_after(
                        old(self).config.joysticks@,
                        final(self).config.joysticks@,
                        chosen_guid(old(self).menu@),
                        true,
                        |v: JoystickView|
                            with_given(
                                v,
                                Some(buttons_of(page.items, page.items.len() as int)),
                                None,
                                None,
                            ),
                    )
                    &&& page.short == 'A' ==> joysticks_after(
                        old(self).config.joysticks@,
                        final(self).config.joysticks@,
                        chosen_guid(old(self).menu@),
                        true,
                        |v: JoystickView|
                            with_given(
                                v,
                                None,
                                Some(axes_of(page.items, page.items.len() as int)),
                                None,
                            ),
                    )
                    &&& page.short == 'H' ==> joysticks_after(
                        old(self).config.joysticks@,
                        final(self).config.joysticks@,
                        chosen_guid(old(self).menu@),
                        tells_of_hats(old(self).menu@),
                        |v: JoystickView|
                            with_given(
                                v,
                                None,
                                None,
                                Some(Map::<u32, HatConfig>::empty().insert(0, hat_of(page.items))),
                            ),
                    )
                },
                None => {
                    &&& final(self).config == old(self).config
                    &&& final(self).menu@ == old(self).menu@
                    &&& r == (Modified { zoom: None, open: None, keyjazz: None, joysticks: false })
                },
            },
    {
        let mut r = Modified { zoom: None, open: None, keyjazz: None, joysticks: false };
        if !self.menu.has_page() {
            return r;
        }
        let guid: Option<String> = match selected_joystick_guid(&self.menu) {
            Some(guid) => Some(String::from_str(guid)),
            None => None,
        };
        let has_hats = if self.menu.main_page_exists() {
            joystick_has_hats(self.menu.main_page())
        } else {
            false
        };
        let page = self.menu.page();
        let short = page.short_name();
        let mut dirty = false;
        if short == 'C' {
            let old_zoom = self.config.app.zoom;
            self.config.app = app_from_page(page);
            if self.config.app.zoom != old_zoom {
                r.zoom = Some(self.config.app.zoom);
            }
            let items = page.items();
            if 7 < items.len() {
                assert(item_views(items@)[7] == items@[7]@);
                if let Item::Input(_, Input::Device(d)) = &items[7] {
                    if let Some(chosen) = d.value() {
                        let differs = match device {
                            Some(name) => !same_text(name, chosen),
                            None => true,
                        };
                        if differs {
                            r.open = Some(String::from_str(chosen));
                        }
                    }
                }
            }
            r.keyjazz = Some(!self.config.overlap);
            dirty = true;
        } else if short == 'T' {
            self.config.theme = theme_from_page(page);
            dirty = true;
        } else if short == 'K' {
            self.config.m8 = m8_keys_from_page(page);
        } else if short == 'R' {
            self.config.rm8 = rm8_keys_from_page(page);
        } else if short == 'J' {
            dirty = true;
            r.joysticks = true;
        } else if short == 'B' {
            if let Some(guid) = guid {
                let buttons = buttons_from_page(page);
                set_bindings(&mut self.config.joysticks, guid.as_str(), Some(buttons), None, None);
            }
        } else if short == 'A' {
            if let Some(guid) = guid {
                let axes = axes_from_page(page);
                set_bindings(&mut self.config.joysticks, guid.as_str(), None, Some(axes), None);
            }
        } else if short == 'H' {
            if let Some(guid) = guid {
                if has_hats {
                    let hats = hats_from_page(page);
                    set_bindings(
                        &mut self.config.joysticks,
                        guid.as_str(),
                        None,
                        None,
                        Some(hats),
                    );
                }
            }
        }
        if dirty {
            self.menu.dirty();
        }
        r
    }

    /// Readies the configuration for being written, as the page shown asks:
    /// the values of the pages that hang under it are taken over. Returns
    /// whether the configuration is to be written.
    pub fn action_save(&mut self) -> (r: bool)
        ensures
            final(self).menu == old(self).menu,
            final(self).joystick_page == old(self).joystick_page,
            final(self).action == old(self).action,
            final(self).in_config == old(self).in_config,
            final(self).remap == old(self).remap,
            final(self).keys == old(self).keys,
            final(self).fps == old(self).fps,
            final(self).fps_count == old(self).fps_count,
            final(self).config.app == old(self).config.app,
            final(self).config.m8 == old(self).config.m8,
            final(self).config.keyjazz == old(self).config.keyjazz,
            final(self).config.overlap == old(self).config.overlap,
            match shown(old(self).menu@) {
                Some(page) => {
                    let hats = tells_of_hats(old(self).menu@);
                    &&& r == save_wanted(page.short, chosen_guid(old(self).menu@) is Some, hats)
                    &&& final(self).config.theme == match sub_items(page, 'T') {
                        Some(items) => if page.short == 'C' {
                            theme_of(items)
                        } else {
                            old(self).config.theme
                        },
                        None => old(self).config.theme,
                    }
                    &&& final(self).config.rm8 == match sub_items(page, 'R') {
                        Some(items) => if page.short == 'K' {
                            rm8_keys_of(items)
                        } else {
                            old(self).config.rm8
                        },
                        None => old(self).config.rm8,
                    }
                    &&& joysticks_after(
                        old(self).config.joysticks@,
                        final(self).config.joysticks@,
                        chosen_guid(old(self).menu@),
                        page.short == 'J',
                        |v: JoystickView|
                            with_given(
                                v,
                                match sub_items(page, 'B') {
                                    Some(items) => Some(buttons_of(items, items.len() as int)),
                                    None => None,
                                },
                                match sub_items(page, 'A') {
                                    Some(items) => Some(axes_of(items, items.len() as int)),
                                    None => None,
                                },
                                match sub_items(page, 'H') {
                                    Some(items) => if hats {
                                        Some(Map::<u32, HatConfig>::empty().insert(0, hat_of(items)))
                                    } else {
                                        None
                                    },
                                    None => None,
                                },
                            ),
                    )
                },
                None => !r && final(self).config == old(self).config,
            },
    {
        if !self.menu.has_page() {
            return false;
        }
        let guid: Option<String> = match selected_joystick_guid(&self.menu) {
            Some(guid) => Some(String::from_str(guid)),
            None => None,
        };
        let has_hats = if self.menu.main_page_exists() {
            joystick_has_hats(self.menu.main_page())
        } else {
            false
        };
        let page = self.menu.page();
        let short = page.short_name();
        if short == 'C' {
            if let Some(sub) = page.find('T') {
                self.config.theme = theme_from_page(sub);
            }
            true
        } else if short == 'T' {
            true
        } else if short == 'K' {
            if let Some(sub) = page.find('R') {
                self.config.rm8 = rm8_keys_from_page(sub);
            }
            true
        } else if short == 'R' {
            true
        } else if short == 'J' {
            match guid {
                Some(guid) => {
                    let buttons = match page.find('B') {
                        Some(sub) => Some(buttons_from_page(sub)),
                        None => None,
                    };
                    let axes = match page.find('A') {
                        Some(sub) => Some(axes_from_page(sub)),
                        None => None,
                    };
                    let hats = match page.find('H') {
                        Some(sub) => if has_hats {
                            Some(hats_from_page(sub))
                        } else {
                            None
                        },
                        None => None,
                    };
                    set_bindings(&mut self.config.joysticks, guid.as_str(), buttons, axes, hats);
                    true
                },
                None => false,
            }
        } else if short == 'B' || short == 'A' {
            guid.is_some()
        } else if short == 'H' {
            guid.is_some() && has_hats
        } else {
            false
        }
    }

    /// Takes the values of the page shown back from `loaded`, the
    /// configuration as it was read again, and shows them. The bindings of
    /// a joystick come back where both configurations hold the joystick
    /// chosen; where they do not, the page shows no binding. Returns whether
    /// the joystick chosen is to be shown anew on the page of the joysticks.
    pub fn action_reset(&mut self, loaded: Config) -> (r: bool)
        ensures
            final(self).joystick_page == old(self).joystick_page,
            final(self).action == old(self).action,
            final(self).in_config == old(self).in_config,
            final(self).remap == old(self).remap,
            final(self).keys == old(self).keys,
            final(self).fps == old(self).fps,
            final(self).fps_count == old(self).fps_count,
            final(self).config.keyjazz == old(self).config.keyjazz,
            final(self).config.overlap == old(self).config.overlap,
            match shown(old(self).menu@) {
                Some(page) => {
                    let short = page.short;
                    let joystick = short == 'J' || short == 'A' || short == 'B' || short == 'H';
                    let known = short == 'C' || short == 'T' || short == 'K' || short == 'R'
                        || joystick;
                    let back = match chosen_guid(old(self).menu@) {
                        Some(guid) => match joystick_place(old(self).config.joysticks@, guid, 0) {
                            Some(_) => match joystick_place(loaded.joysticks@, guid, 0) {
                                Some(j) => Some(loaded.joysticks@[j].1@),
                                None => None,
                            },
                            None => None,
                        },
                        None => None,
                    };
                    let chosen = chosen_guid(old(self).menu@) is Some;
                    &&& final(self).config.app == if short == 'C' {
                        loaded.app
                    } else {
                        old(self).config.app
                    }
                    &&& final(self).config.theme == if short == 'T' {
                        loaded.theme
                    } else {
                        old(self).config.theme
                    }
                    &&& final(self).config.m8 == if short == 'K' {
                        loaded.m8
                    } else {
                        old(self).config.m8
                    }
                    &&& final(self).config.rm8 == if short == 'R' {
                        loaded.rm8
                    } else {
                        old(self).config.rm8
                    }
                    &&& r == (short == 'J' && back is Some)
                    &&& final(self).menu@.changed == (old(self).menu@.changed || known)
                    &&& final(self).menu@.page == old(self).menu@.page
                    &&& final(self).menu@.pages == if short == 'C' {
                        with_shown(
                            old(self).menu@,
                            page_with(page, with_app(page.items, loaded.app)),
                        ).pages
                    } else if short == 'T' {
                        with_shown(
                            old(self).menu@,
                            page_with(page, with_theme(page.items, loaded.theme)),
                        ).pages
                    } else if short == 'K' {
                        with_shown(
                            old(self).menu@,
                            page_with(page, with_m8_keys(page.items, loaded.m8)),
                        ).pages
                    } else if short == 'R' {
                        with_shown(
                            old(self).menu@,
                            page_with(page, with_rm8_keys(page.items, loaded.rm8)),
                        ).pages
                    } else if short == 'J' && chosen && back is None {
                        with_bindings_cleared(old(self).menu@).pages
                    } else if short == 'A' && chosen {
                        with_shown(
                            old(self).menu@,
                            page_with(
                                page,
                                axes_shown(
                                    page.items,
                                    match back {
                                        Some(v) => v.axes,
                                        None => Map::<u8, Axis>::empty(),
                                    },
                                ),
                            ),
                        ).pages
                    } else if short == 'B' && chosen {
                        with_shown(
                            old(self).menu@,
                            page_with(
                                page,
                                buttons_shown(
                                    page.items,
                                    match back {
                                        Some(v) => v.buttons,
                                        None => Map::<u8, Command>::empty(),
                                    },
                                ),
                            ),
                        ).pages
                    } else if short == 'H' && chosen {
                        with_shown(
                            old(self).menu@,
                            page_with(
                                page,
                                hats_shown(
                                    page.items,
                                    match back {
                                        Some(v) => first_hat(v.hats),
                                        None => None,
                                    },
                                ),
                            ),
                        ).pages
                    } else {
                        old(self).menu@.pages
                    }
                    &&& match back {
                        Some(v) => joysticks_after(
                            old(self).config.joysticks@,
                            final(self).config.joysticks@,
                            chosen_guid(old(self).menu@),
                            joystick,
                            |w: JoystickView|
                                if short == 'J' {
                                    v
                                } else if short == 'A' {
                                    JoystickView { axes: v.axes, ..w }
                                } else if short == 'B' {
                                    JoystickView { buttons: v.buttons, ..w }
                                } else {
                                    JoystickView { hats: v.hats, ..w }
                                },
                        ),
                        None => final(self).config.joysticks == old(self).config.joysticks,
                    }
                },
                None => {
                    &&& !r
                    &&& final(self).config == old(self).config
                    &&& final(self).menu@ == old(self).menu@
                },
            },
    {
        if !self.menu.has_page() {
            return false;
        }
        let guid: Option<String> = match selected_joystick_guid(&self.menu) {
            Some(guid) => Some(String::from_str(guid)),
            None => None,
        };
        let short = self.menu.page().short_name();
        let mut loaded = loaded;
        let both: Option<(usize, usize)> = match &guid {
            Some(guid) => match find_joystick(&self.config.joysticks, guid.as_str()) {
                Some(i) => match find_joystick(&loaded.joysticks, guid.as_str()) {
                    Some(j) => Some((i, j)),
                    None => None,
                },
                None => None,
            },
            None => None,
        };
        let mut r = false;
        let mut dirty = true;
        if short == 'C' {
            self.config.app = loaded.app;
            app_to_page(self.menu.page_mut(), &self.config);
        } else if short == 'T' {
            self.config.theme = loaded.theme;
            theme_to_page(self.menu.page_mut(), &self.config);
        } else if short == 'K' {
            self.config.m8 = loaded.m8;
            m8_to_page(self.menu.page_mut(), &self.config);
        } else if short == 'R' {
            self.config.rm8 = loaded.rm8;
            rm8_to_page(self.menu.page_mut(), &self.config);
        } else if short == 'J' {
            if guid.is_some() {
                match both {
                    Some((i, j)) => {
                        let new = loaded.joysticks.remove(j);
                        self.config.joysticks[i].1 = new.1;
                        r = true;
                    },
                    None => {
                        clear_joystick_subpages(&mut self.menu);
                    },
                }
            }
        } else if short == 'A' {
            if guid.is_some() {
                match both {
                    Some((i, j)) => {
                        let new = loaded.joysticks.remove(j);
                        update_axes_page(self.menu.page_mut(), &new.1);
                        self.config.joysticks[i].1.axes = new.1.axes;
                    },
                    None => {
                        clear_axes_page(self.menu.page_mut());
                    },
                }
            }
        } else if short == 'B' {
            if guid.is_some() {
                match both {
                    Some((i, j)) => {
                        let new = loaded.joysticks.remove(j);
                        update_buttons_page(self.menu.page_mut(), &new.1);
                        self.config.joysticks[i].1.buttons = new.1.buttons;
                    },
                    None => {
                        clear_buttons_page(self.menu.page_mut());
                    },
                }
            }
        } else if short == 'H' {
            if guid.is_some() {
                match both {
                    Some((i, j)) => {
                        let new = loaded.joysticks.remove(j);
                        update_hats_page(self.menu.page_mut(), &new.1);
                        self.config.joysticks[i].1.hats = new.1.hats;
                    },
                    None => {
                        clear_hats_page(self.menu.page_mut());
                    },
                }
            }
        } else {
            dirty = false;
        }
        if dirty {
            self.menu.dirty();
        }
        r
    }

    /// A joystick was plugged in. `first` tells whether it is the only one
    /// now: then the full page of the joysticks takes the place of the empty
    /// one. A menu that shows the joysticks is drawn anew.
    pub fn joystick_added(&mut self, first: bool)
        ensures
            final(self).config == old(self).config,
            final(self).action == old(self).action,
            final(self).in_config == old(self).in_config,
            final(self).remap == old(self).remap,
            final(self).keys == old(self).keys,
            final(self).fps == old(self).fps,
            final(self).fps_count == old(self).fps_count,
            final(self).menu@.page == old(self).menu@.page,
            final(self).menu@.changed == (old(self).menu@.changed || (old(self).menu@.page.0
                < old(self).menu@.pages.len() && old(self).menu@.pages[old(
                self,
            ).menu@.page.0 as int].short == 'J')),
            first && old(self).joystick_page is Some ==> swapped(
                old(self).menu@,
                final(self).menu@,
                old(self).joystick_page.unwrap()@,
                final(self).joystick_page,
            ),
            !(first && old(self).joystick_page is Some) ==> {
                &&& final(self).menu@.pages == old(self).menu@.pages
                &&& final(self).joystick_page == old(self).joystick_page
            },
    {
        if self.menu.main_page_exists() {
            if self.menu.main_page_short_name() == 'J' {
                self.menu.dirty();
            }
        }
        if first {
            self.swap_joystick_page();
        }
    }

    /// A joystick was unplugged. `last` tells whether none is left: then the
    /// empty page of the joysticks takes the place of the full one. A menu
    /// that shows the joysticks goes back to their main page and is drawn
    /// anew.
    pub fn joystick_removed(&mut self, last: bool)
        ensures
            final(self).config == old(self).config,
            final(self).action == old(self).action,
            final(self).in_config == old(self).in_config,
            final(self).remap == old(self).remap,
            final(self).keys == old(self).keys,
            final(self).fps == old(self).fps,
            final(self).fps_count == old(self).fps_count,
            last && old(self).joystick_page is Some ==> swapped(
                old(self).menu@,
                final(self).menu@,
                old(self).joystick_page.unwrap()@,
                final(self).joystick_page,
            ),
            !(last && old(self).joystick_page is Some) ==> {
                &&& final(self).menu@.pages == old(self).menu@.pages
                &&& final(self).joystick_page == old(self).joystick_page
            },
            ({
                let shows = final(self).menu@.page.0 < final(self).menu@.pages.len()
                    && final(self).menu@.pages[final(self).menu@.page.0 as int].short == 'J';
                &&& final(self).menu@.changed == (old(self).menu@.changed || shows)
                &&& final(self).menu@.page == if shows {
                    (old(self).menu@.page.0, 0isize)
                } else {
                    old(self).menu@.page
                }
            }),
    {
        if last {
            self.swap_joystick_page();
        }
        if self.menu.main_page_exists() {
            if self.menu.main_page_short_name() == 'J' {
                self.menu.dirty();
                self.menu.main_page_reset();
            }
        }
    }

    /// Swaps the page of the joysticks that is kept aside with the one in the
    /// menu.
    fn swap_joystick_page(&mut self)
        ensures
            final(self).config == old(self).config,
            final(self).action == old(self).action,
            final(self).in_config == old(self).in_config,
            final(self).remap == old(self).remap,
            final(self).keys == old(self).keys,
            final(self).fps == old(self).fps,
            final(self).fps_count == old(self).fps_count,
            final(self).menu@.page == old(self).menu@.page,
            final(self).menu@.changed == old(self).menu@.changed,
            match old(self).joystick_page {
                Some(page) => swapped(
                    old(self).menu@,
                    final(self).menu@,
                    page@,
                    final(self).joystick_page,
                ),
                None => {
                    &&& final(self).menu@ == old(self).menu@
                    &&& final(self).joystick_page is None
                },
            },
    {
        if let Some(page) = self.joystick_page.take() {
            let other = self.menu.replace('J', page);
            self.joystick_page = Some(other);
        }
    }
}

/// The page `aside` went into the menu in place of its first main page with
/// the short name `J`, with its cursor reset, and the page that stood there
/// is kept aside now. In a menu without such a page, `aside` stays aside.
pub open spec fn swapped(
    before: NavigationView,
    after: NavigationView,
    aside: PageView,
    kept: Option<crate::nav_page::Page>,
) -> bool {
    &&& kept is Some
    &&& match place_of(before.pages, 'J', 0) {
        Some(i) => {
            &&& after.pages == before.pages.update(i, crate::nav_page::with_cursor_reset(aside))
            &&& kept.unwrap()@ == before.pages[i]
        },
        None => after.pages == before.pages && kept.unwrap()@ == aside,
    }
}

} // verus!
