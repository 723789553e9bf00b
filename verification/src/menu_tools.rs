//! Carrying values between the configuration and the pages of the menu.

use crate::config::{AppConfig, Config, M8KeyboardConfig, RM8KeyboardConfig, ThemeConfig};
use crate::config_command::Command;
use crate::config_joystick::{Axis, HatConfig, JoystickConfig};
use crate::menu_items::{
    bool_at, bool_from_item, bool_to_item, cmd_from_item, cmd_to_item, command_at, decimal_text,
    font_at, font_from_item, font_to_item, int_at, int_from_item, int_to_item, item_with_bool,
    item_with_command, item_with_font, item_with_int, item_with_key, item_with_pair,
    item_with_rgb, item_with_text, key_at, key_from_item, key_to_item, pair_to_item, rgb_at,
    rgb_from_item, rgb_to_item, str_to_label, usize_to_label, with_row,
};
use crate::nav::{Navigation, NavigationView};
use crate::nav_item::{Input, InputView, Item, ItemView};
use crate::nav_page::{
    hook_of, hooked, item_views, lemma_item_update, place_of, rehooked, Page, PageView,
};
use std::collections::HashMap;
use vstd::prelude::*;
use vstd::string::StringExecFns;
use vstd::utf8::encode_utf8;

verus! {

broadcast use vstd::std_specs::hash::group_hash_axioms;

/// The page with other items.
pub open spec fn page_with(p: PageView, items: Seq<ItemView>) -> PageView {
    PageView { items, ..p }
}

/// The number of the joystick chosen on the page of the joysticks.
pub fn selected_joystick_id(page: &Page) -> (r: u32)
    ensures
        r == int_at(page@.items, 1) as u32,
{
    #[verifier::truncate]
    (int_from_item(page.items(), 1) as u32)
}

/// What follows the first five bytes of `text`, where more than five bytes
/// are there and the fifth ends a character: the identifier behind `GUID `.
pub open spec fn guid_bytes(text: Seq<char>) -> Option<Seq<u8>> {
    let bytes = encode_utf8(text);
    if bytes.len() > 5 && vstd::utf8::is_char_boundary(bytes, 5) {
        Some(bytes.skip(5))
    } else {
        None
    }
}

/// The identifier that row 4 of the page of the joysticks shows.
pub open spec fn shown_guid(items: Seq<ItemView>) -> Option<Seq<u8>> {
    if 4 < items.len() {
        match items[4] {
            ItemView::Text(text) => guid_bytes(text),
            _ => None,
        }
    } else {
        None
    }
}

fn guid_of(text: &str) -> (r: Option<&str>)
    ensures
        match guid_bytes(text@) {
            Some(bytes) => r is Some && encode_utf8(r.unwrap()@) == bytes,
            None => r is None,
        },
{
    if text.as_bytes().len() > 5 && text.is_char_boundary(5) {
        let (_, guid) = text.split_at(5);
        Some(guid)
    } else {
        None
    }
}

fn guid_of_page(page: &Page) -> (r: Option<&str>)
    ensures
        match shown_guid(page@.items) {
            Some(bytes) => r is Some && encode_utf8(r.unwrap()@) == bytes,
            None => r is None,
        },
{
    let items = page.items();
    if 4 < items.len() {
        assert(item_views(items@)[4] == items@[4]@);
        if let Item::Text(guid) = &items[4] {
            return guid_of(guid.as_str());
        }
    }
    None
}

/// The identifier of the joystick chosen: what the page of the joysticks
/// shows behind `GUID `.
pub fn selected_joystick_guid(nav: &Navigation) -> (r: Option<&str>)
    ensures
        match place_of(nav@.pages, 'J', 0) {
            Some(i) => match shown_guid(nav@.pages[i].items) {
                Some(bytes) => r is Some && encode_utf8(r.unwrap()@) == bytes,
                None => r is None,
            },
            None => r is None,
        },
{
    match nav.find('J') {
        Some(page) => guid_of_page(page),
        None => None,
    }
}

/// The first place in `list` of the joystick whose identifier has the bytes
/// `guid`.
pub open spec fn joystick_place(
    list: Seq<(String, JoystickConfig)>,
    guid: Seq<u8>,
    from: int,
) -> Option<int>
    decreases list.len() - from,
{
    if from < 0 || from >= list.len() {
        None
    } else if encode_utf8(list[from].0@) == guid {
        Some(from)
    } else {
        joystick_place(list, guid, from + 1)
    }
}

fn same_bytes(a: &[u8], b: &[u8]) -> (r: bool)
    ensures
        r == (a@ == b@),
{
    if a.len() != b.len() {
        return false;
    }
    let mut i: usize = 0;
    while i < a.len()
        invariant
            a@.len() == b@.len(),
            i <= a@.len(),
            forall|j: int| 0 <= j < i ==> a@[j] == b@[j],
        decreases a@.len() - i,
    {
        if a[i] != b[i] {
            return false;
        }
        i += 1;
    }
    assert(a@ =~= b@);
    true
}

/// The place in `list` of the joystick with the identifier `guid`.
pub fn find_joystick(list: &Vec<(String, JoystickConfig)>, guid: &str) -> (r: Option<usize>)
    ensures
        match r {
            Some(i) => i < list@.len() && joystick_place(list@, encode_utf8(guid@), 0) == Some(
                i as int,
            ),
            None => joystick_place(list@, encode_utf8(guid@), 0) is None,
        },
{
    let mut i: usize = 0;
    while i < list.len()
        invariant
            i <= list@.len(),
            joystick_place(list@, encode_utf8(guid@), 0) == joystick_place(
                list@,
                encode_utf8(guid@),
                i as int,
            ),
        decreases list@.len() - i,
    {
        if same_bytes(list[i].0.as_str().as_bytes(), guid.as_bytes()) {
            return Some(i);
        }
        i += 1;
    }
    None
}

/// The bindings of the joystick chosen on the page of the joysticks.
pub fn selected_joystick_config<'a>(page: &Page, config: &'a Config) -> (r: Option<
    &'a JoystickConfig,
>)
    ensures
        match shown_guid(page@.items) {
            Some(guid) => match joystick_place(config.joysticks@, guid, 0) {
                Some(i) => r == Some(&config.joysticks@[i].1),
                None => r is None,
            },
            None => r is None,
        },
{
    match guid_of_page(page) {
        Some(guid) => match find_joystick(&config.joysticks, guid) {
            Some(i) => Some(&config.joysticks[i].1),
            None => None,
        },
        None => None,
    }
}

/// The command that `buttons` binds to button `k`; none where it binds none.
pub open spec fn button_command(buttons: Map<u8, Command>, k: u8) -> Command {
    if buttons.contains_key(k) {
        buttons[k]
    } else {
        Command::Unset
    }
}

/// How many rows of the page of the buttons can show buttons: the button
/// of the second column, ten behind that of the first, must have a number.
pub const BUTTON_ROWS: usize = 246;

/// A row of the page of the buttons, showing what `buttons` binds: row `i`
/// shows button `i` and button `i + 10`.
pub open spec fn button_row(buttons: Map<u8, Command>, i: int, item: ItemView) -> ItemView {
    match item {
        ItemView::Input(label, InputView::CommandLabel2(_, label2, pad, _)) => if 0 <= i
            < BUTTON_ROWS {
            ItemView::Input(
                label,
                InputView::CommandLabel2(
                    button_command(buttons, i as u8),
                    label2,
                    pad,
                    button_command(buttons, (i + 10) as u8),
                ),
            )
        } else {
            item
        },
        _ => item,
    }
}

/// The rows of the page of the buttons, showing what `buttons` binds.
pub open spec fn buttons_shown(items: Seq<ItemView>, buttons: Map<u8, Command>) -> Seq<ItemView> {
    Seq::new(items.len(), |i: int| button_row(buttons, i, items[i]))
}

/// Shows the bindings of the buttons of a joystick on the page of the
/// buttons. A button that is not bound is shown as unbound.
pub fn update_buttons_page(page: &mut Page, config: &JoystickConfig)
    ensures
        final(page)@ == page_with(
            old(page)@,
            buttons_shown(old(page)@.items, config.buttons@),
        ),
{
    show_buttons(page, &config.buttons)
}

fn show_buttons(page: &mut Page, buttons: &HashMap<u8, Command>)
    ensures
        final(page)@ == page_with(
            old(page)@,
            buttons_shown(old(page)@.items, buttons@),
        ),
{
    let items = page.items_mut();
    let ghost before = item_views(items@);
    let ghost after = buttons_shown(before, buttons@);
    let mut i: usize = 0;
    while i < items.len()
        invariant
            i <= items@.len(),
            items@.len() == before.len(),
            after == buttons_shown(before, buttons@),
            forall|j: int| 0 <= j < i ==> (#[trigger] item_views(items@)[j]) == after[j],
            forall|j: int| i <= j < items@.len() ==> (#[trigger] item_views(items@)[j]) == before[j],
        decreases items@.len() - i,
    {
        let ghost now = items@;
        assert(item_views(now)[i as int] == before[i as int]);
        if i < BUTTON_ROWS {
            let first = i as u8;
            let second = first + 10;
            let c1 = match buttons.get(&first) {
                Some(c) => *c,
                None => Command::Unset,
            };
            let c2 = match buttons.get(&second) {
                Some(c) => *c,
                None => Command::Unset,
            };
            let item = &mut items[i];
            proof {
                lemma_item_update(now, i as int, *final(item));
            }
            match item {
                Item::Input(_, Input::CommandLabel2(a, _, _, b)) => {
                    *a = c1;
                    *b = c2;
                },
                _ => {},
            }
        }
        i += 1;
    }
    assert(item_views(items@) =~= after);
}

/// Shows every button of the page of the buttons as unbound.
pub fn clear_buttons_page(page: &mut Page)
    ensures
        final(page)@ == page_with(
            old(page)@,
            buttons_shown(old(page)@.items, Map::<u8, Command>::empty()),
        ),
{
    let none: HashMap<u8, Command> = HashMap::new();
    show_buttons(page, &none)
}

/// A row of the page of a hat, showing no binding.
pub open spec fn cleared_hat_row(item: ItemView) -> ItemView {
    item_with_command(item, Command::Unset)
}

/// Shows every direction of the page of a hat as unbound.
pub fn clear_hats_page(page: &mut Page)
    ensures
        final(page)@ == page_with(
            old(page)@,
            hats_shown(old(page)@.items, None),
        ),
{
    let items = page.items_mut();
    let ghost before = item_views(items@);
    let ghost after = hats_shown(before, None);
    let mut i: usize = 0;
    while i < items.len()
        invariant
            i <= items@.len(),
            items@.len() == before.len(),
            after == hats_shown(before, None),
            forall|j: int| 0 <= j < i ==> (#[trigger] item_views(items@)[j]) == after[j],
            forall|j: int| i <= j < items@.len() ==> (#[trigger] item_views(items@)[j]) == before[j],
        decreases items@.len() - i,
    {
        assert(item_views(items@)[i as int] == before[i as int]);
        cmd_to_item(items, i, Command::Unset);
        i += 1;
    }
    assert(item_views(items@) =~= after);
}

/// The command of a direction of a hat, by the row that shows it.
pub open spec fn hat_command(hat: HatConfig, row: int) -> Command {
    if row == 0 {
        hat.up
    } else if row == 1 {
        hat.down
    } else if row == 2 {
        hat.left
    } else if row == 3 {
        hat.right
    } else if row == 4 {
        hat.left_up
    } else if row == 5 {
        hat.right_up
    } else if row == 6 {
        hat.left_down
    } else if row == 7 {
        hat.right_down
    } else {
        Command::Unset
    }
}

/// The first hat among `hats`, where there is one.
pub open spec fn first_hat(hats: Option<Map<u32, HatConfig>>) -> Option<HatConfig> {
    match hats {
        Some(map) => if map.contains_key(0) {
            Some(map[0])
        } else {
            None
        },
        None => None,
    }
}

/// A row of the page of a hat, showing what `hat` binds to its direction.
pub open spec fn hat_row(hat: Option<HatConfig>, i: int, item: ItemView) -> ItemView {
    match hat {
        Some(hat) => item_with_command(item, hat_command(hat, i)),
        None => cleared_hat_row(item),
    }
}

/// The rows of the page of a hat, showing what `hat` binds; nothing where
/// there is no hat.
pub open spec fn hats_shown(items: Seq<ItemView>, hat: Option<HatConfig>) -> Seq<ItemView> {
    Seq::new(items.len(), |i: int| hat_row(hat, i, items[i]))
}

fn hat_command_of(hat: &HatConfig, row: usize) -> (r: Command)
    ensures
        r == hat_command(*hat, row as int),
{
    if row == 0 {
        hat.up
    } else if row == 1 {
        hat.down
    } else if row == 2 {
        hat.left
    } else if row == 3 {
        hat.right
    } else if row == 4 {
        hat.left_up
    } else if row == 5 {
        hat.right_up
    } else if row == 6 {
        hat.left_down
    } else if row == 7 {
        hat.right_down
    } else {
        Command::Unset
    }
}

/// Shows the bindings of the first hat of a joystick on the page of a hat:
/// the eight directions on the first eight rows. A joystick without hats
/// shows every direction as unbound.
pub fn update_hats_page(page: &mut Page, config: &JoystickConfig)
    ensures
        final(page)@ == page_with(
            old(page)@,
            hats_shown(old(page)@.items, first_hat(config@.hats)),
        ),
{
    let hat: Option<HatConfig> = match &config.hats {
        Some(hats) => match hats.get(&0) {
            Some(h) => Some(*h),
            None => None,
        },
        None => None,
    };
    assert(hat == first_hat(config@.hats));
    let items = page.items_mut();
    let ghost before = item_views(items@);
    let ghost after = hats_shown(before, hat);
    let mut i: usize = 0;
    while i < items.len()
        invariant
            i <= items@.len(),
            items@.len() == before.len(),
            after == hats_shown(before, hat),
            forall|j: int| 0 <= j < i ==> (#[trigger] item_views(items@)[j]) == after[j],
            forall|j: int| i <= j < items@.len() ==> (#[trigger] item_views(items@)[j]) == before[j],
        decreases items@.len() - i,
    {
        assert(item_views(items@)[i as int] == before[i as int]);
        let cmd = match &hat {
            Some(h) => hat_command_of(h, i),
            None => Command::Unset,
        };
        cmd_to_item(items, i, cmd);
        i += 1;
    }
    assert(item_views(items@) =~= after);
}

/// A row of the page of the axes, showing no binding and no threshold.
pub open spec fn cleared_axis_row(i: int, item: ItemView) -> ItemView {
    if i < 1 {
        item
    } else {
        item_with_int(item_with_pair(item, Command::Unset, Command::Unset), 0)
    }
}

/// Shows every axis of the page of the axes as unbound, with no threshold.
/// The first row is the heading.
pub fn clear_axes_page(page: &mut Page)
    ensures
        final(page)@ == page_with(
            old(page)@,
            axes_shown(old(page)@.items, Map::<u8, Axis>::empty()),
        ),
{
    let items = page.items_mut();
    let ghost before = item_views(items@);
    let ghost after = axes_shown(before, Map::<u8, Axis>::empty());
    let mut i: usize = 1;
    while i < items.len()
        invariant
            1 <= i,
            items@.len() == before.len(),
            after == axes_shown(before, Map::<u8, Axis>::empty()),
            forall|j: int|
                1 <= j < i && j < items@.len() ==> (#[trigger] item_views(items@)[j]) == after[j],
            forall|j: int|
                (i <= j < items@.len() || (j == 0 && j < items@.len())) ==> (
                #[trigger] item_views(items@)[j]) == before[j],
        decreases items@.len() - i,
    {
        assert(item_views(items@)[i as int] == before[i as int]);
        pair_to_item(items, i, Command::Unset, Command::Unset);
        int_to_item(items, i, 0);
        i += 1;
    }
    assert(item_views(items@) =~= after);
}

/// The last row of the page of the axes that can show an axis: the rows
/// come in pairs behind the heading, and an axis has a number below 256.
pub const AXIS_ROWS: usize = 512;

/// The axis that a row of the page of the axes belongs to: the rows come
/// in pairs behind the heading, the bindings first, then the threshold.
pub open spec fn axis_of_row(i: int) -> u8 {
    ((i - 1) / 2) as u8
}

/// A row of the page of the axes, showing what `axes` holds for its axis.
/// A threshold outside the bounds of the row is not shown.
pub open spec fn axis_row(axes: Map<u8, Axis>, i: int, item: ItemView) -> ItemView {
    let cleared = cleared_axis_row(i, item);
    if 1 <= i <= AXIS_ROWS && axes.contains_key(axis_of_row(i)) {
        if (i - 1) % 2 == 0 {
            item_with_pair(
                cleared,
                axes[axis_of_row(i)].negative,
                axes[axis_of_row(i)].positive,
            )
        } else {
            item_with_int(cleared, axes[axis_of_row(i)].sensibility)
        }
    } else {
        cleared
    }
}

/// The rows of the page of the axes, showing what `axes` holds.
pub open spec fn axes_shown(items: Seq<ItemView>, axes: Map<u8, Axis>) -> Seq<ItemView> {
    Seq::new(items.len(), |i: int| axis_row(axes, i, items[i]))
}

/// Shows the bindings and thresholds of the axes of a joystick on the page
/// of the axes. An axis that the joystick does not hold is shown as unbound.
pub fn update_axes_page(page: &mut Page, config: &JoystickConfig)
    ensures
        final(page)@ == page_with(
            old(page)@,
            axes_shown(old(page)@.items, config.axes@),
        ),
{
    let items = page.items_mut();
    let ghost before = item_views(items@);
    let ghost after = axes_shown(before, config.axes@);
    let mut i: usize = 1;
    while i < items.len()
        invariant
            1 <= i,
            items@.len() == before.len(),
            after == axes_shown(before, config.axes@),
            forall|j: int|
                1 <= j < i && j < items@.len() ==> (#[trigger] item_views(items@)[j]) == after[j],
            forall|j: int|
                (i <= j < items@.len() || (j == 0 && j < items@.len())) ==> (
                #[trigger] item_views(items@)[j]) == before[j],
        decreases items@.len() - i,
    {
        assert(item_views(items@)[i as int] == before[i as int]);
        pair_to_item(items, i, Command::Unset, Command::Unset);
        int_to_item(items, i, 0);
        if i <= AXIS_ROWS {
            let axis = ((i - 1) / 2) as u8;
            match config.axes.get(&axis) {
                Some(a) => {
                    if (i - 1) % 2 == 0 {
                        pair_to_item(items, i, a.negative, a.positive);
                    } else {
                        int_to_item(items, i, a.sensibility);
                    }
                },
                None => {},
            }
        }
        i += 1;
    }
    assert(item_views(items@) =~= after);
}

/// The bindings that the first `n` rows of the page of the buttons show.
pub open spec fn buttons_of(items: Seq<ItemView>, n: int) -> Map<u8, Command>
    decreases n,
{
    if n <= 0 {
        Map::empty()
    } else {
        match items[n - 1] {
            ItemView::Input(_, InputView::CommandLabel2(c1, _, _, c2)) => if n - 1 < BUTTON_ROWS {
                buttons_of(items, n - 1).insert((n - 1) as u8, c1).insert((n + 9) as u8, c2)
            } else {
                buttons_of(items, n - 1)
            },
            _ => buttons_of(items, n - 1),
        }
    }
}

/// The bindings that the page of the buttons shows: row `i` holds those of
/// button `i` and of button `i + 10`.
pub fn buttons_from_page(page: &Page) -> (r: HashMap<u8, Command>)
    ensures
        r@ == buttons_of(page@.items, page@.items.len() as int),
{
    let items = page.items();
    let mut buttons: HashMap<u8, Command> = HashMap::new();
    let mut i: usize = 0;
    while i < items.len()
        invariant
            i <= items@.len(),
            buttons@ == buttons_of(item_views(items@), i as int),
        decreases items@.len() - i,
    {
        assert(item_views(items@)[i as int] == items@[i as int]@);
        if i < BUTTON_ROWS {
            if let Item::Input(_, Input::CommandLabel2(c1, _, _, c2)) = &items[i] {
                let first = i as u8;
                buttons.insert(first, *c1);
                buttons.insert(first + 10, *c2);
            }
        }
        i += 1;
    }
    buttons
}

/// The last row of a page from which a threshold is read: behind the
/// heading, a row has a number below 256.
pub const THRESHOLD_ROWS: usize = 256;

/// The bindings seen last on the first `n` rows of the page of the axes.
pub open spec fn bindings_seen(items: Seq<ItemView>, n: int) -> (Command, Command)
    decreases n,
{
    if n <= 1 {
        (Command::Unset, Command::Unset)
    } else {
        match items[n - 1] {
            ItemView::Input(_, InputView::Command2(c1, c2)) => (c1, c2),
            _ => bindings_seen(items, n - 1),
        }
    }
}

/// The axes read from the first `n` rows of the page of the axes.
pub open spec fn axes_of(items: Seq<ItemView>, n: int) -> Map<u8, Axis>
    decreases n,
{
    if n <= 1 {
        Map::empty()
    } else {
        match items[n - 1] {
            ItemView::Input(_, InputView::Int(v)) => if n - 1 <= THRESHOLD_ROWS {
                axes_of(items, n - 1).insert(
                    ((n - 2) / 2) as u8,
                    Axis {
                        negative: bindings_seen(items, n - 1).0,
                        positive: bindings_seen(items, n - 1).1,
                        sensibility: v.value,
                    },
                )
            } else {
                axes_of(items, n - 1)
            },
            _ => axes_of(items, n - 1),
        }
    }
}

/// The axes that the page of the axes shows: behind the heading, each row
/// with a threshold makes an axis of the bindings seen last.
pub fn axes_from_page(page: &Page) -> (r: HashMap<u8, Axis>)
    ensures
        r@ == axes_of(page@.items, page@.items.len() as int),
{
    let items = page.items();
    let mut axes: HashMap<u8, Axis> = HashMap::new();
    let mut axis = (Command::Unset, Command::Unset);
    if items.len() == 0 {
        return axes;
    }
    let mut i: usize = 1;
    while i < items.len()
        invariant
            1 <= i <= items@.len(),
            axes@ == axes_of(item_views(items@), i as int),
            axis == bindings_seen(item_views(items@), i as int),
        decreases items@.len() - i,
    {
        assert(item_views(items@)[i as int] == items@[i as int]@);
        match &items[i] {
            Item::Input(_, Input::Command2(c1, c2)) => {
                axis = (*c1, *c2);
            },
            Item::Input(_, Input::Int(v)) => {
                if i <= THRESHOLD_ROWS {
                    axes.insert(((i - 1) / 2) as u8, Axis::new(axis.0, axis.1, v.value()));
                }
            },
            _ => {},
        }
        i += 1;
    }
    axes
}

/// The hat that the first eight rows of the page of a hat show.
pub open spec fn hat_of(items: Seq<ItemView>) -> HatConfig {
    HatConfig {
        up: command_at(items, 0),
        down: command_at(items, 1),
        left: command_at(items, 2),
        right: command_at(items, 3),
        left_up: command_at(items, 4),
        right_up: command_at(items, 5),
        left_down: command_at(items, 6),
        right_down: command_at(items, 7),
    }
}

/// The hats that the page of a hat shows: the first hat, and no other.
pub fn hats_from_page(page: &Page) -> (r: HashMap<u32, HatConfig>)
    ensures
        r@ == Map::<u32, HatConfig>::empty().insert(0, hat_of(page@.items)),
{
    let items = page.items();
    let mut hats: HashMap<u32, HatConfig> = HashMap::new();
    hats.insert(
        0,
        HatConfig {
            up: cmd_from_item(items, 0),
            down: cmd_from_item(items, 1),
            left: cmd_from_item(items, 2),
            right: cmd_from_item(items, 3),
            left_up: cmd_from_item(items, 4),
            right_up: cmd_from_item(items, 5),
            left_down: cmd_from_item(items, 6),
            right_down: cmd_from_item(items, 7),
        },
    );
    hats
}

/// Whether the page of the joysticks shows a number of hats other than `0`.
pub fn joystick_has_hats(page: &Page) -> (r: bool)
    ensures
        r == (7 < page@.items.len() && match page@.items[7] {
            ItemView::Label2(_, value) => value != "0"@,
            _ => false,
        }),
{
    let items = page.items();
    if 7 < items.len() {
        assert(item_views(items@)[7] == items@[7]@);
        if let Item::Label2(_, value) = &items[7] {
            let zero = String::from_str("0");
            return *value != zero;
        }
    }
    false
}

/// The keys of the device as the rows of a page show them.
pub open spec fn m8_keys_of(items: Seq<ItemView>) -> M8KeyboardConfig {
    M8KeyboardConfig {
        up: key_at(items, 0),
        down: key_at(items, 1),
        left: key_at(items, 2),
        right: key_at(items, 3),
        edit: key_at(items, 4),
        option: key_at(items, 5),
        shift: key_at(items, 6),
        play: key_at(items, 7),
    }
}

pub fn m8_keys_from_page(page: &Page) -> (r: M8KeyboardConfig)
    ensures
        r == m8_keys_of(page@.items),
{
    let items = page.items();
    M8KeyboardConfig {
        up: key_from_item(items, 0),
        down: key_from_item(items, 1),
        left: key_from_item(items, 2),
        right: key_from_item(items, 3),
        edit: key_from_item(items, 4),
        option: key_from_item(items, 5),
        shift: key_from_item(items, 6),
        play: key_from_item(items, 7),
    }
}

/// The keys of the host as the rows of a page show them.
pub open spec fn rm8_keys_of(items: Seq<ItemView>) -> RM8KeyboardConfig {
    RM8KeyboardConfig {
        keyjazz: key_at(items, 0),
        velocity_minus: key_at(items, 1),
        velocity_plus: key_at(items, 2),
        octave_minus: key_at(items, 3),
        octave_plus: key_at(items, 4),
    }
}

pub fn rm8_keys_from_page(page: &Page) -> (r: RM8KeyboardConfig)
    ensures
        r == rm8_keys_of(page@.items),
{
    let items = page.items();
    RM8KeyboardConfig {
        keyjazz: key_from_item(items, 0),
        velocity_minus: key_from_item(items, 1),
        velocity_plus: key_from_item(items, 2),
        octave_minus: key_from_item(items, 3),
        octave_plus: key_from_item(items, 4),
    }
}

/// The row `i` with the key `key`.
pub open spec fn key_row(items: Seq<ItemView>, i: int, key: crate::config_keycode::Keycode) -> Seq<
    ItemView,
> {
    with_row(items, i, item_with_key(items[i], key))
}

/// The rows with the keys of the device.
pub open spec fn with_m8_keys(items: Seq<ItemView>, m8: M8KeyboardConfig) -> Seq<ItemView> {
    let s = key_row(items, 0, m8.up);
    let s = key_row(s, 1, m8.down);
    let s = key_row(s, 2, m8.left);
    let s = key_row(s, 3, m8.right);
    let s = key_row(s, 4, m8.edit);
    let s = key_row(s, 5, m8.option);
    let s = key_row(s, 6, m8.shift);
    let s = key_row(s, 7, m8.play);
    s
}

pub fn m8_to_page(page: &mut Page, config: &Config)
    ensures
        final(page)@ == page_with(old(page)@, with_m8_keys(old(page)@.items, config.m8)),
{
    let items = page.items_mut();
    key_to_item(items, 0, config.m8.up);
    key_to_item(items, 1, config.m8.down);
    key_to_item(items, 2, config.m8.left);
    key_to_item(items, 3, config.m8.right);
    key_to_item(items, 4, config.m8.edit);
    key_to_item(items, 5, config.m8.option);
    key_to_item(items, 6, config.m8.shift);
    key_to_item(items, 7, config.m8.play);
}

/// The rows with the keys of the host.
pub open spec fn with_rm8_keys(items: Seq<ItemView>, rm8: RM8KeyboardConfig) -> Seq<ItemView> {
    let s = key_row(items, 0, rm8.keyjazz);
    let s = key_row(s, 1, rm8.velocity_minus);
    let s = key_row(s, 2, rm8.velocity_plus);
    let s = key_row(s, 3, rm8.octave_minus);
    let s = key_row(s, 4, rm8.octave_plus);
    s
}

pub fn rm8_to_page(page: &mut Page, config: &Config)
    ensures
        final(page)@ == page_with(old(page)@, with_rm8_keys(old(page)@.items, config.rm8)),
{
    let items = page.items_mut();
    key_to_item(items, 0, config.rm8.keyjazz);
    key_to_item(items, 1, config.rm8.velocity_minus);
    key_to_item(items, 2, config.rm8.velocity_plus);
    key_to_item(items, 3, config.rm8.octave_minus);
    key_to_item(items, 4, config.rm8.octave_plus);
}

/// The colours as the rows of a page show them.
pub open spec fn theme_of(items: Seq<ItemView>) -> ThemeConfig {
    ThemeConfig {
        text_default: rgb_at(items, 0),
        text_value: rgb_at(items, 1),
        text_title: rgb_at(items, 2),
        text_info: rgb_at(items, 3),
        cursor: rgb_at(items, 4),
        screen: rgb_at(items, 5),
        velocity_fg: rgb_at(items, 6),
        velocity_bg: rgb_at(items, 7),
        octave_fg: rgb_at(items, 8),
        octave_bg: rgb_at(items, 9),
    }
}

pub fn theme_from_page(page: &Page) -> (r: ThemeConfig)
    ensures
        r == theme_of(page@.items),
{
    let items = page.items();
    ThemeConfig {
        text_default: rgb_from_item(items, 0),
        text_value: rgb_from_item(items, 1),
        text_title: rgb_from_item(items, 2),
        text_info: rgb_from_item(items, 3),
        cursor: rgb_from_item(items, 4),
        screen: rgb_from_item(items, 5),
        velocity_fg: rgb_from_item(items, 6),
        velocity_bg: rgb_from_item(items, 7),
        octave_fg: rgb_from_item(items, 8),
        octave_bg: rgb_from_item(items, 9),
    }
}

/// The row `i` with the colour `rgb`.
pub open spec fn rgb_row(items: Seq<ItemView>, i: int, rgb: crate::config_rgb::Rgb) -> Seq<
    ItemView,
> {
    with_row(items, i, item_with_rgb(items[i], rgb))
}

/// The rows with the colours of `theme`.
pub open spec fn with_theme(items: Seq<ItemView>, theme: ThemeConfig) -> Seq<ItemView> {
    let s = rgb_row(items, 0, theme.text_default);
    let s = rgb_row(s, 1, theme.text_value);
    let s = rgb_row(s, 2, theme.text_title);
    let s = rgb_row(s, 3, theme.text_info);
    let s = rgb_row(s, 4, theme.cursor);
    let s = rgb_row(s, 5, theme.screen);
    let s = rgb_row(s, 6, theme.velocity_fg);
    let s = rgb_row(s, 7, theme.velocity_bg);
    let s = rgb_row(s, 8, theme.octave_fg);
    let s = rgb_row(s, 9, theme.octave_bg);
    s
}

pub fn theme_to_page(page: &mut Page, config: &Config)
    ensures
        final(page)@ == page_with(old(page)@, with_theme(old(page)@.items, config.theme)),
{
    let items = page.items_mut();
    rgb_to_item(items, 0, config.theme.text_default);
    rgb_to_item(items, 1, config.theme.text_value);
    rgb_to_item(items, 2, config.theme.text_title);
    rgb_to_item(items, 3, config.theme.text_info);
    rgb_to_item(items, 4, config.theme.cursor);
    rgb_to_item(items, 5, config.theme.screen);
    rgb_to_item(items, 6, config.theme.velocity_fg);
    rgb_to_item(items, 7, config.theme.velocity_bg);
    rgb_to_item(items, 8, config.theme.octave_fg);
    rgb_to_item(items, 9, config.theme.octave_bg);
}

/// The rows with the settings of `app`. A number outside the bounds of its
/// row is not shown.
pub open spec fn with_app(items: Seq<ItemView>, app: AppConfig) -> Seq<ItemView> {
    let s = with_row(items, 0, item_with_bool(items[0], app.fullscreen));
    let s = with_row(s, 1, item_with_int(s[1], app.zoom as usize));
    let s = with_row(s, 2, item_with_font(s[2], app.font));
    let s = with_row(s, 3, item_with_int(s[3], app.key_sensibility as usize));
    let s = with_row(s, 4, item_with_bool(s[4], app.show_fps));
    let s = with_row(s, 5, item_with_int(s[5], app.fps));
    let s = with_row(s, 6, item_with_bool(s[6], app.reconnect));
    s
}

pub fn app_to_page(page: &mut Page, config: &Config)
    ensures
        final(page)@ == page_with(old(page)@, with_app(old(page)@.items, config.app)),
{
    let items = page.items_mut();
    bool_to_item(items, 0, config.app.fullscreen);
    int_to_item(items, 1, config.app.zoom as usize);
    font_to_item(items, 2, config.app.font);
    int_to_item(
        items,
        3,
        #[verifier::truncate]
        (config.app.key_sensibility as usize),
    );
    bool_to_item(items, 4, config.app.show_fps);
    int_to_item(items, 5, config.app.fps);
    bool_to_item(items, 6, config.app.reconnect);
}

/// The settings as the rows of a page show them.
pub open spec fn app_of(items: Seq<ItemView>) -> AppConfig {
    AppConfig {
        fullscreen: bool_at(items, 0),
        zoom: int_at(items, 1) as u32,
        font: font_at(items, 2),
        key_sensibility: int_at(items, 3) as u64,
        show_fps: bool_at(items, 4),
        fps: int_at(items, 5),
        reconnect: bool_at(items, 6),
    }
}

pub fn app_from_page(page: &Page) -> (r: AppConfig)
    ensures
        r == app_of(page@.items),
{
    let items = page.items();
    AppConfig {
        fullscreen: bool_from_item(items, 0),
        zoom: #[verifier::truncate]
        (int_from_item(items, 1) as u32),
        font: font_from_item(items, 2),
        key_sensibility: int_from_item(items, 3) as u64,
        show_fps: bool_from_item(items, 4),
        fps: int_from_item(items, 5),
        reconnect: bool_from_item(items, 6),
    }
}

/// What is known of a joystick that is plugged in.
#[derive(Debug, Clone, PartialEq, Eq)]
pub struct JoystickInfo {
    pub guid: String,
    pub name: String,
    pub axes: usize,
    pub buttons: usize,
    pub hats: usize,
}

/// The greatest number that a joystick can be chosen by while `count` are
/// plugged in; while none is, any number can stand.
pub open spec fn last_joystick(count: usize) -> usize {
    if count == 0 {
        usize::MAX
    } else {
        (count - 1) as usize
    }
}

/// The item that chooses a joystick, with `max` as its greatest number: the
/// number chosen does not stay above it. A bound below the least number of
/// the item is ignored.
pub open spec fn item_with_max(item: ItemView, max: usize) -> ItemView {
    match item {
        ItemView::Input(label, InputView::Int(v)) => if max >= v.min {
            ItemView::Input(
                label,
                InputView::Int(
                    crate::nav_item::IntView {
                        max,
                        value: if v.value > max {
                            max
                        } else {
                            v.value
                        },
                        ..v
                    },
                ),
            )
        } else {
            item
        },
        _ => item,
    }
}

/// The rows of the page of the joysticks with the number of joysticks
/// plugged in: the first row shows it, the second lets one of them be chosen.
pub open spec fn with_joystick_count(items: Seq<ItemView>, count: usize) -> Seq<ItemView> {
    let s = with_row(items, 0, item_with_text(items[0], decimal_text(count as nat)));
    with_row(s, 1, item_with_max(s[1], last_joystick(count)))
}

/// Shows the number of joysticks plugged in on the page of the joysticks,
/// and returns the number of the joystick chosen.
pub fn update_joystick_page(page: &mut Page, count: usize) -> (id: usize)
    ensures
        final(page)@ == page_with(old(page)@, with_joystick_count(old(page)@.items, count)),
        id == int_at(final(page)@.items, 1),
{
    let items = page.items_mut();
    usize_to_label(items, 0, count);
    let ghost labelled = items@;
    let max = if count == 0 {
        usize::MAX
    } else {
        count - 1
    };
    let mut id: usize = 0;
    if 1 < items.len() {
        assert(item_views(labelled)[1] == labelled[1]@);
        let item = &mut items[1];
        proof {
            lemma_item_update(labelled, 1, *final(item));
        }
        match item {
            Item::Input(_, Input::Int(v)) => {
                v.set_max(max);
                id = v.value();
            },
            _ => {},
        }
    }
    id
}

/// The text that shows an identifier: `GUID ` and the identifier.
pub open spec fn guid_label(guid: Seq<char>) -> Seq<char> {
    "GUID "@ + guid
}

/// The rows of the page of the joysticks with what is known of the joystick
/// chosen.
pub open spec fn with_joystick_info(items: Seq<ItemView>, info: JoystickInfo) -> Seq<ItemView> {
    let s = with_row(items, 3, item_with_text(items[3], info.name@));
    let s = with_row(s, 4, item_with_text(s[4], guid_label(info.guid@)));
    let s = with_row(s, 5, item_with_text(s[5], decimal_text(info.axes as nat)));
    let s = with_row(s, 6, item_with_text(s[6], decimal_text(info.buttons as nat)));
    let s = with_row(s, 7, item_with_text(s[7], decimal_text(info.hats as nat)));
    s
}

/// Shows what is known of the joystick chosen on the page of the joysticks.
pub fn fill_joystick_page(page: &mut Page, info: &JoystickInfo)
    ensures
        final(page)@ == page_with(old(page)@, with_joystick_info(old(page)@.items, *info)),
{
    let items = page.items_mut();
    str_to_label(items, 3, info.name.as_str());
    let mut guid = String::from_str("GUID ");
    guid.append(info.guid.as_str());
    str_to_label(items, 4, guid.as_str());
    usize_to_label(items, 5, info.axes);
    usize_to_label(items, 6, info.buttons);
    usize_to_label(items, 7, info.hats);
}

/// The page with the page that hangs under it by the short name `short`
/// replaced by what `change` makes of it; unchanged where none hangs there.
pub open spec fn with_sub(p: PageView, short: char, change: spec_fn(PageView) -> PageView) -> PageView {
    match hook_of(p, short) {
        Some(hook) => rehooked(p, hook, change(hooked(p, hook))),
        None => p,
    }
}

/// The page of the joysticks with the pages of the axes, the buttons and the
/// hat showing the bindings of `joystick`.
pub open spec fn with_bindings(p: PageView, joystick: JoystickConfig) -> PageView {
    let p = with_sub(
        p,
        'A',
        |q: PageView|
            page_with(
                q,
                axes_shown(q.items, joystick.axes@),
            ),
    );
    let p = with_sub(
        p,
        'B',
        |q: PageView|
            page_with(
                q,
                buttons_shown(q.items, joystick.buttons@),
            ),
    );
    with_sub(
        p,
        'H',
        |q: PageView|
            page_with(
                q,
                hats_shown(q.items, first_hat(joystick@.hats)),
            ),
    )
}

/// Shows the bindings of a joystick on the pages that hang under the page of
/// the joysticks: those of the axes, of the buttons and of the hat.
pub fn update_joystick_subpages(page: &mut Page, joystick: &JoystickConfig)
    ensures
        final(page)@ == with_bindings(old(page)@, *joystick),
{
    if let Some(sub) = page.find_mut('A') {
        update_axes_page(sub, joystick);
    }
    if let Some(sub) = page.find_mut('B') {
        update_buttons_page(sub, joystick);
    }
    if let Some(sub) = page.find_mut('H') {
        update_hats_page(sub, joystick);
    }
}

/// The menu with its first main page of the short name `short` replaced by
/// what `change` makes of it; unchanged where there is none.
pub open spec fn with_main(
    v: NavigationView,
    short: char,
    change: spec_fn(PageView) -> PageView,
) -> NavigationView {
    match place_of(v.pages, short, 0) {
        Some(i) => NavigationView { pages: v.pages.update(i, change(v.pages[i])), ..v },
        None => v,
    }
}

/// The menu with its main pages of the axes, the buttons and the hat, where
/// it has such, showing no binding.
pub open spec fn with_bindings_cleared(v: NavigationView) -> NavigationView {
    let v = with_main(
        v,
        'A',
        |q: PageView|
            page_with(q, axes_shown(q.items, Map::<u8, Axis>::empty())),
    );
    let v = with_main(
        v,
        'B',
        |q: PageView|
            page_with(q, buttons_shown(q.items, Map::<u8, Command>::empty())),
    );
    with_main(
        v,
        'H',
        |q: PageView|
            page_with(q, hats_shown(q.items, None)),
    )
}

/// Shows no binding on the main pages of the axes, the buttons and the hat.
pub fn clear_joystick_subpages(menu: &mut Navigation)
    ensures
        final(menu)@ == with_bindings_cleared(old(menu)@),
{
    if let Some(page) = menu.find_mut('A') {
        clear_axes_page(page);
    }
    if let Some(page) = menu.find_mut('B') {
        clear_buttons_page(page);
    }
    if let Some(page) = menu.find_mut('H') {
        clear_hats_page(page);
    }
}

/// Shows the number of joysticks plugged in on the page of the joysticks,
/// and returns the number of the joystick chosen there; nothing where the
/// menu has no page of the joysticks.
pub fn count_joysticks(menu: &mut Navigation, count: usize) -> (id: Option<usize>)
    ensures
        final(menu)@ == with_main(
            old(menu)@,
            'J',
            |q: PageView| page_with(q, with_joystick_count(q.items, count)),
        ),
        match place_of(old(menu)@.pages, 'J', 0) {
            Some(i) => id == Some(
                int_at(with_joystick_count(old(menu)@.pages[i].items, count), 1),
            ),
            None => id is None,
        },
{
    match menu.find_mut('J') {
        Some(page) => Some(update_joystick_page(page, count)),
        None => None,
    }
}

/// The page of the joysticks with what is known of the joystick chosen, and
/// with its bindings where the configuration holds bindings for the
/// identifier that the page then shows.
pub open spec fn with_joystick(
    p: PageView,
    info: Option<JoystickInfo>,
    joysticks: Seq<(String, JoystickConfig)>,
) -> PageView {
    let p = match info {
        Some(info) => page_with(p, with_joystick_info(p.items, info)),
        None => p,
    };
    match shown_guid(p.items) {
        Some(guid) => match joystick_place(joysticks, guid, 0) {
            Some(i) => with_bindings(p, joysticks[i].1),
            None => p,
        },
        None => p,
    }
}

/// Shows the joystick chosen on the page of the joysticks and the pages
/// under it. `info` is what is known of the joystick with the number that
/// [`count_joysticks`] returned, where one is plugged in under that number.
pub fn update_joystick_pages(menu: &mut Navigation, info: Option<&JoystickInfo>, config: &Config)
    ensures
        final(menu)@ == with_main(
            old(menu)@,
            'J',
            |q: PageView|
                with_joystick(
                    q,
                    match info {
                        Some(info) => Some(*info),
                        None => None,
                    },
                    config.joysticks@,
                ),
        ),
{
    if let Some(page) = menu.find_mut('J') {
        if let Some(info) = info {
            fill_joystick_page(page, info);
        }
        if let Some(joystick) = selected_joystick_config(page, config) {
            update_joystick_subpages(page, joystick);
        }
    }
}

} // verus!
