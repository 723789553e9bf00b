//! The items of a menu page and what editing does to them.

use crate::config_command::{command_of, Command};
use crate::config_font::font_of;
use crate::config_keycode::Keycode;
use crate::names::{first_place, names_of, position, same_names};
use vstd::prelude::*;

verus! {

/// What raising a colour channel by `add` gives, and whether the step took
/// place: the channel stops at 255, and a channel already there stays.
pub open spec fn hex_raised(hex: u8, add: u8) -> (u8, bool) {
    if hex + add < 0xff {
        ((hex + add) as u8, true)
    } else if hex != 0xff {
        (0xff, true)
    } else {
        (hex, false)
    }
}

/// What lowering a colour channel by `sub` gives, and whether the step took
/// place: the channel stops at 0, and a channel already there stays.
pub open spec fn hex_lowered(hex: u8, sub: u8) -> (u8, bool) {
    if hex > sub {
        ((hex - sub) as u8, true)
    } else if hex != 0 {
        (0, true)
    } else {
        (hex, false)
    }
}

/// Raises a colour channel by `add`, stopping at 255.
pub fn inc_hex(hex: &mut u8, add: u8) -> (r: bool)
    ensures
        (*final(hex), r) == hex_raised(*old(hex), add),
{
    if *hex < 0xff - add {
        *hex += add;
        return true;
    } else if *hex != 0xff {
        *hex = 0xff;
        return true;
    }
    false
}

/// Lowers a colour channel by `sub`, stopping at 0.
pub fn dec_hex(hex: &mut u8, sub: u8) -> (r: bool)
    ensures
        (*final(hex), r) == hex_lowered(*old(hex), sub),
{
    if *hex > sub {
        *hex -= sub;
        return true;
    } else if *hex != 0 {
        *hex = 0;
        return true;
    }
    false
}

#[derive(Debug, Clone, Copy, PartialEq, Eq, Structural)]
pub enum Direction {
    Above,
    Below,
    Left,
    Right,
}

/// An edit of the item under the cursor. The flag of `Next` and `Prev` asks
/// for the big step.
#[derive(Debug, Clone, Copy, PartialEq, Eq, Structural)]
pub enum Edit {
    Next(bool),
    Prev(bool),
    Click,
    Reset,
}

/// The step that an edit asks for: the big one or one.
pub open spec fn stride(fast: bool, big: int) -> int {
    if fast {
        big
    } else {
        1
    }
}

/// What an edit asks the caller to do.
#[derive(Debug, PartialEq)]
pub enum Action {
    Idle,
    Modified,
    Do(&'static str),
}

/// An [`Action`] with its word as a sequence of characters.
pub enum ActionView {
    Idle,
    Modified,
    Do(Seq<char>),
}

impl View for Action {
    type V = ActionView;

    open spec fn view(&self) -> ActionView {
        match *self {
            Action::Idle => ActionView::Idle,
            Action::Modified => ActionView::Modified,
            Action::Do(word) => ActionView::Do(word@),
        }
    }
}

/// `Modified` where something changed, else `Idle`.
pub open spec fn modified_if(changed: bool) -> ActionView {
    if changed {
        ActionView::Modified
    } else {
        ActionView::Idle
    }
}

impl Action {
    /// Takes over `other` unless an action is noted already or `other` is
    /// idle: the first action since the last reset wins.
    pub fn map(&mut self, other: Action)
        ensures
            *final(self) == if *old(self) is Idle && !(other is Idle) {
                other
            } else {
                *old(self)
            },
    {
        let idle = match self {
            Action::Idle => true,
            _ => false,
        };
        let wanted = match other {
            Action::Idle => false,
            _ => true,
        };
        if idle && wanted {
            *self = other;
        }
    }

    pub fn reset(&mut self)
        ensures
            *final(self) == Action::Idle,
    {
        *self = Action::Idle;
    }
}

/// A yes or no, with the value it goes back to on reset.
#[derive(Debug, PartialEq)]
pub struct Bool {
    init: bool,
    value: bool,
}

pub struct BoolView {
    pub init: bool,
    pub value: bool,
}

impl View for Bool {
    type V = BoolView;

    closed spec fn view(&self) -> BoolView {
        BoolView { init: self.init, value: self.value }
    }
}

/// A yes or no after an edit.
pub open spec fn edited_bool(b: BoolView, edit: Edit) -> (BoolView, ActionView) {
    match edit {
        Edit::Next(_) | Edit::Prev(_) => (
            BoolView { value: !b.value, ..b },
            ActionView::Modified,
        ),
        Edit::Reset => (BoolView { value: b.init, ..b }, modified_if(b.value != b.init)),
        Edit::Click => (b, ActionView::Idle),
    }
}

impl Bool {
    pub fn new(value: bool) -> (r: Self)
        ensures
            r@ == (BoolView { init: value, value }),
    {
        Self { init: value, value }
    }

    pub fn value(&self) -> (r: bool)
        ensures
            r == self@.value,
    {
        self.value
    }

    pub fn set_value(&mut self, value: bool)
        ensures
            final(self)@ == (BoolView { value, ..old(self)@ }),
    {
        self.value = value;
    }

    fn edit(&mut self, edit: Edit) -> (r: Action)
        ensures
            (final(self)@, r@) == edited_bool(old(self)@, edit),
    {
        match edit {
            Edit::Next(_) | Edit::Prev(_) => {
                self.value = !self.value;
                Action::Modified
            },
            Edit::Reset => {
                if self.value != self.init {
                    self.value = self.init;
                    Action::Modified
                } else {
                    Action::Idle
                }
            },
            Edit::Click => Action::Idle,
        }
    }
}

/// A number between two bounds, with the step of a fast edit and the value
/// it goes back to on reset.
#[derive(Debug, PartialEq)]
pub struct Int {
    init: usize,
    value: usize,
    min: usize,
    max: usize,
    step: usize,
}

pub struct IntView {
    pub init: usize,
    pub value: usize,
    pub min: usize,
    pub max: usize,
    pub step: usize,
}

impl View for Int {
    type V = IntView;

    closed spec fn view(&self) -> IntView {
        IntView {
            init: self.init,
            value: self.value,
            min: self.min,
            max: self.max,
            step: self.step,
        }
    }
}

/// A number after an edit: a step up stops at the upper bound, a step down
/// at the lower, and a step from a bound into it changes nothing.
pub open spec fn edited_int(i: IntView, edit: Edit) -> (IntView, ActionView) {
    match edit {
        Edit::Next(fast) => {
            let step = stride(fast, i.step as int);
            if i.value + step < i.max {
                (IntView { value: (i.value + step) as usize, ..i }, ActionView::Modified)
            } else {
                (IntView { value: i.max, ..i }, modified_if(i.value != i.max))
            }
        },
        Edit::Prev(fast) => {
            let step = stride(fast, i.step as int);
            if i.value > i.min + step {
                (IntView { value: (i.value - step) as usize, ..i }, ActionView::Modified)
            } else {
                (IntView { value: i.min, ..i }, modified_if(i.value != i.min))
            }
        },
        Edit::Reset => (IntView { value: i.init, ..i }, modified_if(i.value != i.init)),
        Edit::Click => (i, ActionView::Idle),
    }
}

impl Int {
    pub fn new(value: usize, min: usize, max: usize, step: usize) -> (r: Self)
        ensures
            r@ == (IntView { init: value, value, min, max, step }),
    {
        Self { init: value, value, max, min, step }
    }

    pub fn value(&self) -> (r: usize)
        ensures
            r == self@.value,
    {
        self.value
    }

    /// Moves the upper bound, and the value with it where it would stand
    /// above. A bound below the lower bound is ignored.
    pub fn set_max(&mut self, max: usize)
        ensures
            final(self)@ == if max >= old(self)@.min {
                IntView {
                    max,
                    value: if old(self)@.value > max {
                        max
                    } else {
                        old(self)@.value
                    },
                    ..old(self)@
                }
            } else {
                old(self)@
            },
    {
        if max >= self.min {
            self.max = max;
            if self.value > max {
                self.value = max;
            }
        }
    }

    /// Sets the value. A value outside the bounds is ignored.
    pub fn set_value(&mut self, value: usize)
        ensures
            final(self)@ == if old(self)@.min <= value <= old(self)@.max {
                IntView { value, ..old(self)@ }
            } else {
                old(self)@
            },
    {
        if value >= self.min && value <= self.max {
            self.value = value;
        }
    }

    fn edit(&mut self, edit: Edit) -> (r: Action)
        ensures
            (final(self)@, r@) == edited_int(old(self)@, edit),
    {
        match edit {
            Edit::Next(fast) => {
                let step = if fast {
                    self.step
                } else {
                    1
                };
                if self.value < self.max && step < self.max - self.value {
                    self.value += step;
                    return Action::Modified;
                } else if self.value != self.max {
                    self.value = self.max;
                    return Action::Modified;
                }
            },
            Edit::Prev(fast) => {
                let step = if fast {
                    self.step
                } else {
                    1
                };
                if self.value > self.min && self.value - self.min > step {
                    self.value -= step;
                    return Action::Modified;
                } else if self.value != self.min {
                    self.value = self.min;
                    return Action::Modified;
                }
            },
            Edit::Reset => {
                if self.value != self.init {
                    self.value = self.init;
                    return Action::Modified;
                }
            },
            Edit::Click => {},
        }
        Action::Idle
    }
}

/// A key binding, with the key it goes back to on reset. `selected` marks
/// the binding that waits for a key press, `taken` that the key pressed is
/// taken.
#[derive(Debug, PartialEq)]
pub struct Key {
    init: Keycode,
    value: Keycode,
    selected: bool,
    taken: bool,
}

pub struct KeyView {
    pub init: Keycode,
    pub value: Keycode,
    pub selected: bool,
    pub taken: bool,
}

impl View for Key {
    type V = KeyView;

    closed spec fn view(&self) -> KeyView {
        KeyView {
            init: self.init,
            value: self.value,
            selected: self.selected,
            taken: self.taken,
        }
    }
}

/// A key binding after an edit: a click selects it, a reset gives the first
/// key back.
pub open spec fn edited_key(k: KeyView, edit: Edit) -> (KeyView, ActionView) {
    match edit {
        Edit::Next(_) | Edit::Prev(_) => (k, ActionView::Idle),
        Edit::Reset => (KeyView { value: k.init, ..k }, modified_if(k.value != k.init)),
        Edit::Click => (KeyView { selected: true, ..k }, ActionView::Idle),
    }
}

impl Key {
    pub fn new(value: Keycode) -> (r: Self)
        ensures
            r@ == (KeyView { init: value, value, selected: false, taken: false }),
    {
        Self { init: value, value, selected: false, taken: false }
    }

    pub fn value(&self) -> (r: Keycode)
        ensures
            r == self@.value,
    {
        self.value
    }

    pub fn set_value(&mut self, value: Keycode)
        ensures
            final(self)@ == (KeyView { value, ..old(self)@ }),
    {
        self.value = value;
    }

    pub fn focus(&mut self)
        ensures
            final(self)@ == (KeyView { selected: true, ..old(self)@ }),
    {
        self.selected = true;
    }

    /// Marks the key pressed last as taken by another binding.
    pub fn set_taken(&mut self)
        ensures
            final(self)@ == (KeyView { taken: true, ..old(self)@ }),
    {
        self.taken = true;
    }

    pub fn unfocus(&mut self)
        ensures
            final(self)@ == (KeyView { selected: false, taken: false, ..old(self)@ }),
    {
        self.selected = false;
        self.taken = false;
    }

    /// Whether the binding waits for a key press.
    pub fn selected(&self) -> (r: bool)
        ensures
            r == self@.selected,
    {
        self.selected
    }

    /// Whether the key pressed last was taken.
    pub fn is_taken(&self) -> (r: bool)
        ensures
            r == self@.taken,
    {
        self.taken
    }

    fn edit(&mut self, edit: Edit) -> (r: Action)
        ensures
            (final(self)@, r@) == edited_key(old(self)@, edit),
    {
        match edit {
            Edit::Next(_) | Edit::Prev(_) => {},
            Edit::Reset => {
                if self.value != self.init {
                    self.value = self.init;
                    return Action::Modified;
                }
            },
            Edit::Click => {
                self.selected = true;
            },
        }
        Action::Idle
    }
}

/// A choice of font, with the font it goes back to on reset.
#[derive(Debug, PartialEq)]
pub struct Font {
    init: crate::config_font::Font,
    value: crate::config_font::Font,
}

pub struct FontView {
    pub init: crate::config_font::Font,
    pub value: crate::config_font::Font,
}

impl View for Font {
    type V = FontView;

    closed spec fn view(&self) -> FontView {
        FontView { init: self.init, value: self.value }
    }
}

/// A choice of font after an edit: the fonts are stepped through in their
/// order, without wrapping round.
pub open spec fn edited_font(f: FontView, edit: Edit) -> (FontView, ActionView) {
    match edit {
        Edit::Next(_) => match font_of((f.value.spec_number() + 1) as u8) {
            Some(font) => (FontView { value: font, ..f }, ActionView::Modified),
            None => (f, ActionView::Idle),
        },
        Edit::Prev(_) => if f.value.spec_number() > 0 {
            match font_of((f.value.spec_number() - 1) as u8) {
                Some(font) => (FontView { value: font, ..f }, ActionView::Modified),
                None => (f, ActionView::Idle),
            }
        } else {
            (f, ActionView::Idle)
        },
        Edit::Reset => (FontView { value: f.init, ..f }, modified_if(f.value != f.init)),
        Edit::Click => (f, ActionView::Idle),
    }
}

impl Font {
    pub fn new(value: crate::config_font::Font) -> (r: Self)
        ensures
            r@ == (FontView { init: value, value }),
    {
        Self { init: value, value }
    }

    pub fn value(&self) -> (r: crate::config_font::Font)
        ensures
            r == self@.value,
    {
        self.value
    }

    pub fn set_value(&mut self, value: crate::config_font::Font)
        ensures
            final(self)@ == (FontView { value, ..old(self)@ }),
    {
        self.value = value;
    }

    fn edit(&mut self, edit: Edit) -> (r: Action)
        ensures
            (final(self)@, r@) == edited_font(old(self)@, edit),
    {
        match edit {
            Edit::Next(_) => {
                if let Ok(font) = crate::config_font::Font::try_from(self.value.number() + 1) {
                    self.value = font;
                    return Action::Modified;
                }
            },
            Edit::Prev(_) => {
                let n = self.value.number();
                if n > 0 {
                    if let Ok(font) = crate::config_font::Font::try_from(n - 1) {
                        self.value = font;
                        return Action::Modified;
                    }
                }
            },
            Edit::Reset => {
                if self.value != self.init {
                    self.value = self.init;
                    return Action::Modified;
                }
            },
            Edit::Click => {},
        }
        Action::Idle
    }
}

/// A colour whose channels are edited one by one, with the colour it goes
/// back to on reset.
#[derive(Debug, PartialEq)]
pub struct Rgb {
    r: u8,
    g: u8,
    b: u8,
    r_init: u8,
    g_init: u8,
    b_init: u8,
}

pub struct RgbView {
    pub r: u8,
    pub g: u8,
    pub b: u8,
    pub r_init: u8,
    pub g_init: u8,
    pub b_init: u8,
}

impl View for Rgb {
    type V = RgbView;

    closed spec fn view(&self) -> RgbView {
        RgbView {
            r: self.r,
            g: self.g,
            b: self.b,
            r_init: self.r_init,
            g_init: self.g_init,
            b_init: self.b_init,
        }
    }
}

/// One colour channel after an edit; `init` is the value it is reset to.
pub open spec fn edited_channel(value: u8, init: u8, edit: Edit) -> (u8, bool) {
    match edit {
        Edit::Next(fast) => hex_raised(value, stride(fast, 16) as u8),
        Edit::Prev(fast) => hex_lowered(value, stride(fast, 16) as u8),
        Edit::Reset => (init, value != init),
        Edit::Click => (value, false),
    }
}

/// A colour after an edit: the cursor picks the channel, red first.
pub open spec fn edited_rgb(c: RgbView, edit: Edit, cursor: usize) -> (RgbView, ActionView) {
    if cursor == 0 {
        let (r, changed) = edited_channel(c.r, c.r_init, edit);
        (RgbView { r, ..c }, modified_if(changed))
    } else if cursor == 1 {
        let (g, changed) = edited_channel(c.g, c.g_init, edit);
        (RgbView { g, ..c }, modified_if(changed))
    } else if cursor == 2 {
        let (b, changed) = edited_channel(c.b, c.b_init, edit);
        (RgbView { b, ..c }, modified_if(changed))
    } else {
        (c, ActionView::Idle)
    }
}

/// Edits one colour channel; `init` is the value it is reset to.
fn edit_channel(value: &mut u8, init: u8, edit: Edit) -> (r: bool)
    ensures
        (*final(value), r) == edited_channel(*old(value), init, edit),
{
    match edit {
        Edit::Next(fast) => inc_hex(value, if fast { 16 } else { 1 }),
        Edit::Prev(fast) => dec_hex(value, if fast { 16 } else { 1 }),
        Edit::Reset => {
            if *value != init {
                *value = init;
                true
            } else {
                false
            }
        },
        Edit::Click => false,
    }
}

impl Rgb {
    pub fn new(rgb: crate::config_rgb::Rgb) -> (r: Self)
        ensures
            r@ == (RgbView {
                r: rgb.0,
                g: rgb.1,
                b: rgb.2,
                r_init: rgb.0,
                g_init: rgb.1,
                b_init: rgb.2,
            }),
    {
        Self { r: rgb.0, g: rgb.1, b: rgb.2, r_init: rgb.0, g_init: rgb.1, b_init: rgb.2 }
    }

    pub fn value(&self) -> (r: crate::config_rgb::Rgb)
        ensures
            r == crate::config_rgb::Rgb(self@.r, self@.g, self@.b),
    {
        crate::config_rgb::Rgb(self.r, self.g, self.b)
    }

    pub fn set_value(&mut self, rgb: crate::config_rgb::Rgb)
        ensures
            final(self)@ == (RgbView { r: rgb.0, g: rgb.1, b: rgb.2, ..old(self)@ }),
    {
        self.r = rgb.0;
        self.g = rgb.1;
        self.b = rgb.2;
    }

    fn edit(&mut self, edit: Edit, cursor: usize) -> (r: Action)
        ensures
            (final(self)@, r@) == edited_rgb(old(self)@, edit, cursor),
    {
        let changed = if cursor == 0 {
            let init = self.r_init;
            edit_channel(&mut self.r, init, edit)
        } else if cursor == 1 {
            let init = self.g_init;
            edit_channel(&mut self.g, init, edit)
        } else if cursor == 2 {
            let init = self.b_init;
            edit_channel(&mut self.b, init, edit)
        } else {
            false
        };
        if changed {
            Action::Modified
        } else {
            Action::Idle
        }
    }
}

/// Mathematical model of a [`Device`] or an [`Audio`]: the names to choose
/// from and the place of the one chosen.
pub struct ChoiceView {
    pub list: Seq<Seq<char>>,
    pub selected: usize,
}

/// The choice for a list as it is first shown: `wanted`, where the list has
/// it, else the first name.
pub open spec fn first_choice(list: Seq<Seq<char>>, wanted: Option<Seq<char>>) -> ChoiceView {
    ChoiceView {
        list,
        selected: match wanted {
            Some(name) => match first_place(list, name) {
                Some(i) => i,
                None => 0,
            },
            None => 0,
        },
    }
}

/// The choice after the list was looked up again. `fresh` is the list found,
/// if the lookup worked. A list that differs replaces the old one, and the
/// cursor moves back to its last name where it would stand behind it (to the
/// start, where the list is empty).
pub open spec fn refreshed(c: ChoiceView, fresh: Option<Seq<Seq<char>>>) -> ChoiceView {
    match fresh {
        Some(list) => if list != c.list {
            ChoiceView {
                list,
                selected: if list.len() == 0 {
                    0
                } else if c.selected >= list.len() {
                    (list.len() - 1) as usize
                } else {
                    c.selected
                },
            }
        } else {
            c
        },
        None => c,
    }
}

/// A choice after an edit. The first cursor steps through the names, the
/// second looks the list up again.
pub open spec fn edited_choice(
    c: ChoiceView,
    edit: Edit,
    cursor: usize,
    fresh: Option<Seq<Seq<char>>>,
) -> (ChoiceView, ActionView) {
    match edit {
        Edit::Next(_) => if cursor == 0 && c.selected + 1 < c.list.len() {
            (ChoiceView { selected: (c.selected + 1) as usize, ..c }, ActionView::Modified)
        } else {
            (c, ActionView::Idle)
        },
        Edit::Prev(_) => if cursor == 0 && c.list.len() > 0 && c.selected > 0 {
            (ChoiceView { selected: (c.selected - 1) as usize, ..c }, ActionView::Modified)
        } else {
            (c, ActionView::Idle)
        },
        Edit::Reset => if cursor == 0 && c.selected != 0 {
            (ChoiceView { selected: 0, ..c }, ActionView::Modified)
        } else {
            (c, ActionView::Idle)
        },
        Edit::Click => if cursor == 1 {
            (refreshed(c, fresh), ActionView::Modified)
        } else {
            (c, ActionView::Idle)
        },
    }
}

/// The names of a list that was looked up.
pub open spec fn fresh_names(fresh: Option<Vec<String>>) -> Option<Seq<Seq<char>>> {
    match fresh {
        Some(list) => Some(names_of(list@)),
        None => None,
    }
}

/// The choice of the serial port of the device.
#[derive(Debug, PartialEq)]
pub struct Device {
    list: Vec<String>,
    selected: usize,
}

impl View for Device {
    type V = ChoiceView;

    closed spec fn view(&self) -> ChoiceView {
        ChoiceView { list: names_of(self.list@), selected: self.selected }
    }
}

impl Device {
    /// The choice among the ports of `list`, with `device` chosen where the
    /// list has it.
    pub fn new(list: Vec<String>, device: Option<String>) -> (r: Self)
        ensures
            r@ == first_choice(names_of(list@), wanted_name(device)),
    {
        let selected = match device {
            Some(name) => match position(&list, &name) {
                Some(i) => i,
                None => 0,
            },
            None => 0,
        };
        Self { list, selected }
    }

    /// The port chosen, if the cursor stands on one.
    pub fn value(&self) -> (r: Option<&str>)
        ensures
            match r {
                Some(name) => self@.selected < self@.list.len() && name@
                    == self@.list[self@.selected as int],
                None => self@.selected >= self@.list.len(),
            },
    {
        if self.selected < self.list.len() {
            return Some(self.list[self.selected].as_str());
        }
        None
    }

    /// Takes over the list of ports that was looked up.
    pub fn update_list(&mut self, fresh: Option<Vec<String>>)
        ensures
            final(self)@ == refreshed(old(self)@, fresh_names(fresh)),
    {
        if let Some(list) = fresh {
            if !same_names(&list, &self.list) {
                self.list = list;
                if self.list.len() == 0 {
                    self.selected = 0;
                } else if self.selected >= self.list.len() {
                    self.selected = self.list.len() - 1;
                }
            }
        }
    }

    fn edit(&mut self, edit: Edit, cursor: usize, fresh: Option<Vec<String>>) -> (r: Action)
        ensures
            (final(self)@, r@) == edited_choice(old(self)@, edit, cursor, fresh_names(fresh)),
    {
        match edit {
            Edit::Next(_) => {
                if cursor == 0 && self.selected < self.list.len() && self.selected + 1
                    < self.list.len() {
                    self.selected += 1;
                    return Action::Modified;
                }
            },
            Edit::Prev(_) => {
                if cursor == 0 && !self.list.is_empty() && self.selected > 0 {
                    self.selected -= 1;
                    return Action::Modified;
                }
            },
            Edit::Reset => {
                if cursor == 0 && self.selected != 0 {
                    self.selected = 0;
                    return Action::Modified;
                }
            },
            Edit::Click => {
                if cursor == 1 {
                    self.update_list(fresh);
                    return Action::Modified;
                }
            },
        }
        Action::Idle
    }
}

/// The choice of the audio capture device.
#[derive(Debug, PartialEq)]
pub struct Audio {
    list: Vec<String>,
    selected: usize,
}

impl View for Audio {
    type V = ChoiceView;

    closed spec fn view(&self) -> ChoiceView {
        ChoiceView { list: names_of(self.list@), selected: self.selected }
    }
}

impl Audio {
    /// The choice among the capture devices of `list`, with `device` chosen
    /// where the list has it.
    pub fn new(list: Vec<String>, device: Option<String>) -> (r: Self)
        ensures
            r@ == first_choice(names_of(list@), wanted_name(device)),
    {
        let selected = match device {
            Some(name) => match position(&list, &name) {
                Some(i) => i,
                None => 0,
            },
            None => 0,
        };
        Self { list, selected }
    }

    /// The capture device chosen, if the cursor stands on one.
    pub fn value(&self) -> (r: Option<&str>)
        ensures
            match r {
                Some(name) => self@.selected < self@.list.len() && name@
                    == self@.list[self@.selected as int],
                None => self@.selected >= self@.list.len(),
            },
    {
        if self.selected < self.list.len() {
            return Some(self.list[self.selected].as_str());
        }
        None
    }

    /// Takes over the list of capture devices that was looked up.
    pub fn update_list(&mut self, fresh: Option<Vec<String>>)
        ensures
            final(self)@ == refreshed(old(self)@, fresh_names(fresh)),
    {
        if let Some(list) = fresh {
            if !same_names(&list, &self.list) {
                self.list = list;
                if self.list.len() == 0 {
                    self.selected = 0;
                } else if self.selected >= self.list.len() {
                    self.selected = self.list.len() - 1;
                }
            }
        }
    }

    fn edit(&mut self, edit: Edit, cursor: usize, fresh: Option<Vec<String>>) -> (r: Action)
        ensures
            (final(self)@, r@) == edited_choice(old(self)@, edit, cursor, fresh_names(fresh)),
    {
        match edit {
            Edit::Next(_) => {
                if cursor == 0 && self.selected < self.list.len() && self.selected + 1
                    < self.list.len() {
                    self.selected += 1;
                    return Action::Modified;
                }
            },
            Edit::Prev(_) => {
                if cursor == 0 && !self.list.is_empty() && self.selected > 0 {
                    self.selected -= 1;
                    return Action::Modified;
                }
            },
            Edit::Reset => {
                if cursor == 0 && self.selected != 0 {
                    self.selected = 0;
                    return Action::Modified;
                }
            },
            Edit::Click => {
                if cursor == 1 {
                    self.update_list(fresh);
                    return Action::Modified;
                }
            },
        }
        Action::Idle
    }
}

/// A command after an edit: the commands are stepped through in their
/// order, without wrapping round. A reset unbinds; `always` tells whether a
/// reset counts as a change also where nothing was bound.
pub open spec fn edited_command(c: Command, edit: Edit, always: bool) -> (Command, ActionView) {
    match edit {
        Edit::Next(_) => match command_of((c.spec_number() + 1) as u8) {
            Some(next) => (next, ActionView::Modified),
            None => (c, ActionView::Idle),
        },
        Edit::Prev(_) => if c.spec_number() > 0 {
            match command_of((c.spec_number() - 1) as u8) {
                Some(prev) => (prev, ActionView::Modified),
                None => (c, ActionView::Idle),
            }
        } else {
            (c, ActionView::Idle)
        },
        Edit::Reset => (Command::Unset, modified_if(always || c != Command::Unset)),
        Edit::Click => (c, ActionView::Idle),
    }
}

/// Edits one command binding.
fn edit_command(c: &mut Command, edit: Edit, always: bool) -> (r: Action)
    ensures
        (*final(c), r@) == edited_command(*old(c), edit, always),
{
    match edit {
        Edit::Next(_) => {
            if let Ok(cmd) = Command::try_from(c.number() + 1) {
                *c = cmd;
                return Action::Modified;
            }
        },
        Edit::Prev(_) => {
            let n = c.number();
            if n > 0 {
                if let Ok(cmd) = Command::try_from(n - 1) {
                    *c = cmd;
                    return Action::Modified;
                }
            }
        },
        Edit::Reset => {
            if always || !c.is_none() {
                *c = Command::Unset;
                return Action::Modified;
            }
        },
        Edit::Click => {},
    }
    Action::Idle
}

/// A pair of commands after an edit: the cursor picks the command.
pub open spec fn edited_pair(c1: Command, c2: Command, edit: Edit, cursor: usize) -> (
    Command,
    Command,
    ActionView,
) {
    if edit is Click {
        (c1, c2, ActionView::Idle)
    } else if cursor == 0 {
        let (c, action) = edited_command(c1, edit, true);
        (c, c2, action)
    } else if cursor == 1 {
        let (c, action) = edited_command(c2, edit, true);
        (c1, c, action)
    } else {
        (c1, c2, ActionView::Idle)
    }
}

/// Edits the command of a pair that the cursor stands on.
fn edit_pair(c1: &mut Command, c2: &mut Command, edit: Edit, cursor: usize) -> (r: Action)
    ensures
        (*final(c1), *final(c2), r@) == edited_pair(*old(c1), *old(c2), edit, cursor),
{
    if cursor == 0 {
        edit_command(c1, edit, true)
    } else if cursor == 1 {
        edit_command(c2, edit, true)
    } else {
        Action::Idle
    }
}

/// What an item holds that can be edited.
#[derive(Debug, PartialEq)]
pub enum Input {
    Bool(Bool),
    Int(Int),
    Command(Command),
    Command2(Command, Command),
    CommandLabel2(Command, String, usize, Command),
    Key(Key),
    Rgb(Rgb),
    Font(Font),
    Device(Device),
    Audio(Audio),
}

pub enum InputView {
    Bool(BoolView),
    Int(IntView),
    Command(Command),
    Command2(Command, Command),
    CommandLabel2(Command, Seq<char>, usize, Command),
    Key(KeyView),
    Rgb(RgbView),
    Font(FontView),
    Device(ChoiceView),
    Audio(ChoiceView),
}

impl View for Input {
    type V = InputView;

    open spec fn view(&self) -> InputView {
        match *self {
            Input::Bool(b) => InputView::Bool(b@),
            Input::Int(i) => InputView::Int(i@),
            Input::Command(c) => InputView::Command(c),
            Input::Command2(c1, c2) => InputView::Command2(c1, c2),
            Input::CommandLabel2(c1, label, pad, c2) => InputView::CommandLabel2(
                c1,
                label@,
                pad,
                c2,
            ),
            Input::Key(k) => InputView::Key(k@),
            Input::Rgb(c) => InputView::Rgb(c@),
            Input::Font(f) => InputView::Font(f@),
            Input::Device(d) => InputView::Device(d@),
            Input::Audio(a) => InputView::Audio(a@),
        }
    }
}

/// An input after an edit.
pub open spec fn edited_input(
    input: InputView,
    edit: Edit,
    cursor: usize,
    fresh: Option<Seq<Seq<char>>>,
) -> (InputView, ActionView) {
    match input {
        InputView::Bool(b) => {
            let (b, action) = edited_bool(b, edit);
            (InputView::Bool(b), action)
        },
        InputView::Int(i) => {
            let (i, action) = edited_int(i, edit);
            (InputView::Int(i), action)
        },
        InputView::Command(c) => {
            let (c, action) = edited_command(c, edit, false);
            (InputView::Command(c), action)
        },
        InputView::Command2(c1, c2) => {
            let (c1, c2, action) = edited_pair(c1, c2, edit, cursor);
            (InputView::Command2(c1, c2), action)
        },
        InputView::CommandLabel2(c1, label, pad, c2) => {
            let (c1, c2, action) = edited_pair(c1, c2, edit, cursor);
            (InputView::CommandLabel2(c1, label, pad, c2), action)
        },
        InputView::Key(k) => {
            let (k, action) = edited_key(k, edit);
            (InputView::Key(k), action)
        },
        InputView::Rgb(c) => {
            let (c, action) = edited_rgb(c, edit, cursor);
            (InputView::Rgb(c), action)
        },
        InputView::Font(f) => {
            let (f, action) = edited_font(f, edit);
            (InputView::Font(f), action)
        },
        InputView::Device(d) => {
            let (d, action) = edited_choice(d, edit, cursor, fresh);
            (InputView::Device(d), action)
        },
        InputView::Audio(a) => {
            let (a, action) = edited_choice(a, edit, cursor, fresh);
            (InputView::Audio(a), action)
        },
    }
}

/// How many places the cursor has on an input.
pub open spec fn input_cursors(input: InputView) -> usize {
    match input {
        InputView::Bool(_) | InputView::Int(_) | InputView::Font(_) | InputView::Command(_) => 1,
        InputView::Command2(..)
        | InputView::CommandLabel2(..)
        | InputView::Device(_)
        | InputView::Audio(_) => 2,
        InputView::Rgb(_) => 3,
        InputView::Key(k) => if k.selected {
            1
        } else {
            0
        },
    }
}

/// Which list an edit wants looked up before it is made.
#[derive(Debug, Clone, Copy, PartialEq, Eq, Structural)]
pub enum Lookup {
    /// The serial ports at which a device answers.
    Ports,
    /// The audio capture devices.
    CaptureDevices,
}

impl Input {
    fn cursors(&self) -> (r: usize)
        ensures
            r == input_cursors(self@),
    {
        match self {
            Input::Bool(_) | Input::Int(_) | Input::Font(_) | Input::Command(_) => 1,
            Input::Command2(..)
            | Input::CommandLabel2(..)
            | Input::Device(..)
            | Input::Audio(..) => 2,
            Input::Rgb(_) => 3,
            Input::Key(k) => {
                if k.selected {
                    1
                } else {
                    0
                }
            },
        }
    }

    fn edit(&mut self, edit: Edit, cursor: usize, fresh: Option<Vec<String>>) -> (r: Action)
        ensures
            (final(self)@, r@) == edited_input(old(self)@, edit, cursor, fresh_names(fresh)),
    {
        match self {
            Input::Bool(b) => b.edit(edit),
            Input::Int(i) => i.edit(edit),
            Input::Command(c) => edit_command(c, edit, false),
            Input::Command2(c1, c2) => {
                match edit {
                    Edit::Click => Action::Idle,
                    _ => edit_pair(c1, c2, edit, cursor),
                }
            },
            Input::CommandLabel2(c1, _, _, c2) => {
                match edit {
                    Edit::Click => Action::Idle,
                    _ => edit_pair(c1, c2, edit, cursor),
                }
            },
            Input::Key(k) => k.edit(edit),
            Input::Rgb(c) => c.edit(edit, cursor),
            Input::Font(f) => f.edit(edit),
            Input::Device(d) => d.edit(edit, cursor, fresh),
            Input::Audio(a) => a.edit(edit, cursor, fresh),
        }
    }
}

/// A line of a menu page.
#[derive(Debug, PartialEq)]
pub enum Item {
    Empty,
    Text(String),
    Label(String, bool),
    Label2(String, String),
    Title2(String, String, usize),
    Input(String, Input),
    Action2(&'static str, &'static str),
    Action3(&'static str, &'static str, &'static str),
}

pub enum ItemView {
    Empty,
    Text(Seq<char>),
    Label(Seq<char>, bool),
    Label2(Seq<char>, Seq<char>),
    Title2(Seq<char>, Seq<char>, usize),
    Input(Seq<char>, InputView),
    Action2(Seq<char>, Seq<char>),
    Action3(Seq<char>, Seq<char>, Seq<char>),
}

impl View for Item {
    type V = ItemView;

    open spec fn view(&self) -> ItemView {
        match *self {
            Item::Empty => ItemView::Empty,
            Item::Text(text) => ItemView::Text(text@),
            Item::Label(label, title) => ItemView::Label(label@, title),
            Item::Label2(label, value) => ItemView::Label2(label@, value@),
            Item::Title2(left, right, size) => ItemView::Title2(left@, right@, size),
            Item::Input(label, input) => ItemView::Input(label@, input@),
            Item::Action2(a1, a2) => ItemView::Action2(a1@, a2@),
            Item::Action3(a1, a2, a3) => ItemView::Action3(a1@, a2@, a3@),
        }
    }
}

/// How many places the cursor has on an item; an item with none is skipped.
pub open spec fn cursors_of(item: ItemView) -> usize {
    match item {
        ItemView::Action2(..) => 2,
        ItemView::Action3(..) => 3,
        ItemView::Input(_, input) => input_cursors(input),
        _ => 0,
    }
}

/// An item after an edit, and what the edit asks the caller to do: a click
/// on a word of an action line asks for that word, an edit of an input
/// changes the input.
pub open spec fn edited(
    item: ItemView,
    edit: Edit,
    cursor: usize,
    fresh: Option<Seq<Seq<char>>>,
) -> (ItemView, ActionView) {
    match item {
        ItemView::Action2(a1, a2) => if !(edit is Click) {
            (item, ActionView::Idle)
        } else if cursor == 0 {
            (item, ActionView::Do(a1))
        } else if cursor == 1 {
            (item, ActionView::Do(a2))
        } else {
            (item, ActionView::Idle)
        },
        ItemView::Action3(a1, a2, a3) => if !(edit is Click) {
            (item, ActionView::Idle)
        } else if cursor == 0 {
            (item, ActionView::Do(a1))
        } else if cursor == 1 {
            (item, ActionView::Do(a2))
        } else if cursor == 2 {
            (item, ActionView::Do(a3))
        } else {
            (item, ActionView::Idle)
        },
        ItemView::Input(label, input) => {
            let (input, action) = edited_input(input, edit, cursor, fresh);
            (ItemView::Input(label, input), action)
        },
        _ => (item, ActionView::Idle),
    }
}

/// The list that an edit of `item` takes over, if it takes one over.
pub open spec fn lookup_of(item: ItemView, edit: Edit, cursor: usize) -> Option<Lookup> {
    if edit is Click && cursor == 1 {
        match item {
            ItemView::Input(_, InputView::Device(_)) => Some(Lookup::Ports),
            ItemView::Input(_, InputView::Audio(_)) => Some(Lookup::CaptureDevices),
            _ => None,
        }
    } else {
        None
    }
}

impl Item {
    pub fn cursors(&self) -> (r: usize)
        ensures
            r == cursors_of(self@),
    {
        match self {
            Item::Action2(..) => 2,
            Item::Action3(..) => 3,
            Item::Input(_, input) => input.cursors(),
            Item::Empty | Item::Text(_) | Item::Label(..) | Item::Label2(..) | Item::Title2(..) => {
                0
            },
        }
    }

    /// Which list the caller is to look up and hand to [`Item::edit`] with
    /// this edit.
    pub fn lookup(&self, edit: Edit, cursor: usize) -> (r: Option<Lookup>)
        ensures
            r == lookup_of(self@, edit, cursor),
    {
        let click = match edit {
            Edit::Click => true,
            _ => false,
        };
        if click && cursor == 1 {
            match self {
                Item::Input(_, Input::Device(_)) => Some(Lookup::Ports),
                Item::Input(_, Input::Audio(_)) => Some(Lookup::CaptureDevices),
                _ => None,
            }
        } else {
            None
        }
    }

    /// Applies an edit at the place `cursor` of the item. `fresh` is the list
    /// that [`Item::lookup`] asked for, where the lookup worked.
    pub fn edit(&mut self, edit: Edit, cursor: usize, fresh: Option<Vec<String>>) -> (r: Action)
        ensures
            (final(self)@, r@) == edited(old(self)@, edit, cursor, fresh_names(fresh)),
    {
        match self {
            Item::Empty | Item::Text(_) | Item::Label(..) | Item::Label2(..) | Item::Title2(..) => {
                Action::Idle
            },
            Item::Action2(a1, a2) => {
                match edit {
                    Edit::Click => {
                        if cursor == 0 {
                            Action::Do(*a1)
                        } else if cursor == 1 {
                            Action::Do(*a2)
                        } else {
                            Action::Idle
                        }
                    },
                    _ => Action::Idle,
                }
            },
            Item::Action3(a1, a2, a3) => {
                match edit {
                    Edit::Click => {
                        if cursor == 0 {
                            Action::Do(*a1)
                        } else if cursor == 1 {
                            Action::Do(*a2)
                        } else if cursor == 2 {
                            Action::Do(*a3)
                        } else {
                            Action::Idle
                        }
                    },
                    _ => Action::Idle,
                }
            },
            Item::Input(_, input) => input.edit(edit, cursor, fresh),
        }
    }
}

/// A line that edits a yes or no.
pub open spec fn bool_item(label: Seq<char>, value: bool) -> ItemView {
    ItemView::Input(label, InputView::Bool(BoolView { init: value, value }))
}

/// A line that edits a number.
pub open spec fn int_item(label: Seq<char>, value: usize, min: usize, max: usize, step: usize) -> ItemView {
    ItemView::Input(label, InputView::Int(IntView { init: value, value, min, max, step }))
}

/// A line that edits the choice of a font.
pub open spec fn font_item(label: Seq<char>, value: crate::config_font::Font) -> ItemView {
    ItemView::Input(label, InputView::Font(FontView { init: value, value }))
}

/// A line that edits a colour.
pub open spec fn rgb_item(label: Seq<char>, rgb: crate::config_rgb::Rgb) -> ItemView {
    ItemView::Input(
        label,
        InputView::Rgb(
            RgbView {
                r: rgb.0,
                g: rgb.1,
                b: rgb.2,
                r_init: rgb.0,
                g_init: rgb.1,
                b_init: rgb.2,
            },
        ),
    )
}

/// A line that edits a key binding.
pub open spec fn key_item(label: Seq<char>, value: Keycode) -> ItemView {
    ItemView::Input(
        label,
        InputView::Key(KeyView { init: value, value, selected: false, taken: false }),
    )
}

/// The name that a choice is to start with, as a sequence of characters.
pub open spec fn wanted_name(device: Option<String>) -> Option<Seq<char>> {
    match device {
        Some(name) => Some(name@),
        None => None,
    }
}

} // verus!
