//! Reading and writing the values that the items of a page hold, row by row.

use crate::config_command::Command;
use crate::config_font::Font;
use crate::config_keycode::{Keycode, KEY_POWER};
use crate::config_rgb::Rgb;
use crate::nav_item::{
    BoolView, FontView, Input, InputView, IntView, Item, ItemView, KeyView, RgbView,
};
use crate::nav_page::{item_views, lemma_item_update};
use vstd::prelude::*;
use vstd::string::StringExecFns;

verus! {

/// The digit `d` as a character.
pub open spec fn digit_char(d: nat) -> char {
    "0123456789"@[d as int]
}

/// `n` in decimal digits, without leading zeros.
pub open spec fn decimal_text(n: nat) -> Seq<char>
    decreases n,
{
    if n < 10 {
        seq![digit_char(n)]
    } else {
        decimal_text(n / 10).push(digit_char(n % 10))
    }
}

fn digit(d: usize) -> (r: &'static str)
    requires
        d < 10,
    ensures
        r@ == seq![digit_char(d as nat)],
{
    proof {
        reveal_strlit("0123456789");
        reveal_strlit("0");
        reveal_strlit("1");
        reveal_strlit("2");
        reveal_strlit("3");
        reveal_strlit("4");
        reveal_strlit("5");
        reveal_strlit("6");
        reveal_strlit("7");
        reveal_strlit("8");
        reveal_strlit("9");
    }
    let r = match d {
        0 => "0",
        1 => "1",
        2 => "2",
        3 => "3",
        4 => "4",
        5 => "5",
        6 => "6",
        7 => "7",
        8 => "8",
        _ => "9",
    };
    assert(r@ =~= seq![digit_char(d as nat)]);
    r
}

/// `n` in decimal digits.
pub fn decimal(n: usize) -> (r: String)
    ensures
        r@ == decimal_text(n as nat),
    decreases n,
{
    if n < 10 {
        String::from_str(digit(n))
    } else {
        let mut r = decimal(n / 10);
        r.append(digit(n % 10));
        assert(r@ =~= decimal_text(n as nat));
        r
    }
}

/// The command of row `i`; none where the row holds no single command.
pub open spec fn command_at(items: Seq<ItemView>, i: int) -> Command {
    if 0 <= i < items.len() {
        match items[i] {
            ItemView::Input(_, InputView::Command(c)) => c,
            _ => Command::Unset,
        }
    } else {
        Command::Unset
    }
}

/// The number of row `i`; 0 where the row holds no number.
pub open spec fn int_at(items: Seq<ItemView>, i: int) -> usize {
    if 0 <= i < items.len() {
        match items[i] {
            ItemView::Input(_, InputView::Int(v)) => v.value,
            _ => 0,
        }
    } else {
        0
    }
}

/// The font of row `i`; the first font where the row holds none.
pub open spec fn font_at(items: Seq<ItemView>, i: int) -> Font {
    if 0 <= i < items.len() {
        match items[i] {
            ItemView::Input(_, InputView::Font(f)) => f.value,
            _ => Font::Uppercase,
        }
    } else {
        Font::Uppercase
    }
}

/// The yes or no of row `i`; no where the row holds none.
pub open spec fn bool_at(items: Seq<ItemView>, i: int) -> bool {
    if 0 <= i < items.len() {
        match items[i] {
            ItemView::Input(_, InputView::Bool(b)) => b.value,
            _ => false,
        }
    } else {
        false
    }
}

/// The colour of row `i`; black where the row holds none.
pub open spec fn rgb_at(items: Seq<ItemView>, i: int) -> Rgb {
    if 0 <= i < items.len() {
        match items[i] {
            ItemView::Input(_, InputView::Rgb(c)) => Rgb(c.r, c.g, c.b),
            _ => Rgb(0, 0, 0),
        }
    } else {
        Rgb(0, 0, 0)
    }
}

/// The key of row `i`; the power key where the row holds none.
pub open spec fn key_at(items: Seq<ItemView>, i: int) -> Keycode {
    if 0 <= i < items.len() {
        match items[i] {
            ItemView::Input(_, InputView::Key(k)) => k.value,
            _ => Keycode(KEY_POWER),
        }
    } else {
        Keycode(KEY_POWER)
    }
}

/// The item with the command `cmd`, where it holds a single command.
pub open spec fn item_with_command(item: ItemView, cmd: Command) -> ItemView {
    match item {
        ItemView::Input(label, InputView::Command(_)) => ItemView::Input(
            label,
            InputView::Command(cmd),
        ),
        _ => item,
    }
}

/// The item with the commands `c1` and `c2`, where it holds a pair of
/// commands without a label between them.
pub open spec fn item_with_pair(item: ItemView, c1: Command, c2: Command) -> ItemView {
    match item {
        ItemView::Input(label, InputView::Command2(_, _)) => ItemView::Input(
            label,
            InputView::Command2(c1, c2),
        ),
        _ => item,
    }
}

/// The item with the number `value`, where it holds a number and `value`
/// lies within its bounds.
pub open spec fn item_with_int(item: ItemView, value: usize) -> ItemView {
    match item {
        ItemView::Input(label, InputView::Int(v)) => if v.min <= value <= v.max {
            ItemView::Input(label, InputView::Int(IntView { value, ..v }))
        } else {
            item
        },
        _ => item,
    }
}

/// The item with the font `font`, where it holds a font.
pub open spec fn item_with_font(item: ItemView, font: Font) -> ItemView {
    match item {
        ItemView::Input(label, InputView::Font(f)) => ItemView::Input(
            label,
            InputView::Font(FontView { value: font, ..f }),
        ),
        _ => item,
    }
}

/// The item with the value `value`, where it holds a yes or no.
pub open spec fn item_with_bool(item: ItemView, value: bool) -> ItemView {
    match item {
        ItemView::Input(label, InputView::Bool(b)) => ItemView::Input(
            label,
            InputView::Bool(BoolView { value, ..b }),
        ),
        _ => item,
    }
}

/// The item with the colour `rgb`, where it holds a colour.
pub open spec fn item_with_rgb(item: ItemView, rgb: Rgb) -> ItemView {
    match item {
        ItemView::Input(label, InputView::Rgb(c)) => ItemView::Input(
            label,
            InputView::Rgb(RgbView { r: rgb.0, g: rgb.1, b: rgb.2, ..c }),
        ),
        _ => item,
    }
}

/// The item with the key `key`, where it holds a key binding.
pub open spec fn item_with_key(item: ItemView, key: Keycode) -> ItemView {
    match item {
        ItemView::Input(label, InputView::Key(k)) => ItemView::Input(
            label,
            InputView::Key(KeyView { value: key, ..k }),
        ),
        _ => item,
    }
}

/// The item that shows `text`: as its value where it is a label with a
/// value, as its label or its text where it is a plain label or a text.
pub open spec fn item_with_text(item: ItemView, text: Seq<char>) -> ItemView {
    match item {
        ItemView::Label2(label, _) => ItemView::Label2(label, text),
        ItemView::Label(_, title) => ItemView::Label(text, title),
        ItemView::Text(_) => ItemView::Text(text),
        _ => item,
    }
}

/// The items with `item` in row `i`; unchanged where there is no such row.
pub open spec fn with_row(items: Seq<ItemView>, i: int, item: ItemView) -> Seq<ItemView> {
    if 0 <= i < items.len() {
        items.update(i, item)
    } else {
        items
    }
}

pub fn cmd_from_item(items: &Vec<Item>, i: usize) -> (r: Command)
    ensures
        r == command_at(item_views(items@), i as int),
{
    if i < items.len() {
        if let Item::Input(_, Input::Command(c)) = &items[i] {
            return *c;
        }
    }
    Command::Unset
}

pub fn int_from_item(items: &Vec<Item>, i: usize) -> (r: usize)
    ensures
        r == int_at(item_views(items@), i as int),
{
    if i < items.len() {
        if let Item::Input(_, Input::Int(v)) = &items[i] {
            return v.value();
        }
    }
    0
}

pub fn font_from_item(items: &Vec<Item>, i: usize) -> (r: Font)
    ensures
        r == font_at(item_views(items@), i as int),
{
    if i < items.len() {
        if let Item::Input(_, Input::Font(f)) = &items[i] {
            return f.value();
        }
    }
    Font::Uppercase
}

pub fn bool_from_item(items: &Vec<Item>, i: usize) -> (r: bool)
    ensures
        r == bool_at(item_views(items@), i as int),
{
    if i < items.len() {
        if let Item::Input(_, Input::Bool(b)) = &items[i] {
            return b.value();
        }
    }
    false
}

pub fn rgb_from_item(items: &Vec<Item>, i: usize) -> (r: Rgb)
    ensures
        r == rgb_at(item_views(items@), i as int),
{
    if i < items.len() {
        if let Item::Input(_, Input::Rgb(c)) = &items[i] {
            return c.value();
        }
    }
    Rgb(0, 0, 0)
}

pub fn key_from_item(items: &Vec<Item>, i: usize) -> (r: Keycode)
    ensures
        r == key_at(item_views(items@), i as int),
{
    if i < items.len() {
        if let Item::Input(_, Input::Key(k)) = &items[i] {
            return k.value();
        }
    }
    Keycode(KEY_POWER)
}

pub fn cmd_to_item(items: &mut Vec<Item>, i: usize, cmd: Command)
    ensures
        final(items)@.len() == old(items)@.len(),
        item_views(final(items)@) == with_row(
            item_views(old(items)@),
            i as int,
            item_with_command(item_views(old(items)@)[i as int], cmd),
        ),
{
    if i < items.len() {
        let item = &mut items[i];
        proof {
            lemma_item_update(old(items)@, i as int, *final(item));
        }
        match item {
            Item::Input(_, Input::Command(c)) => {
                *c = cmd;
            },
            _ => {},
        }
    }
}

pub fn pair_to_item(items: &mut Vec<Item>, i: usize, c1: Command, c2: Command)
    ensures
        final(items)@.len() == old(items)@.len(),
        item_views(final(items)@) == with_row(
            item_views(old(items)@),
            i as int,
            item_with_pair(item_views(old(items)@)[i as int], c1, c2),
        ),
{
    if i < items.len() {
        let item = &mut items[i];
        proof {
            lemma_item_update(old(items)@, i as int, *final(item));
        }
        match item {
            Item::Input(_, Input::Command2(a, b)) => {
                *a = c1;
                *b = c2;
            },
            _ => {},
        }
    }
}

pub fn int_to_item(items: &mut Vec<Item>, i: usize, value: usize)
    ensures
        final(items)@.len() == old(items)@.len(),
        item_views(final(items)@) == with_row(
            item_views(old(items)@),
            i as int,
            item_with_int(item_views(old(items)@)[i as int], value),
        ),
{
    if i < items.len() {
        let item = &mut items[i];
        proof {
            lemma_item_update(old(items)@, i as int, *final(item));
        }
        match item {
            Item::Input(_, Input::Int(v)) => {
                v.set_value(value);
            },
            _ => {},
        }
    }
}

pub fn font_to_item(items: &mut Vec<Item>, i: usize, font: Font)
    ensures
        final(items)@.len() == old(items)@.len(),
        item_views(final(items)@) == with_row(
            item_views(old(items)@),
            i as int,
            item_with_font(item_views(old(items)@)[i as int], font),
        ),
{
    if i < items.len() {
        let item = &mut items[i];
        proof {
            lemma_item_update(old(items)@, i as int, *final(item));
        }
        match item {
            Item::Input(_, Input::Font(f)) => {
                f.set_value(font);
            },
            _ => {},
        }
    }
}

pub fn bool_to_item(items: &mut Vec<Item>, i: usize, value: bool)
    ensures
        final(items)@.len() == old(items)@.len(),
        item_views(final(items)@) == with_row(
            item_views(old(items)@),
            i as int,
            item_with_bool(item_views(old(items)@)[i as int], value),
        ),
{
    if i < items.len() {
        let item = &mut items[i];
        proof {
            lemma_item_update(old(items)@, i as int, *final(item));
        }
        match item {
            Item::Input(_, Input::Bool(b)) => {
                b.set_value(value);
            },
            _ => {},
        }
    }
}

pub fn rgb_to_item(items: &mut Vec<Item>, i: usize, value: Rgb)
    ensures
        final(items)@.len() == old(items)@.len(),
        item_views(final(items)@) == with_row(
            item_views(old(items)@),
            i as int,
            item_with_rgb(item_views(old(items)@)[i as int], value),
        ),
{
    if i < items.len() {
        let item = &mut items[i];
        proof {
            lemma_item_update(old(items)@, i as int, *final(item));
        }
        match item {
            Item::Input(_, Input::Rgb(c)) => {
                c.set_value(value);
            },
            _ => {},
        }
    }
}

pub fn key_to_item(items: &mut Vec<Item>, i: usize, value: Keycode)
    ensures
        final(items)@.len() == old(items)@.len(),
        item_views(final(items)@) == with_row(
            item_views(old(items)@),
            i as int,
            item_with_key(item_views(old(items)@)[i as int], value),
        ),
{
    if i < items.len() {
        let item = &mut items[i];
        proof {
            lemma_item_update(old(items)@, i as int, *final(item));
        }
        match item {
            Item::Input(_, Input::Key(k)) => {
                k.set_value(value);
            },
            _ => {},
        }
    }
}

/// Shows `text` in row `i`, where the row is a label or a text.
pub fn str_to_label(items: &mut Vec<Item>, i: usize, text: &str)
    ensures
        final(items)@.len() == old(items)@.len(),
        item_views(final(items)@) == with_row(
            item_views(old(items)@),
            i as int,
            item_with_text(item_views(old(items)@)[i as int], text@),
        ),
{
    if i < items.len() {
        let item = &mut items[i];
        proof {
            lemma_item_update(old(items)@, i as int, *final(item));
        }
        match item {
            Item::Label2(_, value) => {
                *value = String::from_str(text);
            },
            Item::Label(value, _) => {
                *value = String::from_str(text);
            },
            Item::Text(value) => {
                *value = String::from_str(text);
            },
            _ => {},
        }
    }
}

/// Shows the number `n` in row `i`, where the row is a label or a text.
pub fn usize_to_label(items: &mut Vec<Item>, i: usize, n: usize)
    ensures
        final(items)@.len() == old(items)@.len(),
        item_views(final(items)@) == with_row(
            item_views(old(items)@),
            i as int,
            item_with_text(item_views(old(items)@)[i as int], decimal_text(n as nat)),
        ),
{
    let text = decimal(n);
    str_to_label(items, i, text.as_str())
}

} // verus!
