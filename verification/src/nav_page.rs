//! A page of the menu: its items, the cursor on them, and the pages that
//! hang above and below it.

use crate::config_command::Command;
use crate::config_keycode::Keycode;
use crate::nav_item::{
    bool_item, cursors_of, edited, first_choice, font_item, fresh_names, int_item, key_item,
    lookup_of, rgb_item, wanted_name, Action, ActionView, Audio, Bool, Device, Direction, Edit,
    Font, Input, InputView, Int, Item, ItemView, Key, Lookup, Rgb,
};
use crate::names::names_of;
use vstd::prelude::*;
use vstd::string::StringExecFns;
use vstd::utf8::encode_utf8;

verus! {

/// A page of the menu.
#[derive(Debug, PartialEq)]
pub struct Page {
    name: String,
    short: char,
    items: Vec<Item>,
    pad: usize,
    cursor: (usize, usize),
    cursor_rect: (i32, i32, u32, u32),
    above: Vec<Page>,
    below: Vec<Page>,
}

/// Mathematical model of a [`Page`]. The cursor is a column and a row: the
/// place on an item and the item.
pub struct PageView {
    pub name: Seq<char>,
    pub short: char,
    pub items: Seq<ItemView>,
    /// Width of the widest label, in bytes.
    pub pad: usize,
    pub cursor: (usize, usize),
    /// The rectangle at which the cursor was drawn last.
    pub cursor_rect: (i32, i32, u32, u32),
    pub above: Seq<PageView>,
    pub below: Seq<PageView>,
}

/// The items by their views.
pub open spec fn item_views(items: Seq<Item>) -> Seq<ItemView> {
    Seq::new(items.len(), |i: int| items[i]@)
}

/// The pages by their views.
pub open spec fn page_views(pages: Seq<Page>) -> Seq<PageView>
    decreases pages,
{
    Seq::new(
        pages.len(),
        |i: int|
            if 0 <= i < pages.len() {
                pages[i].view()
            } else {
                arbitrary()
            },
    )
}

impl View for Page {
    type V = PageView;

    closed spec fn view(&self) -> PageView
        decreases self,
    {
        PageView {
            name: self.name@,
            short: self.short,
            items: item_views(self.items@),
            pad: self.pad,
            cursor: self.cursor,
            cursor_rect: self.cursor_rect,
            above: page_views(self.above@),
            below: page_views(self.below@),
        }
    }
}

/// The last row before `bound` on which the cursor can stand.
pub open spec fn last_stop(items: Seq<ItemView>, bound: int) -> Option<int>
    decreases bound,
{
    if bound <= 0 {
        None
    } else if cursors_of(items[bound - 1]) > 0 {
        Some(bound - 1)
    } else {
        last_stop(items, bound - 1)
    }
}

/// The first row from `from` on which the cursor can stand.
pub open spec fn first_stop(items: Seq<ItemView>, from: int) -> Option<int>
    decreases items.len() - from,
{
    if from >= items.len() {
        None
    } else if cursors_of(items[from]) > 0 {
        Some(from)
    } else {
        first_stop(items, from + 1)
    }
}

/// The column `x` moved onto `item`: not behind its last place.
pub open spec fn clamped(x: usize, item: ItemView) -> usize {
    let places = cursors_of(item);
    if places > 0 && x > places - 1 {
        (places - 1) as usize
    } else {
        x
    }
}

/// The page with the cursor on row `row`.
pub open spec fn on_row(p: PageView, row: int) -> PageView {
    PageView { cursor: (clamped(p.cursor.0, p.items[row]), row as usize), ..p }
}

/// The page with the cursor at the start of the first row on which it can
/// stand; a page without such a row keeps its cursor.
pub open spec fn with_cursor_reset(p: PageView) -> PageView {
    match first_stop(p.items, 0) {
        Some(row) => PageView { cursor: (0, row as usize), ..p },
        None => p,
    }
}

/// The page after a move of the cursor. Up and down the cursor skips the
/// rows on which it cannot stand, and stays where no row is left; left and
/// right it stays within the item.
pub open spec fn moved(p: PageView, direction: Direction) -> PageView {
    let rows = p.items.len() as int;
    match direction {
        Direction::Above => match last_stop(
            p.items,
            if p.cursor.1 < rows {
                p.cursor.1 as int
            } else {
                rows
            },
        ) {
            Some(row) => on_row(p, row),
            None => p,
        },
        Direction::Below => match first_stop(p.items, p.cursor.1 + 1) {
            Some(row) => on_row(p, row),
            None => p,
        },
        Direction::Left => if p.cursor.0 > 0 {
            PageView { cursor: ((p.cursor.0 - 1) as usize, p.cursor.1), ..p }
        } else {
            p
        },
        Direction::Right => if p.cursor.1 < rows && p.cursor.0 + 1 < cursors_of(
            p.items[p.cursor.1 as int],
        ) {
            PageView { cursor: ((p.cursor.0 + 1) as usize, p.cursor.1), ..p }
        } else {
            p
        },
    }
}

/// The width that an item asks of the label column, in bytes.
pub open spec fn label_width(item: ItemView) -> nat {
    match item {
        ItemView::Label(label, _) | ItemView::Label2(label, _) | ItemView::Input(label, _) => {
            encode_utf8(label).len()
        },
        _ => 0,
    }
}

/// A page without items and without pages above or below it.
pub open spec fn empty_page(name: Seq<char>, short: char) -> PageView {
    PageView {
        name,
        short,
        items: Seq::empty(),
        pad: 0,
        cursor: (0, 0),
        cursor_rect: (0, 0, 0, 0),
        above: Seq::empty(),
        below: Seq::empty(),
    }
}

/// The page with one more item at its end.
pub open spec fn with_item(p: PageView, item: ItemView) -> PageView {
    PageView {
        items: p.items.push(item),
        pad: if label_width(item) > p.pad {
            label_width(item) as usize
        } else {
            p.pad
        },
        ..p
    }
}

/// The page after an edit of the item under the cursor, and what the edit
/// asks the caller to do. A cursor that stands on no item edits nothing.
pub open spec fn edited_page(p: PageView, edit: Edit, fresh: Option<Seq<Seq<char>>>) -> (
    PageView,
    ActionView,
) {
    if p.cursor.1 < p.items.len() {
        let row = p.cursor.1 as int;
        let (item, action) = edited(p.items[row], edit, p.cursor.0, fresh);
        (PageView { items: p.items.update(row, item), ..p }, action)
    } else {
        (p, ActionView::Idle)
    }
}

/// The first place in `pages` of a page with the short name `short`.
pub open spec fn place_of(pages: Seq<PageView>, short: char, from: int) -> Option<int>
    decreases pages.len() - from,
{
    if from >= pages.len() || from < 0 {
        None
    } else if pages[from].short == short {
        Some(from)
    } else {
        place_of(pages, short, from + 1)
    }
}

/// A place that was found is the first place of a page with the short name.
pub proof fn lemma_place_of(pages: Seq<PageView>, short: char, from: int)
    requires
        0 <= from,
    ensures
        match place_of(pages, short, from) {
            Some(i) => {
                &&& from <= i < pages.len()
                &&& pages[i].short == short
                &&& forall|j: int| from <= j < i ==> pages[j].short != short
            },
            None => forall|j: int| from <= j < pages.len() ==> pages[j].short != short,
        },
    decreases pages.len() - from,
{
    if from < pages.len() && pages[from].short != short {
        lemma_place_of(pages, short, from + 1);
    }
}

/// Where a page hangs under another: among those above or those below it,
/// and at which place.
pub enum Hook {
    Above(int),
    Below(int),
}

/// Where the page with the short name `short` hangs under `p`: those above
/// are searched first.
pub open spec fn hook_of(p: PageView, short: char) -> Option<Hook> {
    match place_of(p.above, short, 0) {
        Some(i) => Some(Hook::Above(i)),
        None => match place_of(p.below, short, 0) {
            Some(i) => Some(Hook::Below(i)),
            None => None,
        },
    }
}

/// Where the page with the number `index` hangs: positive numbers count
/// the pages above from 1, negative ones those below.
pub open spec fn hook_at(p: PageView, index: isize) -> Option<Hook> {
    if index > 0 && index - 1 < p.above.len() {
        Some(Hook::Above(index - 1))
    } else if index < 0 && -index - 1 < p.below.len() {
        Some(Hook::Below(-index - 1))
    } else {
        None
    }
}

/// The page that hangs at `hook` under `p`.
pub open spec fn hooked(p: PageView, hook: Hook) -> PageView {
    match hook {
        Hook::Above(i) => p.above[i],
        Hook::Below(i) => p.below[i],
    }
}

/// The page `p` with `page` in place of the page that hangs at `hook`.
pub open spec fn rehooked(p: PageView, hook: Hook, page: PageView) -> PageView {
    match hook {
        Hook::Above(i) => PageView { above: p.above.update(i, page), ..p },
        Hook::Below(i) => PageView { below: p.below.update(i, page), ..p },
    }
}

/// Replacing an item replaces its view.
pub proof fn lemma_item_update(items: Seq<Item>, i: int, item: Item)
    requires
        0 <= i < items.len(),
    ensures
        item_views(items.update(i, item)) == item_views(items).update(i, item@),
{
    assert(item_views(items.update(i, item)) =~= item_views(items).update(i, item@));
}

/// The views of the pages are the views page by page.
pub proof fn lemma_page_views(pages: Seq<Page>)
    ensures
        page_views(pages).len() == pages.len(),
        forall|i: int| 0 <= i < pages.len() ==> #[trigger] page_views(pages)[i] == pages[i]@,
{
}

/// Replacing a page replaces its view.
pub proof fn lemma_views_update(pages: Seq<Page>, i: int, page: Page)
    requires
        0 <= i < pages.len(),
    ensures
        page_views(pages.update(i, page)) == page_views(pages).update(i, page@),
{
    assert(page_views(pages.update(i, page)) =~= page_views(pages).update(i, page@));
}

/// Finds the first page with the short name `short`.
pub fn find_place(pages: &Vec<Page>, short: char) -> (r: Option<usize>)
    ensures
        match r {
            Some(i) => i < pages@.len() && place_of(page_views(pages@), short, 0) == Some(
                i as int,
            ),
            None => place_of(page_views(pages@), short, 0) is None,
        },
{
    let ghost views = page_views(pages@);
    let mut i: usize = 0;
    while i < pages.len()
        invariant
            i <= pages@.len(),
            views == page_views(pages@),
            place_of(views, short, 0) == place_of(views, short, i as int),
        decreases pages@.len() - i,
    {
        if pages[i].short == short {
            return Some(i);
        }
        i += 1;
    }
    None
}

impl Page {
    /// An empty page.
    pub fn new(name: &str, short: char) -> (r: Self)
        ensures
            r@ == empty_page(name@, short),
    {
        let r = Self {
            name: String::from_str(name),
            short,
            items: Vec::new(),
            pad: 0,
            cursor: (0, 0),
            cursor_rect: (0, 0, 0, 0),
            above: Vec::new(),
            below: Vec::new(),
        };
        assert(r@.items =~= Seq::<ItemView>::empty());
        assert(r@.above =~= Seq::<PageView>::empty());
        assert(r@.below =~= Seq::<PageView>::empty());
        r
    }

    pub fn name(&self) -> (r: &str)
        ensures
            r@ == self@.name,
    {
        self.name.as_str()
    }

    pub fn short_name(&self) -> (r: char)
        ensures
            r == self@.short,
    {
        self.short
    }

    /// Width of the widest label, in bytes.
    pub fn pad(&self) -> (r: usize)
        ensures
            r == self@.pad,
    {
        self.pad
    }

    /// The cursor: the place on the item, and the row of the item.
    pub fn cursor(&self) -> (r: (usize, usize))
        ensures
            r == self@.cursor,
    {
        self.cursor
    }

    /// The rectangle at which the cursor was drawn last.
    pub fn cursor_rect(&self) -> (r: (i32, i32, u32, u32))
        ensures
            r == self@.cursor_rect,
    {
        self.cursor_rect
    }

    /// Notes the rectangle at which the cursor was drawn.
    pub fn set_cursor_rect(&mut self, rect: (i32, i32, u32, u32))
        ensures
            final(self)@ == (PageView { cursor_rect: rect, ..old(self)@ }),
    {
        self.cursor_rect = rect;
    }

    pub fn items(&self) -> (r: &Vec<Item>)
        ensures
            item_views(r@) == self@.items,
    {
        &self.items
    }

    pub fn items_mut(&mut self) -> (r: &mut Vec<Item>)
        ensures
            item_views(r@) == old(self)@.items,
            final(self)@ == (PageView { items: item_views(final(r)@), ..old(self)@ }),
    {
        &mut self.items
    }

    pub fn above(&self) -> (r: &Vec<Page>)
        ensures
            page_views(r@) == self@.above,
    {
        &self.above
    }

    pub fn below(&self) -> (r: &Vec<Page>)
        ensures
            page_views(r@) == self@.below,
    {
        &self.below
    }

    /// Hangs `page` above this one, behind those that hang there, with its
    /// cursor reset.
    pub fn add_page_above(&mut self, page: Page)
        ensures
            final(self)@ == (PageView {
                above: old(self)@.above.push(with_cursor_reset(page@)),
                ..old(self)@
            }),
    {
        let mut page = page;
        page.reset_cursor();
        self.above.push(page);
        proof {
            lemma_page_views(self.above@);
            lemma_page_views(old(self).above@);
        }
        assert(self@.above =~= old(self)@.above.push(with_cursor_reset(page@)));
    }

    /// Hangs `page` below this one, behind those that hang there, with its
    /// cursor reset.
    pub fn add_page_below(&mut self, page: Page)
        ensures
            final(self)@ == (PageView {
                below: old(self)@.below.push(with_cursor_reset(page@)),
                ..old(self)@
            }),
    {
        let mut page = page;
        page.reset_cursor();
        self.below.push(page);
        proof {
            lemma_page_views(self.below@);
            lemma_page_views(old(self).below@);
        }
        assert(self@.below =~= old(self)@.below.push(with_cursor_reset(page@)));
    }

    /// The first page with the short name `short` that hangs above or below
    /// this one.
    pub fn find(&self, short: char) -> (r: Option<&Page>)
        ensures
            match hook_of(self@, short) {
                Some(hook) => r is Some && r.unwrap()@ == hooked(self@, hook),
                None => r is None,
            },
    {
        proof {
            lemma_page_views(self.above@);
            lemma_page_views(self.below@);
        }
        match find_place(&self.above, short) {
            Some(i) => Some(&self.above[i]),
            None => match find_place(&self.below, short) {
                Some(i) => Some(&self.below[i]),
                None => None,
            },
        }
    }

    fn above_mut(&mut self, i: usize) -> (r: &mut Page)
        requires
            i < old(self).above@.len(),
        ensures
            r@ == old(self)@.above[i as int],
            final(self)@ == rehooked(old(self)@, Hook::Above(i as int), final(r)@),
    {
        proof {
            lemma_page_views(self.above@);
        }
        let r = &mut self.above[i];
        proof {
            lemma_views_update(old(self).above@, i as int, *final(r));
        }
        r
    }

    fn below_mut(&mut self, i: usize) -> (r: &mut Page)
        requires
            i < old(self).below@.len(),
        ensures
            r@ == old(self)@.below[i as int],
            final(self)@ == rehooked(old(self)@, Hook::Below(i as int), final(r)@),
    {
        proof {
            lemma_page_views(self.below@);
        }
        let r = &mut self.below[i];
        proof {
            lemma_views_update(old(self).below@, i as int, *final(r));
        }
        r
    }

    /// As [`Page::find`], for changing the page found.
    pub fn find_mut(&mut self, short: char) -> (r: Option<&mut Page>)
        ensures
            match hook_of(old(self)@, short) {
                Some(hook) => {
                    &&& r is Some
                    &&& r.unwrap()@ == hooked(old(self)@, hook)
                    &&& final(self)@ == rehooked(old(self)@, hook, final(r.unwrap())@)
                },
                None => r is None && final(self)@ == old(self)@,
            },
    {
        proof {
            lemma_page_views(self.above@);
            lemma_page_views(self.below@);
        }
        match find_place(&self.above, short) {
            Some(i) => {
                Some(self.above_mut(i))
            },
            None => match find_place(&self.below, short) {
                Some(i) => {
                    Some(self.below_mut(i))
                },
                None => None,
            },
        }
    }

    /// The page with the number `index`: this page for 0, the pages above
    /// for 1 and up, the pages below for -1 and down.
    pub fn get(&self, index: isize) -> (r: Option<&Page>)
        ensures
            index == 0 ==> r == Some(self),
            index != 0 ==> match hook_at(self@, index) {
                Some(hook) => r is Some && r.unwrap()@ == hooked(self@, hook),
                None => r is None,
            },
    {
        proof {
            lemma_page_views(self.above@);
            lemma_page_views(self.below@);
        }
        if index < 0 {
            let place: usize = if index == isize::MIN {
                isize::MAX as usize
            } else {
                (-index - 1) as usize
            };
            if place < self.below.len() {
                Some(&self.below[place])
            } else {
                None
            }
        } else if index == 0 {
            Some(self)
        } else {
            let place: usize = (index - 1) as usize;
            if place < self.above.len() {
                Some(&self.above[place])
            } else {
                None
            }
        }
    }

    /// As [`Page::get`], for changing the page found.
    pub fn get_mut(&mut self, index: isize) -> (r: Option<&mut Page>)
        ensures
            index == 0 ==> {
                &&& r is Some
                &&& *r.unwrap() == *old(self)
                &&& *final(self) == *final(r.unwrap())
            },
            index != 0 ==> match hook_at(old(self)@, index) {
                Some(hook) => {
                    &&& r is Some
                    &&& r.unwrap()@ == hooked(old(self)@, hook)
                    &&& final(self)@ == rehooked(old(self)@, hook, final(r.unwrap())@)
                },
                None => r is None && final(self)@ == old(self)@,
            },
    {
        proof {
            lemma_page_views(self.above@);
            lemma_page_views(self.below@);
        }
        if index < 0 {
            let place: usize = if index == isize::MIN {
                isize::MAX as usize
            } else {
                (-index - 1) as usize
            };
            if place < self.below.len() {
                Some(self.below_mut(place))
            } else {
                None
            }
        } else if index == 0 {
            Some(self)
        } else {
            let place: usize = (index - 1) as usize;
            if place < self.above.len() {
                Some(self.above_mut(place))
            } else {
                None
            }
        }
    }

    /// Puts the cursor at the start of the first item on which it can stand.
    pub fn reset_cursor(&mut self)
        ensures
            final(self)@ == with_cursor_reset(old(self)@),
    {
        let mut i: usize = 0;
        while i < self.items.len()
            invariant
                i <= self.items@.len(),
                *self == *old(self),
                first_stop(self@.items, 0) == first_stop(self@.items, i as int),
            decreases self.items@.len() - i,
        {
            if self.items[i].cursors() > 0 {
                self.cursor = (0, i);
                return ;
            }
            i += 1;
        }
    }

    fn reset_cursor_x(&mut self)
        requires
            old(self).cursor.1 < old(self).items@.len(),
        ensures
            final(self)@ == on_row(old(self)@, old(self)@.cursor.1 as int),
    {
        let cursors = self.items[self.cursor.1].cursors();
        if cursors > 0 && self.cursor.0 > cursors - 1 {
            self.cursor.0 = cursors - 1;
        }
    }

    /// Which list the caller is to look up and hand to [`Page::edit_item`]
    /// with this edit.
    pub fn lookup(&self, edit: Edit) -> (r: Option<Lookup>)
        ensures
            r == if self@.cursor.1 < self@.items.len() {
                lookup_of(self@.items[self@.cursor.1 as int], edit, self@.cursor.0)
            } else {
                None
            },
    {
        if self.cursor.1 < self.items.len() {
            self.items[self.cursor.1].lookup(edit, self.cursor.0)
        } else {
            None
        }
    }

    /// Applies an edit to the item under the cursor. `fresh` is the list that
    /// [`Page::lookup`] asked for, where the lookup worked.
    pub fn edit_item(&mut self, edit: Edit, fresh: Option<Vec<String>>) -> (r: Action)
        ensures
            (final(self)@, r@) == edited_page(old(self)@, edit, fresh_names(fresh)),
    {
        let cursor = self.cursor.0;
        let row = self.cursor.1;
        if row < self.items.len() {
            let r = self.items[row].edit(edit, cursor, fresh);
            assert(self@.items =~= old(self)@.items.update(row as int, self.items@[row as int]@));
            r
        } else {
            Action::Idle
        }
    }

    /// Moves the cursor.
    pub fn cursor_move(&mut self, direction: Direction)
        ensures
            final(self)@ == moved(old(self)@, direction),
    {
        match direction {
            Direction::Above => {
                let rows = self.items.len();
                let mut i: usize = if self.cursor.1 < rows {
                    self.cursor.1
                } else {
                    rows
                };
                let ghost bound = i as int;
                while i > 0
                    invariant
                        i <= self.items@.len(),
                        *self == *old(self),
                        direction is Above,
                        bound == if self.cursor.1 < self.items@.len() {
                            self.cursor.1 as int
                        } else {
                            self.items@.len() as int
                        },
                        last_stop(self@.items, bound) == last_stop(self@.items, i as int),
                    decreases i,
                {
                    i -= 1;
                    assert(self@.items[i as int] == self.items@[i as int]@);
                    if self.items[i].cursors() > 0 {
                        assert(last_stop(self@.items, bound) == Some(i as int));
                        self.cursor.1 = i;
                        self.reset_cursor_x();
                        return ;
                    }
                }
            },
            Direction::Below => {
                let rows = self.items.len();
                if self.cursor.1 < rows {
                    let mut i: usize = self.cursor.1 + 1;
                    let ghost from = i as int;
                    while i < rows
                        invariant
                            rows == self.items@.len(),
                            i <= rows,
                            *self == *old(self),
                            direction is Below,
                            from == self.cursor.1 + 1,
                            first_stop(self@.items, from) == first_stop(self@.items, i as int),
                        decreases rows - i,
                    {
                        assert(self@.items[i as int] == self.items@[i as int]@);
                        if self.items[i].cursors() > 0 {
                            assert(first_stop(self@.items, from) == Some(i as int));
                            self.cursor.1 = i;
                            self.reset_cursor_x();
                            return ;
                        }
                        i += 1;
                    }
                }
            },
            Direction::Left => {
                if self.cursor.0 > 0 {
                    self.cursor.0 -= 1;
                }
            },
            Direction::Right => {
                if self.cursor.1 < self.items.len() {
                    let places = self.items[self.cursor.1].cursors();
                    if places > 0 && self.cursor.0 < places - 1 {
                        self.cursor.0 += 1;
                    }
                }
            },
        }
    }

    /// Appends an item; the label column grows to the width of its label.
    pub fn add_item(&mut self, item: Item)
        ensures
            final(self)@ == with_item(old(self)@, item@),
    {
        let len = match &item {
            Item::Empty
            | Item::Text(..)
            | Item::Title2(..)
            | Item::Action2(..)
            | Item::Action3(..) => 0,
            Item::Label(label, _) => label.as_str().as_bytes().len(),
            Item::Label2(label, _) => label.as_str().as_bytes().len(),
            Item::Input(label, _) => label.as_str().as_bytes().len(),
        };
        assert(len == label_width(item@));
        if len > self.pad {
            self.pad = len;
        }
        self.items.push(item);
        assert(self@.items =~= old(self)@.items.push(item@));
    }

    pub fn add_bool(&mut self, label: &str, value: bool)
        ensures
            final(self)@ == with_item(old(self)@, bool_item(label@, value)),
    {
        self.add_item(Item::Input(String::from_str(label), Input::Bool(Bool::new(value))))
    }

    pub fn add_int(&mut self, label: &str, value: usize, min: usize, max: usize, step: usize)
        ensures
            final(self)@ == with_item(old(self)@, int_item(label@, value, min, max, step)),
    {
        self.add_item(
            Item::Input(String::from_str(label), Input::Int(Int::new(value, min, max, step))),
        )
    }

    pub fn add_empty(&mut self)
        ensures
            final(self)@ == with_item(old(self)@, ItemView::Empty),
    {
        self.add_item(Item::Empty)
    }

    pub fn add_title(&mut self, label: &str)
        ensures
            final(self)@ == with_item(old(self)@, ItemView::Label(label@, true)),
    {
        self.add_item(Item::Label(String::from_str(label), true))
    }

    pub fn add_text(&mut self, text: &str)
        ensures
            final(self)@ == with_item(old(self)@, ItemView::Text(text@)),
    {
        self.add_item(Item::Text(String::from_str(text)))
    }

    pub fn add_font(&mut self, label: &str, value: crate::config_font::Font)
        ensures
            final(self)@ == with_item(old(self)@, font_item(label@, value)),
    {
        self.add_item(Item::Input(String::from_str(label), Input::Font(Font::new(value))))
    }

    pub fn add_action2(&mut self, action1: &'static str, action2: &'static str)
        ensures
            final(self)@ == with_item(old(self)@, ItemView::Action2(action1@, action2@)),
    {
        self.add_item(Item::Action2(action1, action2))
    }

    pub fn add_action3(
        &mut self,
        action1: &'static str,
        action2: &'static str,
        action3: &'static str,
    )
        ensures
            final(self)@ == with_item(
                old(self)@,
                ItemView::Action3(action1@, action2@, action3@),
            ),
    {
        self.add_item(Item::Action3(action1, action2, action3))
    }

    pub fn add_rgb(&mut self, label: &str, rgb: crate::config_rgb::Rgb)
        ensures
            final(self)@ == with_item(old(self)@, rgb_item(label@, rgb)),
    {
        self.add_item(Item::Input(String::from_str(label), Input::Rgb(Rgb::new(rgb))))
    }

    pub fn add_key(&mut self, label: &str, value: Keycode)
        ensures
            final(self)@ == with_item(old(self)@, key_item(label@, value)),
    {
        self.add_item(Item::Input(String::from_str(label), Input::Key(Key::new(value))))
    }

    pub fn add_info(&mut self, label: &str, info: &str)
        ensures
            final(self)@ == with_item(old(self)@, ItemView::Label2(label@, info@)),
    {
        self.add_item(Item::Label2(String::from_str(label), String::from_str(info)))
    }

    pub fn add_title2(&mut self, title1: &str, title2: &str, size: usize)
        ensures
            final(self)@ == with_item(old(self)@, ItemView::Title2(title1@, title2@, size)),
    {
        self.add_item(Item::Title2(String::from_str(title1), String::from_str(title2), size))
    }

    pub fn add_cmd(&mut self, label: &str, cmd: Command)
        ensures
            final(self)@ == with_item(
                old(self)@,
                ItemView::Input(label@, InputView::Command(cmd)),
            ),
    {
        self.add_item(Item::Input(String::from_str(label), Input::Command(cmd)))
    }

    pub fn add_cmd2(&mut self, label: &str, cmd1: Command, cmd2: Command)
        ensures
            final(self)@ == with_item(
                old(self)@,
                ItemView::Input(label@, InputView::Command2(cmd1, cmd2)),
            ),
    {
        self.add_item(Item::Input(String::from_str(label), Input::Command2(cmd1, cmd2)))
    }

    pub fn add_cmd_label2(
        &mut self,
        label1: &str,
        cmd1: Command,
        label2: &str,
        cmd2: Command,
        pad: usize,
    )
        ensures
            final(self)@ == with_item(
                old(self)@,
                ItemView::Input(label1@, InputView::CommandLabel2(cmd1, label2@, pad, cmd2)),
            ),
    {
        self.add_item(
            Item::Input(
                String::from_str(label1),
                Input::CommandLabel2(cmd1, String::from_str(label2), pad, cmd2),
            ),
        )
    }

    /// Appends the choice of the device's port. `list` holds the ports at
    /// which a device answers now.
    pub fn add_device(&mut self, label: &str, list: Vec<String>, device: Option<String>)
        ensures
            final(self)@ == with_item(
                old(self)@,
                ItemView::Input(
                    label@,
                    InputView::Device(first_choice(names_of(list@), wanted_name(device))),
                ),
            ),
    {
        self.add_item(
            Item::Input(String::from_str(label), Input::Device(Device::new(list, device))),
        )
    }

    /// Appends the choice of the capture device. `list` holds the capture
    /// devices present now.
    pub fn add_audio(&mut self, label: &str, list: Vec<String>, device: Option<String>)
        ensures
            final(self)@ == with_item(
                old(self)@,
                ItemView::Input(
                    label@,
                    InputView::Audio(first_choice(names_of(list@), wanted_name(device))),
                ),
            ),
    {
        self.add_item(
            Item::Input(String::from_str(label), Input::Audio(Audio::new(list, device))),
        )
    }
}

} // verus!
