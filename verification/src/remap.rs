//! Rebinding the keys of a page one after the other: each key pressed goes
//! to the binding that waits for it, unless an earlier binding had it.

use crate::config_keycode::Keycode;
use crate::nav::{shown, with_shown, Navigation, NavigationView};
use crate::nav_item::{Input, InputView, Item, ItemView, KeyView};
use crate::nav_page::{item_views, lemma_item_update, with_cursor_reset, PageView};
use vstd::prelude::*;

verus! {

/// The progress of a rebinding.
pub struct Remap {
    pos: usize,
    keys: Vec<Keycode>,
}

/// Mathematical model of a [`Remap`]: the row of the binding that waits for
/// a key (`usize::MAX` before the first key event), and the keys that the
/// bindings had when the rebinding began, in the order of their rows.
pub struct RemapView {
    pub pos: usize,
    pub keys: Seq<Keycode>,
}

impl View for Remap {
    type V = RemapView;

    closed spec fn view(&self) -> RemapView {
        RemapView { pos: self.pos, keys: self.keys@ }
    }
}

/// The key binding that an item holds, if it holds one.
pub open spec fn key_of(item: ItemView) -> Option<KeyView> {
    match item {
        ItemView::Input(_, InputView::Key(k)) => Some(k),
        _ => None,
    }
}

/// The item with the key binding `k` in place of the one it holds.
pub open spec fn with_key(item: ItemView, k: KeyView) -> ItemView {
    match item {
        ItemView::Input(label, InputView::Key(_)) => ItemView::Input(label, InputView::Key(k)),
        _ => item,
    }
}

/// The keys of the first `n` items, in their order.
pub open spec fn key_values(items: Seq<ItemView>, n: int) -> Seq<Keycode>
    decreases n,
{
    if n <= 0 {
        Seq::empty()
    } else {
        match key_of(items[n - 1]) {
            Some(k) => key_values(items, n - 1).push(k.value),
            None => key_values(items, n - 1),
        }
    }
}

/// The items with the binding of row `row`, if it is one, waiting for a key.
pub open spec fn focused(items: Seq<ItemView>, row: int) -> Seq<ItemView> {
    if 0 <= row < items.len() {
        match key_of(items[row]) {
            Some(k) => items.update(row, with_key(items[row], KeyView { selected: true, ..k })),
            None => items,
        }
    } else {
        items
    }
}

/// The items with no binding waiting for a key.
pub open spec fn unfocused(items: Seq<ItemView>) -> Seq<ItemView> {
    Seq::new(
        items.len(),
        |i: int|
            match key_of(items[i]) {
                Some(k) => with_key(items[i], KeyView { selected: false, taken: false, ..k }),
                None => items[i],
            },
    )
}

/// Whether `key` is among the first `n` of `keys`.
pub open spec fn taken_before(keys: Seq<Keycode>, n: int, key: Keycode) -> bool {
    exists|i: int| 0 <= i < n && i < keys.len() && keys[i] == key
}

/// The progress and the items after a key event.
///
/// The first event only arms the rebinding. After that, where the row that
/// waits holds a binding: a key that an earlier binding had is marked as
/// taken; another key is bound, and the next row waits. Where the row holds
/// no binding, nothing changes.
pub open spec fn remapped(r: RemapView, items: Seq<ItemView>, key: Keycode) -> (
    RemapView,
    Seq<ItemView>,
) {
    if r.pos == usize::MAX {
        (RemapView { pos: 0, ..r }, items)
    } else if r.pos < items.len() {
        let row = r.pos as int;
        let (items, done) = bound(items, row, taken_before(r.keys, row, key), key);
        if done {
            (RemapView { pos: (r.pos + 1) as usize, ..r }, focused(items, row + 1))
        } else {
            (r, items)
        }
    } else {
        (r, items)
    }
}

/// The menu whose page shown has the items `items` and its cursor reset, and
/// which asks for its screen to be cleared.
pub open spec fn with_items(v: NavigationView, items: Seq<ItemView>) -> NavigationView {
    NavigationView {
        changed: true,
        ..with_shown(v, with_cursor_reset(PageView { items, ..shown(v).unwrap() }))
    }
}

/// The menu after a rebinding on the page shown was given up or came to
/// its end: no binding of the page waits for a key.
pub open spec fn released(v: NavigationView) -> NavigationView {
    with_items(v, unfocused(shown(v).unwrap().items))
}

/// The menu after a rebinding began on the page shown: the binding of the
/// first row, if it is one, waits for a key.
pub open spec fn begun(v: NavigationView) -> NavigationView {
    with_items(v, focused(shown(v).unwrap().items, 0))
}

/// The keys that a rebinding on the page shown begins with.
pub open spec fn first_progress(v: NavigationView) -> RemapView {
    RemapView {
        pos: usize::MAX,
        keys: key_values(shown(v).unwrap().items, shown(v).unwrap().items.len() as int),
    }
}

/// Lets the binding of row `row`, if it is one, wait for a key.
fn focus_row(items: &mut Vec<Item>, row: usize)
    ensures
        item_views(final(items)@) == focused(item_views(old(items)@), row as int),
{
    if row < items.len() {
        let item = &mut items[row];
        proof {
            lemma_item_update(old(items)@, row as int, *final(item));
        }
        match item {
            Item::Input(_, Input::Key(k)) => {
                k.focus();
            },
            _ => {},
        }
    }
}

/// The items after the key event `key` for the binding of row `row`, and
/// whether the key was bound. `taken` tells whether an earlier binding had
/// the key.
pub open spec fn bound(items: Seq<ItemView>, row: int, taken: bool, key: Keycode) -> (
    Seq<ItemView>,
    bool,
) {
    match key_of(items[row]) {
        Some(k) => if taken {
            (items.update(row, with_key(items[row], KeyView { taken: true, ..k })), false)
        } else {
            (
                items.update(
                    row,
                    with_key(
                        items[row],
                        KeyView { selected: false, taken: false, value: key, ..k },
                    ),
                ),
                true,
            )
        },
        None => (items, false),
    }
}

/// Hands a key to the binding of row `row`.
fn bind_row(items: &mut Vec<Item>, row: usize, taken: bool, key: Keycode) -> (r: bool)
    requires
        row < old(items)@.len(),
    ensures
        (item_views(final(items)@), r) == bound(item_views(old(items)@), row as int, taken, key),
{
    let item = &mut items[row];
    proof {
        lemma_item_update(old(items)@, row as int, *final(item));
    }
    match item {
        Item::Input(_, Input::Key(k)) => {
            if taken {
                k.set_taken();
                false
            } else {
                k.unfocus();
                k.set_value(key);
                true
            }
        },
        _ => false,
    }
}

/// Whether `key` is among the first `n` of `keys`.
fn is_taken(keys: &Vec<Keycode>, n: usize, key: Keycode) -> (r: bool)
    ensures
        r == taken_before(keys@, n as int, key),
{
    let mut i: usize = 0;
    while i < n && i < keys.len()
        invariant
            forall|j: int| 0 <= j < i && j < keys@.len() ==> keys@[j] != key,
        decreases keys@.len() - i,
    {
        if keys[i] == key {
            return true;
        }
        i += 1;
    }
    false
}

impl Remap {
    /// Begins the rebinding of the keys of the page shown: notes the keys of
    /// its bindings, and lets the binding of the first row wait for a key.
    pub fn new(menu: &mut Navigation) -> (r: Self)
        requires
            shown(old(menu)@) is Some,
        ensures
            r@ == first_progress(old(menu)@),
            final(menu)@ == begun(old(menu)@),
    {
        let mut keys: Vec<Keycode> = Vec::new();
        let page = menu.page_mut();
        let items = page.items_mut();
        let ghost views = item_views(items@);
        let mut i: usize = 0;
        while i < items.len()
            invariant
                i <= items@.len(),
                views == item_views(items@),
                keys@ == key_values(views, i as int),
            decreases items@.len() - i,
        {
            assert(views[i as int] == items@[i as int]@);
            match &items[i] {
                Item::Input(_, Input::Key(k)) => {
                    keys.push(k.value());
                },
                _ => {},
            }
            i += 1;
        }
        focus_row(items, 0);
        page.reset_cursor();
        menu.dirty();
        Self { pos: usize::MAX, keys }
    }

    /// Takes a key that was pressed. Returns whether every binding has its
    /// key.
    pub fn remap(&mut self, menu: &mut Navigation, key: Keycode) -> (r: bool)
        requires
            shown(old(menu)@) is Some,
        ensures
            final(self)@ == remapped(old(self)@, shown(old(menu)@).unwrap().items, key).0,
            final(menu)@ == with_items(
                old(menu)@,
                remapped(old(self)@, shown(old(menu)@).unwrap().items, key).1,
            ),
            r == (final(self)@.pos >= final(self)@.keys.len()),
    {
        let page = menu.page_mut();
        if self.pos == usize::MAX {
            self.pos = 0;
        } else {
            let items = page.items_mut();
            if self.pos < items.len() {
                let taken = is_taken(&self.keys, self.pos, key);
                if bind_row(items, self.pos, taken, key) {
                    self.pos += 1;
                    focus_row(items, self.pos);
                }
            }
        }
        page.reset_cursor();
        menu.dirty();
        self.pos >= self.keys.len()
    }

    /// Gives the rebinding up: no binding waits for a key any more.
    pub fn abort(&mut self, menu: &mut Navigation)
        requires
            shown(old(menu)@) is Some,
        ensures
            final(self)@ == old(self)@,
            final(menu)@ == released(old(menu)@),
    {
        let page = menu.page_mut();
        let items = page.items_mut();
        let ghost before = item_views(items@);
        let mut i: usize = 0;
        while i < items.len()
            invariant
                i <= items@.len(),
                items@.len() == before.len(),
                forall|j: int|
                    0 <= j < i ==> (#[trigger] item_views(items@)[j]) == unfocused(before)[j],
                forall|j: int|
                    i <= j < items@.len() ==> (#[trigger] item_views(items@)[j]) == before[j],
            decreases items@.len() - i,
        {
            let ghost now = items@;
            assert(item_views(now)[i as int] == before[i as int]);
            let item = &mut items[i];
            proof {
                lemma_item_update(now, i as int, *final(item));
            }
            match item {
                Item::Input(_, Input::Key(k)) => {
                    k.unfocus();
                },
                _ => {},
            }
            i += 1;
        }
        assert(item_views(items@) =~= unfocused(before));
        page.reset_cursor();
        menu.dirty();
    }
}

} // verus!
