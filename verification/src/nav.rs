//! The menu as a whole: a row of main pages, each with pages above and below
//! it, and the place of the page shown.

use crate::nav_item::{fresh_names, lookup_of, Action, ActionView, Direction, Edit, Lookup};
use crate::nav_page::{
    edited_page, find_place, hook_at, hooked, lemma_page_views, lemma_views_update, moved,
    page_views, place_of, rehooked, with_cursor_reset, Page, PageView,
};
use vstd::prelude::*;

verus! {

/// The menu.
#[derive(Debug)]
pub struct Navigation {
    pages: Vec<Page>,
    page: (usize, isize),
    changed: bool,
}

/// Mathematical model of a [`Navigation`]. `page` is the place of the page
/// shown: the main page, and the page above (from 1) or below (from -1) it,
/// or the main page itself (0). `changed` asks for the screen to be cleared
/// before the next drawing.
pub struct NavigationView {
    pub pages: Seq<PageView>,
    pub page: (usize, isize),
    pub changed: bool,
}

impl View for Navigation {
    type V = NavigationView;

    closed spec fn view(&self) -> NavigationView {
        NavigationView { pages: page_views(self.pages@), page: self.page, changed: self.changed }
    }
}

/// The page shown, where the place of the page shown is that of a page.
pub open spec fn shown(v: NavigationView) -> Option<PageView> {
    if v.page.0 < v.pages.len() {
        let main = v.pages[v.page.0 as int];
        if v.page.1 == 0 {
            Some(main)
        } else {
            match hook_at(main, v.page.1) {
                Some(hook) => Some(hooked(main, hook)),
                None => None,
            }
        }
    } else {
        None
    }
}

/// The menu with `page` in place of the page shown.
pub open spec fn with_shown(v: NavigationView, page: PageView) -> NavigationView {
    let main = v.pages[v.page.0 as int];
    NavigationView {
        pages: v.pages.update(
            v.page.0 as int,
            if v.page.1 == 0 {
                page
            } else {
                rehooked(main, hook_at(main, v.page.1).unwrap(), page)
            },
        ),
        ..v
    }
}

/// The menu after a step to another page. Left and right lead to the main
/// page next to the one shown, up and down along the pages that hang above
/// and below it. Where there is no page the step is not made.
pub open spec fn navigated(v: NavigationView, direction: Direction) -> NavigationView {
    match direction {
        Direction::Left => if v.page.0 > 0 {
            NavigationView { page: ((v.page.0 - 1) as usize, 0), changed: true, ..v }
        } else {
            v
        },
        Direction::Right => if v.page.0 + 1 < v.pages.len() {
            NavigationView { page: ((v.page.0 + 1) as usize, 0), changed: true, ..v }
        } else {
            v
        },
        Direction::Above => if shown(
            NavigationView { page: (v.page.0, (v.page.1 + 1) as isize), ..v },
        ) is Some && v.page.1 < isize::MAX {
            NavigationView { page: (v.page.0, (v.page.1 + 1) as isize), changed: true, ..v }
        } else {
            v
        },
        Direction::Below => if shown(
            NavigationView { page: (v.page.0, (v.page.1 - 1) as isize), ..v },
        ) is Some && v.page.1 > isize::MIN {
            NavigationView { page: (v.page.0, (v.page.1 - 1) as isize), changed: true, ..v }
        } else {
            v
        },
    }
}

impl Navigation {
    /// A menu without pages.
    pub fn new() -> (r: Self)
        ensures
            r@ == (NavigationView { pages: Seq::empty(), page: (0, 0), changed: true }),
    {
        let r = Self { pages: Vec::new(), page: (0, 0), changed: true };
        assert(r@.pages =~= Seq::<PageView>::empty());
        r
    }

    /// The main pages.
    pub fn pages(&self) -> (r: &Vec<Page>)
        ensures
            page_views(r@) == self@.pages,
    {
        &self.pages
    }

    /// The place of the page shown: the main page, and the page above (from
    /// 1) or below (from -1) it, or the main page itself (0).
    pub fn position(&self) -> (r: (usize, isize))
        ensures
            r == self@.page,
    {
        self.page
    }

    /// The first main page with the short name `short`.
    pub fn find(&self, short: char) -> (r: Option<&Page>)
        ensures
            match place_of(self@.pages, short, 0) {
                Some(i) => r is Some && r.unwrap()@ == self@.pages[i],
                None => r is None,
            },
    {
        proof {
            lemma_page_views(self.pages@);
        }
        match find_place(&self.pages, short) {
            Some(i) => Some(&self.pages[i]),
            None => None,
        }
    }

    fn main_mut(&mut self, i: usize) -> (r: &mut Page)
        requires
            i < old(self).pages@.len(),
        ensures
            r@ == old(self)@.pages[i as int],
            final(self)@ == (NavigationView {
                pages: old(self)@.pages.update(i as int, final(r)@),
                ..old(self)@
            }),
    {
        proof {
            lemma_page_views(self.pages@);
        }
        let r = &mut self.pages[i];
        proof {
            lemma_views_update(old(self).pages@, i as int, *final(r));
        }
        r
    }

    /// As [`Navigation::find`], for changing the page found.
    pub fn find_mut(&mut self, short: char) -> (r: Option<&mut Page>)
        ensures
            match place_of(old(self)@.pages, short, 0) {
                Some(i) => {
                    &&& r is Some
                    &&& r.unwrap()@ == old(self)@.pages[i]
                    &&& final(self)@ == (NavigationView {
                        pages: old(self)@.pages.update(i, final(r.unwrap())@),
                        ..old(self)@
                    })
                },
                None => r is None && final(self)@ == old(self)@,
            },
    {
        match find_place(&self.pages, short) {
            Some(i) => Some(self.main_mut(i)),
            None => None,
        }
    }

    /// Appends a main page, with its cursor reset.
    pub fn add_page(&mut self, page: Page)
        ensures
            final(self)@ == (NavigationView {
                pages: old(self)@.pages.push(with_cursor_reset(page@)),
                ..old(self)@
            }),
    {
        let mut page = page;
        page.reset_cursor();
        self.pages.push(page);
        proof {
            lemma_page_views(self.pages@);
            lemma_page_views(old(self).pages@);
        }
        assert(self@.pages =~= old(self)@.pages.push(with_cursor_reset(page@)));
    }

    /// Whether the place of the page shown is that of a page. It is not in a
    /// menu without pages.
    pub fn has_page(&self) -> (r: bool)
        ensures
            r == (shown(self@) is Some),
    {
        proof {
            lemma_page_views(self.pages@);
        }
        if self.page.0 < self.pages.len() {
            self.pages[self.page.0].get(self.page.1).is_some()
        } else {
            false
        }
    }

    /// The page shown.
    pub fn page(&self) -> (r: &Page)
        requires
            shown(self@) is Some,
        ensures
            r@ == shown(self@).unwrap(),
    {
        proof {
            lemma_page_views(self.pages@);
        }
        self.pages[self.page.0].get(self.page.1).unwrap()
    }

    /// The page shown, for changing it.
    pub fn page_mut(&mut self) -> (r: &mut Page)
        requires
            shown(old(self)@) is Some,
        ensures
            r@ == shown(old(self)@).unwrap(),
            final(self)@ == with_shown(old(self)@, final(r)@),
    {
        let place = self.page;
        let main = self.main_mut(place.0);
        main.get_mut(place.1).unwrap()
    }

    /// Whether the page shown has a main page. It has none in a menu without
    /// pages.
    pub fn main_page_exists(&self) -> (r: bool)
        ensures
            r == (self@.page.0 < self@.pages.len()),
    {
        proof {
            lemma_page_views(self.pages@);
        }
        self.page.0 < self.pages.len()
    }

    /// The main page of the page shown.
    pub fn main_page(&self) -> (r: &Page)
        requires
            self@.page.0 < self@.pages.len(),
        ensures
            r@ == self@.pages[self@.page.0 as int],
    {
        proof {
            lemma_page_views(self.pages@);
        }
        &self.pages[self.page.0]
    }

    /// The short name of the main page of the page shown.
    pub fn main_page_short_name(&self) -> (r: char)
        requires
            self@.page.0 < self@.pages.len(),
        ensures
            r == self@.pages[self@.page.0 as int].short,
    {
        proof {
            lemma_page_views(self.pages@);
        }
        self.pages[self.page.0].short_name()
    }

    /// Which list the caller is to look up and hand to
    /// [`Navigation::edit_item`] with this edit.
    pub fn lookup(&self, edit: Edit) -> (r: Option<Lookup>)
        ensures
            r == match shown(self@) {
                Some(page) => if page.cursor.1 < page.items.len() {
                    lookup_of(page.items[page.cursor.1 as int], edit, page.cursor.0)
                } else {
                    None
                },
                None => None,
            },
    {
        if self.has_page() {
            self.page().lookup(edit)
        } else {
            None
        }
    }

    /// Applies an edit to the item under the cursor of the page shown. `fresh`
    /// is the list that [`Navigation::lookup`] asked for, where the lookup
    /// worked. A menu that shows no page edits nothing.
    pub fn edit_item(&mut self, edit: Edit, fresh: Option<Vec<String>>) -> (r: Action)
        ensures
            match shown(old(self)@) {
                Some(page) => {
                    &&& r@ == edited_page(page, edit, fresh_names(fresh)).1
                    &&& final(self)@ == with_shown(
                        old(self)@,
                        edited_page(page, edit, fresh_names(fresh)).0,
                    )
                },
                None => r@ == ActionView::Idle && final(self)@ == old(self)@,
            },
    {
        if self.has_page() {
            self.page_mut().edit_item(edit, fresh)
        } else {
            Action::Idle
        }
    }

    /// Puts `page`, with its cursor reset, in the place of the first main
    /// page with the short name `short`, and returns the page that stood
    /// there. Where there is no such page, `page` comes back as it is.
    pub fn replace(&mut self, short: char, page: Page) -> (r: Page)
        ensures
            match place_of(old(self)@.pages, short, 0) {
                Some(i) => {
                    &&& r@ == old(self)@.pages[i]
                    &&& final(self)@ == (NavigationView {
                        pages: old(self)@.pages.update(i, with_cursor_reset(page@)),
                        ..old(self)@
                    })
                },
                None => r == page && final(self)@ == old(self)@,
            },
    {
        let mut page = page;
        match find_place(&self.pages, short) {
            Some(i) => {
                page.reset_cursor();
                let place = self.main_mut(i);
                core::mem::swap(place, &mut page);
                page
            },
            None => page,
        }
    }

    /// Steps to another page.
    pub fn navigate(&mut self, direction: Direction)
        ensures
            final(self)@ == navigated(old(self)@, direction),
    {
        proof {
            lemma_page_views(self.pages@);
        }
        match direction {
            Direction::Left => {
                if self.page.0 > 0 {
                    self.page.0 -= 1;
                    self.page.1 = 0;
                    self.changed = true;
                }
            },
            Direction::Right => {
                if self.page.0 < self.pages.len() && self.page.0 + 1 < self.pages.len() {
                    self.page.0 += 1;
                    self.page.1 = 0;
                    self.changed = true;
                }
            },
            Direction::Above => {
                if self.page.0 < self.pages.len() && self.page.1 < isize::MAX {
                    if self.pages[self.page.0].get(self.page.1 + 1).is_some() {
                        self.page.1 += 1;
                        self.changed = true;
                    }
                }
            },
            Direction::Below => {
                if self.page.0 < self.pages.len() && self.page.1 > isize::MIN {
                    if self.pages[self.page.0].get(self.page.1 - 1).is_some() {
                        self.page.1 -= 1;
                        self.changed = true;
                    }
                }
            },
        }
    }

    /// Moves the cursor on the page shown. A menu that shows no page moves
    /// nothing.
    pub fn cursor_move(&mut self, direction: Direction)
        ensures
            final(self)@ == match shown(old(self)@) {
                Some(page) => with_shown(old(self)@, moved(page, direction)),
                None => old(self)@,
            },
    {
        if self.has_page() {
            self.page_mut().cursor_move(direction);
        }
    }

    /// Shows the main page in place of a page above or below it.
    pub fn main_page_reset(&mut self)
        ensures
            final(self)@ == (NavigationView { page: (old(self)@.page.0, 0), ..old(self)@ }),
    {
        self.page.1 = 0
    }

    /// Asks for the screen to be cleared before the next drawing.
    pub fn dirty(&mut self)
        ensures
            final(self)@ == (NavigationView { changed: true, ..old(self)@ }),
    {
        self.changed = true
    }

    /// Whether the screen is to be cleared before this drawing; the request
    /// is taken back with the answer.
    pub fn take_changed(&mut self) -> (r: bool)
        ensures
            r == old(self)@.changed,
            final(self)@ == (NavigationView { changed: false, ..old(self)@ }),
    {
        let r = self.changed;
        self.changed = false;
        r
    }
}

} // verus!
