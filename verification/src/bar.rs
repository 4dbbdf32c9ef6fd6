//! The bar widget: one logo cell, one menu row of six items, one clock cell,
//! in that left-to-right order. The bar owns the only mutable state — which
//! menu item is highlighted and what the clock shows — and renders a plain
//! tree of tags, class names and texts for a host to mount.

use vstd::prelude::*;
use crate::classes::{
    bar_class, bar_class_name, clock_class, clock_class_name, item_active_class,
    item_inactive_class, lemma_classes_distinct, logo_class, logo_class_name, menu_class,
    menu_class_name,
};
use crate::clock::{format_time, is_clock_display, placeholder, placeholder_text, time_text};
use crate::menu::{
    click_log_line, click_log_text, click_transition, item_class, label_at, menu_label,
    ActiveIndex, MENU_LEN,
};

verus! {

/// A leaf cell of the tree: an element with a tag, a class and a text.
pub struct LeafNode {
    pub tag: String,
    pub class: String,
    pub text: String,
}

/// One menu item cell: a labeled element whose class says whether it is
/// highlighted.
pub struct MenuItemNode {
    pub tag: String,
    pub class: String,
    pub label: String,
}

/// The menu row: an element holding the item cells in menu order.
pub struct MenuNode {
    pub tag: String,
    pub class: String,
    pub items: Vec<MenuItemNode>,
}

/// The whole widget tree: the bar container with its logo, menu and clock
/// children, in that left-to-right order.
pub struct BarTree {
    pub tag: String,
    pub class: String,
    pub logo: LeafNode,
    pub menu: MenuNode,
    pub clock: LeafNode,
}

/// The logo cell's fixed glyph.
pub open spec fn logo_glyph_text() -> Seq<char> {
    "🌀"@
}

/// The logo cell's fixed glyph.
pub fn logo_glyph() -> (r: String)
    ensures
        r@ == logo_glyph_text(),
{
    String::from_str("🌀")
}

/// Whether the tree `t` is the rendering of selection state `active` and
/// clock text `clock`: a `nav` bar container whose children are the logo
/// cell, the menu row with the six labels in menu order — the highlighted
/// item and no other carrying the active class — and the clock cell showing
/// `clock`.
pub open spec fn tree_represents(t: BarTree, active: ActiveIndex, clock: Seq<char>) -> bool {
    &&& t.tag@ == "nav"@
    &&& t.class@ == bar_class()
    &&& t.logo.tag@ == "div"@
    &&& t.logo.class@ == logo_class()
    &&& t.logo.text@ == logo_glyph_text()
    &&& t.menu.tag@ == "div"@
    &&& t.menu.class@ == menu_class()
    &&& t.menu.items@.len() == MENU_LEN
    &&& forall|i: int|
        0 <= i < MENU_LEN ==> (#[trigger] t.menu.items@[i]).tag@ == "div"@
            && t.menu.items@[i].label@ == menu_label(i)
            && t.menu.items@[i].class@ == item_class(active, i)
    &&& t.clock.tag@ == "div"@
    &&& t.clock.class@ == clock_class()
    &&& t.clock.text@ == clock
}

/// How many of the item cells in `items` carry the class `c`.
pub open spec fn item_class_count(items: Seq<MenuItemNode>, c: Seq<char>) -> nat
    decreases items.len(),
{
    if items.len() == 0 {
        0
    } else {
        item_class_count(items.drop_last(), c) + (if items.last().class@ == c {
            1nat
        } else {
            0nat
        })
    }
}

/// How many elements of the whole tree `t` — the bar container, the logo, the
/// menu row, the six item cells and the clock cell — carry the class `c`.
pub open spec fn class_count(t: BarTree, c: Seq<char>) -> nat {
    (if t.class@ == c {
        1nat
    } else {
        0nat
    }) + (if t.logo.class@ == c {
        1nat
    } else {
        0nat
    }) + (if t.menu.class@ == c {
        1nat
    } else {
        0nat
    }) + item_class_count(t.menu.items@, c) + (if t.clock.class@ == c {
        1nat
    } else {
        0nat
    })
}

/// When every item cell carries the class `c`, the item count is the number
/// of items.
proof fn lemma_item_count_all(items: Seq<MenuItemNode>, c: Seq<char>)
    requires
        forall|i: int| 0 <= i < items.len() ==> (#[trigger] items[i]).class@ == c,
    ensures
        item_class_count(items, c) == items.len(),
    decreases items.len(),
{
    if items.len() > 0 {
        lemma_item_count_all(items.drop_last(), c);
    }
}

/// When no item cell carries the class `c`, the item count is zero.
proof fn lemma_item_count_none(items: Seq<MenuItemNode>, c: Seq<char>)
    requires
        forall|i: int| 0 <= i < items.len() ==> (#[trigger] items[i]).class@ != c,
    ensures
        item_class_count(items, c) == 0,
    decreases items.len(),
{
    if items.len() > 0 {
        lemma_item_count_none(items.drop_last(), c);
    }
}

/// The class census of a freshly mounted tree: each of the five documented
/// class names appears exactly once per expected element — one bar container,
/// one logo, one menu row, six plain item cells, one clock cell — and, with
/// no click yet, no element carries the active item class.
pub proof fn lemma_initial_class_census(t: BarTree, clock: Seq<char>)
    requires
        tree_represents(t, None, clock),
    ensures
        class_count(t, bar_class()) == 1,
        class_count(t, logo_class()) == 1,
        class_count(t, menu_class()) == 1,
        class_count(t, item_inactive_class()) == MENU_LEN,
        class_count(t, item_active_class()) == 0,
        class_count(t, clock_class()) == 1,
{
    lemma_classes_distinct();
    assert forall|i: int| 0 <= i < t.menu.items@.len() implies (#[trigger] t.menu.items@[i]).class@
        == item_inactive_class() by {
        assert(t.menu.items@[i].class@ == item_class(None, i));
    }
    lemma_item_count_all(t.menu.items@, item_inactive_class());
    lemma_item_count_none(t.menu.items@, bar_class());
    lemma_item_count_none(t.menu.items@, logo_class());
    lemma_item_count_none(t.menu.items@, menu_class());
    lemma_item_count_none(t.menu.items@, item_active_class());
    lemma_item_count_none(t.menu.items@, clock_class());
}

/// The class census after a click on item `k`: one bar, one logo, one menu,
/// one clock, exactly one item cell with the active class and the other five
/// with the plain item class.
pub proof fn lemma_clicked_class_census(t: BarTree, k: usize, clock: Seq<char>)
    requires
        tree_represents(t, Some(k), clock),
        k < MENU_LEN,
    ensures
        class_count(t, bar_class()) == 1,
        class_count(t, logo_class()) == 1,
        class_count(t, menu_class()) == 1,
        class_count(t, item_inactive_class()) == MENU_LEN - 1,
        class_count(t, item_active_class()) == 1,
        class_count(t, clock_class()) == 1,
{
    lemma_classes_distinct();
    lemma_item_count_single(t.menu.items@, k as int);
    lemma_item_count_none(t.menu.items@, bar_class());
    lemma_item_count_none(t.menu.items@, logo_class());
    lemma_item_count_none(t.menu.items@, menu_class());
    lemma_item_count_none(t.menu.items@, clock_class());
}

/// When exactly the item cell at position `k` carries the active class and
/// every other cell the plain item class, the counts are one and all-but-one.
proof fn lemma_item_count_single(items: Seq<MenuItemNode>, k: int)
    requires
        0 <= k < items.len(),
        forall|i: int|
            0 <= i < items.len() ==> (#[trigger] items[i]).class@ == (if i == k {
                item_active_class()
            } else {
                item_inactive_class()
            }),
    ensures
        item_class_count(items, item_active_class()) == 1,
        item_class_count(items, item_inactive_class()) == items.len() - 1,
    decreases items.len(),
{
    lemma_classes_distinct();
    if k == items.len() - 1 {
        lemma_item_count_all(items.drop_last(), item_inactive_class());
        lemma_item_count_none(items.drop_last(), item_active_class());
    } else {
        lemma_item_count_single(items.drop_last(), k);
    }
}

/// The bar's state: which menu item is highlighted, and the clock cell's
/// current text. The labels, classes and tags are fixed and carry no state.
pub struct Bar {
    active: ActiveIndex,
    clock: String,
}

impl Bar {
    /// Which menu item is highlighted, if any.
    pub closed spec fn active_index(self) -> ActiveIndex {
        self.active
    }

    /// The clock cell's current text.
    pub closed spec fn clock_view(self) -> Seq<char> {
        self.clock@
    }

    /// A well-formed bar highlights at most one existing item, and its clock
    /// shows either the pre-tick placeholder or a `DD:DD:DD` time display.
    pub open spec fn wf(self) -> bool {
        &&& match self.active_index() {
            Some(k) => k < MENU_LEN,
            None => true,
        }
        &&& (self.clock_view() == placeholder_text() || is_clock_display(self.clock_view()))
    }

    /// A fresh bar: no item highlighted, the clock showing the placeholder.
    pub fn new() -> (r: Bar)
        ensures
            r.wf(),
            r.active_index() == None::<usize>,
            r.clock_view() == placeholder_text(),
    {
        Bar { active: None, clock: placeholder() }
    }

    /// A click on the item at position `k`: the clicked item becomes the one
    /// highlighted item, whatever was highlighted before; the clock is
    /// untouched. Returns the diagnostic line naming the clicked label.
    pub fn click(&mut self, k: usize) -> (log: String)
        requires
            old(self).wf(),
            k < MENU_LEN,
        ensures
            final(self).wf(),
            final(self).active_index() == click_transition(old(self).active_index(), k),
            final(self).active_index() == Some(k),
            final(self).clock_view() == old(self).clock_view(),
            log@ == click_log_text(menu_label(k as int)),
    {
        self.active = Some(k);
        click_log_line(k)
    }

    /// A clock tick at local time `h:m:s`: the clock cell's text becomes the
    /// zero-padded `HH:MM:SS` display of that reading; the selection is
    /// untouched. Each tick overwrites the text from the reading alone, so
    /// the display self-corrects against timer jitter.
    pub fn tick(&mut self, h: u8, m: u8, s: u8)
        requires
            old(self).wf(),
            h < 24,
            m < 60,
            s < 60,
        ensures
            final(self).wf(),
            final(self).clock_view() == time_text(h as int, m as int, s as int),
            final(self).active_index() == old(self).active_index(),
    {
        proof {
            crate::clock::lemma_time_text_shape(h as int, m as int, s as int);
        }
        self.clock = format_time(h, m, s);
    }

    /// The visual class the item at position `i` carries now.
    pub fn item_class_at(&self, i: usize) -> (r: String)
        requires
            i < MENU_LEN,
        ensures
            r@ == item_class(self.active_index(), i as int),
    {
        let active = match self.active {
            Some(k) => k == i,
            None => false,
        };
        if active {
            crate::classes::item_active_class_name()
        } else {
            crate::classes::item_inactive_class_name()
        }
    }

    /// The clock cell's current text.
    pub fn clock_text(&self) -> (r: String)
        ensures
            r@ == self.clock_view(),
    {
        self.clock.clone()
    }

    /// Render the widget tree for the bar's current state: the `nav`
    /// container with logo, menu and clock children in that order, the six
    /// items labeled in menu order, each class drawn from the current
    /// selection, the clock cell showing the current text.
    pub fn render(&self) -> (t: BarTree)
        requires
            self.wf(),
        ensures
            tree_represents(t, self.active_index(), self.clock_view()),
    {
        let mut items: Vec<MenuItemNode> = Vec::new();
        let mut i: usize = 0;
        while i < MENU_LEN
            invariant
                self.wf(),
                i <= MENU_LEN,
                items@.len() == i,
                forall|j: int|
                    0 <= j < i ==> (#[trigger] items@[j]).tag@ == "div"@
                        && items@[j].label@ == menu_label(j)
                        && items@[j].class@ == item_class(self.active_index(), j),
            decreases MENU_LEN - i,
        {
            items.push(
                MenuItemNode {
                    tag: String::from_str("div"),
                    class: self.item_class_at(i),
                    label: label_at(i),
                },
            );
            i = i + 1;
        }
        BarTree {
            tag: String::from_str("nav"),
            class: bar_class_name(),
            logo: LeafNode {
                tag: String::from_str("div"),
                class: logo_class_name(),
                text: logo_glyph(),
            },
            menu: MenuNode { tag: String::from_str("div"), class: menu_class_name(), items },
            clock: LeafNode {
                tag: String::from_str("div"),
                class: clock_class_name(),
                text: self.clock_text(),
            },
        }
    }
}

} // verus!
