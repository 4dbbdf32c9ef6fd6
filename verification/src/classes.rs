//! The widget's visual class names. These are its stable public surface:
//! outside styling and scripts may hook into them, so each is fixed text.

use vstd::prelude::*;

verus! {

/// Class name of the top-level bar container.
pub open spec fn bar_class() -> Seq<char> {
    "swooshui-bar"@
}

/// Class name of the logo cell.
pub open spec fn logo_class() -> Seq<char> {
    "swooshui-logo"@
}

/// Class name of the menu row.
pub open spec fn menu_class() -> Seq<char> {
    "swooshui-menu"@
}

/// Class name of a menu item that is not highlighted.
pub open spec fn item_inactive_class() -> Seq<char> {
    "swooshui-menu-item"@
}

/// Class name of the single highlighted menu item.
pub open spec fn item_active_class() -> Seq<char> {
    "swooshui-menu-item active"@
}

/// Class name of the clock cell.
pub open spec fn clock_class() -> Seq<char> {
    "swooshui-clock"@
}

/// The six class names are pairwise distinct, so each tags exactly one kind
/// of element in the mounted tree.
pub proof fn lemma_classes_distinct()
    ensures
        bar_class() != logo_class(),
        bar_class() != menu_class(),
        bar_class() != item_inactive_class(),
        bar_class() != item_active_class(),
        bar_class() != clock_class(),
        logo_class() != menu_class(),
        logo_class() != item_inactive_class(),
        logo_class() != item_active_class(),
        logo_class() != clock_class(),
        menu_class() != item_inactive_class(),
        menu_class() != item_active_class(),
        menu_class() != clock_class(),
        item_inactive_class() != item_active_class(),
        item_inactive_class() != clock_class(),
        item_active_class() != clock_class(),
{
    reveal_strlit("swooshui-bar");
    reveal_strlit("swooshui-logo");
    reveal_strlit("swooshui-menu");
    reveal_strlit("swooshui-menu-item");
    reveal_strlit("swooshui-menu-item active");
    reveal_strlit("swooshui-clock");
    assert(bar_class().len() == 12);
    assert(logo_class().len() == 13);
    assert(menu_class().len() == 13);
    assert(item_inactive_class().len() == 18);
    assert(item_active_class().len() == 25);
    assert(clock_class().len() == 14);
    assert(logo_class()[9] != menu_class()[9]);
}

/// Class name of the top-level bar container.
pub fn bar_class_name() -> (r: String)
    ensures
        r@ == bar_class(),
{
    String::from_str("swooshui-bar")
}

/// Class name of the logo cell.
pub fn logo_class_name() -> (r: String)
    ensures
        r@ == logo_class(),
{
    String::from_str("swooshui-logo")
}

/// Class name of the menu row.
pub fn menu_class_name() -> (r: String)
    ensures
        r@ == menu_class(),
{
    String::from_str("swooshui-menu")
}

/// Class name of a menu item that is not highlighted.
pub fn item_inactive_class_name() -> (r: String)
    ensures
        r@ == item_inactive_class(),
{
    String::from_str("swooshui-menu-item")
}

/// Class name of the single highlighted menu item.
pub fn item_active_class_name() -> (r: String)
    ensures
        r@ == item_active_class(),
{
    String::from_str("swooshui-menu-item active")
}

/// Class name of the clock cell.
pub fn clock_class_name() -> (r: String)
    ensures
        r@ == clock_class(),
{
    String::from_str("swooshui-clock")
}

} // verus!
