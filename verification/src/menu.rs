//! The menu row: six fixed labels in a fixed order, with strict
//! single-selection highlighting driven by clicks.

use vstd::prelude::*;
use crate::classes::{item_active_class, item_inactive_class, lemma_classes_distinct};

verus! {

/// The number of menu items.
pub const MENU_LEN: usize = 6;

/// The label of the menu item at position `i`, for `0 <= i < 6`, in the fixed
/// menu order `File, Edit, View, Go, Window, Help`.
pub open spec fn menu_label(i: int) -> Seq<char>
    recommends
        0 <= i < MENU_LEN,
{
    if i == 0 {
        "File"@
    } else if i == 1 {
        "Edit"@
    } else if i == 2 {
        "View"@
    } else if i == 3 {
        "Go"@
    } else if i == 4 {
        "Window"@
    } else {
        "Help"@
    }
}

/// The menu's selection state: the position of the highlighted item, if any.
/// Holding it as an `Option` of a single position makes more than one
/// highlighted item unrepresentable.
pub type ActiveIndex = Option<usize>;

/// The selection state after a click on the item at position `k`: the clicked
/// item becomes the highlighted one, whatever was highlighted before. The
/// result is recomputed from the click target alone, never diffed against the
/// prior state.
pub open spec fn click_transition(active: ActiveIndex, k: usize) -> ActiveIndex
    recommends
        k < MENU_LEN,
{
    Some(k)
}

/// The selection state after the clicks in `ks`, in order, starting from
/// `active`.
pub open spec fn run_clicks(active: ActiveIndex, ks: Seq<usize>) -> ActiveIndex
    decreases ks.len(),
{
    if ks.len() == 0 {
        active
    } else {
        click_transition(run_clicks(active, ks.drop_last()), ks.last())
    }
}

/// The visual class the item at position `i` carries under selection state
/// `active`: the active class on the highlighted item, the plain item class
/// on every other.
pub open spec fn item_class(active: ActiveIndex, i: int) -> Seq<char>
    recommends
        0 <= i < MENU_LEN,
{
    match active {
        Some(k) => if k == i {
            item_active_class()
        } else {
            item_inactive_class()
        },
        None => item_inactive_class(),
    }
}

/// After a click on the item at position `k`, exactly that item carries the
/// active class: item `k` does, and every other position does not.
pub proof fn lemma_click_activates_exactly(k: usize, i: int)
    requires
        k < MENU_LEN,
        0 <= i < MENU_LEN,
    ensures
        i == k ==> item_class(click_transition(None, k), i) == item_active_class(),
        i != k ==> item_class(click_transition(None, k), i) == item_inactive_class(),
        forall|prior: ActiveIndex|
            (#[trigger] item_class(click_transition(prior, k), i)) == item_class(Some(k), i),
        (item_class(Some(k), i) == item_active_class()) <==> i == k,
{
    lemma_classes_distinct();
}

/// Clicking the same item twice in a row is idempotent: the second click
/// leaves the selection state exactly where the first click put it.
pub proof fn lemma_click_idempotent(active: ActiveIndex, k: usize)
    requires
        k < MENU_LEN,
    ensures
        click_transition(click_transition(active, k), k) == click_transition(active, k),
{
}

/// The last click wins: after any non-empty click sequence, the selection
/// rests on the last clicked item, whatever came before. In particular,
/// clicking `a` then `b` leaves only `b` highlighted.
pub proof fn lemma_last_click_wins(active: ActiveIndex, ks: Seq<usize>)
    requires
        ks.len() > 0,
    ensures
        run_clicks(active, ks) == Some(ks.last()),
{
}

/// Single selection: under every reachable state, at most one position
/// carries the active class.
pub proof fn lemma_single_selection(active: ActiveIndex, i: int, j: int)
    requires
        0 <= i < MENU_LEN,
        0 <= j < MENU_LEN,
        item_class(active, i) == item_active_class(),
        item_class(active, j) == item_active_class(),
    ensures
        i == j,
{
    lemma_classes_distinct();
}

/// The label of the menu item at position `i`.
pub fn label_at(i: usize) -> (r: String)
    requires
        i < MENU_LEN,
    ensures
        r@ == menu_label(i as int),
{
    match i {
        0 => String::from_str("File"),
        1 => String::from_str("Edit"),
        2 => String::from_str("View"),
        3 => String::from_str("Go"),
        4 => String::from_str("Window"),
        _ => String::from_str("Help"),
    }
}

/// The six menu labels, in the fixed menu order.
pub fn menu_labels() -> (r: Vec<String>)
    ensures
        r@.len() == MENU_LEN,
        forall|i: int| 0 <= i < MENU_LEN ==> (#[trigger] r@[i])@ == menu_label(i),
{
    let mut r: Vec<String> = Vec::new();
    let mut i: usize = 0;
    while i < MENU_LEN
        invariant
            i <= MENU_LEN,
            r@.len() == i,
            forall|j: int| 0 <= j < i ==> (#[trigger] r@[j])@ == menu_label(j),
        decreases MENU_LEN - i,
    {
        r.push(label_at(i));
        i = i + 1;
    }
    r
}

/// The diagnostic line emitted for a click on the item at position `k`.
pub open spec fn click_log_text(label: Seq<char>) -> Seq<char> {
    "Clicked: "@ + label
}

/// The diagnostic line for a click on the item at position `k`:
/// `Clicked: ` followed by the item's label.
pub fn click_log_line(k: usize) -> (r: String)
    requires
        k < MENU_LEN,
    ensures
        r@ == click_log_text(menu_label(k as int)),
{
    let mut r = String::from_str("Clicked: ");
    let label = label_at(k);
    r.append(label.as_str());
    r
}

} // verus!
