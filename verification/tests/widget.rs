use swooshui::bar::{Bar, BarTree};
use swooshui::classes::{
    bar_class_name, clock_class_name, item_active_class_name, item_inactive_class_name,
    logo_class_name, menu_class_name,
};
use swooshui::clock::{format_time, placeholder};
use swooshui::menu::{click_log_line, label_at, menu_labels, MENU_LEN};
use swooshui::style::stylesheet_text;

fn count_class(t: &BarTree, class: &str) -> usize {
    let mut n: usize = 0;
    if t.class == class {
        n += 1;
    }
    if t.logo.class == class {
        n += 1;
    }
    if t.menu.class == class {
        n += 1;
    }
    for item in t.menu.items.iter() {
        if item.class == class {
            n += 1;
        }
    }
    if t.clock.class == class {
        n += 1;
    }
    n
}

#[test]
fn click_each_label_activates_exactly_that_item() {
    for k in 0..MENU_LEN {
        let mut bar = Bar::new();
        bar.click(k);
        let tree = bar.render();
        for (i, item) in tree.menu.items.iter().enumerate() {
            if i == k {
                assert_eq!(item.class, "swooshui-menu-item active");
            } else {
                assert_eq!(item.class, "swooshui-menu-item");
            }
        }
    }
}

#[test]
fn clicking_twice_is_idempotent() {
    let mut bar = Bar::new();
    bar.click(4);
    let once = bar.render();
    bar.click(4);
    let twice = bar.render();
    for i in 0..MENU_LEN {
        assert_eq!(once.menu.items[i].class, twice.menu.items[i].class);
    }
    assert_eq!(twice.menu.items[4].class, "swooshui-menu-item active");
}

#[test]
fn second_click_moves_the_highlight() {
    let mut bar = Bar::new();
    bar.click(0);
    bar.click(5);
    let tree = bar.render();
    for (i, item) in tree.menu.items.iter().enumerate() {
        if i == 5 {
            assert_eq!(item.class, "swooshui-menu-item active");
        } else {
            assert_eq!(item.class, "swooshui-menu-item");
        }
    }
}

#[test]
fn any_click_sequence_keeps_single_selection() {
    let mut bar = Bar::new();
    for &k in &[2usize, 2, 0, 5, 1, 1, 3, 4, 0, 2] {
        bar.click(k);
        let tree = bar.render();
        let active = count_class(&tree, "swooshui-menu-item active");
        assert_eq!(active, 1);
        assert_eq!(tree.menu.items[k].class, "swooshui-menu-item active");
    }
}

#[test]
fn clock_shows_placeholder_before_first_tick() {
    let bar = Bar::new();
    assert_eq!(bar.clock_text(), "--:--:--");
    assert_eq!(placeholder(), "--:--:--");
}

#[test]
fn clock_text_after_tick_matches_digit_pattern() {
    let mut bar = Bar::new();
    bar.tick(7, 40, 5);
    let text = bar.clock_text();
    let chars: Vec<char> = text.chars().collect();
    assert_eq!(chars.len(), 8);
    for (i, c) in chars.iter().enumerate() {
        if i == 2 || i == 5 {
            assert_eq!(*c, ':');
        } else {
            assert!(c.is_ascii_digit());
        }
    }
}

#[test]
fn tick_formats_the_reading_zero_padded() {
    let mut bar = Bar::new();
    bar.tick(9, 3, 7);
    assert_eq!(bar.clock_text(), "09:03:07");
}

#[test]
fn format_time_edge_values() {
    assert_eq!(format_time(0, 0, 0), "00:00:00");
    assert_eq!(format_time(23, 59, 59), "23:59:59");
    assert_eq!(format_time(18, 28, 48), "18:28:48");
    assert_eq!(format_time(12, 34, 56), "12:34:56");
}

#[test]
fn tick_leaves_the_selection_alone() {
    let mut bar = Bar::new();
    bar.click(1);
    bar.tick(10, 20, 30);
    let tree = bar.render();
    assert_eq!(tree.menu.items[1].class, "swooshui-menu-item active");
    assert_eq!(count_class(&tree, "swooshui-menu-item active"), 1);
    assert_eq!(tree.clock.text, "10:20:30");
}

#[test]
fn menu_has_the_six_labels_in_order() {
    let labels = menu_labels();
    assert_eq!(labels, vec!["File", "Edit", "View", "Go", "Window", "Help"]);
    for (i, l) in labels.iter().enumerate() {
        assert_eq!(&label_at(i), l);
    }
}

#[test]
fn fresh_tree_has_six_inactive_items_in_order() {
    let tree = Bar::new().render();
    assert_eq!(tree.menu.items.len(), 6);
    let expected = ["File", "Edit", "View", "Go", "Window", "Help"];
    for (i, item) in tree.menu.items.iter().enumerate() {
        assert_eq!(item.label, expected[i]);
        assert_eq!(item.class, "swooshui-menu-item");
        assert_eq!(item.tag, "div");
    }
}

#[test]
fn fresh_tree_class_census() {
    let tree = Bar::new().render();
    assert_eq!(count_class(&tree, "swooshui-bar"), 1);
    assert_eq!(count_class(&tree, "swooshui-logo"), 1);
    assert_eq!(count_class(&tree, "swooshui-menu"), 1);
    assert_eq!(count_class(&tree, "swooshui-menu-item"), 6);
    assert_eq!(count_class(&tree, "swooshui-menu-item active"), 0);
    assert_eq!(count_class(&tree, "swooshui-clock"), 1);
}

#[test]
fn tree_shape_and_fixed_texts() {
    let tree = Bar::new().render();
    assert_eq!(tree.tag, "nav");
    assert_eq!(tree.class, "swooshui-bar");
    assert_eq!(tree.logo.tag, "div");
    assert_eq!(tree.logo.text, "\u{1F300}");
    assert_eq!(tree.menu.tag, "div");
    assert_eq!(tree.clock.tag, "div");
    assert_eq!(tree.clock.text, "--:--:--");
}

#[test]
fn click_log_names_the_clicked_label() {
    assert_eq!(click_log_line(0), "Clicked: File");
    assert_eq!(click_log_line(3), "Clicked: Go");
    assert_eq!(click_log_line(5), "Clicked: Help");
}

#[test]
fn stylesheet_holds_a_rule_per_class_name() {
    let css = stylesheet_text();
    assert!(css.contains(".swooshui-bar {"));
    assert!(css.contains(".swooshui-logo {"));
    assert!(css.contains(".swooshui-menu {"));
    assert!(css.contains(".swooshui-menu-item {"));
    assert!(css.contains(".swooshui-menu-item.active {"));
    assert!(css.contains(".swooshui-clock {"));
}

#[test]
fn class_name_getters_match_the_documented_names() {
    assert_eq!(bar_class_name(), "swooshui-bar");
    assert_eq!(logo_class_name(), "swooshui-logo");
    assert_eq!(menu_class_name(), "swooshui-menu");
    assert_eq!(item_inactive_class_name(), "swooshui-menu-item");
    assert_eq!(item_active_class_name(), "swooshui-menu-item active");
    assert_eq!(clock_class_name(), "swooshui-clock");
}
