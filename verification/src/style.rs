//! The stylesheet: one fixed block of presentational rules, scoped under the
//! widget's class names. A host attaches it to the page's style root exactly
//! once, before mounting the tree, so the elements are styled as soon as they
//! appear.

use vstd::prelude::*;

verus! {

/// The fixed rules of the widget's one stylesheet, scoped under the
/// documented class names.
pub open spec fn style_rules() -> Seq<char> {
    r#"
        .swooshui-bar {
            display: flex;
            align-items: center;
            background: rgba(245,245,247,0.95);
            box-shadow: 0 2px 8px rgba(0,0,0,0.07);
            height: 38px;
            padding: 0 18px;
            border-radius: 0 0 12px 12px;
            font-family: 'San Francisco', 'Segoe UI', Arial, sans-serif;
            font-size: 15px;
            user-select: none;
            position: fixed;
            top: 0; left: 0; right: 0;
            z-index: 1000;
            backdrop-filter: blur(8px);
        }
        .swooshui-logo {
            width: 22px; height: 22px;
            margin-right: 16px;
            border-radius: 6px;
            background: linear-gradient(135deg, #5e5ce6 60%, #a5aaff 100%);
            display: flex; align-items: center; justify-content: center;
            color: white; font-weight: bold; font-size: 17px;
        }
        .swooshui-menu {
            display: flex; gap: 18px;
        }
        .swooshui-menu-item {
            padding: 4px 10px;
            border-radius: 6px;
            cursor: pointer;
            transition: background 0.15s;
        }
        .swooshui-menu-item:hover,
        .swooshui-menu-item.active {
            background: rgba(120,120,130,0.13);
        }
        .swooshui-clock {
            margin-left: auto;
            font-variant-numeric: tabular-nums;
            color: #444;
            font-size: 15px;
            letter-spacing: 0.5px;
        }
    "#@
}

/// The text of the widget's one stylesheet.
pub fn stylesheet_text() -> (r: String)
    ensures
        r@ == style_rules(),
{
    String::from_str(
        r#"
        .swooshui-bar {
            display: flex;
            align-items: center;
            background: rgba(245,245,247,0.95);
            box-shadow: 0 2px 8px rgba(0,0,0,0.07);
            height: 38px;
            padding: 0 18px;
            border-radius: 0 0 12px 12px;
            font-family: 'San Francisco', 'Segoe UI', Arial, sans-serif;
            font-size: 15px;
            user-select: none;
            position: fixed;
            top: 0; left: 0; right: 0;
            z-index: 1000;
            backdrop-filter: blur(8px);
        }
        .swooshui-logo {
            width: 22px; height: 22px;
            margin-right: 16px;
            border-radius: 6px;
            background: linear-gradient(135deg, #5e5ce6 60%, #a5aaff 100%);
            display: flex; align-items: center; justify-content: center;
            color: white; font-weight: bold; font-size: 17px;
        }
        .swooshui-menu {
            display: flex; gap: 18px;
        }
        .swooshui-menu-item {
            padding: 4px 10px;
            border-radius: 6px;
            cursor: pointer;
            transition: background 0.15s;
        }
        .swooshui-menu-item:hover,
        .swooshui-menu-item.active {
            background: rgba(120,120,130,0.13);
        }
        .swooshui-clock {
            margin-left: auto;
            font-variant-numeric: tabular-nums;
            color: #444;
            font-size: 15px;
            letter-spacing: 0.5px;
        }
    "#,
    )
}

} // verus!
