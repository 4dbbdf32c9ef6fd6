//! A verified model of a small menu-bar widget: a logo cell, a row of six
//! clickable menu labels with single-selection highlighting, and a digital
//! clock that shows the local time as zero-padded `HH:MM:SS`.
//!
//! The library holds the widget's state, its transitions, the texts and class
//! names it displays, and the shape of the mounted tree. A thin host layer
//! attaches the tree to a page and feeds clicks and clock readings back in.

pub mod bar;
pub mod classes;
pub mod clock;
pub mod menu;
pub mod style;
