//! Shell logic for a custom-decorated editor window.
//!
//! The crate holds the decision logic of an IDE-style application shell:
//! the custom window frame (pointer-driven resize-edge detection, title-bar
//! drag and double-click handling, window-control buttons), the line-number
//! gutter of the editor panel, the settings store with its defaults, the
//! translation table, and the sidebar page selection. Everything here is
//! pure: it maps host-reported input and geometry to commands and derived
//! values, and the windowing toolkit around it applies them.

pub mod app;
pub mod config;
pub mod editor;
pub mod geometry;
pub mod i18n;
pub mod menubar;
pub mod window_frame;
