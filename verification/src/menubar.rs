//! The menu bar across the top of the content region.
//!
//! The bar itself carries no state; its frame and inner margins are drawn
//! by the application shell, which lays the caller's menu entries out
//! inside it.

use vstd::prelude::*;

verus! {

/// The stateless menu bar widget.
pub struct MenuBar;

impl MenuBar {
    /// A new menu bar.
    pub fn new() -> MenuBar {
        MenuBar
    }
}

} // verus!
