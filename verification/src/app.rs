//! Application-level state the shell decides on: the sidebar page and the
//! window title.

use vstd::prelude::*;

verus! {

/// The page shown in the sidebar.
#[derive(Debug, Default, Clone, Copy, PartialEq, Eq, Hash, Structural)]
pub enum Page {
    #[default]
    Project,
    Search,
    Plugins,
    Settings,
}

/// The page shown after a toolbar button's render pass: the button's
/// target page if the button was clicked, the current page otherwise.
pub fn page_after_toolbar_click(current: Page, clicked: bool, target: Page) -> (page: Page)
    ensures
        page == (if clicked {
            target
        } else {
            current
        }),
{
    if clicked {
        target
    } else {
        current
    }
}

/// The window title: the current project's path, or the given
/// no-project label when none is open.
pub fn window_name(current_project: &Option<String>, empty_project_label: &str) -> (name: String)
    ensures
        (match current_project {
            Some(p) => name@ == p@,
            None => name@ == empty_project_label@,
        }),
{
    match current_project {
        Some(p) => p.clone(),
        None => empty_project_label.to_owned(),
    }
}

} // verus!
