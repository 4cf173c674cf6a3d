//! The status line and the layout proportions of the screen.

use vstd::prelude::*;

verus! {

/// The status line never asks anything of its owner.
pub enum FooterAction {
    Noop,
}

/// The status line: a message and the name of the current mode.
pub struct Footer {
    pub status: String,
    pub mode: String,
}

impl Footer {
    pub fn new() -> (r: Self)
        ensures
            r.status@ == "Ready"@,
            r.mode@ == "NORMAL"@,
    {
        Footer { status: "Ready".to_owned(), mode: "NORMAL".to_owned() }
    }

    pub fn set_status(&mut self, status: String)
        ensures
            final(self).status == status,
            final(self).mode == old(self).mode,
    {
        self.status = status;
    }

    pub fn set_mode(&mut self, mode: String)
        ensures
            final(self).mode == mode,
            final(self).status == old(self).status,
    {
        self.mode = mode;
    }
}

/// Actions of the layout; it has none.
pub enum LayoutAction {
    Noop,
}

/// Sizes of the screen regions: header and footer rows, sidebar columns.
pub struct AppLayout {
    pub header_height: u16,
    pub footer_height: u16,
    pub sidebar_width: u16,
}

impl AppLayout {
    pub fn new() -> (r: Self)
        ensures
            r.header_height == 1,
            r.footer_height == 3,
            r.sidebar_width == 30,
    {
        AppLayout { header_height: 1, footer_height: 3, sidebar_width: 30 }
    }
}

/// A generic component action.
pub enum DynamicAction {
    Noop,
    Render,
    Focused(bool),
    Selected(String),
}

} // verus!
