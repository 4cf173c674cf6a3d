//! The project tab bar.

use vstd::prelude::*;
use vstd::string::*;
use crate::input::{InputEvent, KeyCode, MouseEvent, MouseKind, Rect};

verus! {

/// What a key or click on the tab bar asks of its owner.
#[derive(Debug, Clone, Copy, PartialEq, Eq, Structural)]
pub enum HeaderAction {
    Noop,
    TabChanged(usize),
    DeleteProject(usize),
}

/// The tab of one project.
pub struct ProjectTab {
    pub name: String,
}

/// The tab bar.
pub struct Header {
    pub rect: Option<Rect>,
    pub projects: Vec<ProjectTab>,
    pub selected_index: usize,
}

/// The digit that `c` writes, if it is an ASCII digit.
pub open spec fn digit_value(c: char) -> Option<int> {
    if '0' <= c && c <= '9' {
        Some(c as int - '0' as int)
    } else {
        None
    }
}

/// The effect of a key on the tab bar, which holds `n` tabs with tab `sel`
/// active: d asks to delete the active project; h/Left and l/Right move one
/// tab; digit k in 1..=n jumps to tab k.
pub open spec fn header_key_step(n: int, sel: usize, key: KeyCode) -> (usize, HeaderAction) {
    match key {
        KeyCode::Char('d') => if n > 0 {
            (sel, HeaderAction::DeleteProject(sel))
        } else {
            (sel, HeaderAction::Noop)
        },
        KeyCode::Char('h') | KeyCode::Left => if n > 0 && sel > 0 {
            ((sel - 1) as usize, HeaderAction::TabChanged((sel - 1) as usize))
        } else {
            (sel, HeaderAction::Noop)
        },
        KeyCode::Char('l') | KeyCode::Right => if n > 0 && sel < n - 1 {
            ((sel + 1) as usize, HeaderAction::TabChanged((sel + 1) as usize))
        } else {
            (sel, HeaderAction::Noop)
        },
        KeyCode::Char(c) => match digit_value(c) {
            Some(k) => if 0 < k <= n {
                ((k - 1) as usize, HeaderAction::TabChanged((k - 1) as usize))
            } else {
                (sel, HeaderAction::Noop)
            },
            None => (sel, HeaderAction::Noop),
        },
        _ => (sel, HeaderAction::Noop),
    }
}

/// The tab, from tab `i` on, that starts at column `start` and covers column
/// `x`; each tab is as wide as its name plus four cells.
pub open spec fn tab_at(tabs: Seq<ProjectTab>, x: int, i: int, start: int) -> Option<usize>
    decreases tabs.len() - i,
{
    if i < 0 || i >= tabs.len() {
        None
    } else {
        let end = start + tabs[i].name@.len() + 4;
        if start <= x < end {
            Some(i as usize)
        } else {
            tab_at(tabs, x, i + 1, end)
        }
    }
}

/// The effect of a mouse event on the tab bar: a left click on a tab makes it active.
pub open spec fn header_click_step(tabs: Seq<ProjectTab>, sel: usize, rect: Option<Rect>, m: MouseEvent) -> (usize, HeaderAction) {
    match rect {
        Some(r) => if m.kind == MouseKind::LeftDown && r.holds(m.column, m.row) {
            match tab_at(tabs, m.column - r.x, 0, 0) {
                Some(i) => (i, HeaderAction::TabChanged(i)),
                None => (sel, HeaderAction::Noop),
            }
        } else {
            (sel, HeaderAction::Noop)
        },
        None => (sel, HeaderAction::Noop),
    }
}

impl Header {
    pub fn new(projects: Vec<ProjectTab>) -> (r: Self)
        ensures
            r.projects == projects,
            r.selected_index == 0,
            r.rect is None,
    {
        Header { rect: None, projects, selected_index: 0 }
    }

    pub fn add_project(&mut self, project: ProjectTab)
        ensures
            final(self).projects@ == old(self).projects@.push(project),
            final(self).selected_index == old(self).selected_index,
            final(self).rect == old(self).rect,
    {
        self.projects.push(project);
    }

    /// Handles one key press.
    pub fn handle_key_event(&mut self, key: KeyCode) -> (a: HeaderAction)
        ensures
            (final(self).selected_index, a) == header_key_step(
                old(self).projects@.len() as int,
                old(self).selected_index,
                key,
            ),
            final(self).projects == old(self).projects,
            final(self).rect == old(self).rect,
    {
        let n = self.projects.len();
        match key {
            KeyCode::Char('d') => {
                if n > 0 {
                    HeaderAction::DeleteProject(self.selected_index)
                } else {
                    HeaderAction::Noop
                }
            },
            KeyCode::Char('h') | KeyCode::Left => {
                if n > 0 && self.selected_index > 0 {
                    self.selected_index = self.selected_index - 1;
                    HeaderAction::TabChanged(self.selected_index)
                } else {
                    HeaderAction::Noop
                }
            },
            KeyCode::Char('l') | KeyCode::Right => {
                if n > 0 && self.selected_index < n - 1 {
                    self.selected_index = self.selected_index + 1;
                    HeaderAction::TabChanged(self.selected_index)
                } else {
                    HeaderAction::Noop
                }
            },
            KeyCode::Char(c) => {
                if '0' <= c && c <= '9' {
                    let k = (c as u32 - '0' as u32) as usize;
                    if k > 0 && k <= n {
                        self.selected_index = k - 1;
                        HeaderAction::TabChanged(k - 1)
                    } else {
                        HeaderAction::Noop
                    }
                } else {
                    HeaderAction::Noop
                }
            },
            _ => HeaderAction::Noop,
        }
    }

    /// The tab that covers column `x`, counted from the start of the bar.
    pub fn tab_at_column(&self, x: u16) -> (r: Option<usize>)
        ensures
            r == tab_at(self.projects@, x as int, 0, 0),
    {
        let mut i: usize = 0;
        let mut start: u64 = 0;
        while i < self.projects.len()
            invariant
                i <= self.projects@.len(),
                start <= x,
                tab_at(self.projects@, x as int, 0, 0) == tab_at(
                    self.projects@,
                    x as int,
                    i as int,
                    start as int,
                ),
            decreases self.projects@.len() - i,
        {
            let len = self.projects[i].name.as_str().unicode_len();
            if len as u64 >= 0x10000 || (x as u64) < start + len as u64 + 4 {
                return Some(i);
            }
            start = start + len as u64 + 4;
            i = i + 1;
        }
        None
    }

    /// Routes an input event: keys, and left clicks on a tab.
    pub fn tick(&mut self, event: InputEvent) -> (a: HeaderAction)
        ensures
            event matches InputEvent::Key(k) ==> (final(self).selected_index, a) == header_key_step(
                old(self).projects@.len() as int,
                old(self).selected_index,
                k,
            ),
            event is Resize ==> final(self).selected_index == old(self).selected_index && a is Noop,
            event matches InputEvent::Mouse(m) ==> (final(self).selected_index, a) == header_click_step(
                old(self).projects@,
                old(self).selected_index,
                old(self).rect,
                m,
            ),
            final(self).projects == old(self).projects,
            final(self).rect == old(self).rect,
    {
        match event {
            InputEvent::Key(k) => self.handle_key_event(k),
            InputEvent::Mouse(m) => {
                if m.kind != MouseKind::LeftDown {
                    return HeaderAction::Noop;
                }
                match self.rect {
                    Some(rect) => {
                        if rect.contains(m.column, m.row) {
                            match self.tab_at_column(m.column - rect.x) {
                                Some(i) => {
                                    self.selected_index = i;
                                    HeaderAction::TabChanged(i)
                                },
                                None => HeaderAction::Noop,
                            }
                        } else {
                            HeaderAction::Noop
                        }
                    },
                    None => HeaderAction::Noop,
                }
            },
            InputEvent::Resize => HeaderAction::Noop,
        }
    }
}

} // verus!
