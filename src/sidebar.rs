//! The request list of the current project, with a selection cursor.

use vstd::prelude::*;
use crate::input::{InputEvent, KeyCode, MouseKind, Rect};
use crate::model::{requests_model, ProjectUpdate, RequestData, RequestModel};

verus! {

/// What a key or click in the request list asks of its owner.
pub enum SidebarAction {
    Noop,
    Selected(RequestData),
    ProjectUpdate(ProjectUpdate),
    EditRequest,
}

/// The abstract value of a request-list action; of project updates it tells only a deletion apart.
pub enum SidebarActionModel {
    Noop,
    Selected(RequestModel),
    DeleteRequest(usize),
    OtherUpdate,
    EditRequest,
}

impl View for SidebarAction {
    type V = SidebarActionModel;

    open spec fn view(&self) -> SidebarActionModel {
        match self {
            SidebarAction::Noop => SidebarActionModel::Noop,
            SidebarAction::Selected(r) => SidebarActionModel::Selected(r@),
            SidebarAction::ProjectUpdate(ProjectUpdate::DeleteRequest(i)) => SidebarActionModel::DeleteRequest(*i),
            SidebarAction::ProjectUpdate(_) => SidebarActionModel::OtherUpdate,
            SidebarAction::EditRequest => SidebarActionModel::EditRequest,
        }
    }
}

/// The request list.
pub struct Sidebar {
    pub rect: Option<Rect>,
    pub requests: Vec<RequestData>,
    pub selected_index: Option<usize>,
}

/// The abstract state of the request list: the listed requests and the cursor.
pub struct SidebarModel {
    pub requests: Seq<RequestModel>,
    pub selected: Option<usize>,
}

impl View for Sidebar {
    type V = SidebarModel;

    open spec fn view(&self) -> SidebarModel {
        SidebarModel { requests: requests_model(self.requests), selected: self.selected_index }
    }
}

impl SidebarModel {
    /// The cursor, when there is one, points at a listed request.
    pub open spec fn wf(self) -> bool {
        self.selected matches Some(i) ==> i < self.requests.len()
    }
}

/// The effect of a key on the list: j/Down and k/Up move the cursor (from no
/// cursor, to the first or the last request) and select; Enter selects; e
/// asks to edit; d asks to delete the request under the cursor.
pub open spec fn sidebar_key_step(s: SidebarModel, key: KeyCode) -> (SidebarModel, SidebarActionModel) {
    let n = s.requests.len();
    match key {
        KeyCode::Char('j') | KeyCode::Down => if n == 0 {
            (s, SidebarActionModel::Noop)
        } else {
            let i: usize = match s.selected {
                Some(i) => if i + 1 < n {
                    (i + 1) as usize
                } else {
                    i
                },
                None => 0,
            };
            (SidebarModel { selected: Some(i), ..s }, SidebarActionModel::Selected(s.requests[i as int]))
        },
        KeyCode::Char('k') | KeyCode::Up => if n == 0 {
            (s, SidebarActionModel::Noop)
        } else {
            let i: usize = match s.selected {
                Some(i) => if i > 0 {
                    (i - 1) as usize
                } else {
                    i
                },
                None => (n - 1) as usize,
            };
            (SidebarModel { selected: Some(i), ..s }, SidebarActionModel::Selected(s.requests[i as int]))
        },
        KeyCode::Char('e') => (s, SidebarActionModel::EditRequest),
        KeyCode::Enter => match s.selected {
            Some(i) => (s, SidebarActionModel::Selected(s.requests[i as int])),
            None => (s, SidebarActionModel::Noop),
        },
        KeyCode::Char('d') => match s.selected {
            Some(i) => (s, SidebarActionModel::DeleteRequest(i)),
            None => (s, SidebarActionModel::Noop),
        },
        _ => (s, SidebarActionModel::Noop),
    }
}

/// The effect of a left click at `column`, `row` on the list drawn in `rect`:
/// the rows below the title select the request listed there.
pub open spec fn sidebar_click_step(s: SidebarModel, rect: Option<Rect>, column: u16, row: u16) -> (SidebarModel, SidebarActionModel) {
    match rect {
        Some(r) => if r.holds(column, row) && row > r.y && row - r.y - 1 < s.requests.len() {
            let i = (row - r.y - 1) as usize;
            (SidebarModel { selected: Some(i), ..s }, SidebarActionModel::Selected(s.requests[i as int]))
        } else {
            (s, SidebarActionModel::Noop)
        },
        None => (s, SidebarActionModel::Noop),
    }
}

impl Sidebar {
    pub fn new() -> (r: Self)
        ensures
            r@.requests.len() == 0,
            r@.selected is None,
            r.rect is None,
    {
        let r = Sidebar { rect: None, requests: Vec::new(), selected_index: None };
        assert(r@.requests =~= Seq::empty());
        r
    }

    /// Lists `requests`, with the cursor on the first one if there is any.
    pub fn set_requests(&mut self, requests: Vec<RequestData>)
        ensures
            final(self)@.requests == requests_model(requests),
            final(self)@.selected == if requests@.len() == 0 {
                None::<usize>
            } else {
                Some(0usize)
            },
            final(self).rect == old(self).rect,
    {
        let empty = requests.len() == 0;
        self.requests = requests;
        if empty {
            self.selected_index = None;
        } else {
            self.selected_index = Some(0);
        }
    }

    /// Handles one key press.
    pub fn handle_selection(&mut self, key: KeyCode) -> (a: SidebarAction)
        requires
            old(self)@.wf(),
        ensures
            (final(self)@, a@) == sidebar_key_step(old(self)@, key),
            final(self)@.wf(),
            final(self).rect == old(self).rect,
    {
        let n = self.requests.len();
        match key {
            KeyCode::Char('j') | KeyCode::Down => {
                if n == 0 {
                    return SidebarAction::Noop;
                }
                let i: usize = match self.selected_index {
                    Some(i) => if i + 1 < n {
                        i + 1
                    } else {
                        i
                    },
                    None => 0,
                };
                self.selected_index = Some(i);
                SidebarAction::Selected(self.requests[i].clone())
            },
            KeyCode::Char('k') | KeyCode::Up => {
                if n == 0 {
                    return SidebarAction::Noop;
                }
                let i: usize = match self.selected_index {
                    Some(i) => if i > 0 {
                        i - 1
                    } else {
                        i
                    },
                    None => n - 1,
                };
                self.selected_index = Some(i);
                SidebarAction::Selected(self.requests[i].clone())
            },
            KeyCode::Char('e') => SidebarAction::EditRequest,
            KeyCode::Enter => match self.selected_index {
                Some(i) => SidebarAction::Selected(self.requests[i].clone()),
                None => SidebarAction::Noop,
            },
            KeyCode::Char('d') => match self.selected_index {
                Some(i) => SidebarAction::ProjectUpdate(ProjectUpdate::DeleteRequest(i)),
                None => SidebarAction::Noop,
            },
            _ => SidebarAction::Noop,
        }
    }

    /// Routes an input event: keys, and left clicks on a listed request
    /// (the first row of the list area is its title).
    pub fn tick(&mut self, event: InputEvent) -> (a: SidebarAction)
        requires
            old(self)@.wf(),
        ensures
            event matches InputEvent::Key(k) ==> (final(self)@, a@) == sidebar_key_step(old(self)@, k),
            event is Resize ==> final(self)@ == old(self)@ && a is Noop,
            event matches InputEvent::Mouse(m) ==> (final(self)@, a@) == if m.kind == MouseKind::LeftDown {
                sidebar_click_step(old(self)@, old(self).rect, m.column, m.row)
            } else {
                (old(self)@, SidebarActionModel::Noop)
            },
            final(self)@.wf(),
            final(self).rect == old(self).rect,
    {
        match event {
            InputEvent::Key(k) => self.handle_selection(k),
            InputEvent::Mouse(m) => {
                if m.kind != MouseKind::LeftDown {
                    return SidebarAction::Noop;
                }
                match self.rect {
                    Some(rect) => {
                        if rect.contains(m.column, m.row) && m.row as u32 > rect.y as u32 {
                            let i = (m.row - rect.y - 1) as usize;
                            if i < self.requests.len() {
                                self.selected_index = Some(i);
                                return SidebarAction::Selected(self.requests[i].clone());
                            }
                        }
                        SidebarAction::Noop
                    },
                    None => SidebarAction::Noop,
                }
            },
            InputEvent::Resize => SidebarAction::Noop,
        }
    }
}

} // verus!
