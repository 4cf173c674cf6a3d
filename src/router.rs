//! The focus/mode router: owns exactly one interaction mode and at most one
//! focused region, routes each input event to the mode, region or modal that
//! owns it, applies the resulting mutations to the current project, and asks
//! its owner to run the storage operation that each change calls for.

use vstd::prelude::*;
use vstd::string::*;
use crate::editor::{field_text, key_step, mouse_step, ActionModel, Content, ContentAction, ContentModel, EditField, ViewMode};
use crate::footer::{AppLayout, Footer};
use crate::header::{header_click_step, header_key_step, Header, HeaderAction, ProjectTab};
use crate::input::{InputEvent, KeyCode, MouseEvent, MouseKind};
use crate::modal::{
    blank_form, lemma_key_step_stamp, modal_key_step, modal_mouse_step, stamp_of, submitted, Modal,
    ModalAction,
};
use crate::model::{clone_requests, requests_model, ProjectData, ProjectUpdate, RequestData, RequestModel, Text};
use crate::sidebar::{sidebar_click_step, sidebar_key_step, Sidebar, SidebarAction, SidebarActionModel};
use crate::text::{pop_char, push_char};

verus! {

/// The router's top-level interaction mode.
#[derive(Debug, Clone, Copy, PartialEq, Eq, Structural)]
pub enum Mode {
    Normal,
    Command,
    TabMode,
    CreateProject,
    EditRequest,
}

/// A visible region that can own non-mode input.
#[derive(Debug, Clone, Copy, PartialEq, Eq, Structural)]
pub enum FocusTarget {
    Header,
    Sidebar,
    Content,
    Footer,
}

/// A storage operation that the router asks its owner to run.
pub enum StoreOp {
    Save(ProjectData),
    Load(String),
    List,
    Delete(String),
}

/// The outcome of a storage operation, handed back to the router.
pub enum StoreOutcome {
    Saved(Result<(), String>),
    Loaded(Result<Option<ProjectData>, String>),
    Listed(Vec<ProjectData>),
    Deleted(Result<(), String>),
}

/// What the router asks of the event loop.
pub enum AppAction {
    Noop,
    Quit,
    Store(StoreOp),
}

/// What a project list refresh was for.
#[derive(Debug, PartialEq, Eq)]
pub enum Refresh {
    Startup,
    Created(String),
    Deleted,
}

/// The storage operation whose outcome the router awaits.
pub enum Pending {
    Idle,
    Create(ProjectData),
    Mutation,
    Switch,
    Remove,
    Relist(Refresh),
    FirstLoad(Refresh),
}

/// The name shown for a mode.
pub open spec fn mode_label(m: Mode) -> Seq<char> {
    match m {
        Mode::Normal => "NORMAL"@,
        Mode::Command => "COMMAND"@,
        Mode::TabMode => "TAB"@,
        Mode::CreateProject => "CREATE"@,
        Mode::EditRequest => "EDIT"@,
    }
}

/// The name shown for mode `m`.
pub fn mode_label_text(m: Mode) -> (r: String)
    ensures
        r@ == mode_label(m),
{
    match m {
        Mode::Normal => "NORMAL".to_owned(),
        Mode::Command => "COMMAND".to_owned(),
        Mode::TabMode => "TAB".to_owned(),
        Mode::CreateProject => "CREATE".to_owned(),
        Mode::EditRequest => "EDIT".to_owned(),
    }
}

/// Left and Right move focus between the Sidebar and the Content; every other
/// key, and every other region, keeps the focus where it is.
pub open spec fn navigated(f: Option<FocusTarget>, k: KeyCode) -> Option<FocusTarget> {
    match k {
        KeyCode::Left => if f == Some(FocusTarget::Content) {
            Some(FocusTarget::Sidebar)
        } else {
            f
        },
        KeyCode::Right => if f == Some(FocusTarget::Sidebar) {
            Some(FocusTarget::Content)
        } else {
            f
        },
        _ => f,
    }
}

/// The focus after navigation key `k`.
pub fn navigate(f: Option<FocusTarget>, k: KeyCode) -> (r: Option<FocusTarget>)
    ensures
        r == navigated(f, k),
{
    match k {
        KeyCode::Left => if f == Some(FocusTarget::Content) {
            Some(FocusTarget::Sidebar)
        } else {
            f
        },
        KeyCode::Right => if f == Some(FocusTarget::Sidebar) {
            Some(FocusTarget::Content)
        } else {
            f
        },
        _ => f,
    }
}

/// Whether region `t` reports focus.
pub open spec fn is_focused(focus: Option<FocusTarget>, t: FocusTarget) -> bool {
    focus == Some(t)
}

/// How many regions report focus.
pub open spec fn focused_count(focus: Option<FocusTarget>) -> int {
    (if is_focused(focus, FocusTarget::Header) { 1int } else { 0int }) + (if is_focused(
        focus,
        FocusTarget::Sidebar,
    ) {
        1int
    } else {
        0int
    }) + (if is_focused(focus, FocusTarget::Content) {
        1int
    } else {
        0int
    }) + (if is_focused(focus, FocusTarget::Footer) {
        1int
    } else {
        0int
    })
}

/// At any inspection point, zero or one region reports focus; navigation
/// keeps it so, and a focused region stays a region.
pub proof fn lemma_focus_exclusive(focus: Option<FocusTarget>, k: KeyCode)
    ensures
        0 <= focused_count(focus) <= 1,
        0 <= focused_count(navigated(focus, k)) <= 1,
        focus is Some ==> focused_count(focus) == 1,
        focused_count(navigated(focus, k)) == focused_count(focus),
{
    match focus {
        Some(FocusTarget::Header) => {},
        Some(FocusTarget::Sidebar) => {},
        Some(FocusTarget::Content) => {},
        Some(FocusTarget::Footer) => {},
        None => {},
    }
}

/// The current project of `new` is asked to be saved as it stands, and the
/// request list shows its requests.
pub open spec fn saves_current(new: App, a: AppAction) -> bool {
    &&& new.current_project is Some
    &&& a matches AppAction::Store(StoreOp::Save(s)) && s@ == new.current_project->0@
    &&& new.sidebar@.requests == new.current_project->0@.requests
    &&& new.pending is Mutation
}

/// The index of the first request named `name`, if any.
pub open spec fn first_named(rs: Seq<RequestModel>, name: Text) -> Option<int> {
    if exists|i: int| 0 <= i < rs.len() && rs[i].name == name && forall|j: int| 0 <= j < i ==> rs[j].name != name {
        Some(choose|i: int| 0 <= i < rs.len() && rs[i].name == name && forall|j: int| 0 <= j < i ==> rs[j].name != name)
    } else {
        None
    }
}

fn find_named(rs: &Vec<RequestData>, name: &String) -> (r: Option<usize>)
    ensures
        match r {
            Some(i) => first_named(requests_model(*rs), name@) == Some(i as int) && i < rs@.len(),
            None => first_named(requests_model(*rs), name@) is None,
        },
{
    let ghost m = requests_model(*rs);
    let mut i: usize = 0;
    while i < rs.len()
        invariant
            i <= rs.len(),
            m == requests_model(*rs),
            forall|j: int| 0 <= j < i ==> m[j].name != name@,
        decreases rs.len() - i,
    {
        if rs[i].name == *name {
            proof {
                let c = choose|c: int| 0 <= c < m.len() && m[c].name == name@ && forall|j: int| 0 <= j < c ==> m[j].name != name@;
                assert(0 <= i < m.len() && m[i as int].name == name@ && forall|j: int| 0 <= j < i ==> m[j].name != name@);
                assert(c == i);
            }
            return Some(i);
        }
        i = i + 1;
    }
    None
}

/// The application state that input events and storage outcomes drive.
pub struct App {
    pub layout: AppLayout,
    pub header: Header,
    pub sidebar: Sidebar,
    pub content: Content,
    pub footer: Footer,
    pub modal: Option<Modal>,
    pub should_render: bool,
    pub tick_count: u32,
    pub focus: Option<FocusTarget>,
    pub previous_focus: Option<FocusTarget>,
    pub modal_focus: Option<FocusTarget>,
    pub mode: Mode,
    pub current_project: Option<ProjectData>,
    pub projects: Vec<ProjectData>,
    pub project_name_buffer: String,
    pub pending: Pending,
}

impl App {
    /// The state that every method keeps: the request list's cursor is in range.
    pub open spec fn wf(self) -> bool {
        self.sidebar@.wf()
    }

    /// The router at startup: Normal mode, the Sidebar focused, no project
    /// yet; `start` asks for the project list.
    pub fn new() -> (r: Self)
        ensures
            r.wf(),
            r.mode == Mode::Normal,
            r.focus == Some(FocusTarget::Sidebar),
            r.previous_focus is None,
            r.modal is None,
            r.current_project is None,
            r.projects@.len() == 0,
            r.project_name_buffer@.len() == 0,
            r.pending is Idle,
    {
        App {
            layout: AppLayout::new(),
            header: Header::new(Vec::new()),
            sidebar: Sidebar::new(),
            content: Content::new(),
            footer: Footer::new(),
            modal: None,
            should_render: true,
            tick_count: 0,
            focus: Some(FocusTarget::Sidebar),
            previous_focus: None,
            modal_focus: None,
            mode: Mode::Normal,
            current_project: None,
            projects: Vec::new(),
            project_name_buffer: String::new(),
            pending: Pending::Idle,
        }
    }

    /// Whether the screen needs drawing again.
    pub fn should_render(&self) -> (r: bool)
        ensures
            r == self.should_render,
    {
        self.should_render
    }

    /// Asks for the stored project list, to show the first project.
    pub fn start(&mut self) -> (a: AppAction)
        requires
            old(self).wf(),
        ensures
            final(self).wf(),
            a matches AppAction::Store(StoreOp::List),
            final(self).pending == Pending::Relist(Refresh::Startup),
            final(self).mode == old(self).mode,
            final(self).focus == old(self).focus,
    {
        self.pending = Pending::Relist(Refresh::Startup);
        AppAction::Store(StoreOp::List)
    }

    fn show_current(&mut self)
        requires
            old(self).wf(),
        ensures
            final(self).wf(),
            final(self).sidebar@.requests == match old(self).current_project {
                Some(p) => p@.requests,
                None => Seq::empty(),
            },
            final(self).content.request is None,
            final(self).mode == old(self).mode,
            final(self).focus == old(self).focus,
            final(self).previous_focus == old(self).previous_focus,
            final(self).current_project == old(self).current_project,
            final(self).projects == old(self).projects,
            final(self).modal == old(self).modal,
            final(self).pending == old(self).pending,
            final(self).project_name_buffer == old(self).project_name_buffer,
            final(self).header == old(self).header,
            final(self).footer == old(self).footer,
    {
        let rs = match &self.current_project {
            Some(p) => clone_requests(&p.requests),
            None => Vec::new(),
        };
        proof {
            if self.current_project is None {
                assert(requests_model(rs) =~= Seq::empty());
            }
        }
        self.sidebar.set_requests(rs);
        self.content.clear_request();
        self.should_render = true;
    }

    /// Saves the current project after an in-memory change.
    fn save_current(&mut self) -> (a: AppAction)
        ensures
            match old(self).current_project {
                Some(p) => a matches AppAction::Store(StoreOp::Save(q)) && q@ == p@ && final(self).pending is Mutation,
                None => a is Noop && final(self).pending == old(self).pending,
            },
            final(self).current_project == old(self).current_project,
            final(self).sidebar == old(self).sidebar,
            final(self).content == old(self).content,
            final(self).footer == old(self).footer,
            final(self).header == old(self).header,
            final(self).mode == old(self).mode,
            final(self).focus == old(self).focus,
            final(self).previous_focus == old(self).previous_focus,
            final(self).projects == old(self).projects,
            final(self).modal == old(self).modal,
            final(self).project_name_buffer == old(self).project_name_buffer,
    {
        match &self.current_project {
            Some(p) => {
                let q = p.clone();
                self.pending = Pending::Mutation;
                AppAction::Store(StoreOp::Save(q))
            },
            None => AppAction::Noop,
        }
    }

    /// Applies `u` to the current project, lists its requests again and asks
    /// to save it. Without a current project nothing changes.
    pub fn update_project(&mut self, u: ProjectUpdate) -> (a: AppAction)
        requires
            old(self).wf(),
        ensures
            final(self).wf(),
            match old(self).current_project {
                Some(p) => {
                    &&& final(self).current_project matches Some(q) && q@ == crate::model::updated(p@, u, q.updated_at)
                    &&& final(self).sidebar@.requests == final(self).current_project->0@.requests
                    &&& a matches AppAction::Store(StoreOp::Save(s)) && s@ == final(self).current_project->0@
                    &&& final(self).pending is Mutation
                },
                None => a is Noop && final(self).current_project is None && final(self).sidebar == old(self).sidebar,
            },
            final(self).footer == old(self).footer,
            final(self).header == old(self).header,
            final(self).mode == old(self).mode,
            final(self).focus == old(self).focus,
            final(self).previous_focus == old(self).previous_focus,
            final(self).projects == old(self).projects,
            final(self).modal == old(self).modal,
            final(self).content == old(self).content,
            final(self).project_name_buffer == old(self).project_name_buffer,
    {
        match &mut self.current_project {
            Some(p) => {
                p.apply_update(u);
                let rs = clone_requests(&p.requests);
                self.sidebar.set_requests(rs);
                self.should_render = true;
            },
            None => {
                return AppAction::Noop;
            },
        }
        self.save_current()
    }

    /// Replaces the first request of the current project that bears the name
    /// of `r` with `r`, and asks to save; with no such request nothing changes.
    pub fn replace_request(&mut self, r: RequestData) -> (a: AppAction)
        requires
            old(self).wf(),
        ensures
            final(self).wf(),
            match old(self).current_project {
                Some(p) => match first_named(p@.requests, r@.name) {
                    Some(i) => {
                        &&& final(self).current_project matches Some(q) && q@ == crate::model::updated(
                            p@,
                            ProjectUpdate::UpdateRequest(i as usize, r),
                            q.updated_at,
                        )
                        &&& final(self).current_project->0@.requests == p@.requests.update(i, r@)
                        &&& saves_current(*final(self), a)
                    },
                    None => a is Noop && final(self).current_project == old(self).current_project
                        && final(self).sidebar == old(self).sidebar,
                },
                None => a is Noop && final(self).current_project is None && final(self).sidebar == old(self).sidebar,
            },
            final(self).header == old(self).header,
            final(self).footer == old(self).footer,
            final(self).mode == old(self).mode,
            final(self).focus == old(self).focus,
            final(self).previous_focus == old(self).previous_focus,
            final(self).projects == old(self).projects,
            final(self).modal == old(self).modal,
            final(self).content == old(self).content,
            final(self).project_name_buffer == old(self).project_name_buffer,
    {
        let idx = match &self.current_project {
            Some(p) => find_named(&p.requests, &r.name),
            None => None,
        };
        match idx {
            Some(i) => self.update_project(ProjectUpdate::UpdateRequest(i, r)),
            None => AppAction::Noop,
        }
    }

    /// Asks to load the project of tab `i`; out of range, nothing happens.
    fn switch_tab(&mut self, i: usize) -> (a: AppAction)
        ensures
            i < old(self).projects@.len() ==> (a matches AppAction::Store(StoreOp::Load(id)) && id@
                == old(self).projects@[i as int]@.id && final(self).pending is Switch),
            i >= old(self).projects@.len() ==> a is Noop && final(self).pending == old(self).pending,
            final(self).footer == old(self).footer,
            final(self).header == old(self).header,
            final(self).current_project == old(self).current_project,
            final(self).sidebar == old(self).sidebar,
            final(self).content == old(self).content,
            final(self).mode == old(self).mode,
            final(self).focus == old(self).focus,
            final(self).previous_focus == old(self).previous_focus,
            final(self).projects == old(self).projects,
            final(self).modal == old(self).modal,
            final(self).project_name_buffer == old(self).project_name_buffer,
    {
        if i < self.projects.len() {
            let id = self.projects[i].id.clone();
            self.pending = Pending::Switch;
            AppAction::Store(StoreOp::Load(id))
        } else {
            AppAction::Noop
        }
    }

    /// Asks to delete the project of tab `i`; out of range, nothing happens.
    fn remove_tab(&mut self, i: usize) -> (a: AppAction)
        ensures
            i < old(self).projects@.len() ==> (a matches AppAction::Store(StoreOp::Delete(id)) && id@
                == old(self).projects@[i as int]@.id && final(self).pending is Remove),
            i >= old(self).projects@.len() ==> a is Noop && final(self).pending == old(self).pending,
            final(self).footer == old(self).footer,
            final(self).header == old(self).header,
            final(self).current_project == old(self).current_project,
            final(self).sidebar == old(self).sidebar,
            final(self).content == old(self).content,
            final(self).mode == old(self).mode,
            final(self).focus == old(self).focus,
            final(self).previous_focus == old(self).previous_focus,
            final(self).projects == old(self).projects,
            final(self).modal == old(self).modal,
            final(self).project_name_buffer == old(self).project_name_buffer,
    {
        if i < self.projects.len() {
            let id = self.projects[i].id.clone();
            self.pending = Pending::Remove;
            AppAction::Store(StoreOp::Delete(id))
        } else {
            AppAction::Noop
        }
    }
}

/// The mode after key `k` in mode `m`, with no form open. `closes` tells
/// whether the key leaves the editor showing rather than editing, and
/// `has_tabs` whether the tab bar lists any project.
pub open spec fn mode_after_key(m: Mode, k: KeyCode, closes: bool, has_tabs: bool) -> Mode {
    match m {
        Mode::Normal => if k == KeyCode::Char(' ') {
            Mode::Command
        } else if k == KeyCode::Char('e') {
            Mode::EditRequest
        } else {
            Mode::Normal
        },
        Mode::Command => if k == KeyCode::Char(' ') || k == KeyCode::Char('n') {
            Mode::Normal
        } else if k == KeyCode::Char('t') {
            Mode::TabMode
        } else if k == KeyCode::Char('c') {
            Mode::CreateProject
        } else {
            Mode::Command
        },
        Mode::TabMode => if k == KeyCode::Esc || (k == KeyCode::Char('d') && has_tabs) {
            Mode::Normal
        } else {
            Mode::TabMode
        },
        Mode::CreateProject => if k == KeyCode::Enter || k == KeyCode::Esc {
            Mode::Normal
        } else {
            Mode::CreateProject
        },
        Mode::EditRequest => if closes {
            Mode::Normal
        } else {
            Mode::EditRequest
        },
    }
}

/// The focus after key `k` in mode `m`, with no form open: navigation in
/// Normal mode; entering TabMode remembers the focus and focuses the Header;
/// leaving TabMode restores what was remembered.
pub open spec fn focus_after_key(
    m: Mode,
    f: Option<FocusTarget>,
    prev: Option<FocusTarget>,
    k: KeyCode,
    has_tabs: bool,
) -> Option<FocusTarget> {
    match m {
        Mode::Normal => if k == KeyCode::Char(' ') || k == KeyCode::Char('e') {
            f
        } else {
            navigated(f, k)
        },
        Mode::Command => if k == KeyCode::Char('t') {
            Some(FocusTarget::Header)
        } else {
            f
        },
        Mode::TabMode => if (k == KeyCode::Esc || (k == KeyCode::Char('d') && has_tabs)) && prev is Some {
            prev
        } else {
            f
        },
        _ => f,
    }
}

/// The status shown once a project is deleted.
pub open spec fn deleted_message() -> Seq<char> {
    "Project deleted successfully"@
}

/// A status message: a fixed prefix followed by a detail.
pub open spec fn status_text(prefix: Seq<char>, e: Seq<char>) -> Seq<char> {
    prefix + e
}

/// The index of the first project with identifier `id`, if any.
pub open spec fn first_with_id(ps: Seq<ProjectData>, id: Text) -> Option<int> {
    if exists|i: int| 0 <= i < ps.len() && ps[i]@.id == id && forall|j: int| 0 <= j < i ==> ps[j]@.id != id {
        Some(choose|i: int| 0 <= i < ps.len() && ps[i]@.id == id && forall|j: int| 0 <= j < i ==> ps[j]@.id != id)
    } else {
        None
    }
}

fn find_id(ps: &Vec<ProjectData>, id: &String) -> (r: Option<usize>)
    ensures
        match r {
            Some(i) => first_with_id(ps@, id@) == Some(i as int),
            None => first_with_id(ps@, id@) is None,
        },
{
    let mut i: usize = 0;
    while i < ps.len()
        invariant
            i <= ps.len(),
            forall|j: int| 0 <= j < i ==> ps@[j]@.id != id@,
        decreases ps.len() - i,
    {
        if ps[i].id == *id {
            proof {
                let c = choose|c: int| 0 <= c < ps@.len() && ps@[c]@.id == id@ && forall|j: int| 0 <= j < c ==> ps@[j]@.id != id@;
                assert(0 <= i < ps@.len() && ps@[i as int]@.id == id@ && forall|j: int| 0 <= j < i ==> ps@[j]@.id != id@);
                assert(c == i);
            }
            return Some(i);
        }
        i = i + 1;
    }
    None
}

/// The names of the projects, as tabs.
fn tabs_of(ps: &Vec<ProjectData>) -> (r: Vec<ProjectTab>)
    ensures
        r@.len() == ps@.len(),
        forall|i: int| 0 <= i < ps@.len() ==> (#[trigger] r@[i]).name@ == ps@[i]@.name,
{
    let mut r: Vec<ProjectTab> = Vec::new();
    let mut i: usize = 0;
    while i < ps.len()
        invariant
            i <= ps.len(),
            r@.len() == i,
            forall|j: int| 0 <= j < i ==> (#[trigger] r@[j]).name@ == ps@[j]@.name,
        decreases ps.len() - i,
    {
        r.push(ProjectTab { name: ps[i].name.clone() });
        i = i + 1;
    }
    r
}

/// What a tab-bar action asks of the store: loading the project of a tab in range.
pub open spec fn tab_switch(old: App, ha: HeaderAction, a: AppAction) -> bool {
    match ha {
        HeaderAction::TabChanged(i) => if i < old.projects@.len() {
            a matches AppAction::Store(StoreOp::Load(id)) && id@ == old.projects@[i as int]@.id
        } else {
            a is Noop
        },
        _ => a is Noop,
    }
}

/// The editor showing request `r`, not editing.
pub open spec fn showing(r: RequestModel) -> ContentModel {
    ContentModel { request: Some(r), view_mode: ViewMode::View, edit_field: None, buffer: Seq::empty() }
}

/// The effect of a mouse event with no form open. In Normal mode it goes to
/// the request list, whose selection is shown, and to the tab bar, whose tab
/// change asks to load that project. In EditRequest mode it goes to the
/// editor, whose committed request replaces the first one of the same name
/// and is saved. In the other modes it goes to all three; a committed request
/// is saved, and otherwise a tab change asks to load its project.
pub open spec fn click_effect(old: App, new: App, m: MouseEvent, a: AppAction) -> bool {
    let (s2, sa) = if m.kind == MouseKind::LeftDown {
        sidebar_click_step(old.sidebar@, old.sidebar.rect, m.column, m.row)
    } else {
        (old.sidebar@, SidebarActionModel::Noop)
    };
    let (sel, ha) = header_click_step(old.header.projects@, old.header.selected_index, old.header.rect, m);
    let (c2, ca) = mouse_step(old.content@, old.content.rect, old.content.areas, m);
    let replaces = ca is RequestUpdated && old.current_project is Some && first_named(
        old.current_project->0@.requests,
        ca->RequestUpdated_0.name,
    ) is Some;
    &&& new.mode == old.mode
    &&& new.focus == old.focus
    &&& new.modal == old.modal
    &&& new.projects == old.projects
    &&& new.footer.status == old.footer.status
    &&& if old.mode == Mode::Normal {
        &&& new.sidebar@ == s2
        &&& new.header.selected_index == sel
        &&& new.current_project == old.current_project
        &&& match sa {
            SidebarActionModel::Selected(r) => new.content@ == showing(r),
            _ => new.content == old.content,
        }
        &&& tab_switch(old, ha, a)
    } else if old.mode == Mode::EditRequest {
        &&& new.content@ == c2
        &&& new.header == old.header
        &&& if replaces {
            &&& new.current_project matches Some(q) && q@.requests == old.current_project->0@.requests.update(
                first_named(old.current_project->0@.requests, ca->RequestUpdated_0.name)->0,
                ca->RequestUpdated_0,
            )
            &&& saves_current(new, a)
        } else {
            &&& new.current_project == old.current_project
            &&& new.sidebar == old.sidebar
            &&& a is Noop
        }
    } else {
        &&& new.header.selected_index == sel
        &&& new.content@ == match sa {
            SidebarActionModel::Selected(r) => showing(r),
            _ => c2,
        }
        &&& if replaces {
            &&& new.current_project matches Some(q) && q@.requests == old.current_project->0@.requests.update(
                first_named(old.current_project->0@.requests, ca->RequestUpdated_0.name)->0,
                ca->RequestUpdated_0,
            )
            &&& saves_current(new, a)
        } else {
            &&& new.current_project == old.current_project
            &&& new.sidebar@ == s2
            &&& tab_switch(old, ha, a)
        }
    }
}

/// The effect of a key in CreateProject mode.
pub open spec fn creation_effect(old: App, new: App, key: KeyCode, a: AppAction) -> bool {
    &&& new.focus == old.focus
    &&& new.previous_focus == old.previous_focus
    &&& new.current_project == old.current_project
    &&& new.modal == old.modal
    &&& key == KeyCode::Enter ==> {
        &&& new.mode == Mode::Normal
        &&& new.project_name_buffer == old.project_name_buffer
        &&& old.project_name_buffer@.len() > 0 ==> {
                &&& a matches AppAction::Store(StoreOp::Save(p))
                &&& p@.name == old.project_name_buffer@
        &&& p@.id.len() == 36
                &&& p@.requests.len() == 0
                &&& p@.environments.len() == 0
                &&& new.pending matches Pending::Create(q) && q@ == p@
        }
        &&& old.project_name_buffer@.len() == 0 ==> a is Noop
    }
    &&& key == KeyCode::Esc ==> new.mode == Mode::Normal
        && new.project_name_buffer@.len() == 0 && a is Noop
    &&& key matches KeyCode::Char(c) ==> new.mode == old.mode
        && new.project_name_buffer@ == old.project_name_buffer@.push(c)
        && new.footer.status@ == status_text("New project name: "@, new.project_name_buffer@)
        && a is Noop
    &&& key == KeyCode::Backspace ==> new.mode == old.mode
        && new.project_name_buffer@ == (if old.project_name_buffer@.len() > 0 {
            old.project_name_buffer@.drop_last()
        } else {
            old.project_name_buffer@
        }) && a is Noop
    &&& !(key == KeyCode::Enter || key == KeyCode::Esc || key is Char || key == KeyCode::Backspace)
        ==> new.mode == old.mode && new.project_name_buffer
        == old.project_name_buffer && a is Noop
}

/// The effect of a key in Command mode.
pub open spec fn command_effect(old: App, new: App, key: KeyCode, a: AppAction) -> bool {
    &&& new.mode == mode_after_key(Mode::Command, key, false, false)
    &&& new.focus == focus_after_key(Mode::Command, old.focus, old.previous_focus, key, false)
    &&& key == KeyCode::Char('q') <==> a is Quit
    &&& !(a is Store)
    &&& key == KeyCode::Char('t') ==> new.previous_focus == old.focus
    &&& key != KeyCode::Char('t') ==> new.previous_focus == old.previous_focus
    &&& new.modal == old.modal
    &&& new.sidebar == old.sidebar
    &&& new.content == old.content
    &&& new.current_project == old.current_project
    &&& new.projects == old.projects
}

/// The effect of a key in EditRequest mode.
pub open spec fn edit_effect(old: App, new: App, key: KeyCode, a: AppAction) -> bool {
    &&& new.mode == mode_after_key(
        Mode::EditRequest,
        key,
        key_step(old.content@, key).0.view_mode == ViewMode::View,
        false,
        )
    &&& new.content@ == key_step(old.content@, key).0
    &&& new.focus == old.focus
    &&& new.previous_focus == old.previous_focus
    &&& new.modal == old.modal
    &&& new.projects == old.projects
    &&& key_step(old.content@, key).1 matches ActionModel::RequestUpdated(r) ==> match old.current_project {
        Some(p) => match first_named(p@.requests, r.name) {
            Some(i) => new.current_project matches Some(q) && q@.requests == p@.requests.update(i, r)
                && saves_current(new, a),
            None => new.current_project == old.current_project && a is Noop,
        },
        None => new.current_project is None && a is Noop
    }
    &&& !(key_step(old.content@, key).1 is RequestUpdated) ==> new.current_project == old.current_project && a is Noop
}

/// The effect of a key in Normal mode.
pub open spec fn normal_effect(old: App, new: App, key: KeyCode, a: AppAction) -> bool {
    &&& new.mode == mode_after_key(Mode::Normal, key, false, false)
    &&& new.focus == focus_after_key(Mode::Normal, old.focus, old.previous_focus, key, false)
    &&& new.previous_focus == old.previous_focus
    &&& new.projects == old.projects
    &&& key == KeyCode::Char('a') ==> {
        &&& new.modal matches Some(f) && f@ == blank_form()
        &&& new.modal_focus == old.focus
    }
    &&& key != KeyCode::Char('a') ==> new.modal == old.modal
    &&& if key == KeyCode::Char(' ') || key == KeyCode::Left || key == KeyCode::Right || key
        == KeyCode::Char('a') {
        &&& a is Noop
        &&& new.current_project == old.current_project
        &&& new.sidebar == old.sidebar
        &&& new.content == old.content
    } else if key == KeyCode::Char('e') {
        &&& a is Noop
        &&& new.current_project == old.current_project
        &&& new.sidebar == old.sidebar
        &&& new.content@ == (ContentModel {
            view_mode: ViewMode::Edit,
            edit_field: Some(EditField::Method),
            buffer: match old.content@.request {
                Some(r) => field_text(r, EditField::Method),
                None => old.content@.buffer,
            },
            ..old.content@
        })
    } else {
        let (s2, sa) = sidebar_key_step(old.sidebar@, key);
        match sa {
            SidebarActionModel::Selected(r) => {
                &&& a is Noop
                &&& new.current_project == old.current_project
                &&& new.sidebar@ == s2
                &&& new.content@ == (ContentModel {
                    request: Some(r),
                    view_mode: ViewMode::View,
                    edit_field: None,
                    buffer: Seq::empty(),
                })
            },
            SidebarActionModel::DeleteRequest(i) => {
                &&& new.content.request is None
                &&& match old.current_project {
                    Some(p) => {
                        &&& new.current_project matches Some(q) && q@ == crate::model::updated(
                            p@,
                            ProjectUpdate::DeleteRequest(i),
                            q.updated_at,
                        )
                        &&& new.sidebar@.requests == new.current_project->0@.requests
                        &&& a matches AppAction::Store(StoreOp::Save(s)) && s@ == new.current_project->0@
                    },
                    None => a is Noop && new.current_project is None && new.sidebar@ == s2,
                }
            },
            _ => {
                &&& a is Noop
                &&& new.current_project == old.current_project
                &&& new.sidebar@ == s2
                &&& new.content == old.content
            },
        }
    }
}

/// The effect of a key in TabMode.
pub open spec fn tab_effect(old: App, new: App, key: KeyCode, a: AppAction) -> bool {
    let has_tabs = old.header.projects@.len() > 0;
    &&& new.mode == mode_after_key(Mode::TabMode, key, false, has_tabs)
    &&& new.focus == focus_after_key(Mode::TabMode, old.focus, old.previous_focus, key, has_tabs)
    &&& new.modal == old.modal
    &&& new.current_project == old.current_project
    &&& new.projects == old.projects
    &&& new.sidebar == old.sidebar
    &&& new.content == old.content
    &&& new.footer.status == old.footer.status
    &&& new.previous_focus == if key == KeyCode::Esc || (key == KeyCode::Char('d') && has_tabs) {
        None
    } else {
        old.previous_focus
    }
    &&& if key == KeyCode::Esc || key == KeyCode::Char(' ') {
        a is Noop
    } else {
        let (sel, ha) = header_key_step(old.header.projects@.len() as int, old.header.selected_index, key);
        &&& new.header.selected_index == sel
        &&& match ha {
            HeaderAction::TabChanged(i) => if i < old.projects@.len() {
                a matches AppAction::Store(StoreOp::Load(id)) && id@ == old.projects@[i as int]@.id
            } else {
                a is Noop
            },
            HeaderAction::DeleteProject(i) => if i < old.projects@.len() {
                a matches AppAction::Store(StoreOp::Delete(id)) && id@ == old.projects@[i as int]@.id
            } else {
                a is Noop
            },
            HeaderAction::Noop => a is Noop,
        }
    }
}

/// The effect of an event while the request form is open: the form takes
/// it; on Escape the form closes and nothing else changes; on submission the
/// form closes and the submitted request is appended to the current project,
/// which is saved; either way the focus that the form took is given back.
pub open spec fn modal_effect(old: App, new: App, event: InputEvent, a: AppAction) -> bool {
    &&& new.mode == old.mode
    &&& new.previous_focus == old.previous_focus
    &&& new.modal is None ==> new.focus == old.modal_focus
    &&& new.modal is Some ==> new.focus == old.focus && a is Noop && new.current_project == old.current_project
    &&& new.modal is Some ==> new.modal->0.inputs == old.modal->0.inputs && new.modal->0.rect == old.modal->0.rect
    &&& match event {
        InputEvent::Key(k) => {
            let (f2, fa) = modal_key_step(old.modal->0@, k, 0);
            &&& new.modal is Some <==> fa is Noop
            &&& new.modal is Some ==> new.modal->0@ == f2
        },
        InputEvent::Mouse(m) => new.modal is Some && new.modal->0@ == modal_mouse_step(
            old.modal->0@,
            old.modal->0.inputs@,
            m,
        ),
        InputEvent::Resize => new.modal is Some && new.modal->0@ == old.modal->0@,
    }
    &&& new.modal is None ==> match event {
        InputEvent::Key(KeyCode::Esc) => a is Noop && new.current_project == old.current_project,
        _ => match old.current_project {
            Some(p) => {
                &&& new.current_project matches Some(q) && q@.requests.len() == p@.requests.len() + 1
                    && q@.requests.drop_last() == p@.requests && q@.requests.last() == submitted(
                    old.modal->0@,
                    q@.requests.last().created_at,
                )
                &&& saves_current(new, a)
            },
            None => a is Noop && new.current_project is None,
        },
    }
}

impl App {
    /// Name entry in CreateProject mode: characters and Backspace edit the
    /// name, Escape discards it, Enter with a name builds a new project and
    /// asks to save it.
    fn handle_project_creation(&mut self, key: KeyCode) -> (a: AppAction)
        requires
            old(self).wf(),
            old(self).mode == Mode::CreateProject,
        ensures
            final(self).wf(),
            creation_effect(*old(self), *final(self), key, a),
    {
        match key {
            KeyCode::Enter => {
                self.mode = Mode::Normal;
                if self.project_name_buffer.unicode_len() > 0 {
                    let p = ProjectData::new(self.project_name_buffer.clone());
                    let q = p.clone();
                    self.pending = Pending::Create(q);
                    AppAction::Store(StoreOp::Save(p))
                } else {
                    AppAction::Noop
                }
            },
            KeyCode::Esc => {
                self.project_name_buffer = String::new();
                self.mode = Mode::Normal;
                AppAction::Noop
            },
            KeyCode::Char(c) => {
                push_char(&mut self.project_name_buffer, c);
                let status = "New project name: ".to_owned().concat(self.project_name_buffer.as_str());
                self.footer.set_status(status);
                AppAction::Noop
            },
            KeyCode::Backspace => {
                pop_char(&mut self.project_name_buffer);
                let status = "New project name: ".to_owned().concat(self.project_name_buffer.as_str());
                self.footer.set_status(status);
                AppAction::Noop
            },
            _ => AppAction::Noop,
        }
    }

    /// Normal mode: Space enters Command mode, e starts editing the shown
    /// request, a opens the request form, Left and Right move focus, and other
    /// keys go to the request list.
    fn handle_normal_mode(&mut self, key: KeyCode) -> (a: AppAction)
        requires
            old(self).wf(),
            old(self).mode == Mode::Normal,
        ensures
            final(self).wf(),
            normal_effect(*old(self), *final(self), key, a),
    {
        match key {
            KeyCode::Char(' ') => {
                self.mode = Mode::Command;
                self.should_render = true;
                AppAction::Noop
            },
            KeyCode::Char('e') => {
                self.mode = Mode::EditRequest;
                self.content.enter_edit_mode();
                self.should_render = true;
                AppAction::Noop
            },
            KeyCode::Char('a') => {
                self.modal = Some(Modal::new());
                self.modal_focus = self.focus;
                self.should_render = true;
                AppAction::Noop
            },
            KeyCode::Left | KeyCode::Right => {
                self.focus = navigate(self.focus, key);
                self.should_render = true;
                AppAction::Noop
            },
            _ => {
                match self.sidebar.handle_selection(key) {
                    SidebarAction::Selected(r) => {
                        self.content.set_request(r);
                        self.should_render = true;
                        AppAction::Noop
                    },
                    SidebarAction::ProjectUpdate(u) => {
                        self.content.clear_request();
                        self.update_project(u)
                    },
                    _ => AppAction::Noop,
                }
            },
        }
    }

    /// Command mode: Space or n go back to Normal mode, q quits, t enters
    /// TabMode, c starts naming a new project; other keys do nothing.
    fn handle_command_mode(&mut self, key: KeyCode) -> (a: AppAction)
        requires
            old(self).wf(),
            old(self).mode == Mode::Command,
        ensures
            final(self).wf(),
            command_effect(*old(self), *final(self), key, a),
    {
        match key {
            KeyCode::Char(' ') | KeyCode::Char('n') => {
                self.mode = Mode::Normal;
                self.should_render = true;
                AppAction::Noop
            },
            KeyCode::Char('q') => AppAction::Quit,
            KeyCode::Char('t') => {
                self.mode = Mode::TabMode;
                self.previous_focus = self.focus;
                self.focus = Some(FocusTarget::Header);
                self.should_render = true;
                AppAction::Noop
            },
            KeyCode::Char('c') => {
                self.mode = Mode::CreateProject;
                self.should_render = true;
                AppAction::Noop
            },
            _ => AppAction::Noop,
        }
    }

    /// TabMode: Escape restores the remembered focus and returns to Normal
    /// mode; other keys go to the tab bar, whose tab changes load a project
    /// and whose delete request removes one and returns to Normal mode.
    fn handle_tab_events(&mut self, key: KeyCode) -> (a: AppAction)
        requires
            old(self).wf(),
            old(self).mode == Mode::TabMode,
        ensures
            final(self).wf(),
            tab_effect(*old(self), *final(self), key, a),
    {
        match key {
            KeyCode::Esc => {
                self.mode = Mode::Normal;
                match self.previous_focus.take() {
                    Some(f) => {
                        self.focus = Some(f);
                    },
                    None => {},
                }
                self.should_render = true;
                AppAction::Noop
            },
            KeyCode::Char(' ') => {
                self.should_render = true;
                AppAction::Noop
            },
            _ => match self.header.handle_key_event(key) {
                HeaderAction::TabChanged(i) => self.switch_tab(i),
                HeaderAction::DeleteProject(i) => {
                    self.mode = Mode::Normal;
                    match self.previous_focus.take() {
                        Some(f) => {
                            self.focus = Some(f);
                        },
                        None => {},
                    }
                    self.remove_tab(i)
                },
                HeaderAction::Noop => AppAction::Noop,
            },
        }
    }

    /// EditRequest mode: keys go to the editor; a committed request replaces
    /// the one of the same name in the current project and is saved; when the
    /// editor stops editing, the mode returns to Normal.
    #[verifier::rlimit(50)]
    fn handle_edit_mode(&mut self, key: KeyCode) -> (a: AppAction)
        requires
            old(self).wf(),
            old(self).mode == Mode::EditRequest,
        ensures
            final(self).wf(),
            edit_effect(*old(self), *final(self), key, a),
    {
        let action = self.content.handle_key(key);
        let a = match action {
            ContentAction::RequestUpdated(r) => self.replace_request(r),
            _ => AppAction::Noop,
        };
        if self.content.view_mode == ViewMode::View {
            self.mode = Mode::Normal;
        }
        self.should_render = true;
        a
    }

    /// Routes an event to the open request form, which owns all input until
    /// it closes or submits; either way the focus it took is given back, and a
    /// submitted request is appended to the current project and saved.
    fn route_to_modal(&mut self, event: InputEvent) -> (a: AppAction)
        requires
            old(self).wf(),
            old(self).modal is Some,
        ensures
            final(self).wf(),
            modal_effect(*old(self), *final(self), event, a),
    {
        let mut modal = match self.modal.take() {
            Some(m) => m,
            None => {
                return AppAction::Noop;
            },
        };
        let action = modal.tick(event);
        proof {
            if let InputEvent::Key(k) = event {
                lemma_key_step_stamp(old(self).modal->0@, k, stamp_of(action@), 0);
            }
        }
        self.should_render = true;
        match action {
            ModalAction::Noop => {
                self.modal = Some(modal);
                AppAction::Noop
            },
            ModalAction::Close => {
                self.focus = self.modal_focus;
                AppAction::Noop
            },
            ModalAction::Submit(r) => {
                self.focus = self.modal_focus;
                let ghost rv = r@;
                let ghost before = self.current_project;
                let a = self.update_project(ProjectUpdate::AddRequest(r));
                proof {
                    if before is Some {
                        assert(before->0@.requests.push(rv).drop_last() =~= before->0@.requests);
                    }
                }
                a
            },
        }
    }

    /// Handles one input event. The form, while open, captures every event;
    /// otherwise keys go to the current mode and clicks to the regions.
    pub fn tick(&mut self, event: InputEvent) -> (a: AppAction)
        requires
            old(self).wf(),
        ensures
            final(self).wf(),
            0 <= focused_count(final(self).focus) <= 1,
            final(self).footer.mode@ == mode_label(final(self).mode),
            old(self).modal is Some ==> modal_effect(*old(self), *final(self), event, a),
            old(self).modal is None ==> match event {
                InputEvent::Key(k) => match old(self).mode {
                    Mode::Normal => normal_effect(*old(self), *final(self), k, a),
                    Mode::Command => command_effect(*old(self), *final(self), k, a),
                    Mode::TabMode => tab_effect(*old(self), *final(self), k, a),
                    Mode::CreateProject => creation_effect(*old(self), *final(self), k, a),
                    Mode::EditRequest => edit_effect(*old(self), *final(self), k, a),
                },
                InputEvent::Resize => final(self).mode == old(self).mode && final(self).focus == old(self).focus
                    && final(self).current_project == old(self).current_project && a is Noop,
                InputEvent::Mouse(m) => click_effect(*old(self), *final(self), m, a),
            },
    {
        self.tick_count = self.tick_count.wrapping_add(1);
        let a = if self.modal.is_some() {
            self.route_to_modal(event)
        } else {
            match event {
                InputEvent::Resize => {
                    self.should_render = true;
                    AppAction::Noop
                },
                InputEvent::Key(k) => match self.mode {
                    Mode::CreateProject => {
                        self.should_render = true;
                        self.handle_project_creation(k)
                    },
                    Mode::TabMode => self.handle_tab_events(k),
                    Mode::Normal => self.handle_normal_mode(k),
                    Mode::Command => self.handle_command_mode(k),
                    Mode::EditRequest => self.handle_edit_mode(k),
                },
                InputEvent::Mouse(_) => self.handle_click(event),
            }
        };
        let label = mode_label_text(self.mode);
        self.footer.set_mode(label);
        a
    }

    /// A click goes to the request list and the tab bar in Normal and TabMode,
    /// and to the editor in EditRequest mode.
    fn handle_click(&mut self, event: InputEvent) -> (a: AppAction)
        requires
            old(self).wf(),
            event is Mouse,
        ensures
            final(self).wf(),
            event matches InputEvent::Mouse(m) && click_effect(*old(self), *final(self), m, a),
    {
        match self.mode {
            Mode::Normal => {
                match self.sidebar.tick(event) {
                    SidebarAction::Selected(r) => {
                        self.content.set_request(r);
                        self.should_render = true;
                    },
                    _ => {},
                }
                match self.header.tick(event) {
                    HeaderAction::TabChanged(i) => self.switch_tab(i),
                    _ => AppAction::Noop,
                }
            },
            Mode::EditRequest => match self.content.tick(event) {
                ContentAction::RequestUpdated(r) => self.replace_request(r),
                ContentAction::ContentUpdated => {
                    self.should_render = true;
                    AppAction::Noop
                },
                ContentAction::Noop => AppAction::Noop,
            },
            _ => {
                let sa = self.sidebar.tick(event);
                let ca = self.content.tick(event);
                let ha = self.header.tick(event);
                match sa {
                    SidebarAction::Selected(r) => {
                        self.content.set_request(r);
                    },
                    _ => {},
                }
                self.should_render = true;
                let saved = match ca {
                    ContentAction::RequestUpdated(r) => self.replace_request(r),
                    _ => AppAction::Noop,
                };
                match saved {
                    AppAction::Noop => match ha {
                        HeaderAction::TabChanged(i) => self.switch_tab(i),
                        _ => AppAction::Noop,
                    },
                    _ => saved,
                }
            },
        }
    }

    /// Takes the outcome of the storage operation that the router asked for
    /// and goes on: a created project becomes current once saved, a switched
    /// tab shows the loaded project, a deletion refreshes the list and shows
    /// its first project, and failures become a status message without undoing
    /// in-memory changes. An outcome that answers no pending operation is ignored.
    pub fn complete(&mut self, outcome: StoreOutcome) -> (a: AppAction)
        requires
            old(self).wf(),
        ensures
            final(self).wf(),
            final(self).mode == old(self).mode,
            final(self).focus == old(self).focus,
            final(self).modal == old(self).modal,
            old(self).pending matches Pending::Create(p) ==> match outcome {
                StoreOutcome::Saved(Ok(_)) => {
                    &&& final(self).current_project matches Some(q) && q@ == p@
                    &&& final(self).sidebar@.requests == p@.requests
                    &&& final(self).project_name_buffer@.len() == 0
                    &&& a matches AppAction::Store(StoreOp::List)
                    &&& final(self).pending == Pending::Relist(Refresh::Created(p.id))
                },
                StoreOutcome::Saved(Err(e)) => {
                    &&& final(self).current_project == old(self).current_project
                    &&& final(self).footer.status@ == status_text("Failed to save project: "@, e@)
                    &&& a is Noop && final(self).pending is Idle
                },
                _ => final(self).current_project == old(self).current_project && a is Noop
                    && final(self).pending == old(self).pending,
            },
            old(self).pending is Mutation ==> match outcome {
                StoreOutcome::Saved(Ok(_)) => a is Noop && final(self).pending is Idle
                    && final(self).current_project == old(self).current_project,
                StoreOutcome::Saved(Err(e)) => a is Noop && final(self).pending is Idle
                    && final(self).current_project == old(self).current_project
                    && final(self).footer.status@ == status_text("Failed to save project: "@, e@),
                _ => final(self).current_project == old(self).current_project && a is Noop
                    && final(self).pending == old(self).pending,
            },
            old(self).pending is Switch ==> match outcome {
                StoreOutcome::Loaded(Ok(Some(p))) => {
                    &&& final(self).current_project matches Some(q) && q@ == p@
                    &&& final(self).sidebar@.requests == p@.requests
                    &&& final(self).content.request is None
                    &&& a is Noop && final(self).pending is Idle
                },
                StoreOutcome::Loaded(_) => final(self).current_project == old(self).current_project
                    && a is Noop && final(self).pending is Idle,
                _ => final(self).current_project == old(self).current_project && a is Noop
                    && final(self).pending == old(self).pending,
            },
            old(self).pending is Remove ==> match outcome {
                StoreOutcome::Deleted(Ok(_)) => a matches AppAction::Store(StoreOp::List)
                    && final(self).pending == Pending::Relist(Refresh::Deleted),
                StoreOutcome::Deleted(Err(e)) => a is Noop && final(self).pending is Idle
                    && final(self).footer.status@ == status_text("Failed to delete project: "@, e@),
                _ => a is Noop && final(self).pending == old(self).pending,
            },
            old(self).pending matches Pending::Relist(r) ==> match outcome {
                StoreOutcome::Listed(ps) => {
                    &&& final(self).projects == ps
                    &&& final(self).header.projects@.len() == ps@.len()
                    &&& forall|i: int| 0 <= i < ps@.len() ==> (#[trigger] final(self).header.projects@[i]).name@ == ps@[i]@.name
                    &&& (r is Created || ps@.len() == 0) ==> a is Noop && final(self).pending is Idle
                    &&& (!(r is Created) && ps@.len() == 0) ==> final(self).current_project is None
                        && final(self).sidebar@.requests.len() == 0 && final(self).content.request is None
                    &&& (r is Deleted && ps@.len() == 0) ==> final(self).footer.status@ == deleted_message()
                    &&& r matches Refresh::Created(id) ==> {
                        &&& final(self).current_project == old(self).current_project
                        &&& final(self).header.selected_index == match first_with_id(ps@, id@) {
                            Some(i) => i as usize,
                            None => 0usize,
                        }
                    }
                    &&& (!(r is Created) && ps@.len() > 0) ==> (a matches AppAction::Store(StoreOp::Load(id))
                        && id@ == ps@[0]@.id && final(self).pending == Pending::FirstLoad(r))
                },
                _ => a is Noop && final(self).pending == old(self).pending,
            },
            old(self).pending matches Pending::FirstLoad(r) ==> match outcome {
                StoreOutcome::Loaded(loaded) => {
                    &&& match loaded {
                        Ok(Some(p)) => final(self).current_project matches Some(q) && q@ == p@
                            && final(self).sidebar@.requests == p@.requests,
                        _ => final(self).current_project is None && final(self).sidebar@.requests.len() == 0,
                    }
                    &&& final(self).content.request is None
                    &&& a is Noop && final(self).pending is Idle
                    &&& r is Deleted ==> final(self).footer.status@ == deleted_message()
                    &&& !(r is Deleted) ==> final(self).footer == old(self).footer
                },
                _ => a is Noop && final(self).pending == old(self).pending,
            },
            old(self).pending is Idle ==> a is Noop && final(self).pending is Idle
                && final(self).current_project == old(self).current_project,
    {
        let mut pending = Pending::Idle;
        std::mem::swap(&mut self.pending, &mut pending);
        match pending {
            Pending::Idle => AppAction::Noop,
            Pending::Create(p) => match outcome {
                StoreOutcome::Saved(Ok(_)) => {
                    let id = p.id.clone();
                    self.project_name_buffer = String::new();
                    self.current_project = Some(p);
                    self.show_current();
                    self.pending = Pending::Relist(Refresh::Created(id));
                    AppAction::Store(StoreOp::List)
                },
                StoreOutcome::Saved(Err(e)) => {
                    self.footer.set_status("Failed to save project: ".to_owned().concat(e.as_str()));
                    AppAction::Noop
                },
                _ => {
                    self.pending = Pending::Create(p);
                    AppAction::Noop
                },
            },
            Pending::Mutation => match outcome {
                StoreOutcome::Saved(Ok(_)) => AppAction::Noop,
                StoreOutcome::Saved(Err(e)) => {
                    self.footer.set_status("Failed to save project: ".to_owned().concat(e.as_str()));
                    AppAction::Noop
                },
                _ => {
                    self.pending = Pending::Mutation;
                    AppAction::Noop
                },
            },
            Pending::Switch => match outcome {
                StoreOutcome::Loaded(Ok(Some(p))) => {
                    self.current_project = Some(p);
                    self.show_current();
                    AppAction::Noop
                },
                StoreOutcome::Loaded(_) => AppAction::Noop,
                _ => {
                    self.pending = Pending::Switch;
                    AppAction::Noop
                },
            },
            Pending::Remove => match outcome {
                StoreOutcome::Deleted(Ok(_)) => {
                    self.pending = Pending::Relist(Refresh::Deleted);
                    AppAction::Store(StoreOp::List)
                },
                StoreOutcome::Deleted(Err(e)) => {
                    self.footer.set_status("Failed to delete project: ".to_owned().concat(e.as_str()));
                    AppAction::Noop
                },
                _ => {
                    self.pending = Pending::Remove;
                    AppAction::Noop
                },
            },
            Pending::Relist(r) => match outcome {
                StoreOutcome::Listed(ps) => {
                    let tabs = tabs_of(&ps);
                    self.header = Header::new(tabs);
                    self.should_render = true;
                    match r {
                        Refresh::Created(id) => {
                            match find_id(&ps, &id) {
                                Some(i) => {
                                    self.header.selected_index = i;
                                },
                                None => {},
                            }
                            self.projects = ps;
                            AppAction::Noop
                        },
                        _ => {
                            if ps.len() == 0 {
                                self.projects = ps;
                                self.current_project = None;
                                self.show_current();
                                if matches!(r, Refresh::Deleted) {
                                    self.footer.set_status("Project deleted successfully".to_owned());
                                }
                                AppAction::Noop
                            } else {
                                let id = ps[0].id.clone();
                                self.projects = ps;
                                self.pending = Pending::FirstLoad(r);
                                AppAction::Store(StoreOp::Load(id))
                            }
                        },
                    }
                },
                _ => {
                    self.pending = Pending::Relist(r);
                    AppAction::Noop
                },
            },
            Pending::FirstLoad(r) => match outcome {
                StoreOutcome::Loaded(loaded) => {
                    self.current_project = match loaded {
                        Ok(Some(p)) => Some(p),
                        _ => None,
                    };
                    self.show_current();
                    if matches!(r, Refresh::Deleted) {
                        self.footer.set_status("Project deleted successfully".to_owned());
                    }
                    AppAction::Noop
                },
                _ => {
                    self.pending = Pending::FirstLoad(r);
                    AppAction::Noop
                },
            },
        }
    }
}

} // verus!
