use rurl::input::{InputEvent, KeyCode, MouseEvent, MouseKind, Rect};
use rurl::model::ProjectData;
use rurl::router::{App, AppAction, FocusTarget, Mode, StoreOp, StoreOutcome};

/// A store in memory, keyed by project id, listed in id order.
struct MemoryStore {
    projects: Vec<ProjectData>,
    fail_saves: bool,
}

impl MemoryStore {
    fn run(&mut self, op: StoreOp) -> StoreOutcome {
        match op {
            StoreOp::Save(p) => {
                if self.fail_saves {
                    return StoreOutcome::Saved(Err("disk full".to_string()));
                }
                self.projects.retain(|q| q.id != p.id);
                self.projects.push(p);
                self.projects.sort_by(|a, b| a.id.cmp(&b.id));
                StoreOutcome::Saved(Ok(()))
            },
            StoreOp::Load(id) => StoreOutcome::Loaded(Ok(self.projects.iter().find(|p| p.id == id).cloned())),
            StoreOp::List => StoreOutcome::Listed(
                self.projects
                    .iter()
                    .map(|p| ProjectData {
                        name: p.name.clone(),
                        id: p.id.clone(),
                        requests: Vec::new(),
                        environments: Vec::new(),
                        created_at: 0,
                        updated_at: 0,
                    })
                    .collect(),
            ),
            StoreOp::Delete(id) => {
                self.projects.retain(|p| p.id != id);
                StoreOutcome::Deleted(Ok(()))
            },
        }
    }
}

fn drive(app: &mut App, store: &mut MemoryStore, mut action: AppAction) -> bool {
    loop {
        match action {
            AppAction::Store(op) => {
                let outcome = store.run(op);
                action = app.complete(outcome);
            },
            AppAction::Quit => return true,
            AppAction::Noop => return false,
        }
    }
}

fn press(app: &mut App, store: &mut MemoryStore, k: KeyCode) -> bool {
    let a = app.tick(InputEvent::Key(k));
    drive(app, store, a)
}

fn type_text(app: &mut App, store: &mut MemoryStore, s: &str) {
    for ch in s.chars() {
        press(app, store, KeyCode::Char(ch));
    }
}

fn started(store: &mut MemoryStore) -> App {
    let mut app = App::new();
    let a = app.start();
    drive(&mut app, store, a);
    app
}

fn create_project(app: &mut App, store: &mut MemoryStore, name: &str) {
    press(app, store, KeyCode::Char(' '));
    press(app, store, KeyCode::Char('c'));
    assert_eq!(app.mode, Mode::CreateProject);
    type_text(app, store, name);
    press(app, store, KeyCode::Enter);
    assert_eq!(app.mode, Mode::Normal);
}

#[test]
fn created_request_survives_a_tab_round_trip() {
    let mut store = MemoryStore { projects: Vec::new(), fail_saves: false };
    let mut app = started(&mut store);
    create_project(&mut app, &mut store, "API Tests");
    assert_eq!(app.current_project.as_ref().unwrap().name, "API Tests");
    assert_eq!(app.current_project.as_ref().unwrap().id.len(), 36);
    assert_eq!(app.project_name_buffer, "");
    press(&mut app, &mut store, KeyCode::Char('a'));
    assert!(app.modal.is_some());
    assert_eq!(app.focus, Some(FocusTarget::Sidebar));
    type_text(&mut app, &mut store, "Get Users");
    press(&mut app, &mut store, KeyCode::Tab);
    type_text(&mut app, &mut store, "GET");
    press(&mut app, &mut store, KeyCode::Tab);
    type_text(&mut app, &mut store, "https://api.example.com/users");
    for _ in 0..5 {
        press(&mut app, &mut store, KeyCode::Tab);
    }
    press(&mut app, &mut store, KeyCode::Enter);
    assert!(app.modal.is_none());
    assert_eq!(app.focus, Some(FocusTarget::Sidebar));
    create_project(&mut app, &mut store, "Other");
    assert_eq!(app.projects.len(), 2);
    let api = app.projects.iter().position(|p| p.name == "API Tests").unwrap();
    let other = 1 - api;
    press(&mut app, &mut store, KeyCode::Char(' '));
    press(&mut app, &mut store, KeyCode::Char('t'));
    assert_eq!(app.mode, Mode::TabMode);
    assert_eq!(app.focus, Some(FocusTarget::Header));
    let digit = |i: usize| KeyCode::Char(char::from(b'1' + i as u8));
    press(&mut app, &mut store, digit(other));
    assert_eq!(app.current_project.as_ref().unwrap().name, "Other");
    assert!(app.sidebar.requests.is_empty());
    press(&mut app, &mut store, digit(api));
    press(&mut app, &mut store, KeyCode::Esc);
    assert_eq!(app.mode, Mode::Normal);
    assert_eq!(app.focus, Some(FocusTarget::Sidebar));
    assert_eq!(app.sidebar.requests.len(), 1);
    assert_eq!(app.sidebar.requests[0].name, "Get Users");
    assert_eq!(app.sidebar.requests[0].method, Some("GET".to_string()));
}

#[test]
fn editing_a_header_saves_the_project() {
    let mut store = MemoryStore { projects: Vec::new(), fail_saves: false };
    let mut app = started(&mut store);
    create_project(&mut app, &mut store, "P");
    press(&mut app, &mut store, KeyCode::Char('a'));
    type_text(&mut app, &mut store, "R");
    press(&mut app, &mut store, KeyCode::Esc);
    assert!(app.modal.is_none());
    assert!(app.current_project.as_ref().unwrap().requests.is_empty());
    press(&mut app, &mut store, KeyCode::Char('a'));
    type_text(&mut app, &mut store, "R");
    for _ in 0..8 {
        press(&mut app, &mut store, KeyCode::Tab);
    }
    press(&mut app, &mut store, KeyCode::Enter);
    press(&mut app, &mut store, KeyCode::Enter);
    assert_eq!(app.content.request.as_ref().unwrap().name, "R");
    press(&mut app, &mut store, KeyCode::Char('e'));
    assert_eq!(app.mode, Mode::EditRequest);
    press(&mut app, &mut store, KeyCode::Tab);
    press(&mut app, &mut store, KeyCode::Tab);
    type_text(&mut app, &mut store, "Content-Type:application/json");
    press(&mut app, &mut store, KeyCode::Enter);
    let saved = &store.projects[0].requests[0];
    assert_eq!(saved.headers, Some(vec![("Content-Type".to_string(), "application/json".to_string())]));
    assert_eq!(app.sidebar.requests[0].headers, saved.headers);
    press(&mut app, &mut store, KeyCode::Esc);
    assert_eq!(app.mode, Mode::EditRequest);
    press(&mut app, &mut store, KeyCode::Esc);
    assert_eq!(app.mode, Mode::Normal);
    assert_eq!(app.footer.mode, "NORMAL");
}

#[test]
fn deleting_a_request_and_a_project() {
    let mut store = MemoryStore { projects: Vec::new(), fail_saves: false };
    let mut app = started(&mut store);
    create_project(&mut app, &mut store, "Gone");
    press(&mut app, &mut store, KeyCode::Char('a'));
    type_text(&mut app, &mut store, "X");
    for _ in 0..8 {
        press(&mut app, &mut store, KeyCode::Tab);
    }
    assert_eq!(store.projects[0].requests.len(), 1);
    press(&mut app, &mut store, KeyCode::Char('d'));
    assert!(store.projects[0].requests.is_empty());
    assert!(app.sidebar.requests.is_empty());
    press(&mut app, &mut store, KeyCode::Char(' '));
    press(&mut app, &mut store, KeyCode::Char('t'));
    press(&mut app, &mut store, KeyCode::Char('d'));
    assert!(store.projects.is_empty());
    assert!(app.projects.is_empty());
    assert!(app.current_project.is_none());
    assert_eq!(app.mode, Mode::Normal);
    assert_eq!(app.footer.status, "Project deleted successfully");
    press(&mut app, &mut store, KeyCode::Char(' '));
    press(&mut app, &mut store, KeyCode::Char('t'));
    press(&mut app, &mut store, KeyCode::Char('d'));
    assert_eq!(app.mode, Mode::TabMode);
    press(&mut app, &mut store, KeyCode::Char('l'));
    assert!(app.current_project.is_none());
}

#[test]
fn a_failed_save_is_reported_and_kept_in_memory() {
    let mut store = MemoryStore { projects: Vec::new(), fail_saves: false };
    let mut app = started(&mut store);
    create_project(&mut app, &mut store, "Keep");
    store.fail_saves = true;
    press(&mut app, &mut store, KeyCode::Char('a'));
    type_text(&mut app, &mut store, "Lost");
    for _ in 0..8 {
        press(&mut app, &mut store, KeyCode::Tab);
    }
    assert_eq!(app.footer.status, "Failed to save project: disk full");
    assert_eq!(app.current_project.as_ref().unwrap().requests.len(), 1);
    assert!(store.projects[0].requests.is_empty());
    create_project(&mut app, &mut store, "Never");
    assert_eq!(app.footer.status, "Failed to save project: disk full");
    assert_eq!(app.current_project.as_ref().unwrap().name, "Keep");
}

#[test]
fn focus_stays_with_one_region() {
    let mut store = MemoryStore { projects: Vec::new(), fail_saves: false };
    let mut app = started(&mut store);
    let keys = [
        KeyCode::Right,
        KeyCode::Right,
        KeyCode::Left,
        KeyCode::Left,
        KeyCode::Right,
        KeyCode::Up,
        KeyCode::Down,
        KeyCode::Left,
    ];
    let mut expected = FocusTarget::Sidebar;
    for k in keys {
        press(&mut app, &mut store, k);
        if k == KeyCode::Right {
            expected = FocusTarget::Content;
        } else if k == KeyCode::Left {
            expected = FocusTarget::Sidebar;
        }
        assert_eq!(app.focus, Some(expected));
    }
    press(&mut app, &mut store, KeyCode::Char(' '));
    press(&mut app, &mut store, KeyCode::Char('t'));
    assert_eq!(app.focus, Some(FocusTarget::Header));
    press(&mut app, &mut store, KeyCode::Esc);
    assert_eq!(app.focus, Some(FocusTarget::Sidebar));
}

#[test]
fn command_mode_toggles_and_quits() {
    let mut store = MemoryStore { projects: Vec::new(), fail_saves: false };
    let mut app = started(&mut store);
    press(&mut app, &mut store, KeyCode::Char(' '));
    assert_eq!(app.mode, Mode::Command);
    assert_eq!(app.footer.mode, "COMMAND");
    press(&mut app, &mut store, KeyCode::Char(' '));
    assert_eq!(app.mode, Mode::Normal);
    press(&mut app, &mut store, KeyCode::Char(' '));
    press(&mut app, &mut store, KeyCode::Esc);
    assert_eq!(app.mode, Mode::Command);
    press(&mut app, &mut store, KeyCode::Char('r'));
    assert_eq!(app.mode, Mode::Command);
    assert!(app.modal.is_none());
    press(&mut app, &mut store, KeyCode::Char('n'));
    assert_eq!(app.mode, Mode::Normal);
    press(&mut app, &mut store, KeyCode::Char(' '));
    press(&mut app, &mut store, KeyCode::Char('c'));
    type_text(&mut app, &mut store, "ab");
    press(&mut app, &mut store, KeyCode::Backspace);
    assert_eq!(app.project_name_buffer, "a");
    assert_eq!(app.footer.status, "New project name: a");
    press(&mut app, &mut store, KeyCode::Esc);
    assert_eq!(app.project_name_buffer, "");
    assert!(store.projects.is_empty());
    press(&mut app, &mut store, KeyCode::Char(' '));
    assert!(press(&mut app, &mut store, KeyCode::Char('q')));
}

#[test]
fn startup_shows_the_first_stored_project() {
    let mut store = MemoryStore { projects: Vec::new(), fail_saves: false };
    let mut p = ProjectData::new("Stored".to_string());
    p.requests.push(rurl::model::RequestData::new("one".to_string()));
    store.projects.push(p);
    let app = started(&mut store);
    assert_eq!(app.projects.len(), 1);
    assert_eq!(app.current_project.as_ref().unwrap().name, "Stored");
    assert_eq!(app.sidebar.requests.len(), 1);
    assert_eq!(app.header.projects.len(), 1);
}

#[test]
fn a_failed_delete_is_reported_and_unrelated_outcomes_are_ignored() {
    let mut store = MemoryStore { projects: Vec::new(), fail_saves: false };
    let mut app = started(&mut store);
    create_project(&mut app, &mut store, "Stays");
    press(&mut app, &mut store, KeyCode::Char(' '));
    press(&mut app, &mut store, KeyCode::Char('t'));
    let a = app.tick(InputEvent::Key(KeyCode::Char('d')));
    assert!(matches!(a, AppAction::Store(StoreOp::Delete(_))));
    let a = app.complete(StoreOutcome::Deleted(Err("locked".to_string())));
    assert!(matches!(a, AppAction::Noop));
    assert_eq!(app.footer.status, "Failed to delete project: locked");
    assert_eq!(app.current_project.as_ref().unwrap().name, "Stays");
    let a = app.complete(StoreOutcome::Listed(Vec::new()));
    assert!(matches!(a, AppAction::Noop));
    assert_eq!(app.projects.len(), 1);
    assert_eq!(app.mode, Mode::Normal);
}

#[test]
fn clicks_in_command_mode_reach_the_request_list() {
    let mut store = MemoryStore { projects: Vec::new(), fail_saves: false };
    let mut p = ProjectData::new("Clicks".to_string());
    p.requests.push(rurl::model::RequestData::new("first".to_string()));
    p.requests.push(rurl::model::RequestData::new("second".to_string()));
    store.projects.push(p);
    let mut app = started(&mut store);
    app.sidebar.rect = Some(Rect { x: 0, y: 1, width: 30, height: 10 });
    press(&mut app, &mut store, KeyCode::Char(' '));
    let a = app.tick(InputEvent::Mouse(MouseEvent { kind: MouseKind::LeftDown, column: 3, row: 3 }));
    assert!(matches!(a, AppAction::Noop));
    assert_eq!(app.mode, Mode::Command);
    assert_eq!(app.sidebar.selected_index, Some(1));
    assert_eq!(app.content.request.as_ref().unwrap().name, "second");
}
