use rurl::header::{Header, HeaderAction, ProjectTab};
use rurl::input::{KeyCode, MouseEvent, MouseKind, Rect};
use rurl::modal::{Modal, ModalAction, ModalField};
use rurl::model::{AuthData, ProjectUpdate, RequestData};
use rurl::sidebar::{Sidebar, SidebarAction};

fn type_into(m: &mut Modal, s: &str) {
    for ch in s.chars() {
        m.handle_key_event(KeyCode::Char(ch), 7);
    }
}

#[test]
fn form_builds_a_full_request() {
    let mut m = Modal::new();
    type_into(&mut m, "Get Users");
    m.handle_key_event(KeyCode::Enter, 7);
    assert_eq!(m.current_field, ModalField::Method);
    type_into(&mut m, "GET");
    m.handle_key_event(KeyCode::Tab, 7);
    type_into(&mut m, "https://api.example.com/users");
    m.handle_key_event(KeyCode::Tab, 7);
    type_into(&mut m, "Accept: text/plain");
    m.handle_key_event(KeyCode::Enter, 7);
    assert_eq!(m.header_entry, "");
    type_into(&mut m, "no separator");
    m.handle_key_event(KeyCode::Enter, 7);
    assert_eq!(m.header_entry, "no separator");
    m.handle_key_event(KeyCode::Tab, 7);
    type_into(&mut m, "q=1");
    m.handle_key_event(KeyCode::Enter, 7);
    m.handle_key_event(KeyCode::Tab, 7);
    m.handle_key_event(KeyCode::Tab, 7);
    assert_eq!(m.current_field, ModalField::Auth);
    type_into(&mut m, "basic u p");
    m.handle_key_event(KeyCode::Enter, 7);
    assert_eq!(m.auth_entry, "");
    m.handle_key_event(KeyCode::Tab, 7);
    type_into(&mut m, "hi!");
    m.handle_key_event(KeyCode::Backspace, 7);
    match m.handle_key_event(KeyCode::Enter, 7) {
        ModalAction::Submit(r) => {
            assert_eq!(r.name, "Get Users");
            assert_eq!(r.method, Some("GET".to_string()));
            assert_eq!(r.url, Some("https://api.example.com/users".to_string()));
            assert_eq!(r.headers, Some(vec![("Accept".to_string(), "text/plain".to_string())]));
            assert_eq!(r.query_params, Some(vec![("q".to_string(), "1".to_string())]));
            assert_eq!(r.path_params, Some(Vec::new()));
            assert_eq!(r.auth, Some(AuthData::Basic { username: "u".to_string(), password: "p".to_string() }));
            assert_eq!(r.body, Some("hi".to_string()));
            assert_eq!(r.created_at, 7);
        },
        _ => panic!("Enter on Body submits"),
    }
}

#[test]
fn form_escape_closes_and_backtab_stops_at_name() {
    let mut m = Modal::new();
    m.handle_key_event(KeyCode::BackTab, 0);
    assert_eq!(m.current_field, ModalField::Name);
    m.handle_key_event(KeyCode::Tab, 0);
    m.handle_key_event(KeyCode::BackTab, 0);
    assert_eq!(m.current_field, ModalField::Name);
    assert!(matches!(m.handle_key_event(KeyCode::Esc, 0), ModalAction::Close));
}

#[test]
fn form_tab_past_body_submits() {
    let mut m = Modal::new();
    for _ in 0..7 {
        assert!(matches!(m.handle_key_event(KeyCode::Tab, 0), ModalAction::Noop));
    }
    assert_eq!(m.current_field, ModalField::Body);
    assert!(matches!(m.handle_key_event(KeyCode::Tab, 0), ModalAction::Submit(_)));
}

#[test]
fn form_click_selects_an_input() {
    let mut m = Modal::new();
    let inputs: Vec<Rect> = (0..8).map(|i| Rect { x: 15, y: 1 + 3 * i, width: 40, height: 3 }).collect();
    m.set_areas(Rect { x: 0, y: 0, width: 60, height: 30 }, inputs);
    m.handle_mouse_event(MouseEvent { kind: MouseKind::LeftDown, column: 20, row: 8 });
    assert_eq!(m.current_field, ModalField::Url);
    m.handle_mouse_event(MouseEvent { kind: MouseKind::LeftDown, column: 2, row: 8 });
    assert_eq!(m.current_field, ModalField::Url);
    m.handle_mouse_event(MouseEvent { kind: MouseKind::Other, column: 20, row: 23 });
    assert_eq!(m.current_field, ModalField::Url);
}

fn named(n: &str) -> RequestData {
    RequestData::new(n.to_string())
}

#[test]
fn sidebar_moves_its_cursor_and_asks() {
    let mut s = Sidebar::new();
    assert!(matches!(s.handle_selection(KeyCode::Down), SidebarAction::Noop));
    s.set_requests(vec![named("a"), named("b"), named("c")]);
    assert_eq!(s.selected_index, Some(0));
    match s.handle_selection(KeyCode::Char('j')) {
        SidebarAction::Selected(r) => assert_eq!(r.name, "b"),
        _ => panic!("j selects the next request"),
    }
    s.handle_selection(KeyCode::Down);
    s.handle_selection(KeyCode::Down);
    assert_eq!(s.selected_index, Some(2));
    s.handle_selection(KeyCode::Up);
    assert_eq!(s.selected_index, Some(1));
    assert!(matches!(
        s.handle_selection(KeyCode::Char('d')),
        SidebarAction::ProjectUpdate(ProjectUpdate::DeleteRequest(1))
    ));
    assert!(matches!(s.handle_selection(KeyCode::Char('e')), SidebarAction::EditRequest));
    s.set_requests(Vec::new());
    assert_eq!(s.selected_index, None);
}

fn tabs(n: usize) -> Vec<ProjectTab> {
    (0..n).map(|i| ProjectTab { name: format!("p{}", i) }).collect()
}

#[test]
fn header_keys_move_between_tabs() {
    let mut h = Header::new(tabs(3));
    assert_eq!(h.handle_key_event(KeyCode::Char('h')), HeaderAction::Noop);
    assert_eq!(h.handle_key_event(KeyCode::Char('l')), HeaderAction::TabChanged(1));
    assert_eq!(h.handle_key_event(KeyCode::Right), HeaderAction::TabChanged(2));
    assert_eq!(h.handle_key_event(KeyCode::Right), HeaderAction::Noop);
    assert_eq!(h.handle_key_event(KeyCode::Char('1')), HeaderAction::TabChanged(0));
    assert_eq!(h.handle_key_event(KeyCode::Char('4')), HeaderAction::Noop);
    assert_eq!(h.handle_key_event(KeyCode::Char('0')), HeaderAction::Noop);
    assert_eq!(h.handle_key_event(KeyCode::Char('d')), HeaderAction::DeleteProject(0));
    let mut empty = Header::new(Vec::new());
    assert_eq!(empty.handle_key_event(KeyCode::Char('d')), HeaderAction::Noop);
}

#[test]
fn header_tabs_are_name_plus_four_wide() {
    let h = Header::new(vec![ProjectTab { name: "ab".to_string() }, ProjectTab { name: "xyz".to_string() }]);
    assert_eq!(h.tab_at_column(0), Some(0));
    assert_eq!(h.tab_at_column(5), Some(0));
    assert_eq!(h.tab_at_column(6), Some(1));
    assert_eq!(h.tab_at_column(12), Some(1));
    assert_eq!(h.tab_at_column(13), None);
}
