use rurl::editor::{Content, ContentAction, EditField, FieldAreas, ViewMode};
use rurl::input::{KeyCode, Rect};
use rurl::model::{AuthData, RequestData};

fn sample() -> RequestData {
    RequestData {
        name: "Get Users".to_string(),
        method: Some("GET".to_string()),
        url: Some("https://api.example.com/users".to_string()),
        headers: None,
        body: None,
        query_params: None,
        path_params: None,
        auth: Some(AuthData::NoAuth),
        created_at: 0,
        updated_at: 0,
    }
}

fn editing() -> Content {
    let mut c = Content::new();
    c.set_request(sample());
    c.enter_edit_mode();
    c
}

fn type_text(c: &mut Content, s: &str) {
    for ch in s.chars() {
        c.handle_key(KeyCode::Char(ch));
    }
}

fn go_to(c: &mut Content, f: EditField) {
    let mut n = 0;
    while c.edit_field != Some(f) && n < 8 {
        c.handle_key(KeyCode::Tab);
        n += 1;
    }
}

#[test]
fn header_entry_appends_one_pair_and_clears_the_buffer() {
    let mut c = editing();
    go_to(&mut c, EditField::Headers);
    assert_eq!(c.edit_buffer, "");
    type_text(&mut c, "Content-Type:application/json");
    let a = c.handle_key(KeyCode::Enter);
    let expected = vec![("Content-Type".to_string(), "application/json".to_string())];
    assert_eq!(c.request.as_ref().unwrap().headers, Some(expected.clone()));
    assert_eq!(c.edit_buffer, "");
    match a {
        ContentAction::RequestUpdated(r) => assert_eq!(r.headers, Some(expected.clone())),
        _ => panic!("a committed header must hand the request on"),
    }
    type_text(&mut c, "malformed-no-colon");
    let a = c.handle_key(KeyCode::Enter);
    assert!(matches!(a, ContentAction::ContentUpdated));
    assert_eq!(c.request.as_ref().unwrap().headers, Some(expected));
    assert_eq!(c.edit_buffer, "malformed-no-colon");
}

#[test]
fn seven_tabs_come_back_and_backtab_undoes_tab() {
    let fields = [
        EditField::Method,
        EditField::Url,
        EditField::Headers,
        EditField::QueryParams,
        EditField::PathParams,
        EditField::Auth,
        EditField::Body,
    ];
    for f in fields {
        let mut c = editing();
        go_to(&mut c, f);
        assert_eq!(c.edit_field, Some(f));
        for _ in 0..7 {
            c.handle_key(KeyCode::Tab);
        }
        assert_eq!(c.edit_field, Some(f));
        c.handle_key(KeyCode::Tab);
        c.handle_key(KeyCode::BackTab);
        assert_eq!(c.edit_field, Some(f));
        c.handle_key(KeyCode::BackTab);
        c.handle_key(KeyCode::Tab);
        assert_eq!(c.edit_field, Some(f));
    }
    assert_eq!(EditField::next(Some(EditField::Body)), EditField::Method);
    assert_eq!(EditField::previous(Some(EditField::Method)), EditField::Body);
    assert_eq!(EditField::next(None), EditField::Method);
}

#[test]
fn leaving_a_scalar_field_commits_its_text() {
    let mut c = editing();
    assert_eq!(c.edit_buffer, "GET");
    c.handle_key(KeyCode::Backspace);
    c.handle_key(KeyCode::Backspace);
    c.handle_key(KeyCode::Backspace);
    type_text(&mut c, "POST");
    let a = c.handle_key(KeyCode::Tab);
    assert!(matches!(a, ContentAction::RequestUpdated(_)));
    assert_eq!(c.request.as_ref().unwrap().method, Some("POST".to_string()));
    assert_eq!(c.edit_field, Some(EditField::Url));
    assert_eq!(c.edit_buffer, "https://api.example.com/users");
}

#[test]
fn enter_on_method_commits_and_moves_to_url() {
    let mut c = editing();
    type_text(&mut c, "X");
    let a = c.handle_key(KeyCode::Enter);
    match a {
        ContentAction::RequestUpdated(r) => assert_eq!(r.method, Some("GETX".to_string())),
        _ => panic!("expected an updated request"),
    }
    assert_eq!(c.edit_field, Some(EditField::Url));
    assert_eq!(c.edit_buffer, "https://api.example.com/users");
    let _ = c.handle_key(KeyCode::Enter);
    assert_eq!(c.edit_field, Some(EditField::Headers));
    assert_eq!(c.edit_buffer, "");
}

#[test]
fn query_and_path_params_use_equals() {
    let mut c = editing();
    go_to(&mut c, EditField::QueryParams);
    type_text(&mut c, " page = 2 ");
    c.handle_key(KeyCode::Enter);
    type_text(&mut c, "a:b");
    c.handle_key(KeyCode::Enter);
    assert_eq!(c.edit_buffer, "a:b");
    let r = c.request.as_ref().unwrap();
    assert_eq!(r.query_params, Some(vec![("page".to_string(), "2".to_string())]));
    c.handle_key(KeyCode::Esc);
    go_to(&mut c, EditField::PathParams);
    type_text(&mut c, "id=7");
    c.handle_key(KeyCode::Enter);
    assert_eq!(c.request.as_ref().unwrap().path_params, Some(vec![("id".to_string(), "7".to_string())]));
}

#[test]
fn auth_field_parses_its_command() {
    let mut c = editing();
    go_to(&mut c, EditField::Auth);
    type_text(&mut c, "bearer abc");
    let a = c.handle_key(KeyCode::Enter);
    assert!(matches!(a, ContentAction::RequestUpdated(_)));
    assert_eq!(c.request.as_ref().unwrap().auth, Some(AuthData::Bearer { token: "abc".to_string() }));
    assert_eq!(c.edit_buffer, "");
    type_text(&mut c, "nonsense");
    c.handle_key(KeyCode::Enter);
    assert_eq!(c.request.as_ref().unwrap().auth, Some(AuthData::NoAuth));
}

#[test]
fn escape_first_clears_the_field_then_leaves_editing() {
    let mut c = editing();
    type_text(&mut c, "zz");
    let a = c.handle_key(KeyCode::Esc);
    assert!(matches!(a, ContentAction::ContentUpdated));
    assert_eq!(c.edit_field, None);
    assert_eq!(c.edit_buffer, "");
    assert_eq!(c.view_mode, ViewMode::Edit);
    c.handle_key(KeyCode::Esc);
    assert_eq!(c.view_mode, ViewMode::View);
    assert!(matches!(c.handle_key(KeyCode::Char('a')), ContentAction::Noop));
    assert_eq!(c.request.as_ref().unwrap().method, Some("GET".to_string()));
}

#[test]
fn body_enter_commits_and_stays() {
    let mut c = editing();
    go_to(&mut c, EditField::Body);
    type_text(&mut c, "{}");
    c.handle_key(KeyCode::Enter);
    assert_eq!(c.request.as_ref().unwrap().body, Some("{}".to_string()));
    assert_eq!(c.edit_field, Some(EditField::Body));
    assert_eq!(c.edit_buffer, "");
}

fn row(y: u16) -> Rect {
    Rect { x: 0, y, width: 20, height: 3 }
}

#[test]
fn clicks_move_between_fields_and_submit() {
    let areas = FieldAreas {
        method: row(0),
        url: row(4),
        headers: row(8),
        query_params: row(12),
        path_params: row(16),
        body: row(24),
        submit: row(30),
    };
    let mut c = editing();
    let a = c.handle_mouse_click(3, 9, &areas);
    assert!(matches!(a, ContentAction::RequestUpdated(_)));
    assert_eq!(c.edit_field, Some(EditField::Headers));
    let a = c.handle_mouse_click(3, 31, &areas);
    assert!(matches!(a, ContentAction::RequestUpdated(_)));
    let a = c.handle_mouse_click(30, 31, &areas);
    assert!(matches!(a, ContentAction::Noop));
    let mut empty = Content::new();
    assert!(matches!(empty.handle_mouse_click(3, 9, &areas), ContentAction::Noop));
}

#[test]
fn rect_contains_its_cells_only() {
    let r = Rect { x: 2, y: 3, width: 4, height: 2 };
    assert!(r.contains(2, 3));
    assert!(r.contains(5, 4));
    assert!(!r.contains(6, 4));
    assert!(!r.contains(2, 5));
    let edge = Rect { x: u16::MAX, y: u16::MAX, width: 1, height: 1 };
    assert!(edge.contains(u16::MAX, u16::MAX));
}
