use rurl::config::{generate_default_config, Config, FooterColorsConfig, ThemeConfig};
use rurl::theme::{Color, Theme};
use rurl::model::{AuthData, Environment, ProjectData, ProjectUpdate, RequestData};
use rurl::rows::ProjectRows;

fn request(name: &str) -> RequestData {
    RequestData {
        name: name.to_string(),
        method: Some("GET".to_string()),
        url: Some("https://api.example.com".to_string()),
        headers: Some(vec![("Content-Type".to_string(), "application/json".to_string())]),
        body: None,
        query_params: None,
        path_params: None,
        auth: None,
        created_at: 0,
        updated_at: 0,
    }
}

fn project() -> ProjectData {
    ProjectData {
        name: "Test Project".to_string(),
        id: "test-123".to_string(),
        requests: vec![request("")],
        environments: Vec::new(),
        created_at: 0,
        updated_at: 0,
    }
}

#[test]
fn test_project_crud() {
    let project = project();
    let rows = ProjectRows::from_project(&project);
    let loaded = rows.to_project();
    assert_eq!(project.name, loaded.name);
    assert_eq!(project.id, loaded.id);
    assert_eq!(project.requests.len(), loaded.requests.len());
}

#[test]
fn rows_round_trip_keeps_every_child() {
    let mut second = request("Create User");
    second.method = Some("POST".to_string());
    second.body = Some("{\"name\":\"x\"}".to_string());
    second.query_params = Some(vec![("page".to_string(), "2".to_string())]);
    second.path_params = Some(vec![("id".to_string(), "7".to_string()), ("org".to_string(), "a".to_string())]);
    second.auth = Some(AuthData::ApiKey { key: "k".to_string(), value: "v".to_string(), in_header: true });
    second.headers = Some(Vec::new());
    let mut third = request("Token");
    third.auth = Some(AuthData::Bearer { token: "t0k".to_string() });
    third.headers = Some(vec![("A".to_string(), "1".to_string()), ("B".to_string(), "2".to_string())]);
    let p = ProjectData {
        name: "API".to_string(),
        id: "p-1".to_string(),
        requests: vec![request("List"), second, third],
        environments: vec![
            Environment { name: "dev".to_string(), variables: vec![("host".to_string(), "localhost".to_string())] },
            Environment { name: "prod".to_string(), variables: Vec::new() },
            Environment {
                name: "stage".to_string(),
                variables: vec![("a".to_string(), "1".to_string()), ("b".to_string(), "2".to_string())],
            },
        ],
        created_at: 10,
        updated_at: 20,
    };
    let rows = ProjectRows::from_project(&p);
    assert_eq!(rows.headers.len(), 3);
    assert_eq!(rows.variables.len(), 3);
    assert_eq!(rows.requests.len(), 3);
    assert_eq!(rows.to_project(), p);
}

#[test]
fn rows_turn_absent_headers_into_an_empty_list() {
    let mut r = request("x");
    r.headers = None;
    let mut p = project();
    p.requests = vec![r];
    let back = ProjectRows::from_project(&p).to_project();
    assert_eq!(back.requests[0].headers, Some(Vec::new()));
}

#[test]
fn update_out_of_range_changes_nothing_but_the_stamp() {
    let mut p = project();
    p.apply_update_at(ProjectUpdate::DeleteRequest(5), 42);
    assert_eq!(p.requests.len(), 1);
    assert_eq!(p.updated_at, 42);
    p.apply_update_at(ProjectUpdate::UpdateRequest(1, request("y")), 43);
    assert_eq!(p.requests[0].name, "");
    p.apply_update_at(ProjectUpdate::DeleteEnvironment(0), 44);
    assert!(p.environments.is_empty());
    assert_eq!(p.updated_at, 44);
}

#[test]
fn updates_add_replace_delete_and_rename() {
    let mut p = project();
    p.apply_update_at(ProjectUpdate::AddRequest(request("b")), 1);
    assert_eq!(p.requests.len(), 2);
    p.apply_update_at(ProjectUpdate::UpdateRequest(0, request("a")), 2);
    assert_eq!(p.requests[0].name, "a");
    p.apply_update_at(ProjectUpdate::DeleteRequest(0), 3);
    assert_eq!(p.requests.len(), 1);
    assert_eq!(p.requests[0].name, "b");
    p.apply_update_at(ProjectUpdate::UpdateName("Renamed".to_string()), 4);
    assert_eq!(p.name, "Renamed");
    p.apply_update_at(ProjectUpdate::AddEnvironment(Environment { name: "e".to_string(), variables: Vec::new() }), 5);
    p.apply_update_at(
        ProjectUpdate::UpdateEnvironment(0, Environment { name: "f".to_string(), variables: Vec::new() }),
        6,
    );
    assert_eq!(p.environments[0].name, "f");
    assert_eq!(p.id, "test-123");
    assert_eq!(p.created_at, 0);
    assert_eq!(p.updated_at, 6);
}

#[test]
fn apply_update_stamps_the_current_time() {
    let mut p = project();
    p.apply_update(ProjectUpdate::UpdateName("n".to_string()));
    assert!(p.updated_at > 1_600_000_000);
}

#[test]
fn new_project_has_fresh_identifier_and_stamps() {
    let a = ProjectData::new("A".to_string());
    let b = ProjectData::new("A".to_string());
    assert!(!a.id.is_empty());
    assert_ne!(a.id, b.id);
    assert_eq!(a.name, "A");
    assert_eq!(a.created_at, a.updated_at);
    assert!(a.created_at > 1_600_000_000);
    assert!(a.requests.is_empty() && a.environments.is_empty());
}

#[test]
fn new_request_has_no_authentication() {
    let r = RequestData::new("r".to_string());
    assert_eq!(r.auth, Some(AuthData::NoAuth));
    assert_eq!(r.method, None);
    assert_eq!(r.headers, None);
    assert!(r.created_at > 1_600_000_000);
    assert_eq!(r.created_at, r.updated_at);
}

#[test]
fn clone_keeps_a_project() {
    let p = project();
    assert_eq!(p.clone(), p);
}

#[test]
fn default_config_sets_every_section() {
    let text = generate_default_config();
    assert!(text.starts_with("# RURL Configuration File"));
    assert!(text.contains("[theme.general]"));
    assert!(text.contains("[theme.sidebar]"));
    assert!(text.contains("get = [97, 175, 254]"));
}

#[test]
fn theme_overrides_only_what_is_configured() {
    let plain = Config::default().create_theme();
    assert_eq!(plain, Theme::default());
    assert_eq!(plain.http_methods.get, Color::Rgb(97, 175, 254));
    let footer = FooterColorsConfig {
        bg: Some((1, 2, 3)),
        border: None,
        mode_normal: None,
        mode_command: None,
        mode_tab: None,
        mode_create: None,
        key_bg: None,
        key_fg: None,
        description: Some((9, 9, 9)),
    };
    let c = Config { theme: Some(ThemeConfig { general: None, http_methods: None, footer: Some(footer), sidebar: None }) };
    let t = c.create_theme();
    assert_eq!(t.footer.bg, Color::Rgb(1, 2, 3));
    assert_eq!(t.footer.description, Color::Rgb(9, 9, 9));
    assert_eq!(t.footer.border, Color::DarkGray);
    assert_eq!(t.general, plain.general);
}
