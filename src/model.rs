//! The entity model: projects, requests, environments and authentication,
//! with the update operations that a project accepts.

use vstd::prelude::*;

verus! {

/// Text of a string field, as a sequence of characters.
pub type Text = Seq<char>;

/// An ordered list of key/value pairs, as text.
pub type PairsModel = Seq<(Seq<char>, Seq<char>)>;

/// The abstract value of a list of string pairs.
pub open spec fn pairs_model(v: Vec<(String, String)>) -> PairsModel {
    v@.map_values(|p: (String, String)| (p.0@, p.1@))
}

/// The abstract value of an optional list of string pairs.
pub open spec fn opt_pairs_model(v: Option<Vec<(String, String)>>) -> Option<PairsModel> {
    match v {
        Some(ps) => Some(pairs_model(ps)),
        None => None,
    }
}

/// The abstract value of an optional string.
pub open spec fn opt_text(s: Option<String>) -> Option<Text> {
    match s {
        Some(t) => Some(t@),
        None => None,
    }
}

/// How a request authenticates. Exactly one variant is active.
#[derive(Debug, PartialEq)]
pub enum AuthData {
    NoAuth,
    Basic { username: String, password: String },
    Bearer { token: String },
    ApiKey { key: String, value: String, in_header: bool },
}

/// The abstract value of an authentication.
pub enum AuthModel {
    NoAuth,
    Basic { username: Text, password: Text },
    Bearer { token: Text },
    ApiKey { key: Text, value: Text, in_header: bool },
}

impl View for AuthData {
    type V = AuthModel;

    open spec fn view(&self) -> AuthModel {
        match self {
            AuthData::NoAuth => AuthModel::NoAuth,
            AuthData::Basic { username, password } => AuthModel::Basic {
                username: username@,
                password: password@,
            },
            AuthData::Bearer { token } => AuthModel::Bearer { token: token@ },
            AuthData::ApiKey { key, value, in_header } => AuthModel::ApiKey {
                key: key@,
                value: value@,
                in_header: *in_header,
            },
        }
    }
}

impl Clone for AuthData {
    fn clone(&self) -> (r: Self)
        ensures
            r@ == self@,
    {
        match self {
            AuthData::NoAuth => AuthData::NoAuth,
            AuthData::Basic { username, password } => AuthData::Basic {
                username: username.clone(),
                password: password.clone(),
            },
            AuthData::Bearer { token } => AuthData::Bearer { token: token.clone() },
            AuthData::ApiKey { key, value, in_header } => AuthData::ApiKey {
                key: key.clone(),
                value: value.clone(),
                in_header: *in_header,
            },
        }
    }
}

/// The abstract value of an optional authentication.
pub open spec fn opt_auth_model(a: Option<AuthData>) -> Option<AuthModel> {
    match a {
        Some(x) => Some(x@),
        None => None,
    }
}

/// A named, editable HTTP request definition.
#[derive(Debug, PartialEq)]
pub struct RequestData {
    pub name: String,
    pub method: Option<String>,
    pub url: Option<String>,
    pub headers: Option<Vec<(String, String)>>,
    pub body: Option<String>,
    pub query_params: Option<Vec<(String, String)>>,
    pub path_params: Option<Vec<(String, String)>>,
    pub auth: Option<AuthData>,
    pub created_at: i64,
    pub updated_at: i64,
}

/// The abstract value of a request: its strings as character sequences.
pub struct RequestModel {
    pub name: Text,
    pub method: Option<Text>,
    pub url: Option<Text>,
    pub headers: Option<PairsModel>,
    pub body: Option<Text>,
    pub query_params: Option<PairsModel>,
    pub path_params: Option<PairsModel>,
    pub auth: Option<AuthModel>,
    pub created_at: i64,
    pub updated_at: i64,
}

impl View for RequestData {
    type V = RequestModel;

    open spec fn view(&self) -> RequestModel {
        RequestModel {
            name: self.name@,
            method: opt_text(self.method),
            url: opt_text(self.url),
            headers: opt_pairs_model(self.headers),
            body: opt_text(self.body),
            query_params: opt_pairs_model(self.query_params),
            path_params: opt_pairs_model(self.path_params),
            auth: opt_auth_model(self.auth),
            created_at: self.created_at,
            updated_at: self.updated_at,
        }
    }
}

/// A copy of an optional string.
pub fn clone_opt_string(s: &Option<String>) -> (r: Option<String>)
    ensures
        opt_text(r) == opt_text(*s),
{
    match s {
        Some(t) => Some(t.clone()),
        None => None,
    }
}

/// A copy of a list of string pairs, in the same order.
pub fn clone_pairs(v: &Vec<(String, String)>) -> (r: Vec<(String, String)>)
    ensures
        pairs_model(r) == pairs_model(*v),
{
    let mut r: Vec<(String, String)> = Vec::new();
    let mut i: usize = 0;
    while i < v.len()
        invariant
            i <= v.len(),
            r@.len() == i,
            forall|j: int| 0 <= j < i ==> (#[trigger] r@[j]).0@ == v@[j].0@ && r@[j].1@ == v@[j].1@,
        decreases v.len() - i,
    {
        r.push((v[i].0.clone(), v[i].1.clone()));
        i = i + 1;
    }
    assert(pairs_model(r) =~= pairs_model(*v));
    r
}

/// A copy of an optional list of string pairs.
pub fn clone_opt_pairs(v: &Option<Vec<(String, String)>>) -> (r: Option<Vec<(String, String)>>)
    ensures
        opt_pairs_model(r) == opt_pairs_model(*v),
{
    match v {
        Some(ps) => Some(clone_pairs(ps)),
        None => None,
    }
}

impl Clone for RequestData {
    fn clone(&self) -> (r: Self)
        ensures
            r@ == self@,
    {
        let auth = match &self.auth {
            Some(a) => Some(a.clone()),
            None => None,
        };
        RequestData {
            name: self.name.clone(),
            method: clone_opt_string(&self.method),
            url: clone_opt_string(&self.url),
            headers: clone_opt_pairs(&self.headers),
            body: clone_opt_string(&self.body),
            query_params: clone_opt_pairs(&self.query_params),
            path_params: clone_opt_pairs(&self.path_params),
            auth,
            created_at: self.created_at,
            updated_at: self.updated_at,
        }
    }
}

/// A named set of variables scoped to a project; variable names are unique.
#[derive(Debug, PartialEq)]
pub struct Environment {
    pub name: String,
    pub variables: Vec<(String, String)>,
}

/// The abstract value of an environment.
pub struct EnvironmentModel {
    pub name: Text,
    pub variables: PairsModel,
}

impl EnvironmentModel {
    /// Variable names are unique.
    pub open spec fn wf(self) -> bool {
        forall|i: int, j: int|
            0 <= i < j < self.variables.len() ==> (#[trigger] self.variables[i]).0 != (
            #[trigger] self.variables[j]).0
    }
}

impl View for Environment {
    type V = EnvironmentModel;

    open spec fn view(&self) -> EnvironmentModel {
        EnvironmentModel { name: self.name@, variables: pairs_model(self.variables) }
    }
}

impl Clone for Environment {
    fn clone(&self) -> (r: Self)
        ensures
            r@ == self@,
    {
        Environment { name: self.name.clone(), variables: clone_pairs(&self.variables) }
    }
}

/// A project: the top-level container of requests and environments.
#[derive(Debug, PartialEq)]
pub struct ProjectData {
    pub name: String,
    pub id: String,
    pub requests: Vec<RequestData>,
    pub environments: Vec<Environment>,
    pub created_at: i64,
    pub updated_at: i64,
}

/// The abstract value of a project, with its children in order.
pub struct ProjectModel {
    pub name: Text,
    pub id: Text,
    pub requests: Seq<RequestModel>,
    pub environments: Seq<EnvironmentModel>,
    pub created_at: i64,
    pub updated_at: i64,
}

/// The abstract values of a list of requests, in order.
pub open spec fn requests_model(v: Vec<RequestData>) -> Seq<RequestModel> {
    v@.map_values(|r: RequestData| r@)
}

/// The abstract values of a list of environments, in order.
pub open spec fn environments_model(v: Vec<Environment>) -> Seq<EnvironmentModel> {
    v@.map_values(|e: Environment| e@)
}

impl View for ProjectData {
    type V = ProjectModel;

    open spec fn view(&self) -> ProjectModel {
        ProjectModel {
            name: self.name@,
            id: self.id@,
            requests: requests_model(self.requests),
            environments: environments_model(self.environments),
            created_at: self.created_at,
            updated_at: self.updated_at,
        }
    }
}

/// A copy of a list of requests, in the same order.
pub fn clone_requests(v: &Vec<RequestData>) -> (r: Vec<RequestData>)
    ensures
        requests_model(r) == requests_model(*v),
{
    let mut r: Vec<RequestData> = Vec::new();
    let mut i: usize = 0;
    while i < v.len()
        invariant
            i <= v.len(),
            r@.len() == i,
            forall|j: int| 0 <= j < i ==> (#[trigger] r@[j])@ == v@[j]@,
        decreases v.len() - i,
    {
        r.push(v[i].clone());
        i = i + 1;
    }
    assert(requests_model(r) =~= requests_model(*v));
    r
}

/// A copy of a list of environments, in the same order.
pub fn clone_environments(v: &Vec<Environment>) -> (r: Vec<Environment>)
    ensures
        environments_model(r) == environments_model(*v),
{
    let mut r: Vec<Environment> = Vec::new();
    let mut i: usize = 0;
    while i < v.len()
        invariant
            i <= v.len(),
            r@.len() == i,
            forall|j: int| 0 <= j < i ==> (#[trigger] r@[j])@ == v@[j]@,
        decreases v.len() - i,
    {
        r.push(v[i].clone());
        i = i + 1;
    }
    assert(environments_model(r) =~= environments_model(*v));
    r
}

impl Clone for ProjectData {
    fn clone(&self) -> (r: Self)
        ensures
            r@ == self@,
    {
        ProjectData {
            name: self.name.clone(),
            id: self.id.clone(),
            requests: clone_requests(&self.requests),
            environments: clone_environments(&self.environments),
            created_at: self.created_at,
            updated_at: self.updated_at,
        }
    }
}

/// The response to an executed request; shown only, never persisted.
#[derive(Debug, PartialEq)]
pub struct ResponseData {
    pub request_id: i64,
    pub status_code: Option<i32>,
    pub response_body: Option<String>,
    pub response_headers: Option<Vec<(String, String)>>,
    pub response_time: i64,
    pub timestamp: i64,
}

/// An update descriptor that a project applies to itself.
#[derive(Debug)]
pub enum ProjectUpdate {
    AddRequest(RequestData),
    UpdateRequest(usize, RequestData),
    DeleteRequest(usize),
    UpdateName(String),
    AddEnvironment(Environment),
    UpdateEnvironment(usize, Environment),
    DeleteEnvironment(usize),
}

/// Requests after an update; index operations out of range change nothing.
pub open spec fn requests_after(rs: Seq<RequestModel>, u: ProjectUpdate) -> Seq<RequestModel> {
    match u {
        ProjectUpdate::AddRequest(r) => rs.push(r@),
        ProjectUpdate::UpdateRequest(i, r) => if i < rs.len() {
            rs.update(i as int, r@)
        } else {
            rs
        },
        ProjectUpdate::DeleteRequest(i) => if i < rs.len() {
            rs.remove(i as int)
        } else {
            rs
        },
        _ => rs,
    }
}

/// Environments after an update; index operations out of range change nothing.
pub open spec fn environments_after(es: Seq<EnvironmentModel>, u: ProjectUpdate) -> Seq<EnvironmentModel> {
    match u {
        ProjectUpdate::AddEnvironment(e) => es.push(e@),
        ProjectUpdate::UpdateEnvironment(i, e) => if i < es.len() {
            es.update(i as int, e@)
        } else {
            es
        },
        ProjectUpdate::DeleteEnvironment(i) => if i < es.len() {
            es.remove(i as int)
        } else {
            es
        },
        _ => es,
    }
}

/// The name of a project after an update.
pub open spec fn name_after(name: Text, u: ProjectUpdate) -> Text {
    match u {
        ProjectUpdate::UpdateName(n) => n@,
        _ => name,
    }
}

/// The project that results from applying `u` at time `now`.
pub open spec fn updated(p: ProjectModel, u: ProjectUpdate, now: i64) -> ProjectModel {
    ProjectModel {
        name: name_after(p.name, u),
        id: p.id,
        requests: requests_after(p.requests, u),
        environments: environments_after(p.environments, u),
        created_at: p.created_at,
        updated_at: now,
    }
}

impl ProjectModel {
    /// Every environment has unique variable names.
    pub open spec fn wf(self) -> bool {
        forall|i: int| 0 <= i < self.environments.len() ==> (#[trigger] self.environments[i]).wf()
    }
}

/// An update keeps a well-formed project well-formed when the environment it
/// brings, if any, has unique variable names.
pub open spec fn update_wf(u: ProjectUpdate) -> bool {
    match u {
        ProjectUpdate::AddEnvironment(e) => e@.wf(),
        ProjectUpdate::UpdateEnvironment(_, e) => e@.wf(),
        _ => true,
    }
}

/// Relies on std::time::SystemTime::now: the current time in whole seconds
/// since the Unix epoch (zero for a clock set before the epoch).
#[verifier::external_body]
pub(crate) fn unix_now() -> (r: i64) {
    match std::time::SystemTime::now().duration_since(std::time::UNIX_EPOCH) {
        Ok(d) => d.as_secs() as i64,
        Err(_) => 0,
    }
}

/// Relies on uuid::Uuid::new_v4 and its Display form: a fresh random
/// identifier, written as 36 characters of hyphenated hexadecimal.
#[verifier::external_body]
fn fresh_id() -> (r: String)
    ensures
        r@.len() == 36,
{
    uuid::Uuid::new_v4().to_string()
}

impl ProjectData {
    /// A new, empty project with a fresh identifier, stamped with the current time.
    pub fn new(name: String) -> (r: Self)
        ensures
            r@.name == name@,
            r@.id.len() == 36,
            r@.requests.len() == 0,
            r@.environments.len() == 0,
            r.created_at == r.updated_at,
    {
        let now = unix_now();
        let r = ProjectData {
            name,
            id: fresh_id(),
            requests: Vec::new(),
            environments: Vec::new(),
            created_at: now,
            updated_at: now,
        };
        assert(r@.requests =~= Seq::empty());
        r
    }

    /// Applies `update` and stamps the project with the current time.
    pub fn apply_update(&mut self, update: ProjectUpdate)
        ensures
            final(self)@ == updated(old(self)@, update, final(self).updated_at),
            old(self)@.wf() && update_wf(update) ==> final(self)@.wf(),
    {
        let now = unix_now();
        self.apply_update_at(update, now);
    }

    /// Applies `update` and stamps the project with `now`. An index past the
    /// end of its list leaves that list as it was.
    pub fn apply_update_at(&mut self, update: ProjectUpdate, now: i64)
        ensures
            final(self)@ == updated(old(self)@, update, now),
            old(self)@.wf() && update_wf(update) ==> final(self)@.wf(),
    {
        let ghost u = update;
        let ghost rs = requests_model(self.requests);
        let ghost es = environments_model(self.environments);
        self.updated_at = now;
        match update {
            ProjectUpdate::AddRequest(request) => {
                self.requests.push(request);
                assert(requests_model(self.requests) =~= requests_after(rs, u));
            },
            ProjectUpdate::UpdateRequest(index, request) => {
                if index < self.requests.len() {
                    self.requests.set(index, request);
                }
                assert(requests_model(self.requests) =~= requests_after(rs, u));
            },
            ProjectUpdate::DeleteRequest(index) => {
                if index < self.requests.len() {
                    self.requests.remove(index);
                }
                assert(requests_model(self.requests) =~= requests_after(rs, u));
            },
            ProjectUpdate::UpdateName(new_name) => {
                self.name = new_name;
            },
            ProjectUpdate::AddEnvironment(env) => {
                self.environments.push(env);
                assert(environments_model(self.environments) =~= environments_after(es, u));
            },
            ProjectUpdate::UpdateEnvironment(index, env) => {
                if index < self.environments.len() {
                    self.environments.set(index, env);
                }
                assert(environments_model(self.environments) =~= environments_after(es, u));
            },
            ProjectUpdate::DeleteEnvironment(index) => {
                if index < self.environments.len() {
                    self.environments.remove(index);
                }
                assert(environments_model(self.environments) =~= environments_after(es, u));
            },
        }
    }
}

impl RequestData {
    /// A new request with only a name, no authentication, stamped with the current time.
    pub fn new(name: String) -> (r: Self)
        ensures
            r@.name == name@,
            r.method.is_none(),
            r.url.is_none(),
            r.headers.is_none(),
            r.body.is_none(),
            r.query_params.is_none(),
            r.path_params.is_none(),
            r@.auth == Some(AuthModel::NoAuth),
            r.created_at == r.updated_at,
    {
        let now = unix_now();
        RequestData {
            name,
            method: None,
            url: None,
            headers: None,
            body: None,
            query_params: None,
            path_params: None,
            auth: Some(AuthData::NoAuth),
            created_at: now,
            updated_at: now,
        }
    }
}

} // verus!
