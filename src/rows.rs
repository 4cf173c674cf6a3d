//! The relational layout of a stored project: one project row, environment
//! and request rows in their list order, and child rows (variables, headers)
//! that name the position of the row they belong to. Storing a project
//! flattens it into these rows; loading rebuilds it from them.

use vstd::prelude::*;
use crate::model::{
    clone_opt_pairs, clone_opt_string, opt_auth_model, opt_pairs_model, opt_text, pairs_model,
    AuthData, Environment, EnvironmentModel, PairsModel, ProjectData, ProjectModel, RequestData,
    RequestModel,
};

verus! {

/// A row of a child table: a variable of an environment or a header of a
/// request. `owner` is the position of the parent row in its table.
pub struct PairRow {
    pub owner: usize,
    pub name: String,
    pub value: String,
}

/// The row of the `projects` table.
pub struct ProjectRow {
    pub id: String,
    pub name: String,
    pub created_at: i64,
    pub updated_at: i64,
}

/// A row of the `environments` table.
pub struct EnvironmentRow {
    pub name: String,
}

/// A row of the `requests` table; its headers live in their own table.
pub struct RequestRow {
    pub name: String,
    pub method: Option<String>,
    pub url: Option<String>,
    pub body: Option<String>,
    pub query_params: Option<Vec<(String, String)>>,
    pub path_params: Option<Vec<(String, String)>>,
    pub auth: Option<AuthData>,
    pub created_at: i64,
    pub updated_at: i64,
}

/// All rows that store one project.
pub struct ProjectRows {
    pub project: ProjectRow,
    pub environments: Vec<EnvironmentRow>,
    pub variables: Vec<PairRow>,
    pub requests: Vec<RequestRow>,
    pub headers: Vec<PairRow>,
}

/// The pairs, in table order, of the child rows that belong to parent `k`.
pub open spec fn owned_by(rows: Seq<PairRow>, k: int) -> PairsModel
    decreases rows.len(),
{
    if rows.len() == 0 {
        Seq::empty()
    } else {
        let prev = owned_by(rows.drop_last(), k);
        let last = rows.last();
        if last.owner as int == k {
            prev.push((last.name@, last.value@))
        } else {
            prev
        }
    }
}

/// A header list as stored: an absent list stores no rows.
pub open spec fn stored_pairs(ps: Option<PairsModel>) -> PairsModel {
    match ps {
        Some(l) => l,
        None => Seq::empty(),
    }
}

/// The request that a request row and its header pairs describe.
pub open spec fn request_from_row(r: RequestRow, headers: PairsModel) -> RequestModel {
    RequestModel {
        name: r.name@,
        method: opt_text(r.method),
        url: opt_text(r.url),
        headers: Some(headers),
        body: opt_text(r.body),
        query_params: opt_pairs_model(r.query_params),
        path_params: opt_pairs_model(r.path_params),
        auth: opt_auth_model(r.auth),
        created_at: r.created_at,
        updated_at: r.updated_at,
    }
}

/// A request row stores every field of `m` but its headers.
pub open spec fn row_stores_request(r: RequestRow, m: RequestModel) -> bool {
    &&& r.name@ == m.name
    &&& opt_text(r.method) == m.method
    &&& opt_text(r.url) == m.url
    &&& opt_text(r.body) == m.body
    &&& opt_pairs_model(r.query_params) == m.query_params
    &&& opt_pairs_model(r.path_params) == m.path_params
    &&& opt_auth_model(r.auth) == m.auth
    &&& r.created_at == m.created_at
    &&& r.updated_at == m.updated_at
}

impl ProjectRows {
    /// The project that these rows describe.
    pub open spec fn rebuilt(self) -> ProjectModel {
        ProjectModel {
            name: self.project.name@,
            id: self.project.id@,
            requests: Seq::new(
                self.requests@.len(),
                |i: int| request_from_row(self.requests@[i], owned_by(self.headers@, i)),
            ),
            environments: Seq::new(
                self.environments@.len(),
                |i: int|
                    EnvironmentModel {
                        name: self.environments@[i].name@,
                        variables: owned_by(self.variables@, i),
                    },
            ),
            created_at: self.project.created_at,
            updated_at: self.project.updated_at,
        }
    }

    /// These rows store project `m`: every field, and every child list in order.
    pub open spec fn stores(self, m: ProjectModel) -> bool {
        &&& self.project.id@ == m.id
        &&& self.project.name@ == m.name
        &&& self.project.created_at == m.created_at
        &&& self.project.updated_at == m.updated_at
        &&& self.environments@.len() == m.environments.len()
        &&& forall|i: int|
            0 <= i < m.environments.len() ==> {
                &&& (#[trigger] self.environments@[i]).name@ == m.environments[i].name
                &&& owned_by(self.variables@, i) == m.environments[i].variables
            }
        &&& forall|j: int| 0 <= j < self.variables@.len() ==> (#[trigger] self.variables@[j]).owner < m.environments.len()
        &&& self.requests@.len() == m.requests.len()
        &&& forall|j: int| 0 <= j < self.headers@.len() ==> (#[trigger] self.headers@[j]).owner < m.requests.len()
        &&& forall|i: int|
            0 <= i < m.requests.len() ==> {
                &&& row_stores_request(#[trigger] self.requests@[i], m.requests[i])
                &&& owned_by(self.headers@, i) == stored_pairs(m.requests[i].headers)
            }
    }
}

/// Child rows whose owners all lie below `n` hold nothing for a parent at `n` or beyond.
proof fn lemma_owned_by_beyond(rows: Seq<PairRow>, n: int, k: int)
    requires
        forall|j: int| 0 <= j < rows.len() ==> (#[trigger] rows[j]).owner < n,
        k >= n,
    ensures
        owned_by(rows, k) == Seq::<(Seq<char>, Seq<char>)>::empty(),
    decreases rows.len(),
{
    if rows.len() > 0 {
        lemma_owned_by_beyond(rows.drop_last(), n, k);
    }
}

/// Appends one child row for each pair, all owned by parent `owner`.
fn push_owned(rows: &mut Vec<PairRow>, owner: usize, pairs: &Vec<(String, String)>)
    ensures
        owned_by(final(rows)@, owner as int) == owned_by(old(rows)@, owner as int) + pairs_model(*pairs),
        forall|k: int| k != owner ==> owned_by(#[trigger] final(rows)@, k) == owned_by(old(rows)@, k),
        forall|j: int|
            0 <= j < final(rows)@.len() ==> (#[trigger] final(rows)@[j]).owner == owner || (
            j < old(rows)@.len() && final(rows)@[j] == old(rows)@[j]),
        final(rows)@.len() >= old(rows)@.len(),
{
    let ghost start = rows@;
    let mut i: usize = 0;
    while i < pairs.len()
        invariant
            i <= pairs.len(),
            owned_by(rows@, owner as int) == owned_by(start, owner as int) + pairs_model(*pairs).take(i as int),
            forall|k: int| k != owner ==> owned_by(#[trigger] rows@, k) == owned_by(start, k),
            forall|j: int|
                0 <= j < rows@.len() ==> (#[trigger] rows@[j]).owner == owner || (j < start.len()
                    && rows@[j] == start[j]),
            rows@.len() >= start.len(),
        decreases pairs.len() - i,
    {
        let ghost before = rows@;
        let row = PairRow { owner, name: pairs[i].0.clone(), value: pairs[i].1.clone() };
        rows.push(row);
        assert(rows@.drop_last() =~= before);
        assert(pairs_model(*pairs).take(i + 1) =~= pairs_model(*pairs).take(i as int).push(
            pairs_model(*pairs)[i as int],
        ));
        assert(owned_by(start, owner as int) + pairs_model(*pairs).take(i + 1) =~= (owned_by(
            start,
            owner as int,
        ) + pairs_model(*pairs).take(i as int)).push(pairs_model(*pairs)[i as int]));
        i = i + 1;
    }
    assert(pairs_model(*pairs).take(pairs.len() as int) =~= pairs_model(*pairs));
}

/// The pairs of the child rows owned by parent `owner`, in table order.
pub fn pairs_owned_by(rows: &Vec<PairRow>, owner: usize) -> (r: Vec<(String, String)>)
    ensures
        pairs_model(r) == owned_by(rows@, owner as int),
{
    let mut r: Vec<(String, String)> = Vec::new();
    let mut j: usize = 0;
    while j < rows.len()
        invariant
            j <= rows.len(),
            pairs_model(r) == owned_by(rows@.take(j as int), owner as int),
        decreases rows.len() - j,
    {
        let ghost before = r;
        assert(rows@.take(j + 1).drop_last() =~= rows@.take(j as int));
        if rows[j].owner == owner {
            r.push((rows[j].name.clone(), rows[j].value.clone()));
            assert(pairs_model(r) =~= pairs_model(before).push((rows@[j as int].name@, rows@[j as int].value@)));
        }
        j = j + 1;
    }
    assert(rows@.take(rows.len() as int) =~= rows@);
    r
}

impl ProjectRows {
    /// Flattens a project into the rows that store it.
    pub fn from_project(p: &ProjectData) -> (r: Self)
        ensures
            r.stores(p@),
    {
        let project = ProjectRow {
            id: p.id.clone(),
            name: p.name.clone(),
            created_at: p.created_at,
            updated_at: p.updated_at,
        };
        let mut environments: Vec<EnvironmentRow> = Vec::new();
        let mut variables: Vec<PairRow> = Vec::new();
        let mut i: usize = 0;
        while i < p.environments.len()
            invariant
                i <= p.environments.len(),
                environments@.len() == i,
                forall|k: int| 0 <= k < i ==> (#[trigger] environments@[k]).name@ == p@.environments[k].name,
                forall|k: int| 0 <= k < i ==> owned_by(variables@, k) == (#[trigger] p@.environments[k]).variables,
                forall|j: int| 0 <= j < variables@.len() ==> (#[trigger] variables@[j]).owner < i,
            decreases p.environments.len() - i,
        {
            let env = &p.environments[i];
            environments.push(EnvironmentRow { name: env.name.clone() });
            proof {
                lemma_owned_by_beyond(variables@, i as int, i as int);
            }
            push_owned(&mut variables, i, &env.variables);
            assert(owned_by(variables@, i as int) =~= p@.environments[i as int].variables);
            i = i + 1;
        }
        let mut requests: Vec<RequestRow> = Vec::new();
        let mut headers: Vec<PairRow> = Vec::new();
        let mut i: usize = 0;
        while i < p.requests.len()
            invariant
                i <= p.requests.len(),
                requests@.len() == i,
                forall|k: int| 0 <= k < i ==> row_stores_request(#[trigger] requests@[k], p@.requests[k]),
                forall|k: int|
                    0 <= k < i ==> owned_by(headers@, k) == stored_pairs((#[trigger] p@.requests[k]).headers),
                forall|j: int| 0 <= j < headers@.len() ==> (#[trigger] headers@[j]).owner < i,
            decreases p.requests.len() - i,
        {
            let req = &p.requests[i];
            let auth = match &req.auth {
                Some(a) => Some(a.clone()),
                None => None,
            };
            requests.push(
                RequestRow {
                    name: req.name.clone(),
                    method: clone_opt_string(&req.method),
                    url: clone_opt_string(&req.url),
                    body: clone_opt_string(&req.body),
                    query_params: clone_opt_pairs(&req.query_params),
                    path_params: clone_opt_pairs(&req.path_params),
                    auth,
                    created_at: req.created_at,
                    updated_at: req.updated_at,
                },
            );
            proof {
                lemma_owned_by_beyond(headers@, i as int, i as int);
            }
            match &req.headers {
                Some(hs) => {
                    push_owned(&mut headers, i, hs);
                    assert(owned_by(headers@, i as int) =~= stored_pairs(p@.requests[i as int].headers));
                },
                None => {
                    assert(owned_by(headers@, i as int) =~= stored_pairs(p@.requests[i as int].headers));
                },
            }
            i = i + 1;
        }
        ProjectRows { project, environments, variables, requests, headers }
    }

    /// Rebuilds the project that these rows describe.
    pub fn to_project(&self) -> (p: ProjectData)
        ensures
            p@ == self.rebuilt(),
    {
        let mut environments: Vec<Environment> = Vec::new();
        let mut i: usize = 0;
        while i < self.environments.len()
            invariant
                i <= self.environments.len(),
                environments@.len() == i,
                forall|k: int|
                    0 <= k < i ==> (#[trigger] environments@[k])@ == self.rebuilt().environments[k],
            decreases self.environments.len() - i,
        {
            let variables = pairs_owned_by(&self.variables, i);
            environments.push(Environment { name: self.environments[i].name.clone(), variables });
            i = i + 1;
        }
        let mut requests: Vec<RequestData> = Vec::new();
        let mut i: usize = 0;
        while i < self.requests.len()
            invariant
                i <= self.requests.len(),
                requests@.len() == i,
                forall|k: int| 0 <= k < i ==> (#[trigger] requests@[k])@ == self.rebuilt().requests[k],
            decreases self.requests.len() - i,
        {
            let row = &self.requests[i];
            let auth = match &row.auth {
                Some(a) => Some(a.clone()),
                None => None,
            };
            requests.push(
                RequestData {
                    name: row.name.clone(),
                    method: clone_opt_string(&row.method),
                    url: clone_opt_string(&row.url),
                    headers: Some(pairs_owned_by(&self.headers, i)),
                    body: clone_opt_string(&row.body),
                    query_params: clone_opt_pairs(&row.query_params),
                    path_params: clone_opt_pairs(&row.path_params),
                    auth,
                    created_at: row.created_at,
                    updated_at: row.updated_at,
                },
            );
            i = i + 1;
        }
        let p = ProjectData {
            name: self.project.name.clone(),
            id: self.project.id.clone(),
            requests,
            environments,
            created_at: self.project.created_at,
            updated_at: self.project.updated_at,
        };
        assert(p@.requests =~= self.rebuilt().requests);
        assert(p@.environments =~= self.rebuilt().environments);
        p
    }
}

/// Storing a project as rows and rebuilding it from those rows gives back
/// the same project, every child list in its order, provided that every
/// request carries a header list (the rows cannot tell an absent list from
/// an empty one).
pub proof fn lemma_rows_round_trip(p: ProjectModel, rows: ProjectRows)
    requires
        rows.stores(p),
        forall|i: int| 0 <= i < p.requests.len() ==> (#[trigger] p.requests[i]).headers is Some,
    ensures
        rows.rebuilt() == p,
{
    assert(rows.rebuilt().requests =~= p.requests);
    assert(rows.rebuilt().environments =~= p.environments);
}

} // verus!
