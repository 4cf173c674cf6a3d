//! The field-cycling request editor: an ordered cycle of editable fields, an
//! edit buffer, and the entry syntax of multi-valued fields and of
//! authentication.

use vstd::prelude::*;
use crate::input::{InputEvent, KeyCode, MouseEvent, MouseKind, Rect};
use crate::model::{
    clone_pairs, AuthData, AuthModel, PairsModel, RequestData, RequestModel,
    ResponseData, Text,
};
use crate::text::{pop_char, push_char, split_pair, split_pair_spec, split_words, texts, words};

verus! {

/// Whether the editor shows a request or edits it.
#[derive(Debug, Clone, Copy, PartialEq, Eq, Structural)]
pub enum ViewMode {
    View,
    Edit,
}

/// An editable field of a request, in cycle order.
#[derive(Debug, Clone, Copy, PartialEq, Eq, Structural)]
pub enum EditField {
    Method,
    Url,
    Headers,
    QueryParams,
    PathParams,
    Auth,
    Body,
}

/// The field after `f` in the cycle; with no field active, the first one.
pub open spec fn next_field(f: Option<EditField>) -> EditField {
    match f {
        None => EditField::Method,
        Some(EditField::Method) => EditField::Url,
        Some(EditField::Url) => EditField::Headers,
        Some(EditField::Headers) => EditField::QueryParams,
        Some(EditField::QueryParams) => EditField::PathParams,
        Some(EditField::PathParams) => EditField::Auth,
        Some(EditField::Auth) => EditField::Body,
        Some(EditField::Body) => EditField::Method,
    }
}

/// The field before `f` in the cycle; with no field active, the last one.
pub open spec fn previous_field(f: Option<EditField>) -> EditField {
    match f {
        None => EditField::Body,
        Some(EditField::Method) => EditField::Body,
        Some(EditField::Url) => EditField::Method,
        Some(EditField::Headers) => EditField::Url,
        Some(EditField::QueryParams) => EditField::Headers,
        Some(EditField::PathParams) => EditField::QueryParams,
        Some(EditField::Auth) => EditField::PathParams,
        Some(EditField::Body) => EditField::Auth,
    }
}

/// The field reached from `f` by `n` presses of Tab.
pub open spec fn advanced(f: EditField, n: nat) -> EditField
    decreases n,
{
    if n == 0 {
        f
    } else {
        advanced(next_field(Some(f)), (n - 1) as nat)
    }
}

/// Seven presses of Tab lead from any field back to it, and Shift+Tab undoes
/// Tab and Tab undoes Shift+Tab.
pub proof fn lemma_field_cycle(f: EditField)
    ensures
        advanced(f, 7) == f,
        previous_field(Some(next_field(Some(f)))) == f,
        next_field(Some(previous_field(Some(f)))) == f,
{
    reveal_with_fuel(advanced, 8);
}

impl EditField {
    /// The field after `f` in the cycle.
    pub fn next(f: Option<EditField>) -> (r: EditField)
        ensures
            r == next_field(f),
    {
        match f {
            None => EditField::Method,
            Some(EditField::Method) => EditField::Url,
            Some(EditField::Url) => EditField::Headers,
            Some(EditField::Headers) => EditField::QueryParams,
            Some(EditField::QueryParams) => EditField::PathParams,
            Some(EditField::PathParams) => EditField::Auth,
            Some(EditField::Auth) => EditField::Body,
            Some(EditField::Body) => EditField::Method,
        }
    }

    /// The field before `f` in the cycle.
    pub fn previous(f: Option<EditField>) -> (r: EditField)
        ensures
            r == previous_field(f),
    {
        match f {
            None => EditField::Body,
            Some(EditField::Method) => EditField::Body,
            Some(EditField::Url) => EditField::Method,
            Some(EditField::Headers) => EditField::Url,
            Some(EditField::QueryParams) => EditField::Headers,
            Some(EditField::PathParams) => EditField::QueryParams,
            Some(EditField::Auth) => EditField::PathParams,
            Some(EditField::Body) => EditField::Auth,
        }
    }
}

/// Method, Url and Body hold one text value.
pub open spec fn is_scalar(f: EditField) -> bool {
    f == EditField::Method || f == EditField::Url || f == EditField::Body
}

/// Headers, QueryParams and PathParams hold a list of pairs.
pub open spec fn is_list(f: EditField) -> bool {
    f == EditField::Headers || f == EditField::QueryParams || f == EditField::PathParams
}

/// The separator of a list field's entry syntax.
pub open spec fn separator(f: EditField) -> char {
    if f == EditField::Headers {
        ':'
    } else {
        '='
    }
}

/// The text, or the empty text when there is none.
pub open spec fn text_or_empty(t: Option<Text>) -> Text {
    match t {
        Some(x) => x,
        None => Seq::empty(),
    }
}

/// The text loaded into the edit buffer on entering field `f`.
pub open spec fn field_text(r: RequestModel, f: EditField) -> Text {
    match f {
        EditField::Method => text_or_empty(r.method),
        EditField::Url => text_or_empty(r.url),
        EditField::Body => text_or_empty(r.body),
        _ => Seq::empty(),
    }
}

/// `r` with scalar field `f` set to `t`; other fields leave `r` as it is.
pub open spec fn with_text(r: RequestModel, f: EditField, t: Text) -> RequestModel {
    match f {
        EditField::Method => RequestModel { method: Some(t), ..r },
        EditField::Url => RequestModel { url: Some(t), ..r },
        EditField::Body => RequestModel { body: Some(t), ..r },
        _ => r,
    }
}

pub open spec fn appended(l: Option<PairsModel>, p: (Text, Text)) -> Option<PairsModel> {
    match l {
        Some(x) => Some(x.push(p)),
        None => Some(seq![p]),
    }
}

/// `r` with pair `p` appended to list field `f`.
pub open spec fn with_pair(r: RequestModel, f: EditField, p: (Text, Text)) -> RequestModel {
    match f {
        EditField::Headers => RequestModel { headers: appended(r.headers, p), ..r },
        EditField::QueryParams => RequestModel { query_params: appended(r.query_params, p), ..r },
        EditField::PathParams => RequestModel { path_params: appended(r.path_params, p), ..r },
        _ => r,
    }
}

/// The authentication that a list of words describes: `basic <user> <pass>`,
/// `bearer <token>` or `apikey <key> <value> header|query`; anything else is
/// no authentication.
pub open spec fn auth_from(ws: Seq<Seq<char>>) -> AuthModel {
    if ws.len() == 3 && ws[0] == "basic"@ {
        AuthModel::Basic { username: ws[1], password: ws[2] }
    } else if ws.len() == 2 && ws[0] == "bearer"@ {
        AuthModel::Bearer { token: ws[1] }
    } else if ws.len() == 4 && ws[0] == "apikey"@ && (ws[3] == "header"@ || ws[3] == "query"@) {
        AuthModel::ApiKey { key: ws[1], value: ws[2], in_header: ws[3] == "header"@ }
    } else {
        AuthModel::NoAuth
    }
}

/// Parses the authentication command in `s`.
pub fn parse_auth(s: &str) -> (a: AuthData)
    ensures
        a@ == auth_from(words(s@)),
{
    let ws = split_words(s);
    let basic = "basic".to_owned();
    let bearer = "bearer".to_owned();
    let apikey = "apikey".to_owned();
    let header = "header".to_owned();
    let query = "query".to_owned();
    proof {
        assert(texts(ws).len() == ws@.len());
    }
    if ws.len() == 3 && ws[0] == basic {
        assert(texts(ws)[0] == ws@[0]@);
        AuthData::Basic { username: ws[1].clone(), password: ws[2].clone() }
    } else if ws.len() == 2 && ws[0] == bearer {
        AuthData::Bearer { token: ws[1].clone() }
    } else if ws.len() == 4 && ws[0] == apikey && (ws[3] == header || ws[3] == query) {
        AuthData::ApiKey { key: ws[1].clone(), value: ws[2].clone(), in_header: ws[3] == header }
    } else {
        AuthData::NoAuth
    }
}

/// What a key or click in the editor asks of its owner.
pub enum ContentAction {
    Noop,
    ContentUpdated,
    RequestUpdated(RequestData),
}

/// The abstract value of an editor action.
pub enum ActionModel {
    Noop,
    ContentUpdated,
    RequestUpdated(RequestModel),
}

impl View for ContentAction {
    type V = ActionModel;

    open spec fn view(&self) -> ActionModel {
        match self {
            ContentAction::Noop => ActionModel::Noop,
            ContentAction::ContentUpdated => ActionModel::ContentUpdated,
            ContentAction::RequestUpdated(r) => ActionModel::RequestUpdated(r@),
        }
    }
}

/// The screen areas of the editable fields and of the submit button.
#[derive(Debug, Clone, Copy, PartialEq, Eq, Structural)]
pub struct FieldAreas {
    pub method: Rect,
    pub url: Rect,
    pub headers: Rect,
    pub query_params: Rect,
    pub path_params: Rect,
    pub body: Rect,
    pub submit: Rect,
}

/// The field whose area holds the cell, if any (authentication is not clickable).
pub open spec fn field_at(a: FieldAreas, column: u16, row: u16) -> Option<EditField> {
    if a.method.holds(column, row) {
        Some(EditField::Method)
    } else if a.url.holds(column, row) {
        Some(EditField::Url)
    } else if a.headers.holds(column, row) {
        Some(EditField::Headers)
    } else if a.query_params.holds(column, row) {
        Some(EditField::QueryParams)
    } else if a.path_params.holds(column, row) {
        Some(EditField::PathParams)
    } else if a.body.holds(column, row) {
        Some(EditField::Body)
    } else {
        None
    }
}

/// The request editor.
pub struct Content {
    pub rect: Option<Rect>,
    pub areas: Option<FieldAreas>,
    pub request: Option<RequestData>,
    pub response: Option<ResponseData>,
    pub view_mode: ViewMode,
    pub edit_field: Option<EditField>,
    pub edit_buffer: String,
}

/// The abstract state of the editor that keys change.
pub struct ContentModel {
    pub request: Option<RequestModel>,
    pub view_mode: ViewMode,
    pub edit_field: Option<EditField>,
    pub buffer: Text,
}

/// The abstract value of an optional request.
pub open spec fn opt_request(r: Option<RequestData>) -> Option<RequestModel> {
    match r {
        Some(x) => Some(x@),
        None => None,
    }
}

impl View for Content {
    type V = ContentModel;

    open spec fn view(&self) -> ContentModel {
        ContentModel {
            request: opt_request(self.request),
            view_mode: self.view_mode,
            edit_field: self.edit_field,
            buffer: self.edit_buffer@,
        }
    }
}

/// Moving to field `target`: a scalar field being left is committed from the
/// buffer, and the buffer is loaded from the target field.
pub open spec fn switch_step(c: ContentModel, target: EditField) -> (ContentModel, ActionModel) {
    match c.request {
        None => (ContentModel { edit_field: Some(target), ..c }, ActionModel::ContentUpdated),
        Some(r) => {
            let commit = c.edit_field is Some && is_scalar(c.edit_field->0);
            let r2 = if commit {
                with_text(r, c.edit_field->0, c.buffer)
            } else {
                r
            };
            let c2 = ContentModel {
                request: Some(r2),
                edit_field: Some(target),
                buffer: field_text(r2, target),
                ..c
            };
            (c2, if commit {
                ActionModel::RequestUpdated(r2)
            } else {
                ActionModel::ContentUpdated
            })
        },
    }
}

/// Enter commits the active field: scalars take the buffer (Method and Url
/// then advance), lists append a parsed `key SEP value` pair, and
/// authentication is parsed from its command.
pub open spec fn enter_step(c: ContentModel) -> (ContentModel, ActionModel) {
    match c.request {
        None => (c, ActionModel::Noop),
        Some(r) => match c.edit_field {
            None => (c, ActionModel::Noop),
            Some(f) => if is_scalar(f) {
                let r2 = with_text(r, f, c.buffer);
                let target = if f == EditField::Body {
                    f
                } else {
                    next_field(Some(f))
                };
                let buffer = if f == EditField::Method {
                    field_text(r2, target)
                } else {
                    Seq::empty()
                };
                (
                    ContentModel { request: Some(r2), edit_field: Some(target), buffer, ..c },
                    ActionModel::RequestUpdated(r2),
                )
            } else if is_list(f) {
                match split_pair_spec(c.buffer, separator(f)) {
                    Some(p) => {
                        let r2 = with_pair(r, f, p);
                        (
                            ContentModel { request: Some(r2), buffer: Seq::empty(), ..c },
                            ActionModel::RequestUpdated(r2),
                        )
                    },
                    None => (c, ActionModel::ContentUpdated),
                }
            } else {
                let r2 = RequestModel { auth: Some(auth_from(words(c.buffer))), ..r };
                (
                    ContentModel { request: Some(r2), buffer: Seq::empty(), ..c },
                    ActionModel::RequestUpdated(r2),
                )
            },
        },
    }
}

/// The effect of one key press on the editor.
pub open spec fn key_step(c: ContentModel, key: KeyCode) -> (ContentModel, ActionModel) {
    if c.view_mode != ViewMode::Edit {
        (c, ActionModel::Noop)
    } else {
        match key {
            KeyCode::Esc => if c.edit_field is Some {
                (
                    ContentModel { edit_field: None, buffer: Seq::empty(), ..c },
                    ActionModel::ContentUpdated,
                )
            } else {
                (ContentModel { view_mode: ViewMode::View, ..c }, ActionModel::ContentUpdated)
            },
            KeyCode::Tab => switch_step(c, next_field(c.edit_field)),
            KeyCode::BackTab => switch_step(c, previous_field(c.edit_field)),
            KeyCode::Enter => enter_step(c),
            KeyCode::Backspace => if c.edit_field is Some {
                let b = if c.buffer.len() > 0 {
                    c.buffer.drop_last()
                } else {
                    c.buffer
                };
                (ContentModel { buffer: b, ..c }, ActionModel::ContentUpdated)
            } else {
                (c, ActionModel::Noop)
            },
            KeyCode::Char(ch) => if c.edit_field is Some {
                (ContentModel { buffer: c.buffer.push(ch), ..c }, ActionModel::ContentUpdated)
            } else {
                (c, ActionModel::Noop)
            },
            _ => (c, ActionModel::Noop),
        }
    }
}

/// The effect of a click: on a field other than the active one, move there;
/// on the submit button, hand the request on.
pub open spec fn click_step(c: ContentModel, a: FieldAreas, column: u16, row: u16) -> (
    ContentModel,
    ActionModel,
) {
    match c.request {
        None => (c, ActionModel::Noop),
        Some(r) => {
            let hit = field_at(a, column, row);
            if hit is Some && hit != c.edit_field {
                switch_step(c, hit->0)
            } else if a.submit.holds(column, row) {
                (c, ActionModel::RequestUpdated(r))
            } else {
                (c, ActionModel::Noop)
            }
        },
    }
}

/// The editor after `n` presses of Tab.
pub open spec fn tabbed(c: ContentModel, n: nat) -> ContentModel
    decreases n,
{
    if n == 0 {
        c
    } else {
        tabbed(key_step(c, KeyCode::Tab).0, (n - 1) as nat)
    }
}

proof fn lemma_tabbed_field(c: ContentModel, n: nat)
    requires
        c.view_mode == ViewMode::Edit,
        c.edit_field is Some,
    ensures
        tabbed(c, n).view_mode == ViewMode::Edit,
        tabbed(c, n).edit_field == Some(advanced(c.edit_field->0, n)),
    decreases n,
{
    if n > 0 {
        lemma_tabbed_field(key_step(c, KeyCode::Tab).0, (n - 1) as nat);
    }
}

/// While editing a field, seven presses of Tab come back to that field, and
/// Shift+Tab after Tab, or Tab after Shift+Tab, returns to it too.
pub proof fn lemma_editor_tab_cycle(c: ContentModel)
    requires
        c.view_mode == ViewMode::Edit,
        c.edit_field is Some,
    ensures
        tabbed(c, 7).edit_field == c.edit_field,
        key_step(key_step(c, KeyCode::Tab).0, KeyCode::BackTab).0.edit_field == c.edit_field,
        key_step(key_step(c, KeyCode::BackTab).0, KeyCode::Tab).0.edit_field == c.edit_field,
{
    lemma_tabbed_field(c, 7);
    lemma_field_cycle(c.edit_field->0);
}

/// The effect of a mouse event on the editor drawn in `rect` with field
/// areas `areas`: a left click inside it acts as `click_step` says.
pub open spec fn mouse_step(c: ContentModel, rect: Option<Rect>, areas: Option<FieldAreas>, m: MouseEvent) -> (
    ContentModel,
    ActionModel,
) {
    if m.kind == MouseKind::LeftDown && rect is Some && areas is Some && rect->0.holds(m.column, m.row) {
        click_step(c, areas->0, m.column, m.row)
    } else {
        (c, ActionModel::Noop)
    }
}

impl RequestData {
    /// The text of field `f` for the edit buffer.
    pub fn field_text(&self, f: EditField) -> (t: String)
        ensures
            t@ == field_text(self@, f),
    {
        let v = match f {
            EditField::Method => &self.method,
            EditField::Url => &self.url,
            EditField::Body => &self.body,
            _ => {
                return String::new();
            },
        };
        match v {
            Some(s) => s.clone(),
            None => String::new(),
        }
    }

    /// Sets scalar field `f` to `t`.
    pub fn set_text(&mut self, f: EditField, t: String)
        ensures
            final(self)@ == with_text(old(self)@, f, t@),
    {
        match f {
            EditField::Method => {
                self.method = Some(t);
            },
            EditField::Url => {
                self.url = Some(t);
            },
            EditField::Body => {
                self.body = Some(t);
            },
            _ => {},
        }
    }

    /// Appends `p` to list field `f`.
    pub fn push_pair(&mut self, f: EditField, p: (String, String))
        ensures
            final(self)@ == with_pair(old(self)@, f, (p.0@, p.1@)),
    {
        let list = match f {
            EditField::Headers => &self.headers,
            EditField::QueryParams => &self.query_params,
            EditField::PathParams => &self.path_params,
            _ => {
                return;
            },
        };
        let ghost old_list = crate::model::opt_pairs_model(*list);
        let mut items = match list {
            Some(v) => clone_pairs(v),
            None => Vec::new(),
        };
        let ghost before = crate::model::pairs_model(items);
        items.push(p);
        assert(crate::model::pairs_model(items) =~= before.push((p.0@, p.1@)));
        assert(Some(crate::model::pairs_model(items)) == appended(old_list, (p.0@, p.1@))) by {
            if old_list is None {
                assert(crate::model::pairs_model(items) =~= seq![(p.0@, p.1@)]);
            }
        }
        match f {
            EditField::Headers => {
                self.headers = Some(items);
            },
            EditField::QueryParams => {
                self.query_params = Some(items);
            },
            _ => {
                self.path_params = Some(items);
            },
        }
    }
}

impl Content {
    pub fn new() -> (r: Self)
        ensures
            r.request is None,
            r.response is None,
            r.rect is None,
            r.areas is None,
            r.view_mode == ViewMode::View,
            r.edit_field is None,
            r.edit_buffer@.len() == 0,
    {
        Content {
            rect: None,
            areas: None,
            request: None,
            response: None,
            view_mode: ViewMode::View,
            edit_field: None,
            edit_buffer: String::new(),
        }
    }

    /// Shows `request`, leaving any edit.
    pub fn set_request(&mut self, request: RequestData)
        ensures
            final(self)@ == (ContentModel {
                request: Some(request@),
                view_mode: ViewMode::View,
                edit_field: None,
                buffer: Seq::empty(),
            }),
            final(self).response is None,
            final(self).rect == old(self).rect,
            final(self).areas == old(self).areas,
    {
        self.request = Some(request);
        self.response = None;
        self.view_mode = ViewMode::View;
        self.edit_field = None;
        self.edit_buffer = String::new();
    }

    /// Shows no request.
    pub fn clear_request(&mut self)
        ensures
            final(self)@ == (ContentModel { request: None, ..old(self)@ }),
            final(self).response is None,
            final(self).rect == old(self).rect,
            final(self).areas == old(self).areas,
    {
        self.request = None;
        self.response = None;
    }

    /// Starts editing at the Method field, loading its text when a request is shown.
    pub fn enter_edit_mode(&mut self)
        ensures
            final(self)@ == (ContentModel {
                view_mode: ViewMode::Edit,
                edit_field: Some(EditField::Method),
                buffer: match old(self)@.request {
                    Some(r) => field_text(r, EditField::Method),
                    None => old(self)@.buffer,
                },
                ..old(self)@
            }),
            final(self).response == old(self).response,
            final(self).rect == old(self).rect,
            final(self).areas == old(self).areas,
    {
        self.view_mode = ViewMode::Edit;
        self.edit_field = Some(EditField::Method);
        match &self.request {
            Some(r) => {
                self.edit_buffer = r.field_text(EditField::Method);
            },
            None => {},
        }
    }

    /// Records where the editor and its fields were drawn.
    pub fn set_areas(&mut self, rect: Rect, areas: FieldAreas)
        ensures
            final(self)@ == old(self)@,
            final(self).response == old(self).response,
            final(self).rect == Some(rect),
            final(self).areas == Some(areas),
    {
        self.rect = Some(rect);
        self.areas = Some(areas);
    }

    fn switch_to(&mut self, target: EditField) -> (a: ContentAction)
        ensures
            (final(self)@, a@) == switch_step(old(self)@, target),
            final(self).response == old(self).response,
            final(self).rect == old(self).rect,
            final(self).areas == old(self).areas,
    {
        let leaving = self.edit_field;
        match &mut self.request {
            None => {
                self.edit_field = Some(target);
                ContentAction::ContentUpdated
            },
            Some(r) => {
                let commit = match leaving {
                    Some(f) => f == EditField::Method || f == EditField::Url || f
                        == EditField::Body,
                    None => false,
                };
                if commit {
                    r.set_text(leaving.unwrap(), self.edit_buffer.clone());
                }
                let text = r.field_text(target);
                let action = if commit {
                    ContentAction::RequestUpdated(r.clone())
                } else {
                    ContentAction::ContentUpdated
                };
                self.edit_field = Some(target);
                self.edit_buffer = text;
                action
            },
        }
    }

    fn enter(&mut self) -> (a: ContentAction)
        ensures
            (final(self)@, a@) == enter_step(old(self)@),
            final(self).response == old(self).response,
            final(self).rect == old(self).rect,
            final(self).areas == old(self).areas,
    {
        let field = self.edit_field;
        match &mut self.request {
            None => ContentAction::Noop,
            Some(r) => match field {
                None => ContentAction::Noop,
                Some(f) => {
                    if f == EditField::Method || f == EditField::Url || f == EditField::Body {
                        r.set_text(f, self.edit_buffer.clone());
                        let target = if f == EditField::Body {
                            f
                        } else {
                            EditField::next(Some(f))
                        };
                        let buffer = if f == EditField::Method {
                            r.field_text(target)
                        } else {
                            String::new()
                        };
                        let action = ContentAction::RequestUpdated(r.clone());
                        self.edit_field = Some(target);
                        self.edit_buffer = buffer;
                        action
                    } else if f == EditField::Headers || f == EditField::QueryParams || f
                        == EditField::PathParams {
                        let sep = if f == EditField::Headers {
                            ':'
                        } else {
                            '='
                        };
                        match split_pair(self.edit_buffer.as_str(), sep) {
                            Some(p) => {
                                r.push_pair(f, p);
                                let action = ContentAction::RequestUpdated(r.clone());
                                self.edit_buffer = String::new();
                                action
                            },
                            None => ContentAction::ContentUpdated,
                        }
                    } else {
                        let auth = parse_auth(self.edit_buffer.as_str());
                        r.auth = Some(auth);
                        let action = ContentAction::RequestUpdated(r.clone());
                        self.edit_buffer = String::new();
                        action
                    }
                },
            },
        }
    }

    /// Handles one key press.
    pub fn handle_key(&mut self, key: KeyCode) -> (a: ContentAction)
        ensures
            (final(self)@, a@) == key_step(old(self)@, key),
            final(self).response == old(self).response,
            final(self).rect == old(self).rect,
            final(self).areas == old(self).areas,
    {
        if self.view_mode != ViewMode::Edit {
            return ContentAction::Noop;
        }
        match key {
            KeyCode::Esc => {
                if self.edit_field.is_some() {
                    self.edit_field = None;
                    self.edit_buffer = String::new();
                } else {
                    self.view_mode = ViewMode::View;
                }
                ContentAction::ContentUpdated
            },
            KeyCode::Tab => self.switch_to(EditField::next(self.edit_field)),
            KeyCode::BackTab => self.switch_to(EditField::previous(self.edit_field)),
            KeyCode::Enter => self.enter(),
            KeyCode::Backspace => {
                if self.edit_field.is_some() {
                    pop_char(&mut self.edit_buffer);
                    ContentAction::ContentUpdated
                } else {
                    ContentAction::Noop
                }
            },
            KeyCode::Char(c) => {
                if self.edit_field.is_some() {
                    push_char(&mut self.edit_buffer, c);
                    ContentAction::ContentUpdated
                } else {
                    ContentAction::Noop
                }
            },
            _ => ContentAction::Noop,
        }
    }

    /// Handles a left click at a cell inside the field areas `a`.
    pub fn handle_mouse_click(&mut self, column: u16, row: u16, a: &FieldAreas) -> (r: ContentAction)
        ensures
            (final(self)@, r@) == click_step(old(self)@, *a, column, row),
            final(self).response == old(self).response,
            final(self).rect == old(self).rect,
            final(self).areas == old(self).areas,
    {
        if self.request.is_none() {
            return ContentAction::Noop;
        }
        let hit = if a.method.contains(column, row) {
            Some(EditField::Method)
        } else if a.url.contains(column, row) {
            Some(EditField::Url)
        } else if a.headers.contains(column, row) {
            Some(EditField::Headers)
        } else if a.query_params.contains(column, row) {
            Some(EditField::QueryParams)
        } else if a.path_params.contains(column, row) {
            Some(EditField::PathParams)
        } else if a.body.contains(column, row) {
            Some(EditField::Body)
        } else {
            None
        };
        match hit {
            Some(f) => {
                if hit != self.edit_field {
                    return self.switch_to(f);
                }
            },
            None => {},
        }
        if a.submit.contains(column, row) {
            match &self.request {
                Some(r) => ContentAction::RequestUpdated(r.clone()),
                None => ContentAction::Noop,
            }
        } else {
            ContentAction::Noop
        }
    }

    /// Routes an input event: keys always, left clicks inside the editor's
    /// area when its field areas are known.
    pub fn tick(&mut self, event: InputEvent) -> (a: ContentAction)
        ensures
            final(self).response == old(self).response,
            final(self).rect == old(self).rect,
            final(self).areas == old(self).areas,
            event matches InputEvent::Key(k) ==> (final(self)@, a@) == key_step(old(self)@, k),
            event is Resize ==> final(self)@ == old(self)@ && a is Noop,
            event matches InputEvent::Mouse(m) ==> (final(self)@, a@) == mouse_step(
                old(self)@,
                old(self).rect,
                old(self).areas,
                m,
            ),
    {
        match event {
            InputEvent::Key(k) => self.handle_key(k),
            InputEvent::Mouse(m) => {
                if m.kind == MouseKind::LeftDown {
                    match (self.rect, self.areas) {
                        (Some(rect), Some(areas)) => {
                            if rect.contains(m.column, m.row) {
                                self.handle_mouse_click(m.column, m.row, &areas)
                            } else {
                                ContentAction::Noop
                            }
                        },
                        _ => ContentAction::Noop,
                    }
                } else {
                    ContentAction::Noop
                }
            },
            InputEvent::Resize => ContentAction::Noop,
        }
    }
}

} // verus!
