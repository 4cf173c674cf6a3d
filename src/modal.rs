//! The request-creation form: a modal that captures every event until it
//! closes or submits a fully populated request.

use vstd::prelude::*;
use crate::editor::{auth_from, parse_auth};
use crate::input::{InputEvent, KeyCode, MouseEvent, MouseKind, Rect};
use crate::model::{clone_pairs, pairs_model, unix_now, AuthData, AuthModel, PairsModel, RequestData, RequestModel, Text};
use crate::text::{pop_char, push_char, split_pair, split_pair_spec, words};

verus! {

/// A field of the form, in order.
#[derive(Debug, Clone, Copy, PartialEq, Eq, Structural)]
pub enum ModalField {
    Name,
    Method,
    Url,
    Headers,
    QueryParams,
    PathParams,
    Auth,
    Body,
}

/// The field after `f`; none after the last.
pub open spec fn next_modal_field(f: ModalField) -> Option<ModalField> {
    match f {
        ModalField::Name => Some(ModalField::Method),
        ModalField::Method => Some(ModalField::Url),
        ModalField::Url => Some(ModalField::Headers),
        ModalField::Headers => Some(ModalField::QueryParams),
        ModalField::QueryParams => Some(ModalField::PathParams),
        ModalField::PathParams => Some(ModalField::Auth),
        ModalField::Auth => Some(ModalField::Body),
        ModalField::Body => None,
    }
}

/// The field before `f`; the first stays where it is.
pub open spec fn previous_modal_field(f: ModalField) -> ModalField {
    match f {
        ModalField::Name => ModalField::Name,
        ModalField::Method => ModalField::Name,
        ModalField::Url => ModalField::Method,
        ModalField::Headers => ModalField::Url,
        ModalField::QueryParams => ModalField::Headers,
        ModalField::PathParams => ModalField::QueryParams,
        ModalField::Auth => ModalField::PathParams,
        ModalField::Body => ModalField::Auth,
    }
}

/// The field at position `i` of the form.
pub open spec fn modal_field_at(i: int) -> ModalField {
    if i == 0 {
        ModalField::Name
    } else if i == 1 {
        ModalField::Method
    } else if i == 2 {
        ModalField::Url
    } else if i == 3 {
        ModalField::Headers
    } else if i == 4 {
        ModalField::QueryParams
    } else if i == 5 {
        ModalField::PathParams
    } else if i == 6 {
        ModalField::Auth
    } else {
        ModalField::Body
    }
}

impl ModalField {
    /// The field after `f`, if any.
    pub fn next(f: ModalField) -> (r: Option<ModalField>)
        ensures
            r == next_modal_field(f),
    {
        match f {
            ModalField::Name => Some(ModalField::Method),
            ModalField::Method => Some(ModalField::Url),
            ModalField::Url => Some(ModalField::Headers),
            ModalField::Headers => Some(ModalField::QueryParams),
            ModalField::QueryParams => Some(ModalField::PathParams),
            ModalField::PathParams => Some(ModalField::Auth),
            ModalField::Auth => Some(ModalField::Body),
            ModalField::Body => None,
        }
    }

    /// The field before `f`.
    pub fn previous(f: ModalField) -> (r: ModalField)
        ensures
            r == previous_modal_field(f),
    {
        match f {
            ModalField::Name => ModalField::Name,
            ModalField::Method => ModalField::Name,
            ModalField::Url => ModalField::Method,
            ModalField::Headers => ModalField::Url,
            ModalField::QueryParams => ModalField::Headers,
            ModalField::PathParams => ModalField::QueryParams,
            ModalField::Auth => ModalField::PathParams,
            ModalField::Body => ModalField::Auth,
        }
    }

    /// The field at position `i`.
    pub fn at(i: usize) -> (r: ModalField)
        ensures
            r == modal_field_at(i as int),
    {
        if i == 0 {
            ModalField::Name
        } else if i == 1 {
            ModalField::Method
        } else if i == 2 {
            ModalField::Url
        } else if i == 3 {
            ModalField::Headers
        } else if i == 4 {
            ModalField::QueryParams
        } else if i == 5 {
            ModalField::PathParams
        } else if i == 6 {
            ModalField::Auth
        } else {
            ModalField::Body
        }
    }
}

/// What the form asks of its owner.
pub enum ModalAction {
    Noop,
    Close,
    Submit(RequestData),
}

/// The abstract value of a form action.
pub enum ModalActionModel {
    Noop,
    Close,
    Submit(RequestModel),
}

impl View for ModalAction {
    type V = ModalActionModel;

    open spec fn view(&self) -> ModalActionModel {
        match self {
            ModalAction::Noop => ModalActionModel::Noop,
            ModalAction::Close => ModalActionModel::Close,
            ModalAction::Submit(r) => ModalActionModel::Submit(r@),
        }
    }
}

/// The request-creation form.
pub struct Modal {
    pub focused: bool,
    pub rect: Option<Rect>,
    /// Screen areas of the inputs, in field order.
    pub inputs: Vec<Rect>,
    pub current_field: ModalField,
    pub name: String,
    pub method: String,
    pub url: String,
    pub header_entry: String,
    pub query_entry: String,
    pub path_entry: String,
    pub auth_entry: String,
    pub body: String,
    pub headers: Vec<(String, String)>,
    pub query_params: Vec<(String, String)>,
    pub path_params: Vec<(String, String)>,
    pub auth_type: AuthData,
}

/// The abstract state of the form that keys change.
pub struct ModalModel {
    pub current: ModalField,
    pub name: Text,
    pub method: Text,
    pub url: Text,
    pub header_entry: Text,
    pub query_entry: Text,
    pub path_entry: Text,
    pub auth_entry: Text,
    pub body: Text,
    pub headers: PairsModel,
    pub query_params: PairsModel,
    pub path_params: PairsModel,
    pub auth: AuthModel,
}

impl View for Modal {
    type V = ModalModel;

    open spec fn view(&self) -> ModalModel {
        ModalModel {
            current: self.current_field,
            name: self.name@,
            method: self.method@,
            url: self.url@,
            header_entry: self.header_entry@,
            query_entry: self.query_entry@,
            path_entry: self.path_entry@,
            auth_entry: self.auth_entry@,
            body: self.body@,
            headers: pairs_model(self.headers),
            query_params: pairs_model(self.query_params),
            path_params: pairs_model(self.path_params),
            auth: self.auth_type@,
        }
    }
}

/// An empty form on the Name field, with no authentication.
pub open spec fn blank_form() -> ModalModel {
    ModalModel {
        current: ModalField::Name,
        name: Seq::empty(),
        method: Seq::empty(),
        url: Seq::empty(),
        header_entry: Seq::empty(),
        query_entry: Seq::empty(),
        path_entry: Seq::empty(),
        auth_entry: Seq::empty(),
        body: Seq::empty(),
        headers: Seq::empty(),
        query_params: Seq::empty(),
        path_params: Seq::empty(),
        auth: AuthModel::NoAuth,
    }
}

/// The text typed into field `f`.
pub open spec fn entry_of(m: ModalModel, f: ModalField) -> Text {
    match f {
        ModalField::Name => m.name,
        ModalField::Method => m.method,
        ModalField::Url => m.url,
        ModalField::Headers => m.header_entry,
        ModalField::QueryParams => m.query_entry,
        ModalField::PathParams => m.path_entry,
        ModalField::Auth => m.auth_entry,
        ModalField::Body => m.body,
    }
}

/// `m` with the text of field `f` replaced by `t`.
pub open spec fn with_entry(m: ModalModel, f: ModalField, t: Text) -> ModalModel {
    match f {
        ModalField::Name => ModalModel { name: t, ..m },
        ModalField::Method => ModalModel { method: t, ..m },
        ModalField::Url => ModalModel { url: t, ..m },
        ModalField::Headers => ModalModel { header_entry: t, ..m },
        ModalField::QueryParams => ModalModel { query_entry: t, ..m },
        ModalField::PathParams => ModalModel { path_entry: t, ..m },
        ModalField::Auth => ModalModel { auth_entry: t, ..m },
        ModalField::Body => ModalModel { body: t, ..m },
    }
}

/// The request that the form describes, stamped `now`.
pub open spec fn submitted(m: ModalModel, now: i64) -> RequestModel {
    RequestModel {
        name: m.name,
        method: Some(m.method),
        url: Some(m.url),
        headers: Some(m.headers),
        body: Some(m.body),
        query_params: Some(m.query_params),
        path_params: Some(m.path_params),
        auth: Some(m.auth),
        created_at: now,
        updated_at: now,
    }
}

/// Enter on a list field appends a parsed `key SEP value` pair and clears the
/// entry; text without the separator stays as it is.
pub open spec fn list_enter(m: ModalModel, f: ModalField) -> ModalModel {
    let sep = if f == ModalField::Headers {
        ':'
    } else {
        '='
    };
    match split_pair_spec(entry_of(m, f), sep) {
        Some(p) => {
            let m2 = with_entry(m, f, Seq::empty());
            if f == ModalField::Headers {
                ModalModel { headers: m.headers.push(p), ..m2 }
            } else if f == ModalField::QueryParams {
                ModalModel { query_params: m.query_params.push(p), ..m2 }
            } else {
                ModalModel { path_params: m.path_params.push(p), ..m2 }
            }
        },
        None => m,
    }
}

/// The effect of one key press on the form; a submitted request is stamped `now`.
pub open spec fn modal_key_step(m: ModalModel, key: KeyCode, now: i64) -> (ModalModel, ModalActionModel) {
    match key {
        KeyCode::Esc => (m, ModalActionModel::Close),
        KeyCode::Tab => match next_modal_field(m.current) {
            Some(f) => (ModalModel { current: f, ..m }, ModalActionModel::Noop),
            None => (m, ModalActionModel::Submit(submitted(m, now))),
        },
        KeyCode::BackTab => (
            ModalModel { current: previous_modal_field(m.current), ..m },
            ModalActionModel::Noop,
        ),
        KeyCode::Enter => if m.current == ModalField::Body {
            (m, ModalActionModel::Submit(submitted(m, now)))
        } else if m.current == ModalField::Headers || m.current == ModalField::QueryParams
            || m.current == ModalField::PathParams {
            (list_enter(m, m.current), ModalActionModel::Noop)
        } else if m.current == ModalField::Auth {
            (
                ModalModel {
                    auth: auth_from(words(m.auth_entry)),
                    auth_entry: Seq::empty(),
                    ..m
                },
                ModalActionModel::Noop,
            )
        } else {
            (ModalModel { current: next_modal_field(m.current)->0, ..m }, ModalActionModel::Noop)
        },
        KeyCode::Backspace => {
            let t = entry_of(m, m.current);
            (
                with_entry(
                    m,
                    m.current,
                    if t.len() > 0 {
                        t.drop_last()
                    } else {
                        t
                    },
                ),
                ModalActionModel::Noop,
            )
        },
        KeyCode::Char(c) => (
            with_entry(m, m.current, entry_of(m, m.current).push(c)),
            ModalActionModel::Noop,
        ),
        _ => (m, ModalActionModel::Noop),
    }
}

/// The first of the eight inputs, from position `i` on, that holds the cell.
pub open spec fn clicked_from(rs: Seq<Rect>, column: u16, row: u16, i: int) -> Option<ModalField>
    decreases 8 - i,
{
    if i < 0 || i >= 8 || i >= rs.len() {
        None
    } else if rs[i].holds(column, row) {
        Some(modal_field_at(i))
    } else {
        clicked_from(rs, column, row, i + 1)
    }
}

/// The effect of a mouse event on the form whose inputs lie at `inputs`: a
/// left click on an input makes its field current.
pub open spec fn modal_mouse_step(f: ModalModel, inputs: Seq<Rect>, m: MouseEvent) -> ModalModel {
    ModalModel {
        current: if m.kind == MouseKind::LeftDown && clicked_from(inputs, m.column, m.row, 0) is Some {
            clicked_from(inputs, m.column, m.row, 0)->0
        } else {
            f.current
        },
        ..f
    }
}

/// What a key does to the form and which kind of action it gives do not
/// depend on the stamp of a submitted request.
pub proof fn lemma_key_step_stamp(f: ModalModel, k: KeyCode, t1: i64, t2: i64)
    ensures
        modal_key_step(f, k, t1).0 == modal_key_step(f, k, t2).0,
        modal_key_step(f, k, t1).1 is Noop <==> modal_key_step(f, k, t2).1 is Noop,
        modal_key_step(f, k, t1).1 is Close <==> modal_key_step(f, k, t2).1 is Close,
{
}

/// The stamp of a submitted request; zero for other actions.
pub open spec fn stamp_of(a: ModalActionModel) -> i64 {
    match a {
        ModalActionModel::Submit(r) => r.created_at,
        _ => 0,
    }
}

impl Modal {
    /// An empty form, positioned on the Name field, with no authentication.
    pub fn new() -> (r: Self)
        ensures
            r.focused,
            r.rect is None,
            r.inputs@.len() == 0,
            r@ == blank_form(),
    {
        let r = Modal {
            focused: true,
            rect: None,
            inputs: Vec::new(),
            current_field: ModalField::Name,
            name: String::new(),
            method: String::new(),
            url: String::new(),
            header_entry: String::new(),
            query_entry: String::new(),
            path_entry: String::new(),
            auth_entry: String::new(),
            body: String::new(),
            headers: Vec::new(),
            query_params: Vec::new(),
            path_params: Vec::new(),
            auth_type: AuthData::NoAuth,
        };
        assert(pairs_model(r.headers) =~= Seq::empty());
        assert(pairs_model(r.query_params) =~= Seq::empty());
        assert(pairs_model(r.path_params) =~= Seq::empty());
        r
    }

    /// Marks the form as focused or not.
    pub fn focus(&mut self, focused: bool)
        ensures
            final(self)@ == old(self)@,
            final(self).focused == focused,
            final(self).rect == old(self).rect,
            final(self).inputs == old(self).inputs,
    {
        self.focused = focused;
    }

    /// Records where the form and its inputs were drawn.
    pub fn set_areas(&mut self, rect: Rect, inputs: Vec<Rect>)
        ensures
            final(self)@ == old(self)@,
            final(self).focused == old(self).focused,
            final(self).rect == Some(rect),
            final(self).inputs == inputs,
    {
        self.rect = Some(rect);
        self.inputs = inputs;
    }

    /// The text typed into field `f`.
    pub fn entry(&self, f: ModalField) -> (r: &String)
        ensures
            r@ == entry_of(self@, f),
    {
        match f {
            ModalField::Name => &self.name,
            ModalField::Method => &self.method,
            ModalField::Url => &self.url,
            ModalField::Headers => &self.header_entry,
            ModalField::QueryParams => &self.query_entry,
            ModalField::PathParams => &self.path_entry,
            ModalField::Auth => &self.auth_entry,
            ModalField::Body => &self.body,
        }
    }

    fn set_entry(&mut self, f: ModalField, t: String)
        ensures
            final(self)@ == with_entry(old(self)@, f, t@),
            final(self).focused == old(self).focused,
            final(self).rect == old(self).rect,
            final(self).inputs == old(self).inputs,
    {
        match f {
            ModalField::Name => {
                self.name = t;
            },
            ModalField::Method => {
                self.method = t;
            },
            ModalField::Url => {
                self.url = t;
            },
            ModalField::Headers => {
                self.header_entry = t;
            },
            ModalField::QueryParams => {
                self.query_entry = t;
            },
            ModalField::PathParams => {
                self.path_entry = t;
            },
            ModalField::Auth => {
                self.auth_entry = t;
            },
            ModalField::Body => {
                self.body = t;
            },
        }
    }

    /// The request that the form describes, stamped `now`.
    pub fn submit_request(&self, now: i64) -> (r: RequestData)
        ensures
            r@ == submitted(self@, now),
    {
        let auth = self.auth_type.clone();
        RequestData {
            name: self.name.clone(),
            method: Some(self.method.clone()),
            url: Some(self.url.clone()),
            headers: Some(clone_pairs(&self.headers)),
            body: Some(self.body.clone()),
            query_params: Some(clone_pairs(&self.query_params)),
            path_params: Some(clone_pairs(&self.path_params)),
            auth: Some(auth),
            created_at: now,
            updated_at: now,
        }
    }

    /// Handles one key press; a submitted request is stamped `now`.
    pub fn handle_key_event(&mut self, key: KeyCode, now: i64) -> (a: ModalAction)
        ensures
            (final(self)@, a@) == modal_key_step(old(self)@, key, now),
            final(self).focused == old(self).focused,
            final(self).rect == old(self).rect,
            final(self).inputs == old(self).inputs,
    {
        match key {
            KeyCode::Esc => ModalAction::Close,
            KeyCode::Tab => match ModalField::next(self.current_field) {
                Some(f) => {
                    self.current_field = f;
                    ModalAction::Noop
                },
                None => ModalAction::Submit(self.submit_request(now)),
            },
            KeyCode::BackTab => {
                self.current_field = ModalField::previous(self.current_field);
                ModalAction::Noop
            },
            KeyCode::Enter => {
                let f = self.current_field;
                if f == ModalField::Body {
                    ModalAction::Submit(self.submit_request(now))
                } else if f == ModalField::Headers || f == ModalField::QueryParams || f
                    == ModalField::PathParams {
                    let sep = if f == ModalField::Headers {
                        ':'
                    } else {
                        '='
                    };
                    match split_pair(self.entry(f).as_str(), sep) {
                        Some(p) => {
                            let ghost m = self@;
                            let ghost pm = (p.0@, p.1@);
                            self.set_entry(f, String::new());
                            if f == ModalField::Headers {
                                self.headers.push(p);
                                assert(pairs_model(self.headers) =~= m.headers.push(pm));
                            } else if f == ModalField::QueryParams {
                                self.query_params.push(p);
                                assert(pairs_model(self.query_params) =~= m.query_params.push(pm));
                            } else {
                                self.path_params.push(p);
                                assert(pairs_model(self.path_params) =~= m.path_params.push(pm));
                            }
                        },
                        None => {},
                    }
                    ModalAction::Noop
                } else if f == ModalField::Auth {
                    self.auth_type = parse_auth(self.auth_entry.as_str());
                    self.auth_entry = String::new();
                    ModalAction::Noop
                } else {
                    match ModalField::next(f) {
                        Some(n) => {
                            self.current_field = n;
                        },
                        None => {},
                    }
                    ModalAction::Noop
                }
            },
            KeyCode::Backspace => {
                let mut t = self.entry(self.current_field).clone();
                pop_char(&mut t);
                self.set_entry(self.current_field, t);
                ModalAction::Noop
            },
            KeyCode::Char(c) => {
                let mut t = self.entry(self.current_field).clone();
                push_char(&mut t, c);
                self.set_entry(self.current_field, t);
                ModalAction::Noop
            },
            _ => ModalAction::Noop,
        }
    }

    /// Handles a mouse event: a left click on an input makes its field current.
    pub fn handle_mouse_event(&mut self, m: MouseEvent) -> (a: ModalAction)
        ensures
            a is Noop,
            final(self)@ == modal_mouse_step(old(self)@, old(self).inputs@, m),
            final(self).focused == old(self).focused,
            final(self).rect == old(self).rect,
            final(self).inputs == old(self).inputs,
    {
        if m.kind != MouseKind::LeftDown {
            return ModalAction::Noop;
        }
        let mut i: usize = 0;
        while i < 8 && i < self.inputs.len()
            invariant
                i <= 8,
                self@ == old(self)@,
                self.focused == old(self).focused,
                self.rect == old(self).rect,
                self.inputs == old(self).inputs,
                m.kind == MouseKind::LeftDown,
                clicked_from(self.inputs@, m.column, m.row, 0) == clicked_from(
                    self.inputs@,
                    m.column,
                    m.row,
                    i as int,
                ),
            decreases 8 - i,
        {
            if self.inputs[i].contains(m.column, m.row) {
                self.current_field = ModalField::at(i);
                return ModalAction::Noop;
            }
            i = i + 1;
        }
        ModalAction::Noop
    }

    /// Routes an input event; a submitted request is stamped with the current time.
    pub fn tick(&mut self, event: InputEvent) -> (a: ModalAction)
        ensures
            event matches InputEvent::Key(k) ==> (final(self)@, a@) == modal_key_step(
                old(self)@,
                k,
                stamp_of(a@),
            ),
            event is Resize ==> final(self)@ == old(self)@ && a is Noop,
            event matches InputEvent::Mouse(m) ==> final(self)@ == modal_mouse_step(old(self)@, old(self).inputs@, m)
                && a is Noop,
            final(self).focused == old(self).focused,
            final(self).rect == old(self).rect,
            final(self).inputs == old(self).inputs,
    {
        match event {
            InputEvent::Key(k) => {
                let now = unix_now();
                self.handle_key_event(k, now)
            },
            InputEvent::Mouse(m) => self.handle_mouse_event(m),
            InputEvent::Resize => ModalAction::Noop,
        }
    }
}

} // verus!
