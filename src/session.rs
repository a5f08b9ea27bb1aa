//! The interactive session: its state, the modal key table, and the two
//! halves of a send around the network call.

use vstd::prelude::*;
use crate::config::AppConfig;
use crate::display::{format_body, formatted_body};
use crate::fields::FieldMap;
use crate::request::{HttpMethod, HttpRequest, RequestView};
use crate::text::{pop_char, push_char};

verus! {

#[derive(Clone, Copy, Debug, PartialEq, Eq, Structural)]
pub enum FocusArea {
    MethodSelector,
    UrlInput,
    HeadersInput,
    BodyInput,
    ResponseView,
}

#[derive(Clone, Copy, Debug, PartialEq, Eq, Structural)]
pub enum AppMode {
    /// Navigate between panels.
    Normal,
    /// Edit the focused input.
    Insert,
}

#[derive(Clone, Copy, Debug, PartialEq, Eq, Structural)]
pub enum Action {
    Quit,
    SendRequest,
}

/// A key, as far as the session tells keys apart.
#[derive(Clone, Copy, Debug, PartialEq, Eq, Structural)]
pub enum Key {
    Char(char),
    Tab,
    Enter,
    Esc,
    Backspace,
    Other,
}

#[derive(Clone, Copy, Debug, PartialEq, Eq, Structural)]
pub struct KeyPress {
    pub key: Key,
    /// Whether the control modifier was held.
    pub ctrl: bool,
}

/// The edit buffers of the session.
#[derive(Clone, Copy, Debug, PartialEq, Eq, Structural)]
pub enum Buffer {
    Url,
    Headers,
    Body,
}

#[derive(Clone, Copy, Debug, PartialEq, Eq, Structural)]
pub enum BufferEdit {
    Keep,
    Push(Buffer, char),
    Pop(Buffer),
}

/// What one key does: the next mode and focus, whether the method cycles,
/// the edit to a buffer, and the action it emits.
#[derive(Clone, Copy, Debug, PartialEq, Eq, Structural)]
pub struct Transition {
    pub mode: AppMode,
    pub focus: FocusArea,
    pub cycle_method: bool,
    pub edit: BufferEdit,
    pub action: Option<Action>,
}

pub open spec fn next_method_of(m: HttpMethod) -> HttpMethod {
    match m {
        HttpMethod::Get => HttpMethod::Post,
        HttpMethod::Post => HttpMethod::Put,
        HttpMethod::Put => HttpMethod::Patch,
        HttpMethod::Patch => HttpMethod::Delete,
        HttpMethod::Delete => HttpMethod::Head,
        HttpMethod::Head => HttpMethod::Get,
    }
}

pub open spec fn next_focus_of(f: FocusArea) -> FocusArea {
    match f {
        FocusArea::MethodSelector => FocusArea::UrlInput,
        FocusArea::UrlInput => FocusArea::HeadersInput,
        FocusArea::HeadersInput => FocusArea::BodyInput,
        FocusArea::BodyInput => FocusArea::ResponseView,
        FocusArea::ResponseView => FocusArea::MethodSelector,
    }
}

/// `m` after `n` steps of the method cycle.
pub open spec fn method_after(m: HttpMethod, n: nat) -> HttpMethod
    decreases n,
{
    if n == 0 {
        m
    } else {
        next_method_of(method_after(m, (n - 1) as nat))
    }
}

/// `f` after `n` steps of the focus cycle.
pub open spec fn focus_after(f: FocusArea, n: nat) -> FocusArea
    decreases n,
{
    if n == 0 {
        f
    } else {
        next_focus_of(focus_after(f, (n - 1) as nat))
    }
}

/// Six steps of the method cycle come back to the start, and pass through
/// six different methods on the way.
pub proof fn lemma_method_cycle(m: HttpMethod)
    ensures
        method_after(m, 6) == m,
        forall|i: nat, j: nat| i < j < 6 ==> method_after(m, i) != method_after(m, j),
{
    reveal_with_fuel(method_after, 7);
}

/// Five steps of the focus cycle come back to the start, and pass through
/// five different panels on the way.
pub proof fn lemma_focus_cycle(f: FocusArea)
    ensures
        focus_after(f, 5) == f,
        forall|i: nat, j: nat| i < j < 5 ==> focus_after(f, i) != focus_after(f, j),
{
    reveal_with_fuel(focus_after, 6);
}

/// The buffer that typing edits under `focus`.
pub open spec fn bound_buffer(focus: FocusArea) -> Option<Buffer> {
    match focus {
        FocusArea::UrlInput => Some(Buffer::Url),
        FocusArea::HeadersInput => Some(Buffer::Headers),
        FocusArea::BodyInput => Some(Buffer::Body),
        _ => None,
    }
}

/// Nothing changes and nothing is emitted.
pub open spec fn stay(mode: AppMode, focus: FocusArea) -> Transition {
    Transition { mode, focus, cycle_method: false, edit: BufferEdit::Keep, action: None }
}

pub open spec fn emit(mode: AppMode, focus: FocusArea, a: Action) -> Transition {
    Transition { action: Some(a), ..stay(mode, focus) }
}

/// The key table in Normal mode.
pub open spec fn normal_transition(focus: FocusArea, k: KeyPress) -> Transition {
    let n = AppMode::Normal;
    match k.key {
        Key::Char('q') => emit(n, focus, Action::Quit),
        Key::Char('c') if k.ctrl => emit(n, focus, Action::Quit),
        Key::Tab => Transition { focus: next_focus_of(focus), ..stay(n, focus) },
        Key::Enter => emit(n, focus, Action::SendRequest),
        Key::Char('m') if focus == FocusArea::MethodSelector => Transition {
            cycle_method: true,
            ..stay(n, focus)
        },
        Key::Char('i') => Transition { mode: AppMode::Insert, ..stay(n, focus) },
        _ => stay(n, focus),
    }
}

/// The key table in Insert mode.
pub open spec fn insert_transition(focus: FocusArea, k: KeyPress) -> Transition {
    let ins = AppMode::Insert;
    match k.key {
        Key::Esc => stay(AppMode::Normal, focus),
        Key::Char(c) => match bound_buffer(focus) {
            Some(b) => Transition { edit: BufferEdit::Push(b, c), ..stay(ins, focus) },
            None => stay(ins, focus),
        },
        Key::Backspace => match bound_buffer(focus) {
            Some(b) => Transition { edit: BufferEdit::Pop(b), ..stay(ins, focus) },
            None => stay(ins, focus),
        },
        Key::Enter => match focus {
            FocusArea::HeadersInput => Transition {
                edit: BufferEdit::Push(Buffer::Headers, '\n'),
                ..stay(ins, focus)
            },
            FocusArea::BodyInput => Transition {
                edit: BufferEdit::Push(Buffer::Body, '\n'),
                ..stay(ins, focus)
            },
            _ => emit(ins, focus, Action::SendRequest),
        },
        _ => stay(ins, focus),
    }
}

pub open spec fn key_transition(mode: AppMode, focus: FocusArea, k: KeyPress) -> Transition {
    match mode {
        AppMode::Normal => normal_transition(focus, k),
        AppMode::Insert => insert_transition(focus, k),
    }
}

fn bound_buffer_of(focus: FocusArea) -> (r: Option<Buffer>)
    ensures
        r == bound_buffer(focus),
{
    match focus {
        FocusArea::UrlInput => Some(Buffer::Url),
        FocusArea::HeadersInput => Some(Buffer::Headers),
        FocusArea::BodyInput => Some(Buffer::Body),
        _ => None,
    }
}

pub fn handle_normal(focus: FocusArea, k: KeyPress) -> (r: Transition)
    ensures
        r == normal_transition(focus, k),
{
    let n = AppMode::Normal;
    let stay = Transition { mode: n, focus, cycle_method: false, edit: BufferEdit::Keep, action: None };
    match k.key {
        Key::Char('q') => Transition { action: Some(Action::Quit), ..stay },
        Key::Char('c') if k.ctrl => Transition { action: Some(Action::Quit), ..stay },
        Key::Tab => Transition { focus: next_focus(focus), ..stay },
        Key::Enter => Transition { action: Some(Action::SendRequest), ..stay },
        Key::Char('m') if focus == FocusArea::MethodSelector => Transition {
            cycle_method: true,
            ..stay
        },
        Key::Char('i') => Transition { mode: AppMode::Insert, ..stay },
        _ => stay,
    }
}

pub fn handle_insert(focus: FocusArea, k: KeyPress) -> (r: Transition)
    ensures
        r == insert_transition(focus, k),
{
    let ins = AppMode::Insert;
    let stay = Transition {
        mode: ins,
        focus,
        cycle_method: false,
        edit: BufferEdit::Keep,
        action: None,
    };
    match k.key {
        Key::Esc => Transition { mode: AppMode::Normal, ..stay },
        Key::Char(c) => match bound_buffer_of(focus) {
            Some(b) => Transition { edit: BufferEdit::Push(b, c), ..stay },
            None => stay,
        },
        Key::Backspace => match bound_buffer_of(focus) {
            Some(b) => Transition { edit: BufferEdit::Pop(b), ..stay },
            None => stay,
        },
        Key::Enter => match focus {
            FocusArea::HeadersInput => Transition {
                edit: BufferEdit::Push(Buffer::Headers, '\n'),
                ..stay
            },
            FocusArea::BodyInput => Transition { edit: BufferEdit::Push(Buffer::Body, '\n'), ..stay },
            _ => Transition { action: Some(Action::SendRequest), ..stay },
        },
        _ => stay,
    }
}

/// The key table: `(mode, focus, key)` to what the key does.
pub fn transition(mode: AppMode, focus: FocusArea, k: KeyPress) -> (r: Transition)
    ensures
        r == key_transition(mode, focus, k),
{
    match mode {
        AppMode::Normal => handle_normal(focus, k),
        AppMode::Insert => handle_insert(focus, k),
    }
}

fn next_focus(f: FocusArea) -> (r: FocusArea)
    ensures
        r == next_focus_of(f),
{
    match f {
        FocusArea::MethodSelector => FocusArea::UrlInput,
        FocusArea::UrlInput => FocusArea::HeadersInput,
        FocusArea::HeadersInput => FocusArea::BodyInput,
        FocusArea::BodyInput => FocusArea::ResponseView,
        FocusArea::ResponseView => FocusArea::MethodSelector,
    }
}

/// A buffer after an edit; popping an empty buffer leaves it empty.
pub open spec fn edited(s: Seq<char>, b: Buffer, e: BufferEdit) -> Seq<char> {
    match e {
        BufferEdit::Push(x, c) => if x == b { s.push(c) } else { s },
        BufferEdit::Pop(x) => if x == b && s.len() > 0 { s.drop_last() } else { s },
        BufferEdit::Keep => s,
    }
}

fn apply_edit(s: &mut String, b: Buffer, e: BufferEdit)
    ensures
        final(s)@ == edited(old(s)@, b, e),
{
    match e {
        BufferEdit::Push(x, c) => if x == b {
            push_char(s, c);
        },
        BufferEdit::Pop(x) => if x == b {
            pop_char(s);
        },
        BufferEdit::Keep => {},
    }
}

/// How a send ended, as the network collaborator reports it.
pub enum SendOutcome {
    Received { status: u16, elapsed_ms: u128, content_type: String, body: String },
    Failed { message: String },
}

/// What the status bar shows: an error first, else the last response, else
/// that the session is idle.
#[derive(Debug, PartialEq, Eq)]
pub enum StatusLine {
    Error(String),
    Done { elapsed_ms: u128 },
    Ready,
}

/// The title of the response pane.
#[derive(Clone, Copy, Debug, PartialEq, Eq, Structural)]
pub enum ResponseTitle {
    Sending,
    Status(u16),
    Idle,
}

pub struct App {
    pub mode: AppMode,
    pub focus: FocusArea,
    pub method: HttpMethod,
    pub url: String,
    pub headers_raw: String,
    pub body_raw: String,
    pub response_text: String,
    pub status_code: Option<u16>,
    pub elapsed_ms: Option<u128>,
    pub is_loading: bool,
    pub error_message: Option<String>,
    pub config: AppConfig,
}

impl App {
    /// A session at its start: Normal mode, URL focused, GET, all empty.
    pub fn new(config: AppConfig) -> (r: App)
        ensures
            r.mode == AppMode::Normal,
            r.focus == FocusArea::UrlInput,
            r.method == HttpMethod::Get,
            r.url@.len() == 0,
            r.headers_raw@.len() == 0,
            r.body_raw@.len() == 0,
            r.response_text@.len() == 0,
            r.status_code is None,
            r.elapsed_ms is None,
            !r.is_loading,
            r.error_message is None,
            r.config == config,
    {
        App {
            mode: AppMode::Normal,
            focus: FocusArea::UrlInput,
            method: HttpMethod::Get,
            url: String::new(),
            headers_raw: String::new(),
            body_raw: String::new(),
            response_text: String::new(),
            status_code: None,
            elapsed_ms: None,
            is_loading: false,
            error_message: None,
            config,
        }
    }

    /// Cycles GET, POST, PUT, PATCH, DELETE, HEAD, and back to GET.
    pub fn next_method(&mut self)
        ensures
            *final(self) == (App { method: next_method_of(old(self).method), ..*old(self) }),
    {
        self.method = match self.method {
            HttpMethod::Get => HttpMethod::Post,
            HttpMethod::Post => HttpMethod::Put,
            HttpMethod::Put => HttpMethod::Patch,
            HttpMethod::Patch => HttpMethod::Delete,
            HttpMethod::Delete => HttpMethod::Head,
            HttpMethod::Head => HttpMethod::Get,
        };
    }

    /// Moves focus to the next panel, circularly.
    pub fn next_focus(&mut self)
        ensures
            *final(self) == (App { focus: next_focus_of(old(self).focus), ..*old(self) }),
    {
        self.focus = next_focus(self.focus);
    }

    /// Applies one key, and returns the action it emits.
    pub fn handle_key(&mut self, k: KeyPress) -> (r: Option<Action>)
        ensures
            ({
                let t = key_transition(old(self).mode, old(self).focus, k);
                &&& r == t.action
                &&& final(self).mode == t.mode
                &&& final(self).focus == t.focus
                &&& final(self).method == if t.cycle_method {
                    next_method_of(old(self).method)
                } else {
                    old(self).method
                }
                &&& final(self).url@ == edited(old(self).url@, Buffer::Url, t.edit)
                &&& final(self).headers_raw@ == edited(old(self).headers_raw@, Buffer::Headers, t.edit)
                &&& final(self).body_raw@ == edited(old(self).body_raw@, Buffer::Body, t.edit)
                &&& final(self).response_text == old(self).response_text
                &&& final(self).status_code == old(self).status_code
                &&& final(self).elapsed_ms == old(self).elapsed_ms
                &&& final(self).is_loading == old(self).is_loading
                &&& final(self).error_message == old(self).error_message
                &&& final(self).config == old(self).config
            }),
    {
        let t = transition(self.mode, self.focus, k);
        self.mode = t.mode;
        self.focus = t.focus;
        if t.cycle_method {
            self.next_method();
        }
        apply_edit(&mut self.url, Buffer::Url, t.edit);
        apply_edit(&mut self.headers_raw, Buffer::Headers, t.edit);
        apply_edit(&mut self.body_raw, Buffer::Body, t.edit);
        t.action
    }

    /// Starts a send: marks it in flight, clears the error, and returns the
    /// request, made of the method and the URL as typed alone.
    pub fn begin_send(&mut self) -> (r: HttpRequest)
        ensures
            *final(self) == (App { is_loading: true, error_message: None, ..*old(self) }),
            r@ == (RequestView {
                method: old(self).method,
                url: old(self).url@,
                headers: Seq::empty(),
                query: Seq::empty(),
                body: None,
            }),
            r.wf(),
    {
        self.is_loading = true;
        self.error_message = None;
        HttpRequest {
            method: self.method,
            url: self.url.clone(),
            headers: FieldMap::new(),
            query: FieldMap::new(),
            body: None,
        }
    }

    /// Ends a send: a response replaces the response slot and clears the
    /// error; a failure sets the error and leaves the response slot alone.
    pub fn finish_send(&mut self, outcome: SendOutcome)
        ensures
            !final(self).is_loading,
            final(self).mode == old(self).mode,
            final(self).focus == old(self).focus,
            final(self).method == old(self).method,
            final(self).url == old(self).url,
            final(self).headers_raw == old(self).headers_raw,
            final(self).body_raw == old(self).body_raw,
            final(self).config == old(self).config,
            match outcome {
                SendOutcome::Received { status, elapsed_ms, content_type, body } => {
                    &&& final(self).status_code == Some(status)
                    &&& final(self).elapsed_ms == Some(elapsed_ms)
                    &&& final(self).response_text@ == formatted_body(body@, content_type@)
                    &&& final(self).error_message is None
                },
                SendOutcome::Failed { message } => {
                    &&& final(self).error_message matches Some(m) && m@ == message@
                    &&& final(self).status_code == old(self).status_code
                    &&& final(self).elapsed_ms == old(self).elapsed_ms
                    &&& final(self).response_text == old(self).response_text
                },
            },
    {
        match outcome {
            SendOutcome::Received { status, elapsed_ms, content_type, body } => {
                self.status_code = Some(status);
                self.elapsed_ms = Some(elapsed_ms);
                self.response_text = format_body(body.as_str(), content_type.as_str());
                self.error_message = None;
            },
            SendOutcome::Failed { message } => {
                self.error_message = Some(message);
            },
        }
        self.is_loading = false;
    }

    pub fn status_line(&self) -> (r: StatusLine)
        ensures
            match self.error_message {
                Some(m) => r matches StatusLine::Error(x) && x@ == m@,
                None => match self.elapsed_ms {
                    Some(ms) => r == StatusLine::Done { elapsed_ms: ms },
                    None => r == StatusLine::Ready,
                },
            },
    {
        match &self.error_message {
            Some(m) => StatusLine::Error(m.clone()),
            None => match self.elapsed_ms {
                Some(ms) => StatusLine::Done { elapsed_ms: ms },
                None => StatusLine::Ready,
            },
        }
    }

    /// An in-flight send shows first, then the last status code.
    pub fn response_title(&self) -> (r: ResponseTitle)
        ensures
            r == if self.is_loading {
                ResponseTitle::Sending
            } else {
                match self.status_code {
                    Some(s) => ResponseTitle::Status(s),
                    None => ResponseTitle::Idle,
                }
            },
    {
        if self.is_loading {
            ResponseTitle::Sending
        } else {
            match self.status_code {
                Some(s) => ResponseTitle::Status(s),
                None => ResponseTitle::Idle,
            }
        }
    }
}

} // verus!
