//! The request session: how each client request changes the editor, its mode, the
//! status message, the screen size and the prompt, and what the client gets back.
//!
//! A request that needs the file system does not touch it: `Session::accept` answers
//! with the read or write to perform, and `Session::resume` takes its result.
use vstd::prelude::*;
use vstd::string::*;
use crate::engine::command_text::{CommandAction, CommandText, command_action, command_blocked, execution_blocked, has_placeholder, placeholder_present};
use crate::engine::completion::{DirectoryListing, completed_line, completion_request, completion_target, names_view, nonempty_names};
use crate::engine::editor::{CursorPosition, Editor, EditorModel, backspaced, case_rewritten, char_inserted, deleted_under, line_broken, line_count16, moved, rendered_row, saved, scrolled, snapped_to_tab};
use crate::engine::file::{File, join_lines, loaded_lines, path_is_unnamed, text_lines};
use crate::engine::history::{CommandHistory, HistoryModel, HistoryWrite, recorded_entry};
use crate::engine::line_view::{sat_add, sat_sub};
use crate::engine::mode::{EditorMode, EditorModeState, is_prompt, mode_after};
use crate::engine::prompt_input::{InputModel, len16};
use crate::engine::prompt_ui_state::{PromptKind, PromptModel, PromptUiState, action_applied, after_edit, cleared, command_prompt, keymap_prompt, list_scrolled, prompt_look, queued_after, remembered, selected_from_list};
use crate::engine::selection::{range_between, range_frame};
use crate::engine::signal::{CommandScope, FrameSignal};
use crate::engine::transform::CaseStyle;
use crate::protocol::frame::{CommandUiSlot, Cursor, Frame, FrameEditorMode, FrameSelection, StatusPosition};
use crate::protocol::path::{FilePath, untitled_name};
use crate::protocol::prompt_ui::{PromptInputSelection, PromptUiAction, PromptUiFrame};
use crate::protocol::rpc::{Ack, AckKind, DeleteKind, MoveDirection, RequestEditorMode, RequestView, RpcRequest};
use crate::protocol::status::StatusMessage;
use crate::protocol::version::{ProtocolVersion, current_protocol_number};
use crate::text::{chars_of, string_from_chars};

verus! {

// ---------------------------------------------------------------------------
// What comes back
// ---------------------------------------------------------------------------

/// What a request leads to.
pub enum RequestOutcome {
    Frame,
    Ack(Ack),
    FrameAndAck(Ack),
    Skip,
    Quit,
    Error(String),
}

impl Clone for RequestOutcome {
    fn clone(&self) -> (r: Self)
        ensures
            r@ == self@,
    {
        match self {
            RequestOutcome::Frame => RequestOutcome::Frame,
            RequestOutcome::Ack(a) => RequestOutcome::Ack(a.clone()),
            RequestOutcome::FrameAndAck(a) => RequestOutcome::FrameAndAck(a.clone()),
            RequestOutcome::Skip => RequestOutcome::Skip,
            RequestOutcome::Quit => RequestOutcome::Quit,
            RequestOutcome::Error(m) => RequestOutcome::Error(m.clone()),
        }
    }
}

/// An acknowledgement as values: kind, message and path.
pub type AckView = (AckKind, Option<Seq<char>>, Option<Seq<char>>);

pub open spec fn ack_view(a: Ack) -> AckView {
    (a.spec_kind(), a.spec_message()@, a.spec_path()@)
}

/// A request outcome as values.
pub enum OutcomeView {
    Frame,
    Ack(AckView),
    FrameAndAck(AckView),
    Skip,
    Quit,
    Error(Seq<char>),
}

impl View for RequestOutcome {
    type V = OutcomeView;

    open spec fn view(&self) -> OutcomeView {
        match self {
            RequestOutcome::Frame => OutcomeView::Frame,
            RequestOutcome::Ack(a) => OutcomeView::Ack(ack_view(*a)),
            RequestOutcome::FrameAndAck(a) => OutcomeView::FrameAndAck(ack_view(*a)),
            RequestOutcome::Skip => OutcomeView::Skip,
            RequestOutcome::Quit => OutcomeView::Quit,
            RequestOutcome::Error(m) => OutcomeView::Error(m@),
        }
    }
}

/// File-system work a request waits for.
pub enum IoRequest {
    /// Read the whole file at `path` as text.
    Read { path: String },
    /// Write `contents` to the file at `path`, replacing it.
    Write { path: String, contents: String },
    /// List the names in the directory `path` (directories ending in `/`).
    List { path: String },
}

/// The result of an `IoRequest`.
pub enum IoReply {
    Text(String),
    Written,
    Names(Vec<String>),
    Failed(String),
}

/// A reply as values.
pub enum ReplyView {
    Text(Seq<char>),
    Written,
    Names(Seq<Seq<char>>),
    Failed(Seq<char>),
}

impl View for IoReply {
    type V = ReplyView;

    open spec fn view(&self) -> ReplyView {
        match self {
            IoReply::Text(t) => ReplyView::Text(t@),
            IoReply::Written => ReplyView::Written,
            IoReply::Names(n) => ReplyView::Names(names_view(n@)),
            IoReply::Failed(e) => ReplyView::Failed(e@),
        }
    }
}

/// The answer to a request: done, or waiting for file-system work.
pub enum Step {
    Done(RequestOutcome),
    Io(IoRequest),
}

/// A step as values.
pub enum StepView {
    Done(OutcomeView),
    Read(Seq<char>),
    Write(Seq<char>, Seq<char>),
    List(Seq<char>),
}

impl View for Step {
    type V = StepView;

    open spec fn view(&self) -> StepView {
        match self {
            Step::Done(o) => StepView::Done(o@),
            Step::Io(IoRequest::Read { path }) => StepView::Read(path@),
            Step::Io(IoRequest::Write { path, contents }) => StepView::Write(path@, contents@),
            Step::Io(IoRequest::List { path }) => StepView::List(path@),
        }
    }
}

/// What the host tells the session about its surroundings for one request.
pub struct HostFacts {
    readonly: bool,
    working_dir: String,
}

impl HostFacts {
    pub closed spec fn spec_readonly(&self) -> bool {
        self.readonly
    }

    pub closed spec fn spec_working_dir(&self) -> Seq<char> {
        self.working_dir@
    }

    /// `readonly`: whether the edited file is read-only; `working_dir`: the directory
    /// relative paths are completed in.
    pub fn new(readonly: bool, working_dir: String) -> (r: Self)
        ensures
            r.spec_readonly() == readonly,
            r.spec_working_dir() == working_dir@,
    {
        Self { readonly, working_dir }
    }
}

// ---------------------------------------------------------------------------
// What is awaited
// ---------------------------------------------------------------------------

/// Which request a file read serves.
#[derive(Debug, PartialEq, Eq, Structural, Clone, Copy)]
pub enum OpenOrigin {
    Open,
    Reload,
    History,
}

/// Which request a file write serves.
#[derive(Debug, PartialEq, Eq, Structural, Clone, Copy)]
pub enum SaveOrigin {
    Request,
    Command,
    CommandQuit,
}

/// The file-system work the session waits for.
pub enum Pending {
    Idle,
    Open { path: String, opened_by: OpenOrigin },
    Save { saved_by: SaveOrigin, previous: FilePath },
    SaveAs { file: File },
    Complete { working_dir: String, rows: usize },
}

/// The awaited work as values.
pub enum PendingView {
    Idle,
    Open { path: Seq<char>, opened_by: OpenOrigin },
    Save { saved_by: SaveOrigin, previous: Option<Seq<char>> },
    SaveAs { target: Option<Seq<char>>, lines: Seq<Seq<char>> },
    Complete { working_dir: Seq<char>, rows: usize },
}

impl View for Pending {
    type V = PendingView;

    open spec fn view(&self) -> PendingView {
        match self {
            Pending::Idle => PendingView::Idle,
            Pending::Open { path, opened_by } => PendingView::Open { path: path@, opened_by: *opened_by },
            Pending::Save { saved_by, previous } => PendingView::Save { saved_by: *saved_by, previous: previous@ },
            Pending::SaveAs { file } => PendingView::SaveAs { target: file.spec_path()@, lines: file.spec_lines() },
            Pending::Complete { working_dir, rows } => PendingView::Complete { working_dir: working_dir@, rows: *rows },
        }
    }
}

// ---------------------------------------------------------------------------
// The model
// ---------------------------------------------------------------------------

/// Everything a session's behaviour depends on.
pub struct SessionModel {
    pub editor: EditorModel,
    pub mode: EditorModeState,
    pub status: Option<Seq<char>>,
    pub size: (u16, u16),
    pub prompt: PromptModel,
    pub history: Option<Seq<char>>,
    pub queued: Seq<Seq<char>>,
    pub pending: PendingView,
}

/// Text rows on screen: all but the command, status and help lines.
pub open spec fn usable_rows(rows: u16) -> u16 {
    sat_sub(rows, 3)
}

/// Prompt list rows on screen: the text rows less a blank, a header and a divider row.
pub open spec fn list_rows(rows: u16) -> usize {
    sat_sub(sat_sub(rows, 3), 3) as usize
}

/// What the frame signal of an editor request compares: cursor, offsets, change token.
pub open spec fn editor_look(e: EditorModel) -> (u16, u16, u16, u16, u64) {
    (e.cursor_x, e.cursor_y, e.columns_offset, e.rows_offset, e.token)
}

/// A frame when `before` and `after` look different, nothing otherwise.
pub open spec fn redraw_if<T>(before: T, after: T) -> OutcomeView {
    if before == after { OutcomeView::Skip } else { OutcomeView::Frame }
}

/// The outcome a frame signal stands for.
pub open spec fn signal_outcome(s: FrameSignal) -> OutcomeView {
    match s {
        FrameSignal::Frame => OutcomeView::Frame,
        FrameSignal::Skip => OutcomeView::Skip,
    }
}

/// The editor after an edit request: the new editor model, `modified` as status when
/// the edit changed the text, and a frame when anything visible moved.
pub open spec fn edited(m: SessionModel, e: EditorModel) -> (SessionModel, StepView) {
    (
        SessionModel {
            editor: e,
            status: if e.token != m.editor.token { Some("modified"@) } else { m.status },
            ..m
        },
        StepView::Done(redraw_if(editor_look(m.editor), editor_look(e))),
    )
}

/// `text` typed at the cursor, one character after another (a character is dropped
/// only when the buffer already holds `usize::MAX` lines).
pub open spec fn typed(e: EditorModel, text: Seq<char>) -> EditorModel
    decreases text.len(),
{
    if text.len() == 0 {
        e
    } else {
        let before = typed(e, text.drop_last());
        if before.lines.len() < usize::MAX { char_inserted(before, text.last()) } else { before }
    }
}

/// A fresh editor on a document: cursor and offsets at the origin, no selection,
/// unchanged, tabs every four columns.
pub open spec fn fresh_editor(path: Option<Seq<char>>, lines: Seq<Seq<char>>) -> EditorModel {
    EditorModel {
        cursor_x: 0,
        cursor_y: 0,
        columns_offset: 0,
        rows_offset: 0,
        lines,
        changed: false,
        token: 0,
        path,
        anchor: None,
        tab: 4,
    }
}

/// The lines a document at `path` gets from `contents`: one empty line for an unnamed
/// document, else the lines of `contents` (at least one).
pub open spec fn read_lines(path: Seq<char>, contents: Seq<char>) -> Seq<Seq<char>> {
    if path.len() == 0 {
        seq![Seq::<char>::empty()]
    } else {
        loaded_lines(contents)
    }
}

/// The acknowledgement text of an open.
pub open spec fn open_ack_text(origin: OpenOrigin) -> Seq<char> {
    match origin {
        OpenOrigin::Reload => "reloaded"@,
        _ => "opened"@,
    }
}

/// The error prefix of a failed open.
pub open spec fn open_error_text(origin: OpenOrigin) -> Seq<char> {
    match origin {
        OpenOrigin::Open => "open failed: "@,
        OpenOrigin::Reload => "reload failed: "@,
        OpenOrigin::History => "history open failed: "@,
    }
}

/// The document at `path` opened with `lines`: a fresh editor in normal mode, no
/// status, and an `Open` acknowledgement.
pub open spec fn opened(m: SessionModel, path: Seq<char>, lines: Seq<Seq<char>>, origin: OpenOrigin) -> (SessionModel, OutcomeView) {
    (
        SessionModel {
            editor: fresh_editor(Some(path), lines),
            mode: EditorModeState::Normal,
            status: None,
            pending: PendingView::Idle,
            ..m
        },
        OutcomeView::FrameAndAck((AckKind::Open, Some(open_ack_text(origin)), Some(path))),
    )
}

/// Opening the document at `path`: an unnamed one opens at once, a named one waits
/// for its text.
pub open spec fn open_started(m: SessionModel, path: Seq<char>, origin: OpenOrigin) -> (SessionModel, StepView) {
    if path.len() == 0 {
        let (n, o) = opened(m, path, seq![Seq::<char>::empty()], origin);
        (n, StepView::Done(o))
    } else {
        (SessionModel { pending: PendingView::Open { path, opened_by: origin }, ..m }, StepView::Read(path))
    }
}

/// Where a save of a document at `path` writes.
pub open spec fn save_target(path: Option<Seq<char>>) -> Seq<char> {
    if path_is_unnamed(path) { untitled_name() } else { path->0 }
}

/// Saving the edited document: write its lines, joined by `\n`, to its save target.
pub open spec fn save_started(m: SessionModel, origin: SaveOrigin) -> (SessionModel, StepView) {
    (
        SessionModel { pending: PendingView::Save { saved_by: origin, previous: m.editor.path }, ..m },
        StepView::Write(save_target(m.editor.path), join_lines(m.editor.lines)),
    )
}

/// The prompt after its line was replaced by `line` (as if typed).
pub open spec fn overwritten(p: PromptModel, line: Seq<char>) -> PromptModel {
    after_edit(
        PromptModel { input: InputModel { content: line, cursor: len16(line), selection: PromptInputSelection::Empty }, ..p },
    )
}

/// Running the command the prompt holds (`line` given by the client, or the prompt's
/// own line and highlighted entry).
pub open spec fn executed(m: SessionModel, line: Option<Seq<char>>) -> (SessionModel, StepView) {
    let rows = list_rows(m.size.1);
    let p1 = match line {
        None => selected_from_list(m.prompt, rows),
        Some(_) => m.prompt,
    };
    let picked = match line {
        None => redraw_if(prompt_look(m.prompt), prompt_look(p1)),
        Some(_) => OutcomeView::Skip,
    };
    let p2 = match line {
        None => p1,
        Some(l) => overwritten(p1, l),
    };
    let source = match line {
        None => p1.input.content,
        Some(l) => l,
    };
    if execution_blocked(p2.input.selection, has_placeholder(source)) {
        (SessionModel { prompt: p2, ..m }, StepView::Done(picked))
    } else {
        let n = SessionModel {
            prompt: remembered(p2, source),
            queued: queued_after(m.queued, p2, m.history, source),
            ..m
        };
        match command_action(source) {
            CommandAction::Save => save_started(n, SaveOrigin::Command),
            CommandAction::SaveAndQuit => save_started(n, SaveOrigin::CommandQuit),
            CommandAction::Quit => (n, StepView::Done(OutcomeView::Quit)),
            CommandAction::Open(Some(path)) => open_started(n, path, OpenOrigin::Open),
            CommandAction::Open(None) => match m.editor.path {
                Some(path) => open_started(n, path, OpenOrigin::Reload),
                None => (n, StepView::Done(OutcomeView::Error("reload failed: no file path"@))),
            },
            CommandAction::History => match m.history {
                Some(path) => open_started(n, path, OpenOrigin::History),
                None => (n, StepView::Done(OutcomeView::Error("history file missing"@))),
            },
            CommandAction::Case(style) => (
                SessionModel {
                    editor: case_rewritten(m.editor, style),
                    prompt: cleared(n.prompt),
                    mode: EditorModeState::Normal,
                    ..n
                },
                StepView::Done(OutcomeView::Frame),
            ),
            CommandAction::Skip => (n, StepView::Done(picked)),
        }
    }
}

/// The commands the prompt offers for an editor: selection commands while a
/// selection is open.
pub open spec fn scope_of(e: EditorModel) -> CommandScope {
    if e.anchor is None { CommandScope::Normal } else { CommandScope::Visual }
}

/// Switching to `requested` (kept out of edit mode on a read-only file): the prompt
/// opens or closes with the mode, the selection ends in normal and edit mode and
/// starts on entering visual mode, and the cursor snaps to a tab start on entering
/// edit mode. A frame follows when the mode or the cursor changed.
pub open spec fn mode_switched(m: SessionModel, requested: RequestEditorMode, readonly: bool) -> (SessionModel, StepView) {
    let prev = m.mode;
    let next = mode_after(prev, requested, m.editor.path, readonly);
    let e1 = if next == EditorModeState::Edit && prev != EditorModeState::Edit {
        snapped_to_tab(m.editor)
    } else {
        m.editor
    };
    let p = if next == EditorModeState::PromptCommand && prev != EditorModeState::PromptCommand {
        command_prompt(m.prompt, scope_of(e1))
    } else if next == EditorModeState::PromptKeymap && prev != EditorModeState::PromptKeymap {
        keymap_prompt(m.prompt)
    } else if is_prompt(prev) && !is_prompt(next) {
        cleared(m.prompt)
    } else {
        m.prompt
    };
    let e2 = if next == EditorModeState::Normal || next == EditorModeState::Edit {
        EditorModel { anchor: None, ..e1 }
    } else {
        e1
    };
    let e3 = if next == EditorModeState::Visual && prev != EditorModeState::Visual {
        EditorModel { anchor: Some((e2.cursor_x, e2.cursor_y)), ..e2 }
    } else {
        e2
    };
    (
        SessionModel { mode: next, editor: e3, prompt: p, ..m },
        StepView::Done(
            if next != prev || (e3.cursor_x, e3.cursor_y) != (m.editor.cursor_x, m.editor.cursor_y) {
                OutcomeView::Frame
            } else {
                OutcomeView::Skip
            },
        ),
    )
}

/// A prompt action (outside the prompt, nothing happens). Completing an open
/// command's path waits for the listing of the directory it names.
pub open spec fn prompt_acted(m: SessionModel, action: PromptUiAction, working_dir: Seq<char>) -> (SessionModel, StepView) {
    let rows = list_rows(m.size.1);
    if !is_prompt(m.mode) {
        (m, StepView::Done(OutcomeView::Skip))
    } else {
        match (action, completion_target(m.prompt.input.content, m.prompt.input.cursor)) {
            (PromptUiAction::Complete, Some((_, path))) => (
                SessionModel { pending: PendingView::Complete { working_dir, rows }, ..m },
                StepView::List(completion_request(working_dir, path).0),
            ),
            _ => {
                let p = action_applied(m.prompt, action, rows);
                (SessionModel { prompt: p, ..m }, StepView::Done(redraw_if(prompt_look(m.prompt), prompt_look(p))))
            },
        }
    }
}

/// What a request does to the session, and what comes back.
pub open spec fn accepted(m0: SessionModel, request: RequestView, readonly: bool, working_dir: Seq<char>) -> (SessionModel, StepView) {
    let m = SessionModel { pending: PendingView::Idle, ..m0 };
    match request {
        RequestView::EditorResize { cols, rows, suppress_frame } => (
            SessionModel {
                size: (cols, rows),
                prompt: if is_prompt(m.mode) { list_scrolled(m.prompt, list_rows(rows)) } else { m.prompt },
                ..m
            },
            StepView::Done(if suppress_frame || (cols, rows) == m.size { OutcomeView::Skip } else { OutcomeView::Frame }),
        ),
        RequestView::FileOpen(path) => open_started(m, path, OpenOrigin::Open),
        RequestView::FileSave => save_started(m, SaveOrigin::Request),
        RequestView::FileSaveAs(path) => {
            let lines = if m.editor.lines.len() == 0 { seq![Seq::<char>::empty()] } else { m.editor.lines };
            (
                SessionModel { pending: PendingView::SaveAs { target: Some(path), lines }, ..m },
                StepView::Write(save_target(Some(path)), join_lines(lines)),
            )
        },
        RequestView::TextInsert(text) => edited(m, typed(m.editor, text)),
        RequestView::TextDelete(kind) => edited(
            m,
            match kind {
                DeleteKind::Backspace => backspaced(m.editor),
                DeleteKind::Under => deleted_under(m.editor),
            },
        ),
        RequestView::LineBreak => edited(
            m,
            if m.editor.lines.len() < usize::MAX { line_broken(m.editor) } else { m.editor },
        ),
        RequestView::CursorMove(direction) => {
            let e = moved(m.editor, direction, usable_rows(m.size.1));
            (SessionModel { editor: e, ..m }, StepView::Done(redraw_if(editor_look(m.editor), editor_look(e))))
        },
        RequestView::CommandUi(action) => prompt_acted(m, action, working_dir),
        RequestView::ModeSet(requested) => mode_switched(m, requested, readonly),
        RequestView::StateGet => (m, StepView::Done(OutcomeView::Frame)),
        RequestView::EditorQuit => (m, StepView::Done(OutcomeView::Quit)),
        RequestView::CommandExecute(line) => if m.mode != EditorModeState::PromptCommand {
            (m, StepView::Done(OutcomeView::Skip))
        } else {
            executed(m, line)
        },
    }
}

/// The error message of a failed read or write: the reply's error text.
pub open spec fn failure_text(reply: ReplyView) -> Seq<char> {
    match reply {
        ReplyView::Failed(e) => e,
        _ => Seq::empty(),
    }
}

/// What the result of the awaited work does to the session, and what comes back.
/// A reply of another kind than the work asked for counts as a failure with an
/// empty message (an empty listing for a directory).
pub open spec fn resumed(m0: SessionModel, reply: ReplyView) -> (SessionModel, OutcomeView) {
    let m = SessionModel { pending: PendingView::Idle, ..m0 };
    match m0.pending {
        PendingView::Idle => (m, OutcomeView::Skip),
        PendingView::Open { path, opened_by: origin } => match reply {
            ReplyView::Text(contents) => opened(m, path, read_lines(path, contents), origin),
            _ => (m, OutcomeView::Error(open_error_text(origin) + failure_text(reply))),
        },
        PendingView::Save { saved_by: origin, previous } => match reply {
            ReplyView::Written => {
                let e = saved(m.editor);
                let ack = (AckKind::Save, Some("saved"@), e.path);
                let n = SessionModel { editor: e, status: Some("saved"@), ..m };
                match origin {
                    SaveOrigin::Request => (n, if e.path != previous { OutcomeView::FrameAndAck(ack) } else { OutcomeView::Ack(ack) }),
                    SaveOrigin::Command => (
                        SessionModel {
                            prompt: if m.mode == EditorModeState::PromptCommand { cleared(m.prompt) } else { m.prompt },
                            mode: EditorModeState::Normal,
                            editor: EditorModel { anchor: None, ..e },
                            ..n
                        },
                        OutcomeView::FrameAndAck(ack),
                    ),
                    SaveOrigin::CommandQuit => (n, OutcomeView::Quit),
                }
            },
            _ => (m, OutcomeView::Error("save failed: "@ + failure_text(reply))),
        },
        PendingView::SaveAs { target: path, lines } => match reply {
            ReplyView::Written => {
                let named = if path_is_unnamed(path) { Some(untitled_name()) } else { path };
                (
                    SessionModel {
                        editor: fresh_editor(named, lines),
                        mode: EditorModeState::Normal,
                        status: Some("saved"@),
                        ..m
                    },
                    OutcomeView::FrameAndAck((AckKind::SaveAs, Some("saved"@), named)),
                )
            },
            _ => (m, OutcomeView::Error("save_as failed: "@ + failure_text(reply))),
        },
        PendingView::Complete { working_dir, rows } => {
            let entries = match reply {
                ReplyView::Names(names) => nonempty_names(names),
                _ => Seq::empty(),
            };
            let p1 = PromptModel {
                input: completed_line(m.prompt.input, m.prompt.input.content, m.prompt.input.cursor, working_dir, entries),
                ..m.prompt
            };
            let p = action_applied(p1, PromptUiAction::Complete, rows);
            (SessionModel { prompt: p, ..m }, redraw_if(prompt_look(m.prompt), prompt_look(p)))
        },
    }
}

// ---------------------------------------------------------------------------
// The session
// ---------------------------------------------------------------------------

/// Text rows on screen for a terminal `rows` high.
fn usable_rows_for(rows: u16) -> (r: u16)
    ensures
        r == usable_rows(rows),
{
    if rows > 3 { rows - 3 } else { 0 }
}

/// Prompt list rows on screen for a terminal `rows` high.
pub fn command_list_rows(size: (u16, u16)) -> (r: usize)
    ensures
        r == list_rows(size.1),
{
    let text_rows = usable_rows_for(size.1);
    let rows = if text_rows > 3 { text_rows - 3 } else { 0 };
    rows as usize
}

fn signal_to_outcome(signal: FrameSignal) -> (r: RequestOutcome)
    ensures
        r@ == signal_outcome(signal),
{
    match signal {
        FrameSignal::Frame => RequestOutcome::Frame,
        FrameSignal::Skip => RequestOutcome::Skip,
    }
}

/// Types `text` at the cursor, one character after another.
fn type_text(editor: &mut Editor, text: &[char])
    ensures
        final(editor)@ == typed(old(editor)@, text@),
{
    let mut i: usize = 0;
    while i < text.len()
        invariant
            0 <= i <= text@.len(),
            editor@ == typed(old(editor)@, text@.take(i as int)),
        decreases text@.len() - i,
    {
        proof {
            assert(text@.take(i + 1).drop_last() =~= text@.take(i as int));
            assert(text@.take(i + 1).last() == text@[i as int]);
        }
        if editor.line_count() < usize::MAX {
            editor.char_insert(text[i]);
        }
        i += 1;
    }
    assert(text@.take(text@.len() as int) =~= text@);
}

/// The error text of a reply that is not the awaited success.
fn failure_message(reply: IoReply) -> (r: String)
    ensures
        r@ == failure_text(reply@),
{
    match reply {
        IoReply::Failed(e) => e,
        _ => String::new(),
    }
}

/// `prefix` followed by `rest`.
fn prefixed(prefix: &str, rest: &str) -> (r: String)
    ensures
        r@ == prefix@ + rest@,
{
    let mut message = String::from_str(prefix);
    message.append(rest);
    message
}

/// A client session: the editor, its mode, the status message, the screen size, the
/// prompt, and the file-system work it waits for.
pub struct Session {
    editor: Editor,
    editor_mode: EditorMode,
    status: StatusMessage,
    size: (u16, u16),
    prompt: PromptUiState,
    pending: Pending,
}

impl View for Session {
    type V = SessionModel;

    closed spec fn view(&self) -> SessionModel {
        SessionModel {
            editor: self.editor@,
            mode: self.editor_mode.spec_mode(),
            status: self.status@,
            size: self.size,
            prompt: self.prompt@,
            history: self.prompt.spec_history_path(),
            queued: self.prompt.spec_history_queue(),
            pending: self.pending@,
        }
    }
}

impl Session {
    /// A session over the given editor state, waiting for nothing.
    pub fn from_parts(
        editor: Editor,
        editor_mode: EditorMode,
        status: StatusMessage,
        size: (u16, u16),
        prompt: PromptUiState,
    ) -> (r: Self)
        ensures
            r@ == (SessionModel {
                editor: editor@,
                mode: editor_mode.spec_mode(),
                status: status@,
                size,
                prompt: prompt@,
                history: prompt.spec_history_path(),
                queued: prompt.spec_history_queue(),
                pending: PendingView::Idle,
            }),
    {
        Self { editor, editor_mode, status, size, prompt, pending: Pending::Idle }
    }

    pub fn editor(&self) -> (r: &Editor)
        ensures
            r@ == self@.editor,
    {
        &self.editor
    }

    pub fn mode(&self) -> (r: &EditorMode)
        ensures
            r.spec_mode() == self@.mode,
    {
        &self.editor_mode
    }

    pub fn status(&self) -> (r: &StatusMessage)
        ensures
            r@ == self@.status,
    {
        &self.status
    }

    pub fn size(&self) -> (r: (u16, u16))
        ensures
            r == self@.size,
    {
        self.size
    }

    pub fn prompt(&self) -> (r: &PromptUiState)
        ensures
            r@ == self@.prompt,
            r.spec_history_path() == self@.history,
            r.spec_history_queue() == self@.queued,
    {
        &self.prompt
    }

    /// The directory holding the history file, when there is one.
    pub closed spec fn spec_history_directory(&self) -> Option<Seq<char>> {
        self.prompt.spec_history_directory()
    }

    /// Hands out the command lines recorded since the last call, each to be appended
    /// to the history file (creating its directory).
    pub fn take_history_writes(&mut self) -> (r: Vec<HistoryWrite>)
        ensures
            final(self)@ == (SessionModel { queued: Seq::empty(), ..old(self)@ }),
            final(self).spec_history_directory() == old(self).spec_history_directory(),
            r@.map_values(|w: HistoryWrite| w.line@) == old(self)@.queued,
            forall|i: int|
                0 <= i < r@.len() ==> old(self)@.history == Some((#[trigger] r@[i]).path@)
                    && old(self).spec_history_directory() == Some(r@[i].directory@),
    {
        let writes = self.prompt.take_history_writes();
        assert(self@.queued =~= Seq::<Seq<char>>::empty());
        writes
    }

    fn edit_finished(&mut self, snapshot: crate::engine::editor::EditorSnapshot, Ghost(before): Ghost<SessionModel>) -> (r: RequestOutcome)
        requires
            snapshot.spec_cursor() == (before.editor.cursor_x, before.editor.cursor_y),
            snapshot.spec_offsets() == (before.editor.columns_offset, before.editor.rows_offset),
            snapshot.spec_token() == before.editor.token,
            old(self)@ == (SessionModel { editor: old(self)@.editor, ..before }),
        ensures
            (final(self)@, StepView::Done(r@)) == edited(before, old(self)@.editor),
    {
        let status = snapshot.status_from(&self.editor, self.status.clone());
        self.status = status;
        signal_to_outcome(snapshot.frame_signal(&self.editor))
    }

    /// Opens the document at `path` with `contents` as its text.
    fn open_with(&mut self, path: String, contents: &str, origin: OpenOrigin) -> (r: RequestOutcome)
        ensures
            (final(self)@, r@) == opened(old(self)@, path@, read_lines(path@, contents@), origin),
    {
        let ghost name = path@;
        let mut file = File::new(FilePath::Provided { path });
        assert(file.spec_path()@ == Some(name));
        file.read(contents);
        assert(file.spec_path()@ == Some(name));
        assert(file.spec_lines() =~= read_lines(name, contents@));
        self.editor_mode = EditorMode::new();
        self.editor = Editor::new(file);
        self.status = StatusMessage::Empty;
        self.pending = Pending::Idle;
        let text = match origin {
            OpenOrigin::Reload => "reloaded",
            _ => "opened",
        };
        let ack = Ack::new(AckKind::Open, StatusMessage::text(text), self.editor.file_path());
        RequestOutcome::FrameAndAck(ack)
    }

    fn open_start(&mut self, path: String, origin: OpenOrigin) -> (r: Step)
        requires
            old(self)@.pending is Idle,
        ensures
            (final(self)@, r@) == open_started(old(self)@, path@, origin),
    {
        if chars_of(path.as_str()).len() == 0 {
            Step::Done(self.open_with(path, "", origin))
        } else {
            self.pending = Pending::Open { path: path.clone(), opened_by: origin };
            Step::Io(IoRequest::Read { path })
        }
    }

    fn save_start(&mut self, origin: SaveOrigin) -> (r: Step)
        ensures
            (final(self)@, r@) == save_started(old(self)@, origin),
    {
        let (path, contents) = self.editor.file_save_plan();
        self.pending = Pending::Save { saved_by: origin, previous: self.editor.file_path() };
        Step::Io(IoRequest::Write { path, contents })
    }

    fn save_as_start(&mut self, path: String) -> (r: Step)
        ensures
            ({
                let lines = if old(self)@.editor.lines.len() == 0 {
                    seq![Seq::<char>::empty()]
                } else {
                    old(self)@.editor.lines
                };
                &&& final(self)@ == (SessionModel {
                    pending: PendingView::SaveAs { target: Some(path@), lines },
                    ..old(self)@
                })
                &&& r@ == StepView::Write(save_target(Some(path@)), join_lines(lines))
            }),
    {
        let mut file = File::new(FilePath::Provided { path });
        file.lines_replace(self.editor.file_lines_snapshot());
        let target = file.save_target();
        let contents = file.save_contents();
        self.pending = Pending::SaveAs { file };
        Step::Io(IoRequest::Write { path: target, contents })
    }

    fn text_insert(&mut self, text: &str) -> (r: RequestOutcome)
        ensures
            (final(self)@, StepView::Done(r@)) == edited(old(self)@, typed(old(self)@.editor, text@)),
    {
        let ghost before = self@;
        let snapshot = self.editor.snapshot();
        let chars = chars_of(text);
        type_text(&mut self.editor, chars.as_slice());
        self.edit_finished(snapshot, Ghost(before))
    }

    fn text_delete(&mut self, kind: DeleteKind) -> (r: RequestOutcome)
        ensures
            (final(self)@, StepView::Done(r@)) == edited(
                old(self)@,
                match kind {
                    DeleteKind::Backspace => backspaced(old(self)@.editor),
                    DeleteKind::Under => deleted_under(old(self)@.editor),
                },
            ),
    {
        let ghost before = self@;
        let snapshot = self.editor.snapshot();
        match kind {
            DeleteKind::Backspace => self.editor.backspace_delete(),
            DeleteKind::Under => self.editor.under_cursor_delete(),
        }
        self.edit_finished(snapshot, Ghost(before))
    }

    fn line_break(&mut self) -> (r: RequestOutcome)
        ensures
            (final(self)@, StepView::Done(r@)) == edited(
                old(self)@,
                if old(self)@.editor.lines.len() < usize::MAX {
                    line_broken(old(self)@.editor)
                } else {
                    old(self)@.editor
                },
            ),
    {
        let ghost before = self@;
        let snapshot = self.editor.snapshot();
        if self.editor.line_count() < usize::MAX {
            self.editor.line_break();
        }
        self.edit_finished(snapshot, Ghost(before))
    }

    fn cursor_move(&mut self, direction: MoveDirection) -> (r: RequestOutcome)
        ensures
            final(self)@ == (SessionModel {
                editor: moved(old(self)@.editor, direction, usable_rows(old(self)@.size.1)),
                ..old(self)@
            }),
            r@ == redraw_if(
                editor_look(old(self)@.editor),
                editor_look(moved(old(self)@.editor, direction, usable_rows(old(self)@.size.1))),
            ),
    {
        let usable = usable_rows_for(self.size.1);
        let snapshot = self.editor.snapshot();
        self.editor.cursor_move(direction, usable);
        signal_to_outcome(snapshot.frame_signal(&self.editor))
    }

    fn prompt_action(&mut self, action: PromptUiAction, working_dir: &str) -> (r: Step)
        requires
            old(self)@.pending is Idle,
        ensures
            (final(self)@, r@) == prompt_acted(old(self)@, action, working_dir@),
    {
        if !self.editor_mode.prompt() {
            return Step::Done(RequestOutcome::Skip);
        }
        let rows = command_list_rows(self.size);
        match action {
            PromptUiAction::Complete => {
                let dir = String::from_str(working_dir);
                match self.prompt.completion_request(dir) {
                    Some(request) => {
                        self.pending = Pending::Complete { working_dir: String::from_str(working_dir), rows };
                        return Step::Io(IoRequest::List { path: request.base_dir() });
                    },
                    None => {},
                }
            },
            _ => {},
        }
        let snapshot = self.prompt.snapshot();
        self.prompt.apply_action(action, rows);
        let view = self.prompt.ui_view();
        Step::Done(signal_to_outcome(snapshot.frame_signal(&view)))
    }

    fn mode_set(&mut self, requested: RequestEditorMode, readonly: bool) -> (r: Step)
        ensures
            (final(self)@, r@) == mode_switched(old(self)@, requested, readonly),
    {
        let prev_mode = self.editor_mode.mode();
        let prev_cursor = self.editor.cursor_position();
        let path = self.editor.file_path();
        self.editor_mode.transition(requested, &path, readonly);
        let next_mode = self.editor_mode.mode();
        if next_mode == EditorModeState::Edit && prev_mode != EditorModeState::Edit {
            self.editor.snap_cursor_to_tab_start();
        }
        if next_mode == EditorModeState::PromptCommand && prev_mode != EditorModeState::PromptCommand {
            let scope = self.editor.command_scope();
            self.prompt.prompt_command_for(scope);
        } else if next_mode == EditorModeState::PromptKeymap && prev_mode != EditorModeState::PromptKeymap {
            self.prompt.prompt_keymap();
        } else if (prev_mode == EditorModeState::PromptCommand || prev_mode == EditorModeState::PromptKeymap)
            && !(next_mode == EditorModeState::PromptCommand || next_mode == EditorModeState::PromptKeymap) {
            self.prompt.clear();
        }
        if next_mode == EditorModeState::Normal || next_mode == EditorModeState::Edit {
            self.editor.visual_clear();
        }
        if next_mode == EditorModeState::Visual && prev_mode != EditorModeState::Visual {
            self.editor.visual_begin();
        }
        let cursor = self.editor.cursor_position();
        if next_mode != prev_mode || !cursor.same(&prev_cursor) {
            Step::Done(RequestOutcome::Frame)
        } else {
            Step::Done(RequestOutcome::Skip)
        }
    }

    fn command_execute(&mut self, line: crate::protocol::rpc::CommandLine) -> (r: Step)
        requires
            old(self)@.pending is Idle,
            old(self)@.mode == EditorModeState::PromptCommand,
        ensures
            (final(self)@, r@) == executed(
                old(self)@,
                if line.spec_provided() { Some(line.spec_text()) } else { None },
            ),
    {
        let rows = command_list_rows(self.size);
        let mut picked = FrameSignal::Skip;
        if !line.provided_line() {
            let snapshot = self.prompt.snapshot();
            self.prompt.apply_action(PromptUiAction::SelectFromList, rows);
            let view = self.prompt.ui_view();
            picked = snapshot.frame_signal(&view);
        }
        let source = if line.provided_line() {
            let given = String::from_str(line.text());
            self.prompt.line_overwrite(String::from_str(line.text()));
            given
        } else {
            self.prompt.command_text()
        };
        let placeholder = placeholder_present(source.as_str());
        if command_blocked(self.prompt.line_selection(), placeholder) {
            return Step::Done(signal_to_outcome(picked));
        }
        self.prompt.remember_command(source.as_str());
        let command = CommandText::new(source).request();
        match command {
            crate::engine::command_text::CommandRequest::Save => self.save_start(SaveOrigin::Command),
            crate::engine::command_text::CommandRequest::SaveAndQuit => self.save_start(SaveOrigin::CommandQuit),
            crate::engine::command_text::CommandRequest::Quit => Step::Done(RequestOutcome::Quit),
            crate::engine::command_text::CommandRequest::Open { path } => match path {
                crate::engine::command_text::CommandPath::Provided(p) => self.open_start(p, OpenOrigin::Open),
                crate::engine::command_text::CommandPath::Missing => match self.editor.file_path() {
                    FilePath::Provided { path } => self.open_start(path, OpenOrigin::Reload),
                    FilePath::Missing => Step::Done(
                        RequestOutcome::Error(String::from_str("reload failed: no file path")),
                    ),
                },
            },
            crate::engine::command_text::CommandRequest::History => match self.prompt.history() {
                FilePath::Provided { path } => self.open_start(path, OpenOrigin::History),
                FilePath::Missing => Step::Done(RequestOutcome::Error(String::from_str("history file missing"))),
            },
            crate::engine::command_text::CommandRequest::Case { style } => {
                self.editor.selection_case(style);
                if self.editor_mode.prompt_command() {
                    self.prompt.clear();
                }
                let path = self.editor.file_path();
                self.editor_mode.transition(RequestEditorMode::Normal, &path, false);
                Step::Done(RequestOutcome::Frame)
            },
            crate::engine::command_text::CommandRequest::Skip => Step::Done(signal_to_outcome(picked)),
        }
    }

    /// Handles one request. The answer is the outcome, or the file-system work to do
    /// first, whose result goes to `resume`. `facts` tells whether the edited file is
    /// read-only and which directory relative paths are completed in.
    pub fn accept(&mut self, request: RpcRequest, facts: &HostFacts) -> (r: Step)
        ensures
            (final(self)@, r@) == accepted(old(self)@, request@, facts.spec_readonly(), facts.spec_working_dir()),
    {
        self.pending = Pending::Idle;
        match request {
            RpcRequest::EditorResize { cols, rows, suppress_frame } => {
                let prev = self.size;
                self.size = (cols, rows);
                if self.editor_mode.prompt() {
                    let list_rows = command_list_rows(self.size);
                    self.prompt.list_scroll_adjust(list_rows);
                }
                if suppress_frame || (cols == prev.0 && rows == prev.1) {
                    Step::Done(RequestOutcome::Skip)
                } else {
                    Step::Done(RequestOutcome::Frame)
                }
            },
            RpcRequest::FileOpen { path } => self.open_start(path, OpenOrigin::Open),
            RpcRequest::FileSave => self.save_start(SaveOrigin::Request),
            RpcRequest::FileSaveAs { path } => self.save_as_start(path),
            RpcRequest::TextInsert { text } => Step::Done(self.text_insert(text.as_str())),
            RpcRequest::TextDelete { kind } => Step::Done(self.text_delete(kind)),
            RpcRequest::LineBreak => Step::Done(self.line_break()),
            RpcRequest::CursorMove { direction } => Step::Done(self.cursor_move(direction)),
            RpcRequest::CommandUi { action } => self.prompt_action(action, facts.working_dir.as_str()),
            RpcRequest::ModeSet { mode } => self.mode_set(mode, facts.readonly),
            RpcRequest::StateGet => Step::Done(RequestOutcome::Frame),
            RpcRequest::EditorQuit => Step::Done(RequestOutcome::Quit),
            RpcRequest::CommandExecute { line } => {
                if !self.editor_mode.prompt_command() {
                    Step::Done(RequestOutcome::Skip)
                } else {
                    self.command_execute(line)
                }
            },
        }
    }

    /// Takes the result of the file-system work `accept` asked for and finishes the
    /// request. With nothing awaited, nothing happens.
    pub fn resume(&mut self, reply: IoReply) -> (r: RequestOutcome)
        ensures
            (final(self)@, r@) == resumed(old(self)@, reply@),
    {
        let mut pending = Pending::Idle;
        std::mem::swap(&mut pending, &mut self.pending);
        match pending {
            Pending::Idle => RequestOutcome::Skip,
            Pending::Open { path, opened_by } => match reply {
                IoReply::Text(contents) => self.open_with(path, contents.as_str(), opened_by),
                other => {
                    let prefix = match opened_by {
                        OpenOrigin::Open => "open failed: ",
                        OpenOrigin::Reload => "reload failed: ",
                        OpenOrigin::History => "history open failed: ",
                    };
                    let detail = failure_message(other);
                    RequestOutcome::Error(prefixed(prefix, detail.as_str()))
                },
            },
            Pending::Save { saved_by, previous } => match reply {
                IoReply::Written => self.save_finished(saved_by, previous),
                other => {
                    let detail = failure_message(other);
                    RequestOutcome::Error(prefixed("save failed: ", detail.as_str()))
                },
            },
            Pending::SaveAs { file } => match reply {
                IoReply::Written => {
                    let mut file = file;
                    file.mark_saved();
                    self.editor_mode = EditorMode::new();
                    self.editor = Editor::new(file);
                    self.status = StatusMessage::text("saved");
                    let ack = Ack::new(AckKind::SaveAs, StatusMessage::text("saved"), self.editor.file_path());
                    RequestOutcome::FrameAndAck(ack)
                },
                other => {
                    let detail = failure_message(other);
                    RequestOutcome::Error(prefixed("save_as failed: ", detail.as_str()))
                },
            },
            Pending::Complete { working_dir, rows } => {
                let names = match reply {
                    IoReply::Names(names) => names,
                    _ => {
                        let none: Vec<String> = Vec::new();
                        assert(names_view(none@) =~= Seq::<Seq<char>>::empty());
                        none
                    },
                };
                let listing = DirectoryListing::new(names);
                let snapshot = self.prompt.snapshot();
                self.prompt.complete_path(working_dir, &listing);
                self.prompt.apply_action(PromptUiAction::Complete, rows);
                let view = self.prompt.ui_view();
                signal_to_outcome(snapshot.frame_signal(&view))
            },
        }
    }

    fn save_finished(&mut self, saved_by: SaveOrigin, previous: FilePath) -> (r: RequestOutcome)
        requires
            old(self)@.pending is Idle,
        ensures
            ({
                let (n, o) = resumed(
                    SessionModel { pending: PendingView::Save { saved_by, previous: previous@ }, ..old(self)@ },
                    ReplyView::Written,
                );
                final(self)@ == n && r@ == o
            }),
    {
        let mut saved_path = FilePath::Missing;
        let message = self.editor.file_save(&mut saved_path);
        self.status = StatusMessage::text("saved");
        let ack = Ack::new(AckKind::Save, StatusMessage::Text { text: message }, saved_path);
        match saved_by {
            SaveOrigin::Request => {
                if self.editor.file_path().same_as(&previous) {
                    RequestOutcome::Ack(ack)
                } else {
                    RequestOutcome::FrameAndAck(ack)
                }
            },
            SaveOrigin::Command => {
                if self.editor_mode.prompt_command() {
                    self.prompt.clear();
                }
                let path = self.editor.file_path();
                self.editor_mode.transition(RequestEditorMode::Normal, &path, false);
                self.editor.visual_clear();
                RequestOutcome::FrameAndAck(ack)
            },
            SaveOrigin::CommandQuit => RequestOutcome::Quit,
        }
    }
}

// ---------------------------------------------------------------------------
// Frames
// ---------------------------------------------------------------------------

/// The frame mode of an editor mode.
pub open spec fn frame_mode(m: EditorModeState) -> FrameEditorMode {
    match m {
        EditorModeState::Normal => FrameEditorMode::Normal,
        EditorModeState::Edit => FrameEditorMode::Edit,
        EditorModeState::Visual => FrameEditorMode::Visual,
        EditorModeState::PromptCommand => FrameEditorMode::PromptCommand,
        EditorModeState::PromptKeymap => FrameEditorMode::PromptKeymap,
    }
}

pub open spec fn min16(a: u16, b: u16) -> u16 {
    if a < b { a } else { b }
}

pub open spec fn max16(a: u16, b: u16) -> u16 {
    if a > b { a } else { b }
}

/// The screen cursor of a frame: the cursor relative to the scrolled viewport, its
/// column kept on screen and its row (one below the top line) kept within the rows.
pub open spec fn frame_cursor(e: EditorModel, size: (u16, u16)) -> Cursor {
    let (co, ro) = scrolled(e, size.0, usable_rows(size.1));
    let base = sat_add(sat_sub(e.cursor_y, ro), 1);
    Cursor::spec_new(
        min16(sat_sub(e.cursor_x, co), sat_sub(size.0, 1)),
        min16(max16(base, 1), max16(sat_sub(size.1, 1), 1)),
    )
}

/// The status line message: `locked` for a read-only file, else `modified` for a
/// changed buffer, else the session's message.
pub open spec fn frame_status(e: EditorModel, status: Option<Seq<char>>, readonly: bool) -> Option<Seq<char>> {
    if readonly {
        Some("locked"@)
    } else if e.changed {
        Some("modified"@)
    } else {
        status
    }
}

/// The selection a frame draws.
pub open spec fn frame_selection(e: EditorModel, size: (u16, u16)) -> FrameSelection {
    match e.anchor {
        None => FrameSelection::Empty,
        Some(a) => {
            let (co, ro) = scrolled(e, size.0, usable_rows(size.1));
            let range = range_between(e.tab, e.lines, a, (e.cursor_x, e.cursor_y));
            range_frame(range.0, range.1, ro, co, size.0, usable_rows(size.1))
        },
    }
}

/// Whether `f` draws editor `e` in mode `mode` on a screen of `size`, with session
/// message `status` on a file that is `readonly` or not.
pub open spec fn draws(f: Frame, e: EditorModel, mode: EditorModeState, status: Option<Seq<char>>, size: (u16, u16), readonly: bool) -> bool {
    let (co, ro) = scrolled(e, size.0, usable_rows(size.1));
    &&& f.spec_mode() == frame_mode(mode)
    &&& f.spec_cursor() == frame_cursor(e, size)
    &&& f.spec_rows().len() == usable_rows(size.1)
    &&& forall|i: int|
        0 <= i < usable_rows(size.1) ==> #[trigger] f.spec_rows()[i] == rendered_row(
            e.tab,
            e.lines,
            ro,
            co,
            size.0,
            usable_rows(size.1),
            i as u16,
        )
    &&& f.spec_status()@ == frame_status(e, status, readonly)
    &&& f.spec_position().spec_column() == e.cursor_x
    &&& f.spec_position().spec_row() == e.cursor_y
    &&& f.spec_position().spec_total() == line_count16(e.lines)
    &&& f.spec_path()@ == e.path
    &&& f.spec_size() == size
    &&& f.spec_selection() == frame_selection(e, size)
    &&& f.spec_protocol().spec_number() == current_protocol_number()
}

/// The frame of an editor in `editor_mode` on a screen of `size`: text rows below
/// the top line, cursor, status (`readonly` tells whether the file is read-only), and
/// the prompt when one is given.
pub fn build_frame(
    editor: &Editor,
    editor_mode: &EditorMode,
    status: &StatusMessage,
    size: (u16, u16),
    command_ui: Option<PromptUiFrame>,
    readonly: bool,
) -> (r: Frame)
    ensures
        draws(r, editor@, editor_mode.spec_mode(), status@, size, readonly),
        match command_ui {
            Some(f) => r.spec_command_ui().spec_visible() && r.spec_command_ui().spec_frame() == f,
            None => !r.spec_command_ui().spec_visible(),
        },
{
    let usable = usable_rows_for(size.1);
    let view = editor.view_with_scroll(size.0, usable);
    let rows = editor.rows_render(&view, size.0, usable);
    let selection = editor.selection_frame(&view, size.0, usable);
    let shifted_col = if view.cursor_column() > view.column_offset() {
        view.cursor_column() - view.column_offset()
    } else {
        0
    };
    let last_col = if size.0 > 0 { size.0 - 1 } else { 0 };
    let cursor_col = if shifted_col < last_col { shifted_col } else { last_col };
    let shifted_row = if view.cursor_row() > view.row_offset() {
        view.cursor_row() - view.row_offset()
    } else {
        0
    };
    let base_row = if shifted_row < u16::MAX { shifted_row + 1 } else { u16::MAX };
    let low_row = if base_row > 1 { base_row } else { 1 };
    let last_row = if size.1 > 1 { size.1 - 1 } else { 1 };
    let cursor_row = if low_row < last_row { low_row } else { last_row };
    let changed = editor.change_status().status_or(status);
    let shown = editor.message_lock(readonly).or(changed);
    let total_rows = view.file_ref().line_total();
    let status_position = StatusPosition::new(view.cursor_column(), view.cursor_row(), total_rows);
    let mode = match editor_mode.mode() {
        EditorModeState::Normal => FrameEditorMode::Normal,
        EditorModeState::Edit => FrameEditorMode::Edit,
        EditorModeState::Visual => FrameEditorMode::Visual,
        EditorModeState::PromptCommand => FrameEditorMode::PromptCommand,
        EditorModeState::PromptKeymap => FrameEditorMode::PromptKeymap,
    };
    let slot = match command_ui {
        Some(f) => CommandUiSlot::available(f),
        None => CommandUiSlot::missing(),
    };
    let frame = Frame::new(
        mode,
        Cursor::new(cursor_col, cursor_row),
        rows,
        shown,
        status_position,
        view.file_ref().path(),
        size,
        slot,
        selection,
        ProtocolVersion::current(),
    );
    assert forall|i: int| 0 <= i < usable_rows(size.1) implies #[trigger] frame.spec_rows()[i] == rendered_row(
        editor@.tab,
        editor@.lines,
        scrolled(editor@, size.0, usable_rows(size.1)).1,
        scrolled(editor@, size.0, usable_rows(size.1)).0,
        size.0,
        usable_rows(size.1),
        i as u16,
    ) by {
        assert(frame.spec_rows()[i] == rows@[i]@);
    }
    frame
}

impl Session {
    /// The frame the client draws now; `readonly` tells whether the file is read-only.
    /// The prompt is shown in the prompt modes.
    pub fn frame(&self, readonly: bool) -> (r: Frame)
        ensures
            draws(r, self@.editor, self@.mode, self@.status, self@.size, readonly),
            r.spec_command_ui().spec_visible() == is_prompt(self@.mode),
            is_prompt(self@.mode) ==> crate::engine::prompt_ui_state::shows_prompt(
                r.spec_command_ui().spec_frame(),
                self@.prompt,
            ),
    {
        let prompt = if self.editor_mode.prompt() { Some(self.prompt.frame()) } else { None };
        build_frame(&self.editor, &self.editor_mode, &self.status, self.size, prompt, readonly)
    }
}

/// The document a session starts on: an unnamed one starts as one empty line.
pub open spec fn start_editor(path: Option<Seq<char>>, contents: Seq<char>) -> EditorModel {
    if path_is_unnamed(path) {
        fresh_editor(Some(Seq::empty()), seq![Seq::<char>::empty()])
    } else {
        fresh_editor(path, read_lines(path->0, contents))
    }
}

/// A session over standard input and output, started on one document.
pub struct StdioSession {
    file_path: FilePath,
}

impl StdioSession {
    pub closed spec fn spec_path(&self) -> Option<Seq<char>> {
        self.file_path@
    }

    pub fn new(file_path: FilePath) -> (r: Self)
        ensures
            r.spec_path() == file_path@,
    {
        Self { file_path }
    }

    pub fn file_path(&self) -> (r: FilePath)
        ensures
            r@ == self.spec_path(),
    {
        self.file_path.clone()
    }

    /// The file whose text the session starts with, when the document names one.
    pub fn read_target(&self) -> (r: Option<String>)
        ensures
            path_is_unnamed(self.spec_path()) ==> r is None,
            !path_is_unnamed(self.spec_path()) ==> (r matches Some(p) && Some(p@) == self.spec_path()),
    {
        File::new(self.file_path.clone()).read_target()
    }

    /// The session at its start: the document with `contents` (the text of
    /// `read_target()`), normal mode, no status, an 80 by 24 screen, and an empty
    /// prompt over `history`.
    pub fn begin(&self, contents: &str, history: CommandHistory) -> (r: Session)
        ensures
            r@ == (SessionModel {
                editor: start_editor(self.spec_path(), contents@),
                mode: EditorModeState::Normal,
                status: None,
                size: (80, 24),
                prompt: crate::engine::prompt_ui_state::initial_prompt(history@),
                history: history.spec_store().spec_path(),
                queued: history.spec_store().spec_pending(),
                pending: PendingView::Idle,
            }),
    {
        let mut file = File::new(self.file_path.clone());
        file.read(contents);
        assert(file.spec_lines() =~= start_editor(self.spec_path(), contents@).lines);
        let editor = Editor::new(file);
        Session::from_parts(
            editor,
            EditorMode::new(),
            StatusMessage::Empty,
            (80, 24),
            PromptUiState::with_history(history),
        )
    }
}

} // verus!
