use std::collections::HashMap;

use vimrust::engine::editor::{CursorPosition, Editor};
use vimrust::engine::file::File;
use vimrust::engine::mode::{EditorMode, EditorModeState};
use vimrust::engine::prompt_ui_state::PromptUiState;
use vimrust::engine::rpc::{build_frame, HostFacts, IoReply, IoRequest, RequestOutcome, Session, Step};
use vimrust::protocol::frame::{CommandUiAccess, CursorSink, FrameEditorMode, FrameRowSink, RowSelection};
use vimrust::protocol::path::FilePath;
use vimrust::protocol::prompt_ui::{PromptMode, PromptUiAction};
use vimrust::protocol::rpc::{AckKind, CommandLine, DeleteKind, MoveDirection, RequestEditorMode, RpcRequest};
use vimrust::protocol::status::StatusMessage;

/// A session over an in-memory file system.
struct RequestHarness {
    session: Session,
    files: HashMap<String, String>,
    locked: Vec<String>,
}

impl RequestHarness {
    fn new(editor: Editor, editor_mode: EditorMode, size: (u16, u16)) -> Self {
        Self {
            session: Session::from_parts(editor, editor_mode, StatusMessage::Empty, size, PromptUiState::new()),
            files: HashMap::new(),
            locked: Vec::new(),
        }
    }

    fn readonly(&self) -> bool {
        match self.session.editor().file_path() {
            FilePath::Provided { path } => self.locked.contains(&path),
            FilePath::Missing => false,
        }
    }

    fn perform(&mut self, io: IoRequest) -> IoReply {
        match io {
            IoRequest::Read { path } => match self.files.get(&path) {
                Some(text) => IoReply::Text(text.clone()),
                None => IoReply::Failed(String::from("No such file or directory (os error 2)")),
            },
            IoRequest::Write { path, contents } => {
                if self.locked.contains(&path) {
                    IoReply::Failed(String::from("Permission denied (os error 13)"))
                } else {
                    self.files.insert(path, contents);
                    IoReply::Written
                }
            },
            IoRequest::List { path } => {
                let prefix = format!("{}/", path.trim_end_matches('/'));
                let mut names: Vec<String> = Vec::new();
                for key in self.files.keys() {
                    if let Some(rest) = key.strip_prefix(prefix.as_str()) {
                        if !rest.contains('/') {
                            names.push(rest.to_string());
                        }
                    }
                }
                names.sort();
                IoReply::Names(names)
            },
        }
    }

    fn accept(&mut self, request: RpcRequest) -> RequestOutcome {
        let facts = HostFacts::new(self.readonly(), String::from("/work"));
        match self.session.accept(request, &facts) {
            Step::Done(outcome) => outcome,
            Step::Io(io) => {
                let reply = self.perform(io);
                self.session.resume(reply)
            },
        }
    }

    fn frame_rows(&self) -> RowsProbe {
        let frame = build_frame(
            self.session.editor(),
            self.session.mode(),
            self.session.status(),
            self.session.size(),
            None,
            false,
        );
        let mut rows = RowsProbe::new();
        frame.paint_rows(self.session.size().1.saturating_sub(3), &mut rows);
        rows
    }
}

struct RowsProbe {
    rows: Vec<String>,
}

impl RowsProbe {
    fn new() -> Self {
        Self { rows: Vec::new() }
    }

    fn expect_row(&self, index: u16, expected: &str) {
        let found = self.rows.get(index as usize).map(String::as_str).unwrap_or("");
        assert_eq!(found, expected);
    }
}

impl FrameRowSink for RowsProbe {
    fn paint_row(&mut self, index: u16, row: &str, _selection: RowSelection) {
        if self.rows.len() <= index as usize {
            self.rows.resize_with(index.saturating_add(1) as usize, String::new);
        }
        self.rows[index as usize] = row.to_string();
    }
}

struct CursorProbe {
    column: u16,
    row: u16,
    placed: bool,
}

impl CursorProbe {
    fn new() -> Self {
        Self { column: 0, row: 0, placed: false }
    }

    fn expect_position(&self, column: u16, row: u16) {
        assert!(self.placed);
        assert_eq!(self.column, column);
        assert_eq!(self.row, row);
    }
}

impl CursorSink for CursorProbe {
    fn place(&mut self, column: u16, row: u16) {
        self.column = column;
        self.row = row;
        self.placed = true;
    }
}

fn blank_editor() -> Editor {
    Editor::new(File::new(FilePath::Missing))
}

fn prompt_command_mode() -> EditorMode {
    let mut editor_mode = EditorMode::new();
    editor_mode.transition(RequestEditorMode::PromptCommand, &FilePath::Missing, false);
    editor_mode
}

fn execute(line: &str) -> RpcRequest {
    RpcRequest::CommandExecute { line: CommandLine::provided(line.to_string()) }
}

fn execute_from_prompt() -> RpcRequest {
    RpcRequest::CommandExecute { line: CommandLine::from_ui() }
}

fn prompt_action(action: PromptUiAction) -> RpcRequest {
    RpcRequest::CommandUi { action }
}

#[test]
fn insert_request_updates_rows() {
    let mut harness = RequestHarness::new(blank_editor(), EditorMode::new(), (10, 5));

    let outcome = harness.accept(RpcRequest::TextInsert { text: "hi".to_string() });
    assert!(matches!(outcome, RequestOutcome::Frame));

    harness.frame_rows().expect_row(0, "hi");
}

#[test]
fn line_break_splits_line_at_cursor() {
    let mut editor = blank_editor();
    editor.file_lines_replace(vec![String::from("hello world")]);
    editor.cursor_position_store(CursorPosition::new(5, 0));
    let mut harness = RequestHarness::new(editor, EditorMode::new(), (20, 5));

    let outcome = harness.accept(RpcRequest::LineBreak);
    assert!(matches!(outcome, RequestOutcome::Frame));

    let rows = harness.frame_rows();
    rows.expect_row(0, "hello");
    rows.expect_row(1, " world");
}

#[test]
fn noop_cursor_move_skips_frame() {
    let mut editor = blank_editor();
    editor.file_lines_replace(vec![String::new()]);
    let mut harness = RequestHarness::new(editor, EditorMode::new(), (10, 5));

    let outcome = harness.accept(RpcRequest::CursorMove { direction: MoveDirection::Left });
    assert!(matches!(outcome, RequestOutcome::Skip));
}

#[test]
fn resize_with_suppress_frame_skips() {
    let mut harness = RequestHarness::new(blank_editor(), EditorMode::new(), (10, 5));

    let outcome = harness.accept(RpcRequest::EditorResize { cols: 20, rows: 40, suppress_frame: true });
    assert!(matches!(outcome, RequestOutcome::Skip));
    assert_eq!(harness.session.size(), (20, 40));
}

#[test]
fn resize_same_size_without_suppress_skips() {
    let mut harness = RequestHarness::new(blank_editor(), EditorMode::new(), (10, 5));

    let outcome = harness.accept(RpcRequest::EditorResize { cols: 10, rows: 5, suppress_frame: false });
    assert!(matches!(outcome, RequestOutcome::Skip));
    assert_eq!(harness.session.size(), (10, 5));
}

#[test]
fn command_ui_request_updates_state_and_frame() {
    let mut harness = RequestHarness::new(blank_editor(), EditorMode::new(), (20, 8));

    let outcome = harness.accept(RpcRequest::ModeSet { mode: RequestEditorMode::PromptCommand });
    assert!(matches!(outcome, RequestOutcome::Frame));

    let outcome = harness.accept(prompt_action(PromptUiAction::InsertChar { ch: 'x' }));
    assert!(matches!(outcome, RequestOutcome::Frame));

    let session = &harness.session;
    let frame = build_frame(
        session.editor(),
        session.mode(),
        session.status(),
        session.size(),
        Some(session.prompt().frame()),
        false,
    );
    let command_ui_frame = match frame.command_ui() {
        CommandUiAccess::Available(command_ui) => command_ui,
        CommandUiAccess::Missing => panic!("expected command ui frame"),
    };
    assert_eq!(command_ui_frame.command_text(), ":x");
    assert_eq!(command_ui_frame.cursor_column(), 2);
}

#[test]
fn command_ui_outside_command_mode_skips() {
    let mut harness = RequestHarness::new(blank_editor(), EditorMode::new(), (10, 5));

    let outcome = harness.accept(prompt_action(PromptUiAction::InsertChar { ch: 'x' }));
    assert!(matches!(outcome, RequestOutcome::Skip));
}

#[test]
fn noop_delete_under_cursor_skips_frame() {
    let mut editor = blank_editor();
    editor.file_lines_replace(vec![String::new()]);
    let mut harness = RequestHarness::new(editor, EditorMode::new(), (10, 5));

    let outcome = harness.accept(RpcRequest::TextDelete { kind: DeleteKind::Under });
    assert!(matches!(outcome, RequestOutcome::Skip));
}

#[test]
fn file_open_missing_path_returns_error() {
    let mut harness = RequestHarness::new(blank_editor(), EditorMode::new(), (10, 5));
    let path = String::from("/tmp/vimrust_missing_file.txt");

    let outcome = harness.accept(RpcRequest::FileOpen { path });
    match outcome {
        RequestOutcome::Error(message) => {
            assert!(message.starts_with("open failed:"));
        },
        _ => panic!("expected error outcome"),
    }
}

#[test]
fn save_as_writes_file_and_updates_status() {
    let mut editor = blank_editor();
    editor.file_lines_replace(vec![String::from("hello")]);
    let mut harness = RequestHarness::new(editor, EditorMode::new(), (10, 5));
    let path = String::from("/tmp/vimrust_rpc_test.txt");

    let outcome = harness.accept(RpcRequest::FileSaveAs { path: path.clone() });
    if let RequestOutcome::FrameAndAck(ack) = outcome {
        assert_eq!(ack.kind(), AckKind::SaveAs);
        assert_eq!(ack.message(), StatusMessage::Text { text: String::from("saved") });
        assert_eq!(ack.path(), FilePath::Provided { path: path.clone() });
    } else {
        panic!("expected frame and ack");
    }
    assert_eq!(*harness.session.status(), StatusMessage::Text { text: String::from("saved") });
    assert_eq!(harness.files.get(&path).cloned().unwrap_or_default(), "hello");
}

#[test]
fn command_execute_save_exits_command_and_emits_ack() {
    let path = String::from("/tmp/vimrust_rpc_command_save.txt");
    let mut editor = Editor::new(File::new(FilePath::Provided { path: path.clone() }));
    editor.file_lines_replace(vec![String::from("changed")]);
    let mut harness = RequestHarness::new(editor, EditorMode::new(), (10, 5));

    harness.accept(RpcRequest::ModeSet { mode: RequestEditorMode::PromptCommand });

    let outcome = harness.accept(execute(":s"));
    if let RequestOutcome::FrameAndAck(ack) = outcome {
        assert_eq!(ack.kind(), AckKind::Save);
        assert!(matches!(harness.session.mode().mode(), EditorModeState::Normal));
        assert_eq!(*harness.session.status(), StatusMessage::Text { text: String::from("saved") });
    } else {
        panic!("expected frame and ack");
    }
    assert_eq!(harness.files.get(&path).cloned().unwrap_or_default(), "changed");
}

#[test]
fn command_execute_without_line_uses_internal_command_ui_state() {
    let path = String::from("/tmp/vimrust_rpc_command_save_no_line.txt");
    let mut editor = Editor::new(File::new(FilePath::Provided { path: path.clone() }));
    editor.file_lines_replace(vec![String::from("changed")]);
    let mut harness = RequestHarness::new(editor, EditorMode::new(), (10, 5));

    harness.accept(RpcRequest::ModeSet { mode: RequestEditorMode::PromptCommand });
    harness.accept(prompt_action(PromptUiAction::InsertChar { ch: 's' }));

    let outcome = harness.accept(execute_from_prompt());
    if let RequestOutcome::FrameAndAck(ack) = outcome {
        assert_eq!(ack.kind(), AckKind::Save);
        assert!(matches!(harness.session.mode().mode(), EditorModeState::Normal));
        assert_eq!(*harness.session.status(), StatusMessage::Text { text: String::from("saved") });
    } else {
        panic!("expected frame and ack");
    }
}

#[test]
fn command_execute_selects_list_entry_and_runs_command() {
    let path = String::from("/tmp/vimrust_rpc_command_save_from_list.txt");
    let mut editor = Editor::new(File::new(FilePath::Provided { path: path.clone() }));
    editor.file_lines_replace(vec![String::from("changed")]);
    let mut harness = RequestHarness::new(editor, EditorMode::new(), (10, 5));

    harness.accept(RpcRequest::ModeSet { mode: RequestEditorMode::PromptCommand });
    harness.accept(prompt_action(PromptUiAction::MoveSelectionDown));

    let outcome = harness.accept(execute_from_prompt());
    if let RequestOutcome::FrameAndAck(ack) = outcome {
        assert_eq!(ack.kind(), AckKind::Save);
        assert_eq!(*harness.session.status(), StatusMessage::Text { text: String::from("saved") });
        assert!(matches!(harness.session.mode().mode(), EditorModeState::Normal));
    } else {
        panic!("expected frame and ack");
    }
}

#[test]
fn command_execute_list_placeholder_skips_execution_for_open_query() {
    let mut harness = RequestHarness::new(blank_editor(), prompt_command_mode(), (20, 10));

    harness.accept(RpcRequest::ModeSet { mode: RequestEditorMode::PromptCommand });
    harness.accept(prompt_action(PromptUiAction::InsertChar { ch: 'o' }));
    harness.accept(prompt_action(PromptUiAction::InsertChar { ch: 'p' }));
    harness.accept(prompt_action(PromptUiAction::InsertChar { ch: 'e' }));
    harness.accept(prompt_action(PromptUiAction::InsertChar { ch: 'n' }));
    harness.accept(prompt_action(PromptUiAction::MoveSelectionDown));

    let outcome = harness.accept(execute_from_prompt());
    match outcome {
        RequestOutcome::Ack(_) | RequestOutcome::FrameAndAck(_) | RequestOutcome::Quit => {
            panic!("expected command execution to be skipped");
        },
        RequestOutcome::Frame | RequestOutcome::Skip | RequestOutcome::Error(_) => {},
    }
    assert!(harness.session.mode().prompt_command());
}

#[test]
fn command_execute_placeholder_line_skips_execution() {
    let mut harness = RequestHarness::new(blank_editor(), prompt_command_mode(), (20, 10));

    let outcome = harness.accept(execute(":o {filename}"));
    match outcome {
        RequestOutcome::Ack(_) | RequestOutcome::FrameAndAck(_) | RequestOutcome::Quit => {
            panic!("expected command execution to be skipped");
        },
        RequestOutcome::Frame | RequestOutcome::Skip | RequestOutcome::Error(_) => {},
    }
    assert!(harness.session.mode().prompt_command());
}

#[test]
fn command_execute_quit_requests_quit_outcome() {
    let mut harness = RequestHarness::new(blank_editor(), prompt_command_mode(), (10, 5));

    let outcome = harness.accept(execute(":q"));
    assert!(matches!(outcome, RequestOutcome::Quit));
}

#[test]
fn command_execute_open_reads_file_and_emits_ack() {
    let mut harness = RequestHarness::new(blank_editor(), prompt_command_mode(), (20, 10));
    let path = String::from("/tmp/vimrust_rpc_command_open.txt");
    harness.files.insert(path.clone(), String::from("hello"));

    let outcome = harness.accept(execute(format!(":o {}", path).as_str()));

    assert!(matches!(outcome, RequestOutcome::FrameAndAck(_)));
    assert_eq!(harness.session.editor().file_path(), FilePath::Provided { path });
}

#[test]
fn command_execute_reload_reads_current_file() {
    let path = String::from("/tmp/vimrust_rpc_command_reload.txt");
    let mut editor = Editor::new(File::new(FilePath::Provided { path: path.clone() }));
    editor.file_lines_replace(vec![String::from("memory")]);
    let mut harness = RequestHarness::new(editor, prompt_command_mode(), (20, 10));
    harness.files.insert(path, String::from("disk"));

    let outcome = harness.accept(execute(":o"));

    assert!(matches!(outcome, RequestOutcome::FrameAndAck(_)));
    assert_eq!(harness.session.editor().file_lines_snapshot(), vec![String::from("disk")]);
}

#[test]
fn command_execute_unknown_command_skips() {
    let mut harness = RequestHarness::new(blank_editor(), prompt_command_mode(), (10, 5));

    let outcome = harness.accept(execute(":unknown"));
    assert!(matches!(outcome, RequestOutcome::Skip));
    assert!(harness.session.mode().prompt_command());
}

#[test]
fn command_execute_outside_command_mode_skips() {
    let mut harness = RequestHarness::new(blank_editor(), EditorMode::new(), (10, 5));

    let outcome = harness.accept(execute(":q"));
    assert!(matches!(outcome, RequestOutcome::Skip));
}

#[test]
fn command_execute_in_keymap_prompt_skips() {
    let mut editor_mode = EditorMode::new();
    editor_mode.transition(RequestEditorMode::PromptKeymap, &FilePath::Missing, false);
    let mut harness = RequestHarness::new(blank_editor(), editor_mode, (10, 5));

    let outcome = harness.accept(execute(":q"));
    assert!(matches!(outcome, RequestOutcome::Skip));
    assert!(matches!(harness.session.mode().mode(), EditorModeState::PromptKeymap));
}

#[test]
fn mode_set_same_mode_skips() {
    let mut harness = RequestHarness::new(blank_editor(), EditorMode::new(), (10, 5));

    let outcome = harness.accept(RpcRequest::ModeSet { mode: RequestEditorMode::Normal });
    assert!(matches!(outcome, RequestOutcome::Skip));
}

#[test]
fn mode_set_edit_skips_on_locked_file() {
    let path = String::from("/tmp/vimrust_mode_set_locked.txt");
    let editor = Editor::new(File::new(FilePath::Provided { path: path.clone() }));
    let mut harness = RequestHarness::new(editor, EditorMode::new(), (10, 5));
    harness.files.insert(path.clone(), String::from("locked"));
    harness.locked.push(path);

    let outcome = harness.accept(RpcRequest::ModeSet { mode: RequestEditorMode::Edit });
    assert!(matches!(outcome, RequestOutcome::Skip));
    assert!(matches!(harness.session.mode().mode(), EditorModeState::Normal));
}

#[test]
fn command_ui_frame_includes_line_and_selection() {
    let mut harness = RequestHarness::new(blank_editor(), EditorMode::new(), (20, 10));

    harness.accept(RpcRequest::ModeSet { mode: RequestEditorMode::PromptCommand });
    harness.accept(prompt_action(PromptUiAction::InsertChar { ch: 's' }));
    harness.accept(prompt_action(PromptUiAction::MoveSelectionDown));

    let session = &harness.session;
    let frame = build_frame(
        session.editor(),
        session.mode(),
        session.status(),
        session.size(),
        Some(session.prompt().frame()),
        false,
    );
    let command_ui_frame = match frame.command_ui() {
        CommandUiAccess::Available(command_ui) => command_ui,
        CommandUiAccess::Missing => panic!("expected command ui frame"),
    };
    assert_eq!(command_ui_frame.command_text(), ":s");
    assert_eq!(command_ui_frame.cursor_column(), 2);
    assert_eq!(command_ui_frame.line_focus(), false);
    assert!(command_ui_frame.selected_item().is_some());
    assert!(!command_ui_frame.command_items().is_empty());
}

#[test]
fn prompt_keymap_frame_includes_keymap_entries() {
    let mut harness = RequestHarness::new(blank_editor(), EditorMode::new(), (20, 10));

    harness.accept(RpcRequest::ModeSet { mode: RequestEditorMode::PromptKeymap });

    let session = &harness.session;
    let frame = build_frame(
        session.editor(),
        session.mode(),
        session.status(),
        session.size(),
        Some(session.prompt().frame()),
        false,
    );
    let command_ui_frame = match frame.command_ui() {
        CommandUiAccess::Available(command_ui) => command_ui,
        CommandUiAccess::Missing => panic!("expected command ui frame"),
    };
    assert_eq!(command_ui_frame.command_text(), ";");
    let items = command_ui_frame.command_items();
    let mut found = false;
    let mut idx = 0usize;
    while idx < items.len() {
        if items[idx].label() == "q" && matches!(items[idx].mode(), PromptMode::Normal) {
            found = true;
            break;
        }
        idx = idx.saturating_add(1);
    }
    assert!(found);
}

#[test]
fn frame_cursor_positions_respect_offsets() {
    let editor_mode = EditorMode::new();
    let mut editor = blank_editor();
    editor.file_lines_replace(vec![
        String::from("aaa"),
        String::from("bbb"),
        String::from("ccc"),
        String::from("ddd"),
    ]);
    editor.cursor_position_store(CursorPosition::new(5, 3));

    let status = StatusMessage::Empty;
    let size = (10, 6);

    let frame = build_frame(&editor, &editor_mode, &status, size, None, false);
    let mut cursor = CursorProbe::new();
    frame.cursor().place_on(&mut cursor);
    cursor.expect_position(5, 3);
}

#[test]
fn mode_transitions_toggle_command_ui_frame() {
    let mut harness = RequestHarness::new(blank_editor(), EditorMode::new(), (10, 5));
    harness.accept(RpcRequest::ModeSet { mode: RequestEditorMode::PromptCommand });
    let session = &harness.session;
    let frame_command = build_frame(
        session.editor(),
        session.mode(),
        session.status(),
        session.size(),
        Some(session.prompt().frame()),
        false,
    );
    assert!(matches!(frame_command.mode(), FrameEditorMode::PromptCommand));
    match frame_command.command_ui() {
        CommandUiAccess::Available(_) => {},
        CommandUiAccess::Missing => panic!("expected command ui frame"),
    }

    harness.accept(RpcRequest::ModeSet { mode: RequestEditorMode::Normal });
    let session = &harness.session;
    let frame_normal = build_frame(session.editor(), session.mode(), session.status(), session.size(), None, false);
    assert!(matches!(frame_normal.mode(), FrameEditorMode::Normal));
    match frame_normal.command_ui() {
        CommandUiAccess::Available(_) => panic!("expected command ui to be missing"),
        CommandUiAccess::Missing => {},
    }
}

#[test]
fn save_on_existing_path_emits_ack_without_frame() {
    let path = String::from("/tmp/vimrust_rpc_save_exists.txt");
    let mut editor = Editor::new(File::new(FilePath::Provided { path: path.clone() }));
    editor.file_lines_replace(vec![String::from("changed")]);
    let mut harness = RequestHarness::new(editor, EditorMode::new(), (10, 5));
    harness.files.insert(path.clone(), String::from("existing"));

    let outcome = harness.accept(RpcRequest::FileSave);
    if let RequestOutcome::Ack(ack) = outcome {
        assert_eq!(ack.kind(), AckKind::Save);
        assert_eq!(ack.message(), StatusMessage::Text { text: String::from("saved") });
        assert_eq!(ack.path(), FilePath::Provided { path: path.clone() });
    } else {
        panic!("expected ack without frame");
    }
    assert_eq!(*harness.session.status(), StatusMessage::Text { text: String::from("saved") });
    assert_eq!(harness.files.get(&path).cloned().unwrap_or_default(), "changed");
}
