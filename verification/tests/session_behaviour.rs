use std::collections::HashMap;

use vimrust::engine::command_list::adjust_scroll;
use vimrust::engine::editor::{CursorPosition, Editor};
use vimrust::engine::file::File;
use vimrust::engine::history::{restore_entries, CommandHistory, CommandHistoryFile, CommandHistoryLocation, CommandHistoryStore};
use vimrust::engine::mode::{EditorMode, EditorModeState};
use vimrust::engine::prompt_ui_state::PromptUiState;
use vimrust::engine::rpc::{build_frame, command_list_rows, HostFacts, IoReply, IoRequest, RequestOutcome, Session, Step, StdioSession};
use vimrust::protocol::path::FilePath;
use vimrust::protocol::prompt_ui::PromptUiAction;
use vimrust::protocol::rpc::{AckKind, CommandLine, DeleteKind, MoveDirection, RequestEditorMode, RpcRequest};
use vimrust::protocol::status::StatusMessage;

struct Host {
    session: Session,
    files: HashMap<String, String>,
    locked: Vec<String>,
    working_dir: String,
}

impl Host {
    fn new(editor: Editor, prompt: PromptUiState) -> Self {
        Self {
            session: Session::from_parts(editor, EditorMode::new(), StatusMessage::Empty, (40, 12), prompt),
            files: HashMap::new(),
            locked: Vec::new(),
            working_dir: String::from("/work"),
        }
    }

    fn with_lines(path: FilePath, lines: &[&str]) -> Self {
        let mut editor = Editor::new(File::new(path));
        editor.file_lines_replace(lines.iter().map(|l| l.to_string()).collect());
        Self::new(editor, PromptUiState::new())
    }

    fn perform(&mut self, io: IoRequest) -> IoReply {
        match io {
            IoRequest::Read { path } => match self.files.get(&path) {
                Some(text) => IoReply::Text(text.clone()),
                None => IoReply::Failed(String::from("not found")),
            },
            IoRequest::Write { path, contents } => {
                if self.locked.contains(&path) {
                    IoReply::Failed(String::from("denied"))
                } else {
                    self.files.insert(path, contents);
                    IoReply::Written
                }
            },
            IoRequest::List { path } => {
                let prefix = format!("{}/", path.trim_end_matches('/'));
                let mut names: Vec<String> = Vec::new();
                for key in self.files.keys() {
                    if let Some(rest) = key.strip_prefix(prefix.as_str()) {
                        match rest.find('/') {
                            Some(end) => {
                                let dir = format!("{}/", &rest[..end]);
                                if !names.contains(&dir) {
                                    names.push(dir);
                                }
                            },
                            None => names.push(rest.to_string()),
                        }
                    }
                }
                names.sort();
                IoReply::Names(names)
            },
        }
    }

    fn accept(&mut self, request: RpcRequest) -> RequestOutcome {
        let readonly = match self.session.editor().file_path() {
            FilePath::Provided { path } => self.locked.contains(&path),
            FilePath::Missing => false,
        };
        let facts = HostFacts::new(readonly, self.working_dir.clone());
        match self.session.accept(request, &facts) {
            Step::Done(outcome) => outcome,
            Step::Io(io) => {
                let reply = self.perform(io);
                self.session.resume(reply)
            },
        }
    }

    fn prompt_line(&self) -> String {
        self.session.prompt().command_text()
    }

    fn lines(&self) -> Vec<String> {
        self.session.editor().file_lines_snapshot()
    }
}

fn execute(line: &str) -> RpcRequest {
    RpcRequest::CommandExecute { line: CommandLine::provided(line.to_string()) }
}

fn act(action: PromptUiAction) -> RpcRequest {
    RpcRequest::CommandUi { action }
}

fn typed(host: &mut Host, text: &str) {
    for ch in text.chars() {
        host.accept(act(PromptUiAction::InsertChar { ch }));
    }
}

#[test]
fn list_rows_leave_room_for_prompt_chrome() {
    assert_eq!(command_list_rows((20, 10)), 4);
    assert_eq!(command_list_rows((20, 6)), 0);
    assert_eq!(command_list_rows((20, 2)), 0);
}

#[test]
fn scroll_keeps_selected_row_visible() {
    assert_eq!(adjust_scroll(Some(10), 0, 4), 7);
    assert_eq!(adjust_scroll(Some(2), 5, 4), 2);
    assert_eq!(adjust_scroll(Some(6), 5, 4), 5);
    assert_eq!(adjust_scroll(None, 5, 4), 5);
    assert_eq!(adjust_scroll(Some(6), 5, 0), 0);
}

#[test]
fn repeated_resize_asks_for_nothing() {
    let mut host = Host::with_lines(FilePath::Missing, &["a"]);
    host.accept(RpcRequest::ModeSet { mode: RequestEditorMode::PromptCommand });
    let first = host.accept(RpcRequest::EditorResize { cols: 30, rows: 12, suppress_frame: false });
    assert!(matches!(first, RequestOutcome::Frame));
    let second = host.accept(RpcRequest::EditorResize { cols: 30, rows: 12, suppress_frame: false });
    assert!(matches!(second, RequestOutcome::Skip));
    assert_eq!(host.session.size(), (30, 12));
}

#[test]
fn requesting_the_current_mode_skips() {
    let mut host = Host::with_lines(FilePath::Missing, &["abc"]);
    assert!(matches!(host.accept(RpcRequest::ModeSet { mode: RequestEditorMode::Visual }), RequestOutcome::Frame));
    assert!(matches!(host.accept(RpcRequest::ModeSet { mode: RequestEditorMode::Visual }), RequestOutcome::Skip));
    assert!(matches!(host.session.mode().mode(), EditorModeState::Visual));
}

#[test]
fn skipped_backspace_leaves_text_and_status() {
    let mut host = Host::with_lines(FilePath::Missing, &["abc"]);
    let outcome = host.accept(RpcRequest::TextDelete { kind: DeleteKind::Backspace });
    assert!(matches!(outcome, RequestOutcome::Skip));
    assert_eq!(host.lines(), vec![String::from("abc")]);
    assert_eq!(*host.session.status(), StatusMessage::Empty);
}

#[test]
fn edit_marks_status_modified() {
    let mut host = Host::with_lines(FilePath::Missing, &["abc"]);
    let outcome = host.accept(RpcRequest::TextInsert { text: String::from("xy") });
    assert!(matches!(outcome, RequestOutcome::Frame));
    assert_eq!(host.lines(), vec![String::from("xyabc")]);
    assert_eq!(*host.session.status(), StatusMessage::Text { text: String::from("modified") });
    let frame = host.session.frame(false);
    assert_eq!(frame.status(), StatusMessage::Text { text: String::from("modified") });
}

#[test]
fn save_then_open_gives_the_lines_back() {
    let path = String::from("/work/notes.txt");
    let mut host = Host::with_lines(FilePath::Provided { path: path.clone() }, &["first", "second\r", "third"]);
    let saved = host.accept(RpcRequest::FileSave);
    assert!(matches!(saved, RequestOutcome::Ack(_)));
    assert_eq!(host.files.get(&path).cloned().unwrap_or_default(), "first\nsecond\r\nthird");
    host.accept(RpcRequest::TextInsert { text: String::from("zzz") });
    let opened = host.accept(RpcRequest::FileOpen { path: path.clone() });
    match opened {
        RequestOutcome::FrameAndAck(ack) => {
            assert_eq!(ack.kind(), AckKind::Open);
            assert_eq!(ack.message(), StatusMessage::Text { text: String::from("opened") });
            assert_eq!(ack.path(), FilePath::Provided { path: path.clone() });
        },
        _ => panic!("expected frame and ack"),
    }
    // The carriage return of a middle line is read back as a line ending.
    assert_eq!(host.lines(), vec![String::from("first"), String::from("second"), String::from("third")]);
}

#[test]
fn first_save_names_an_unnamed_buffer_second_save_only_acks() {
    let mut host = Host::with_lines(FilePath::Missing, &["draft"]);
    let first = host.accept(RpcRequest::FileSave);
    match first {
        RequestOutcome::FrameAndAck(ack) => {
            assert_eq!(ack.path(), FilePath::Provided { path: String::from("untitled.txt") });
        },
        _ => panic!("expected frame and ack"),
    }
    assert_eq!(host.files.get("untitled.txt").cloned().unwrap_or_default(), "draft");
    let second = host.accept(RpcRequest::FileSave);
    assert!(matches!(second, RequestOutcome::Ack(_)));
    let frame = host.session.frame(false);
    assert_eq!(frame.status(), StatusMessage::Text { text: String::from("saved") });
}

#[test]
fn readonly_file_shows_locked_status() {
    let path = String::from("/work/locked.txt");
    let host = Host::with_lines(FilePath::Provided { path }, &["x"]);
    let frame = host.session.frame(true);
    assert_eq!(frame.status(), StatusMessage::Text { text: String::from("locked") });
}

#[test]
fn failed_save_reports_error_and_changes_nothing() {
    let path = String::from("/work/denied.txt");
    let mut host = Host::with_lines(FilePath::Provided { path: path.clone() }, &["keep"]);
    host.locked.push(path);
    let outcome = host.accept(RpcRequest::FileSave);
    match outcome {
        RequestOutcome::Error(message) => assert_eq!(message, "save failed: denied"),
        _ => panic!("expected error"),
    }
    assert_eq!(*host.session.status(), StatusMessage::Empty);
    assert_eq!(host.lines(), vec![String::from("keep")]);
}

#[test]
fn failed_save_as_reports_error() {
    let mut host = Host::with_lines(FilePath::Missing, &["keep"]);
    host.locked.push(String::from("/work/out.txt"));
    let outcome = host.accept(RpcRequest::FileSaveAs { path: String::from("/work/out.txt") });
    match outcome {
        RequestOutcome::Error(message) => assert_eq!(message, "save_as failed: denied"),
        _ => panic!("expected error"),
    }
}

#[test]
fn reload_without_path_is_an_error() {
    let mut host = Host::new(Editor::new(File::new(FilePath::Missing)), PromptUiState::new());
    host.accept(RpcRequest::ModeSet { mode: RequestEditorMode::PromptCommand });
    match host.accept(execute(":o")) {
        RequestOutcome::Error(message) => assert_eq!(message, "reload failed: no file path"),
        _ => panic!("expected error"),
    }
}

#[test]
fn reload_of_missing_file_is_an_error() {
    let mut host = Host::with_lines(FilePath::Provided { path: String::from("/work/gone.txt") }, &["x"]);
    host.accept(RpcRequest::ModeSet { mode: RequestEditorMode::PromptCommand });
    match host.accept(execute(":open")) {
        RequestOutcome::Error(message) => assert_eq!(message, "reload failed: not found"),
        _ => panic!("expected error"),
    }
}

#[test]
fn history_without_file_is_an_error() {
    let mut host = Host::with_lines(FilePath::Missing, &["x"]);
    host.accept(RpcRequest::ModeSet { mode: RequestEditorMode::PromptCommand });
    match host.accept(execute(":history")) {
        RequestOutcome::Error(message) => assert_eq!(message, "history file missing"),
        _ => panic!("expected error"),
    }
}

#[test]
fn history_command_opens_the_history_file() {
    let file = CommandHistoryFile::new(String::from("/state/vimrust"), String::from("/state/vimrust/history"));
    let store = CommandHistoryStore::at(CommandHistoryLocation::File { file });
    let history = CommandHistory::with_store(store, "s\nq\n");
    let mut host = Host::new(Editor::new(File::new(FilePath::Missing)), PromptUiState::with_history(history));
    host.files.insert(String::from("/state/vimrust/history"), String::from("s\nq\n"));
    host.accept(RpcRequest::ModeSet { mode: RequestEditorMode::PromptCommand });
    match host.accept(execute(":history")) {
        RequestOutcome::FrameAndAck(ack) => {
            assert_eq!(ack.kind(), AckKind::Open);
            assert_eq!(ack.message(), StatusMessage::Text { text: String::from("opened") });
        },
        _ => panic!("expected frame and ack"),
    }
    assert_eq!(host.lines(), vec![String::from("s"), String::from("q")]);
    assert_eq!(host.session.take_history_writes().len(), 1);
}

#[test]
fn missing_history_file_is_an_open_error() {
    let file = CommandHistoryFile::new(String::from("/state/vimrust"), String::from("/state/vimrust/history"));
    let store = CommandHistoryStore::at(CommandHistoryLocation::File { file });
    let history = CommandHistory::with_store(store, "");
    let mut host = Host::new(Editor::new(File::new(FilePath::Missing)), PromptUiState::with_history(history));
    host.accept(RpcRequest::ModeSet { mode: RequestEditorMode::PromptCommand });
    match host.accept(execute(":history")) {
        RequestOutcome::Error(message) => assert_eq!(message, "history open failed: not found"),
        _ => panic!("expected error"),
    }
}

#[test]
fn executed_commands_are_queued_for_the_history_file() {
    let file = CommandHistoryFile::new(String::from("/state/vimrust"), String::from("/state/vimrust/history"));
    let store = CommandHistoryStore::at(CommandHistoryLocation::File { file });
    let history = CommandHistory::with_store(store, "");
    let mut host = Host::new(Editor::new(File::new(FilePath::Missing)), PromptUiState::with_history(history));
    host.accept(RpcRequest::ModeSet { mode: RequestEditorMode::PromptCommand });
    host.accept(execute(":  nothing-here  "));
    let writes = host.session.take_history_writes();
    assert_eq!(writes.len(), 1);
    assert_eq!(writes[0].line, "nothing-here");
    assert_eq!(writes[0].path, "/state/vimrust/history");
    assert_eq!(writes[0].directory, "/state/vimrust");
    assert!(host.session.take_history_writes().is_empty());
}

#[test]
fn recorded_entry_is_restored_from_appended_file() {
    let mut entries: Vec<String> = Vec::new();
    let mut text = String::from("ls\n");
    text.push_str("save");
    text.push('\n');
    restore_entries(&mut entries, text.as_str());
    assert_eq!(entries, vec![String::from("ls"), String::from("save")]);
    let mut more: Vec<String> = Vec::new();
    restore_entries(&mut more, "  a  \n\n\t\nb\r\n");
    assert_eq!(more, vec![String::from("a"), String::from("b")]);
}

#[test]
fn recall_shows_last_recorded_command() {
    let mut prompt = PromptUiState::new();
    prompt.prompt_command();
    prompt.remember_command(":  save  ");
    prompt.apply_action(PromptUiAction::HistoryPrevious, 4);
    assert_eq!(prompt.command_text(), "save");
}

#[test]
fn recall_previous_then_next_restores_typed_line() {
    let mut prompt = PromptUiState::new();
    prompt.prompt_command();
    prompt.remember_command(":quit");
    prompt.apply_action(PromptUiAction::InsertChar { ch: 'a' }, 4);
    prompt.apply_action(PromptUiAction::InsertChar { ch: 'b' }, 4);
    prompt.apply_action(PromptUiAction::HistoryPrevious, 4);
    assert_eq!(prompt.command_text(), "quit");
    prompt.apply_action(PromptUiAction::HistoryNext, 4);
    assert_eq!(prompt.command_text(), ":ab");
    let frame = prompt.frame();
    assert_eq!(frame.cursor_column(), 3);
}

#[test]
fn case_command_rewrites_selection_and_leaves_prompt() {
    let mut host = Host::with_lines(FilePath::Missing, &["hello world"]);
    host.accept(RpcRequest::ModeSet { mode: RequestEditorMode::Visual });
    host.accept(RpcRequest::CursorMove { direction: vimrust::protocol::rpc::MoveDirection::End });
    host.accept(RpcRequest::ModeSet { mode: RequestEditorMode::PromptCommand });
    let outcome = host.accept(execute(":case SNAKE"));
    assert!(matches!(outcome, RequestOutcome::Frame));
    assert_eq!(host.lines(), vec![String::from("hello_world")]);
    assert!(matches!(host.session.mode().mode(), EditorModeState::Normal));
    assert_eq!(host.prompt_line(), "");
}

#[test]
fn unknown_case_style_does_nothing() {
    let mut host = Host::with_lines(FilePath::Missing, &["hello world"]);
    host.accept(RpcRequest::ModeSet { mode: RequestEditorMode::PromptCommand });
    assert!(matches!(host.accept(execute(":case weird")), RequestOutcome::Skip));
    assert!(matches!(host.accept(execute(":case")), RequestOutcome::Skip));
    assert_eq!(host.lines(), vec![String::from("hello world")]);
    assert!(host.session.mode().prompt_command());
}

#[test]
fn uppercase_command_names_run() {
    let mut host = Host::with_lines(FilePath::Missing, &["x"]);
    host.accept(RpcRequest::ModeSet { mode: RequestEditorMode::PromptCommand });
    assert!(matches!(host.accept(execute("::QUIT  ")), RequestOutcome::Quit));
}

#[test]
fn save_and_quit_writes_then_quits() {
    let path = String::from("/work/sq.txt");
    let mut host = Host::with_lines(FilePath::Provided { path: path.clone() }, &["bye"]);
    host.accept(RpcRequest::ModeSet { mode: RequestEditorMode::PromptCommand });
    assert!(matches!(host.accept(execute(":sq")), RequestOutcome::Quit));
    assert_eq!(host.files.get(&path).cloned().unwrap_or_default(), "bye");
    assert_eq!(*host.session.status(), StatusMessage::Text { text: String::from("saved") });
}

#[test]
fn quit_request_quits() {
    let mut host = Host::with_lines(FilePath::Missing, &["x"]);
    assert!(matches!(host.accept(RpcRequest::EditorQuit), RequestOutcome::Quit));
    assert!(matches!(host.accept(RpcRequest::StateGet), RequestOutcome::Frame));
}

#[test]
fn completion_extends_open_path() {
    let mut host = Host::with_lines(FilePath::Missing, &["x"]);
    host.files.insert(String::from("/work/src/main.rs"), String::new());
    host.files.insert(String::from("/work/Cargo.toml"), String::new());
    host.accept(RpcRequest::ModeSet { mode: RequestEditorMode::PromptCommand });
    typed(&mut host, "o s");
    let outcome = host.accept(act(PromptUiAction::Complete));
    assert!(matches!(outcome, RequestOutcome::Frame));
    assert_eq!(host.prompt_line(), ":o src/");
    typed(&mut host, "m");
    host.accept(act(PromptUiAction::Complete));
    assert_eq!(host.prompt_line(), ":o src/main.rs");
}

#[test]
fn completion_without_match_keeps_line() {
    let mut host = Host::with_lines(FilePath::Missing, &["x"]);
    host.accept(RpcRequest::ModeSet { mode: RequestEditorMode::PromptCommand });
    typed(&mut host, "o zz");
    host.accept(act(PromptUiAction::Complete));
    assert_eq!(host.prompt_line(), ":o zz");
}

#[test]
fn open_of_empty_path_starts_an_empty_buffer() {
    let mut host = Host::with_lines(FilePath::Missing, &["old"]);
    match host.accept(RpcRequest::FileOpen { path: String::new() }) {
        RequestOutcome::FrameAndAck(ack) => {
            assert_eq!(ack.path(), FilePath::Provided { path: String::new() });
        },
        _ => panic!("expected frame and ack"),
    }
    assert_eq!(host.lines(), vec![String::new()]);
}

#[test]
fn stdio_session_starts_on_its_file() {
    let stdio = StdioSession::new(FilePath::Provided { path: String::from("/work/a.txt") });
    assert_eq!(stdio.read_target(), Some(String::from("/work/a.txt")));
    let session = stdio.begin("one\ntwo\n", CommandHistory::new());
    assert_eq!(session.editor().file_lines_snapshot(), vec![String::from("one"), String::from("two")]);
    assert_eq!(session.size(), (80, 24));
    assert!(matches!(session.mode().mode(), EditorModeState::Normal));

    let unnamed = StdioSession::new(FilePath::Missing);
    assert_eq!(unnamed.read_target(), None);
    let session = unnamed.begin("ignored", CommandHistory::new());
    assert_eq!(session.editor().file_lines_snapshot(), vec![String::new()]);
    assert_eq!(session.editor().file_path(), FilePath::Provided { path: String::new() });
}

#[test]
fn frame_draws_text_cursor_and_prompt() {
    let mut editor = Editor::new(File::new(FilePath::Provided { path: String::from("/work/f.txt") }));
    editor.file_lines_replace(vec![String::from("\tab")]);
    editor.cursor_position_store(CursorPosition::new(4, 0));
    let mode = EditorMode::new();
    let frame = build_frame(&editor, &mode, &StatusMessage::Empty, (20, 6), None, false);
    assert_eq!(frame.cursor().column(), 4);
    assert_eq!(frame.cursor().row(), 1);
    assert_eq!(frame.rows().row(0), "    ab");
    assert_eq!(frame.rows().len(), 3);
    assert_eq!(frame.size(), (20, 6));
    assert_eq!(frame.path(), FilePath::Provided { path: String::from("/work/f.txt") });
    assert_eq!(frame.protocol().number(), 1);
}

#[test]
fn typing_then_backspace_restores_text_and_cursor() {
    let mut editor = Editor::new(File::new(FilePath::Missing));
    editor.file_lines_replace(vec![String::from("a\tb")]);
    editor.cursor_position_store(CursorPosition::new(4, 0));
    let mut host = Host::new(editor, PromptUiState::new());
    host.accept(RpcRequest::TextInsert { text: String::from("z") });
    assert_eq!(host.lines(), vec![String::from("a\tzb")]);
    host.accept(RpcRequest::TextDelete { kind: DeleteKind::Backspace });
    assert_eq!(host.lines(), vec![String::from("a\tb")]);
    let cursor = host.session.editor().cursor_position();
    assert_eq!((cursor.column(), cursor.row()), (4, 0));
    assert_eq!(*host.session.status(), StatusMessage::Text { text: String::from("modified") });
}

#[test]
fn empty_buffer_shows_welcome_third_down() {
    let editor = Editor::new(File::new(FilePath::Missing));
    let frame = build_frame(&editor, &EditorMode::new(), &StatusMessage::Empty, (40, 12), None, false);
    assert_eq!(frame.rows().len(), 9);
    assert_eq!(frame.rows().row(0), "~");
    assert_eq!(frame.rows().row(3), "~       VimRust -- version 0.1.0");
    assert_eq!(frame.rows().row(8), "~");
    let narrow = build_frame(&editor, &EditorMode::new(), &StatusMessage::Empty, (10, 12), None, false);
    assert_eq!(narrow.rows().row(3), "~VimRust -");
}

#[test]
fn edit_mode_is_refused_on_readonly_file() {
    let path = String::from("/work/ro.txt");
    let mut host = Host::with_lines(FilePath::Provided { path: path.clone() }, &["x"]);
    host.locked.push(path);
    assert!(matches!(host.accept(RpcRequest::ModeSet { mode: RequestEditorMode::Edit }), RequestOutcome::Skip));
    assert!(matches!(host.session.mode().mode(), EditorModeState::Normal));
    host.locked.clear();
    assert!(matches!(host.accept(RpcRequest::ModeSet { mode: RequestEditorMode::Edit }), RequestOutcome::Frame));
    assert!(matches!(host.session.mode().mode(), EditorModeState::Edit));
}

#[test]
fn cursor_moves_stay_on_the_text() {
    let mut editor = Editor::new(File::new(FilePath::Missing));
    editor.file_lines_replace(vec![String::from("a\tb"), String::from("xy")]);
    editor.cursor_position_store(CursorPosition::new(2, 0));
    editor.cursor_move(MoveDirection::Right, 10);
    assert_eq!((editor.cursor_position().column(), editor.cursor_position().row()), (3, 0));
    editor.cursor_move(MoveDirection::End, 10);
    assert_eq!((editor.cursor_position().column(), editor.cursor_position().row()), (5, 0));
    editor.cursor_move(MoveDirection::Down, 10);
    assert_eq!((editor.cursor_position().column(), editor.cursor_position().row()), (2, 1));
    editor.cursor_move(MoveDirection::Down, 10);
    assert_eq!((editor.cursor_position().column(), editor.cursor_position().row()), (0, 2));
    editor.cursor_move(MoveDirection::Down, 10);
    assert_eq!((editor.cursor_position().column(), editor.cursor_position().row()), (0, 2));
    editor.cursor_move(MoveDirection::Up, 10);
    assert_eq!((editor.cursor_position().column(), editor.cursor_position().row()), (0, 1));
    assert_eq!(editor.file_lines_snapshot(), vec![String::from("a\tb"), String::from("xy")]);
}
