//! Requests a client sends to the editor core and the responses it gets back.
use vstd::prelude::*;
use vstd::string::*;
use crate::protocol::frame::Frame;
use crate::protocol::path::FilePath;
use crate::protocol::prompt_ui::PromptUiAction;
use crate::protocol::status::StatusMessage;

verus! {

/// One request to the editor core.
pub enum RpcRequest {
    EditorResize { cols: u16, rows: u16, suppress_frame: bool },
    FileOpen { path: String },
    FileSave,
    FileSaveAs { path: String },
    TextInsert { text: String },
    TextDelete { kind: DeleteKind },
    LineBreak,
    CursorMove { direction: MoveDirection },
    CommandUi { action: PromptUiAction },
    ModeSet { mode: RequestEditorMode },
    StateGet,
    EditorQuit,
    CommandExecute { line: CommandLine },
}

/// A request with its texts as characters.
pub enum RequestView {
    EditorResize { cols: u16, rows: u16, suppress_frame: bool },
    FileOpen(Seq<char>),
    FileSave,
    FileSaveAs(Seq<char>),
    TextInsert(Seq<char>),
    TextDelete(DeleteKind),
    LineBreak,
    CursorMove(MoveDirection),
    CommandUi(PromptUiAction),
    ModeSet(RequestEditorMode),
    StateGet,
    EditorQuit,
    CommandExecute(Option<Seq<char>>),
}

impl View for RpcRequest {
    type V = RequestView;

    open spec fn view(&self) -> RequestView {
        match self {
            RpcRequest::EditorResize { cols, rows, suppress_frame } => RequestView::EditorResize {
                cols: *cols,
                rows: *rows,
                suppress_frame: *suppress_frame,
            },
            RpcRequest::FileOpen { path } => RequestView::FileOpen(path@),
            RpcRequest::FileSave => RequestView::FileSave,
            RpcRequest::FileSaveAs { path } => RequestView::FileSaveAs(path@),
            RpcRequest::TextInsert { text } => RequestView::TextInsert(text@),
            RpcRequest::TextDelete { kind } => RequestView::TextDelete(*kind),
            RpcRequest::LineBreak => RequestView::LineBreak,
            RpcRequest::CursorMove { direction } => RequestView::CursorMove(*direction),
            RpcRequest::CommandUi { action } => RequestView::CommandUi(*action),
            RpcRequest::ModeSet { mode } => RequestView::ModeSet(*mode),
            RpcRequest::StateGet => RequestView::StateGet,
            RpcRequest::EditorQuit => RequestView::EditorQuit,
            RpcRequest::CommandExecute { line } => RequestView::CommandExecute(
                if line.spec_provided() { Some(line.spec_text()) } else { None },
            ),
        }
    }
}

/// The command line of a `command_execute` request: given in the request, or taken
/// from the prompt the core holds.
pub struct CommandLine {
    line: String,
    provided: bool,
}

impl Clone for CommandLine {
    fn clone(&self) -> (r: Self)
        ensures
            r == *self,
    {
        CommandLine { line: self.line.clone(), provided: self.provided }
    }
}

impl CommandLine {
    pub closed spec fn spec_text(&self) -> Seq<char> {
        self.line@
    }

    pub closed spec fn spec_provided(&self) -> bool {
        self.provided
    }

    pub fn provided(line: String) -> (r: Self)
        ensures
            r.spec_provided(),
            r.spec_text() == line@,
    {
        Self { line, provided: true }
    }

    pub fn from_ui() -> (r: Self)
        ensures
            !r.spec_provided(),
            r.spec_text() == Seq::<char>::empty(),
    {
        Self { line: String::new(), provided: false }
    }

    pub fn provided_line(&self) -> (r: bool)
        ensures
            r == self.spec_provided(),
    {
        self.provided
    }

    pub fn text(&self) -> (r: &str)
        ensures
            r@ == self.spec_text(),
    {
        self.line.as_str()
    }
}

impl Default for CommandLine {
    fn default() -> (r: Self)
        ensures
            !r.spec_provided(),
            r.spec_text() == Seq::<char>::empty(),
    {
        Self::from_ui()
    }
}

/// Which character a delete removes.
#[derive(Debug, PartialEq, Eq, Structural, Clone, Copy)]
pub enum DeleteKind {
    Backspace,
    Under,
}

/// A cursor movement.
#[derive(Debug, PartialEq, Eq, Structural, Clone, Copy)]
pub enum MoveDirection {
    Left,
    Right,
    Up,
    Down,
    PageUp,
    PageDown,
    Home,
    End,
}

/// The mode a client asks the editor to enter.
#[derive(Debug, PartialEq, Eq, Structural, Clone, Copy)]
pub enum RequestEditorMode {
    Normal,
    Edit,
    Visual,
    PromptCommand,
    PromptKeymap,
}

/// One response of the editor core.
pub enum RpcResponse {
    Frame(Frame),
    Ack(Ack),
    Error { message: String },
}

/// What an acknowledgement confirms.
#[derive(Debug, PartialEq, Eq, Structural, Clone, Copy)]
pub enum AckKind {
    Open,
    Save,
    SaveAs,
}

/// Confirmation of a file operation.
#[derive(Debug, PartialEq)]
pub struct Ack {
    kind: AckKind,
    message: StatusMessage,
    file_path: FilePath,
}

impl Clone for Ack {
    fn clone(&self) -> (r: Self)
        ensures
            r == *self,
    {
        Ack { kind: self.kind, message: self.message.clone(), file_path: self.file_path.clone() }
    }
}

impl Ack {
    pub closed spec fn spec_kind(&self) -> AckKind {
        self.kind
    }

    pub closed spec fn spec_message(&self) -> StatusMessage {
        self.message
    }

    pub closed spec fn spec_path(&self) -> FilePath {
        self.file_path
    }

    pub fn new(kind: AckKind, message: StatusMessage, file_path: FilePath) -> (r: Self)
        ensures
            r.spec_kind() == kind,
            r.spec_message() == message,
            r.spec_path() == file_path,
    {
        Self { kind, message, file_path }
    }

    pub fn kind(&self) -> (r: AckKind)
        ensures
            r == self.spec_kind(),
    {
        self.kind
    }

    pub fn message(&self) -> (r: StatusMessage)
        ensures
            r == self.spec_message(),
    {
        self.message.clone()
    }

    pub fn path(&self) -> (r: FilePath)
        ensures
            r == self.spec_path(),
    {
        self.file_path.clone()
    }
}

} // verus!
