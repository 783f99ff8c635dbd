//! The editor mode and how requests move between modes.
use vstd::prelude::*;
use crate::protocol::path::FilePath;
use crate::protocol::rpc::RequestEditorMode;

verus! {

/// The modes the editor can be in.
#[derive(Debug, PartialEq, Eq, Structural, Clone, Copy)]
pub enum EditorModeState {
    Normal,
    Edit,
    Visual,
    PromptCommand,
    PromptKeymap,
}

/// The mode `requested` leads to from `current`: entering edit mode is refused
/// (the mode stays) when the document's file is read-only.
pub open spec fn mode_after(
    current: EditorModeState,
    requested: RequestEditorMode,
    path: Option<Seq<char>>,
    readonly: bool,
) -> EditorModeState {
    match requested {
        RequestEditorMode::Normal => EditorModeState::Normal,
        RequestEditorMode::Edit => match path {
            None => EditorModeState::Edit,
            Some(_) => if readonly { current } else { EditorModeState::Edit },
        },
        RequestEditorMode::Visual => EditorModeState::Visual,
        RequestEditorMode::PromptCommand => EditorModeState::PromptCommand,
        RequestEditorMode::PromptKeymap => EditorModeState::PromptKeymap,
    }
}

/// Whether a mode shows the prompt.
pub open spec fn is_prompt(m: EditorModeState) -> bool {
    m == EditorModeState::PromptCommand || m == EditorModeState::PromptKeymap
}

/// The current editor mode.
#[derive(Debug, PartialEq, Eq, Structural, Clone, Copy)]
pub struct EditorMode {
    current: EditorModeState,
}

/// Decides whether edit mode may be entered for a document.
struct FileEditGate {
    current: EditorModeState,
    provided: bool,
    readonly: bool,
}

impl FileEditGate {
    fn mode(&self) -> (r: EditorModeState)
        ensures
            r == if !self.provided {
                EditorModeState::Edit
            } else if self.readonly {
                self.current
            } else {
                EditorModeState::Edit
            },
    {
        if !self.provided {
            EditorModeState::Edit
        } else if self.readonly {
            self.current
        } else {
            EditorModeState::Edit
        }
    }
}

impl EditorMode {
    pub closed spec fn spec_mode(&self) -> EditorModeState {
        self.current
    }

    pub fn new() -> (r: Self)
        ensures
            r.spec_mode() == EditorModeState::Normal,
    {
        Self { current: EditorModeState::Normal }
    }

    pub fn mode(&self) -> (r: EditorModeState)
        ensures
            r == self.spec_mode(),
    {
        self.current
    }

    /// Whether the prompt (command or keymap) is open.
    pub fn prompt(&self) -> (r: bool)
        ensures
            r == is_prompt(self.spec_mode()),
    {
        match self.current {
            EditorModeState::PromptCommand | EditorModeState::PromptKeymap => true,
            _ => false,
        }
    }

    /// Whether the command prompt is open.
    pub fn prompt_command(&self) -> (r: bool)
        ensures
            r == (self.spec_mode() == EditorModeState::PromptCommand),
    {
        match self.current {
            EditorModeState::PromptCommand => true,
            _ => false,
        }
    }

    /// Moves to the `requested` mode; `readonly` tells whether the file at `path` is
    /// read-only, which keeps the editor out of edit mode.
    pub fn transition(&mut self, requested: RequestEditorMode, path: &FilePath, readonly: bool)
        ensures
            final(self).spec_mode() == mode_after(old(self).spec_mode(), requested, path@, readonly),
    {
        self.current = match requested {
            RequestEditorMode::Normal => EditorModeState::Normal,
            RequestEditorMode::Edit => {
                let provided = match path {
                    FilePath::Missing => false,
                    FilePath::Provided { .. } => true,
                };
                FileEditGate { current: self.current, provided, readonly }.mode()
            },
            RequestEditorMode::Visual => EditorModeState::Visual,
            RequestEditorMode::PromptCommand => EditorModeState::PromptCommand,
            RequestEditorMode::PromptKeymap => EditorModeState::PromptKeymap,
        };
    }
}

} // verus!
