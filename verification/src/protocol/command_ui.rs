//! The command prompt frame with a separate list focus: line, cursor, list and highlight.
use vstd::prelude::*;
use vstd::string::*;
use crate::protocol::prompt_ui::span_indices;

verus! {

/// A selected span of the command line, in characters.
#[derive(Debug, PartialEq, Eq, Structural, Clone, Copy)]
pub enum CommandLineSelection {
    Empty,
    Range { start: u16, end: u16 },
}

impl CommandLineSelection {
    pub fn range(start: u16, end: u16) -> (r: Self)
        ensures
            r == (CommandLineSelection::Range { start, end }),
    {
        Self::Range { start, end }
    }

    pub fn clear(&mut self)
        ensures
            *final(self) == CommandLineSelection::Empty,
    {
        *self = CommandLineSelection::Empty;
    }

    /// Every selected character index, in increasing order.
    pub fn indices(&self) -> (r: Vec<usize>)
        ensures
            match *self {
                CommandLineSelection::Empty => r@.len() == 0,
                CommandLineSelection::Range { start, end } => {
                    &&& r@.len() == if end > start { end - start } else { 0 }
                    &&& forall|k: int| 0 <= k < r@.len() ==> #[trigger] r@[k] == start + k
                },
            },
    {
        match self {
            CommandLineSelection::Empty => Vec::new(),
            CommandLineSelection::Range { start, end } => span_indices(*start, *end),
        }
    }
}

/// Which mode a command list entry belongs to.
#[derive(Debug, PartialEq, Eq, Structural, Clone, Copy)]
pub enum CommandListItemMode {
    Command,
    Normal,
    Edit,
    PromptCommand,
    PromptKeymap,
}

/// One entry of the command list.
#[derive(Debug)]
pub struct CommandListItemFrame {
    name: String,
    description: String,
    mode: CommandListItemMode,
}

impl Clone for CommandListItemFrame {
    fn clone(&self) -> (r: Self)
        ensures
            r == *self,
    {
        CommandListItemFrame {
            name: self.name.clone(),
            description: self.description.clone(),
            mode: self.mode,
        }
    }
}

impl CommandListItemFrame {
    pub closed spec fn spec_name(&self) -> Seq<char> {
        self.name@
    }

    pub closed spec fn spec_description(&self) -> Seq<char> {
        self.description@
    }

    pub closed spec fn spec_mode(&self) -> CommandListItemMode {
        self.mode
    }

    pub fn new(name: String, description: String, mode: CommandListItemMode) -> (r: Self)
        ensures
            r.spec_name() == name@,
            r.spec_description() == description@,
            r.spec_mode() == mode,
    {
        Self { name, description, mode }
    }

    pub fn label(&self) -> (r: &str)
        ensures
            r@ == self.spec_name(),
    {
        self.name.as_str()
    }

    pub fn detail(&self) -> (r: &str)
        ensures
            r@ == self.spec_description(),
    {
        self.description.as_str()
    }

    pub fn mode(&self) -> (r: CommandListItemMode)
        ensures
            r == self.spec_mode(),
    {
        self.mode
    }
}

/// The command prompt as a frame shows it.
pub struct CommandUiFrame {
    line: String,
    cursor_x: u16,
    line_selection: CommandLineSelection,
    focus_on_list: bool,
    list_items: Vec<CommandListItemFrame>,
    selected_index: Option<usize>,
    scroll_offset: usize,
}

impl CommandUiFrame {
    pub closed spec fn spec_line(&self) -> Seq<char> {
        self.line@
    }

    pub closed spec fn spec_cursor(&self) -> u16 {
        self.cursor_x
    }

    pub closed spec fn spec_line_selection(&self) -> CommandLineSelection {
        self.line_selection
    }

    pub closed spec fn spec_focus_on_list(&self) -> bool {
        self.focus_on_list
    }

    pub closed spec fn spec_items(&self) -> Seq<CommandListItemFrame> {
        self.list_items@
    }

    pub closed spec fn spec_selected(&self) -> Option<usize> {
        self.selected_index
    }

    pub closed spec fn spec_scroll(&self) -> usize {
        self.scroll_offset
    }

    pub fn new(
        line: String,
        cursor_x: u16,
        line_selection: CommandLineSelection,
        focus_on_list: bool,
        list_items: Vec<CommandListItemFrame>,
        selected_index: Option<usize>,
        scroll_offset: usize,
    ) -> (r: Self)
        ensures
            r.spec_line() == line@,
            r.spec_cursor() == cursor_x,
            r.spec_line_selection() == line_selection,
            r.spec_focus_on_list() == focus_on_list,
            r.spec_items() == list_items@,
            r.spec_selected() == selected_index,
            r.spec_scroll() == scroll_offset,
    {
        Self {
            line,
            cursor_x,
            line_selection,
            focus_on_list,
            list_items,
            selected_index,
            scroll_offset,
        }
    }

    pub fn command_text(&self) -> (r: &str)
        ensures
            r@ == self.spec_line(),
    {
        self.line.as_str()
    }

    pub fn cursor_column(&self) -> (r: u16)
        ensures
            r == self.spec_cursor(),
    {
        self.cursor_x
    }

    pub fn command_selection(&self) -> (r: CommandLineSelection)
        ensures
            r == self.spec_line_selection(),
    {
        self.line_selection
    }

    pub fn list_focus(&self) -> (r: bool)
        ensures
            r == self.spec_focus_on_list(),
    {
        self.focus_on_list
    }

    pub fn command_items(&self) -> (r: &[CommandListItemFrame])
        ensures
            r@ == self.spec_items(),
    {
        self.list_items.as_slice()
    }

    pub fn selected_item(&self) -> (r: Option<usize>)
        ensures
            r == self.spec_selected(),
    {
        self.selected_index
    }

    pub fn scroll_position(&self) -> (r: usize)
        ensures
            r == self.spec_scroll(),
    {
        self.scroll_offset
    }
}

/// An edit or navigation step in the command prompt.
#[derive(Debug, Clone, Copy)]
pub enum CommandUiAction {
    StartPrompt,
    Clear,
    InsertChar { ch: char },
    Backspace,
    Delete,
    MoveLeft,
    MoveRight,
    MoveHome,
    MoveEnd,
    MoveSelectionUp,
    MoveSelectionDown,
    SelectFromList,
}

} // verus!
