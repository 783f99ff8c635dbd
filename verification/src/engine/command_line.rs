//! The command line of the list-focus command prompt: a prompt line with `:` prefix and
//! command-line selections.
use vstd::prelude::*;
use crate::engine::prompt_input::{InputModel, PromptInput, input_backspace, input_delete, input_insert, len16};
use crate::protocol::command_ui::CommandLineSelection;
use crate::protocol::prompt_ui::PromptInputSelection;

verus! {

/// A command-line selection as a prompt selection.
pub open spec fn as_input_selection(s: CommandLineSelection) -> PromptInputSelection {
    match s {
        CommandLineSelection::Empty => PromptInputSelection::Empty,
        CommandLineSelection::Range { start, end } => PromptInputSelection::Range { start, end },
    }
}

/// A prompt selection as a command-line selection.
pub open spec fn as_line_selection(s: PromptInputSelection) -> CommandLineSelection {
    match s {
        PromptInputSelection::Empty => CommandLineSelection::Empty,
        PromptInputSelection::Range { start, end } => CommandLineSelection::Range { start, end },
    }
}

fn to_input_selection(s: CommandLineSelection) -> (r: PromptInputSelection)
    ensures
        r == as_input_selection(s),
{
    match s {
        CommandLineSelection::Empty => PromptInputSelection::Empty,
        CommandLineSelection::Range { start, end } => PromptInputSelection::Range { start, end },
    }
}

fn to_line_selection(s: PromptInputSelection) -> (r: CommandLineSelection)
    ensures
        r == as_line_selection(s),
{
    match s {
        PromptInputSelection::Empty => CommandLineSelection::Empty,
        PromptInputSelection::Range { start, end } => CommandLineSelection::Range { start, end },
    }
}

/// The command line.
pub struct CommandLine {
    input: PromptInput,
}

impl View for CommandLine {
    type V = InputModel;

    closed spec fn view(&self) -> InputModel {
        self.input@
    }
}

impl CommandLine {
    pub fn new() -> (r: Self)
        ensures
            r@ == (InputModel {
                content: Seq::empty(),
                cursor: 0,
                selection: PromptInputSelection::Empty,
            }),
    {
        Self { input: PromptInput::new() }
    }

    /// Starts a command: the line holds `:` and the cursor follows it.
    pub fn start_prompt(&mut self)
        ensures
            final(self)@ == (InputModel {
                content: seq![':'],
                cursor: 1,
                selection: PromptInputSelection::Empty,
            }),
    {
        self.input.start_prompt(':');
    }

    pub fn clear(&mut self)
        ensures
            final(self)@ == (InputModel {
                content: Seq::empty(),
                cursor: 0,
                selection: PromptInputSelection::Empty,
            }),
    {
        self.input.clear();
    }

    pub fn set_content(&mut self, new_content: String)
        ensures
            final(self)@ == (InputModel {
                content: new_content@,
                cursor: len16(new_content@),
                selection: PromptInputSelection::Empty,
            }),
    {
        self.input.set_content(new_content);
    }

    pub fn set_content_with_selection(&mut self, new_content: String, selection: CommandLineSelection)
        ensures
            ({
                let start = match selection {
                    CommandLineSelection::Empty => len16(new_content@),
                    CommandLineSelection::Range { start, .. } => start,
                };
                final(self)@ == (InputModel {
                    content: new_content@,
                    cursor: if start < len16(new_content@) { start } else { len16(new_content@) },
                    selection: as_input_selection(selection),
                })
            }),
    {
        self.input.set_content_with_selection(new_content, to_input_selection(selection));
    }

    pub fn text(&self) -> (r: String)
        ensures
            r@ == self@.content,
    {
        self.input.text()
    }

    pub fn cursor_column(&self) -> (r: u16)
        ensures
            r == self@.cursor,
    {
        self.input.cursor_column()
    }

    pub fn selection(&self) -> (r: CommandLineSelection)
        ensures
            r == as_line_selection(self@.selection),
    {
        to_line_selection(self.input.selection())
    }

    pub fn backspace(&mut self)
        ensures
            final(self)@ == input_backspace(old(self)@),
    {
        self.input.backspace();
    }

    pub fn delete(&mut self)
        ensures
            final(self)@ == input_delete(old(self)@),
    {
        self.input.delete();
    }

    pub fn cursor_move_left(&mut self)
        ensures
            final(self)@ == (InputModel {
                cursor: if old(self)@.cursor > 0 { (old(self)@.cursor - 1) as u16 } else { 0 },
                selection: PromptInputSelection::Empty,
                ..old(self)@
            }),
    {
        self.input.cursor_move_left();
    }

    pub fn cursor_move_right(&mut self)
        ensures
            final(self)@ == (InputModel {
                cursor: if old(self)@.cursor < len16(old(self)@.content) {
                    (old(self)@.cursor + 1) as u16
                } else {
                    old(self)@.cursor
                },
                selection: PromptInputSelection::Empty,
                ..old(self)@
            }),
    {
        self.input.cursor_move_right();
    }

    pub fn cursor_move_home(&mut self)
        ensures
            final(self)@ == (InputModel {
                cursor: 0,
                selection: PromptInputSelection::Empty,
                ..old(self)@
            }),
    {
        self.input.cursor_move_home();
    }

    pub fn cursor_move_end(&mut self)
        ensures
            final(self)@ == (InputModel {
                cursor: len16(old(self)@.content),
                selection: PromptInputSelection::Empty,
                ..old(self)@
            }),
    {
        self.input.cursor_move_end();
    }

    pub fn char_insert(&mut self, ch: char)
        ensures
            final(self)@ == input_insert(old(self)@, ch),
    {
        self.input.char_insert(ch);
    }
}

} // verus!
