//! The command prompt with focus either on its line or on the command list below it.
use vstd::prelude::*;
use crate::engine::command_line::{CommandLine, as_line_selection};
use crate::engine::command_list::{CommandList, EntryView, command_table, filter_commands, item_view, lemma_filter_commands_len, scroll_adjusted, selected_of};
use crate::engine::prompt_input::{InputModel, input_backspace, input_delete, input_insert, len16};
use crate::engine::query::normalized_query;
use crate::engine::signal::{CommandScope, FrameSignal};
use crate::protocol::command_ui::{CommandListItemFrame, CommandListItemMode, CommandUiAction, CommandUiFrame};
use crate::protocol::prompt_ui::{PromptInputSelection, PromptListItemFrame, PromptListSelection, PromptMode};
use crate::text::{chars_equal, chars_of, extend_chars, string_from_chars};

verus! {

/// Everything the command prompt's behaviour depends on.
pub struct CommandUiModel {
    pub input: InputModel,
    pub focus_on_list: bool,
    pub selection: Option<usize>,
    pub scroll: usize,
}

/// The commands listed for the line of `m`.
pub open spec fn listed(m: CommandUiModel) -> Seq<EntryView> {
    filter_commands(command_table(), normalized_query(m.input.content), CommandScope::Normal)
}

/// The line became `input`: no entry highlighted, list at the top, focus on the line.
pub open spec fn line_edited(input: InputModel) -> CommandUiModel {
    CommandUiModel { input, focus_on_list: false, selection: None, scroll: 0 }
}

/// The cursor moved to `cursor` (selection dropped), focus on the line.
pub open spec fn cursor_placed(m: CommandUiModel, cursor: u16) -> CommandUiModel {
    CommandUiModel {
        input: InputModel { cursor, selection: PromptInputSelection::Empty, ..m.input },
        focus_on_list: false,
        ..m
    }
}

/// The highlight moved one entry up (`up`) or down, with the list scrolled to it.
pub open spec fn highlight_moved(m: CommandUiModel, up: bool, rows: usize) -> CommandUiModel {
    let count = listed(m).len();
    if count == 0 {
        CommandUiModel { focus_on_list: false, selection: None, scroll: 0, ..m }
    } else {
        let next: usize = match m.selection {
            None => if up { (count - 1) as usize } else { 0 },
            Some(cur) => if up && cur > 0 {
                (cur - 1) as usize
            } else if !up && cur < count - 1 {
                (cur + 1) as usize
            } else {
                cur
            },
        };
        CommandUiModel {
            focus_on_list: true,
            selection: Some(next),
            scroll: scroll_adjusted(Some(next), m.scroll, rows),
            ..m
        }
    }
}

/// The first position of an entry named `label` in `items`.
pub open spec fn label_index(items: Seq<EntryView>, label: Seq<char>) -> Option<usize>
    decreases items.len(),
{
    if items.len() == 0 {
        None
    } else {
        match label_index(items.drop_last(), label) {
            Some(k) => Some(k),
            None => if items.last().0 == label { Some((items.len() - 1) as usize) } else { None },
        }
    }
}

/// The highlighted command copied into the line as `:name`, highlighted again where
/// the new line still lists it.
pub open spec fn copied_from_list(m: CommandUiModel, rows: usize) -> CommandUiModel {
    let items = listed(m);
    if !m.focus_on_list || items.len() == 0 || m.selection is None {
        m
    } else {
        let sel = m.selection->0;
        let label = items[if sel < items.len() - 1 { sel as int } else { items.len() - 1 }].0;
        let line = seq![':'] + label;
        let m1 = CommandUiModel {
            input: InputModel { content: line, cursor: len16(line), selection: PromptInputSelection::Empty },
            focus_on_list: false,
            ..m
        };
        match label_index(listed(m1), label) {
            None => m1,
            Some(k) => CommandUiModel { selection: Some(k), scroll: scroll_adjusted(Some(k), m1.scroll, rows), ..m1 },
        }
    }
}

/// The prompt after `action`, with `rows` list rows on screen.
pub open spec fn command_ui_applied(m: CommandUiModel, action: CommandUiAction, rows: usize) -> CommandUiModel {
    match action {
        CommandUiAction::StartPrompt => line_edited(
            InputModel { content: seq![':'], cursor: 1, selection: PromptInputSelection::Empty },
        ),
        CommandUiAction::Clear => line_edited(
            InputModel { content: Seq::empty(), cursor: 0, selection: PromptInputSelection::Empty },
        ),
        CommandUiAction::InsertChar { ch } => line_edited(input_insert(m.input, ch)),
        CommandUiAction::Backspace => line_edited(input_backspace(m.input)),
        CommandUiAction::Delete => line_edited(input_delete(m.input)),
        CommandUiAction::MoveLeft => cursor_placed(m, if m.input.cursor > 0 { (m.input.cursor - 1) as u16 } else { 0 }),
        CommandUiAction::MoveRight => cursor_placed(
            m,
            if m.input.cursor < len16(m.input.content) { (m.input.cursor + 1) as u16 } else { m.input.cursor },
        ),
        CommandUiAction::MoveHome => cursor_placed(m, 0),
        CommandUiAction::MoveEnd => cursor_placed(m, len16(m.input.content)),
        CommandUiAction::MoveSelectionUp => highlight_moved(m, true, rows),
        CommandUiAction::MoveSelectionDown => highlight_moved(m, false, rows),
        CommandUiAction::SelectFromList => copied_from_list(m, rows),
    }
}

/// `label_index` finds the first entry named `label`, and finds one whenever there is one.
pub proof fn lemma_label_index(items: Seq<EntryView>, label: Seq<char>)
    requires
        items.len() <= usize::MAX,
    ensures
        match label_index(items, label) {
            Some(k) => k < items.len() && items[k as int].0 == label && forall|j: int|
                0 <= j < k ==> #[trigger] items[j].0 != label,
            None => forall|j: int| 0 <= j < items.len() ==> #[trigger] items[j].0 != label,
        },
    decreases items.len(),
{
    if items.len() > 0 {
        let d = items.drop_last();
        lemma_label_index(d, label);
        match label_index(d, label) {
            Some(k) => {
                assert(items[k as int] == d[k as int]);
                assert forall|j: int| 0 <= j < k implies #[trigger] items[j].0 != label by {
                    assert(items[j] == d[j]);
                }
            },
            None => {
                assert forall|j: int| 0 <= j < items.len() - 1 implies #[trigger] items[j].0 != label by {
                    assert(items[j] == d[j]);
                }
            },
        }
    }
}

/// Choosing from the list, with focus on the list and an entry highlighted, puts
/// `:name` of the highlighted command (the last one when the highlight is past the end)
/// into the line with the cursor at its end, and moves focus to the line. The command
/// is highlighted again at its first place in the list the new line shows, scrolled
/// into `rows` rows, when that list holds it. Without focus on the list, without a
/// highlight, or with nothing listed, nothing changes.
pub proof fn law_select_from_list(m: CommandUiModel, rows: usize)
    requires
        rows > 0,
    ensures
        ({
            let q = command_ui_applied(m, CommandUiAction::SelectFromList, rows);
            let items = listed(m);
            if !m.focus_on_list || items.len() == 0 || m.selection is None {
                q == m
            } else {
                let i = m.selection->0;
                let label = items[if i < items.len() - 1 { i as int } else { items.len() - 1 }].0;
                &&& q.input.content == seq![':'] + label
                &&& q.input.cursor == len16(seq![':'] + label)
                &&& q.input.selection == PromptInputSelection::Empty
                &&& !q.focus_on_list
                &&& (exists|k: int| 0 <= k < listed(q).len() && #[trigger] listed(q)[k].0 == label) ==> {
                    &&& q.selection matches Some(k) && k < listed(q).len() && listed(q)[k as int].0 == label
                    &&& forall|j: int| 0 <= j < q.selection->0 ==> #[trigger] listed(q)[j].0 != label
                    &&& q.scroll <= q.selection->0 < q.scroll + rows
                }
                &&& (forall|k: int| 0 <= k < listed(q).len() ==> #[trigger] listed(q)[k].0 != label) ==> {
                    &&& q.selection == m.selection
                    &&& q.scroll == m.scroll
                }
            }
        }),
{
    let items = listed(m);
    if m.focus_on_list && items.len() > 0 && m.selection is Some {
        let i = m.selection->0;
        let label = items[if i < items.len() - 1 { i as int } else { items.len() - 1 }].0;
        let line = seq![':'] + label;
        let m1 = CommandUiModel {
            input: InputModel { content: line, cursor: len16(line), selection: PromptInputSelection::Empty },
            focus_on_list: false,
            ..m
        };
        lemma_filter_commands_len(command_table(), normalized_query(line), CommandScope::Normal);
        assert(command_table().len() < 100);
        lemma_label_index(listed(m1), label);
        match label_index(listed(m1), label) {
            Some(k) => {
                assert(listed(m1)[k as int].0 == label);
            },
            None => {},
        }
    }
}

/// The frame's mode for an entry of the command list.
pub open spec fn frame_item_mode(mode: PromptMode) -> CommandListItemMode {
    match mode {
        PromptMode::Normal => CommandListItemMode::Normal,
        PromptMode::Edit => CommandListItemMode::Edit,
        PromptMode::PromptCommand => CommandListItemMode::PromptCommand,
        PromptMode::PromptKeymap => CommandListItemMode::PromptKeymap,
        _ => CommandListItemMode::Command,
    }
}

fn item_mode(mode: PromptMode) -> (r: CommandListItemMode)
    ensures
        r == frame_item_mode(mode),
{
    match mode {
        PromptMode::Normal => CommandListItemMode::Normal,
        PromptMode::Edit => CommandListItemMode::Edit,
        PromptMode::PromptCommand => CommandListItemMode::PromptCommand,
        PromptMode::PromptKeymap => CommandListItemMode::PromptKeymap,
        _ => CommandListItemMode::Command,
    }
}

/// The command prompt state.
pub struct CommandUiState {
    command_line: CommandLine,
    command_list: CommandList,
    focus_on_list: bool,
}

impl View for CommandUiState {
    type V = CommandUiModel;

    closed spec fn view(&self) -> CommandUiModel {
        CommandUiModel {
            input: self.command_line@,
            focus_on_list: self.focus_on_list,
            selection: selected_of(self.command_list.spec_selection()),
            scroll: self.command_list.spec_scroll(),
        }
    }
}

/// What the command prompt looked like before a request.
pub struct CommandUiSnapshot {
    command_text: Vec<char>,
    cursor_column: u16,
    focus_on_list: bool,
    selection: Option<usize>,
    scroll_offset: usize,
}

/// The five things a snapshot records.
pub open spec fn command_ui_look(m: CommandUiModel) -> (Seq<char>, u16, bool, Option<usize>, usize) {
    (m.input.content, m.input.cursor, m.focus_on_list, m.selection, m.scroll)
}

impl CommandUiSnapshot {
    pub closed spec fn spec_look(&self) -> (Seq<char>, u16, bool, Option<usize>, usize) {
        (self.command_text@, self.cursor_column, self.focus_on_list, self.selection, self.scroll_offset)
    }

    /// Skip the frame when the prompt looks as it did.
    pub fn frame_signal(&self, state: &CommandUiState) -> (r: FrameSignal)
        ensures
            r == if self.spec_look() == command_ui_look(state@) { FrameSignal::Skip } else { FrameSignal::Frame },
    {
        let text = chars_of(state.command_line.text().as_str());
        let same_text = chars_equal(self.command_text.as_slice(), text.as_slice());
        let same_cursor = self.cursor_column == state.command_line.cursor_column();
        let same_focus = self.focus_on_list == state.focus_on_list;
        let same_selection = self.selection == state.list_selection();
        let same_scroll = self.scroll_offset == state.command_list.scroll_position();
        if same_text && same_cursor && same_focus && same_selection && same_scroll {
            FrameSignal::Skip
        } else {
            FrameSignal::Frame
        }
    }
}

impl CommandUiState {
    pub fn new() -> (r: Self)
        ensures
            r@ == line_edited(InputModel { content: Seq::empty(), cursor: 0, selection: PromptInputSelection::Empty }),
    {
        Self { command_line: CommandLine::new(), command_list: CommandList::new(), focus_on_list: false }
    }

    /// Starts a command: the line holds `:`.
    pub fn start_prompt(&mut self)
        ensures
            final(self)@ == line_edited(InputModel { content: seq![':'], cursor: 1, selection: PromptInputSelection::Empty }),
    {
        self.command_line.start_prompt();
        self.command_list = self.command_list.reset_selection();
        self.focus_on_list = false;
    }

    /// Replaces the line.
    pub fn line_overwrite(&mut self, new_content: String)
        ensures
            final(self)@ == line_edited(
                InputModel { content: new_content@, cursor: len16(new_content@), selection: PromptInputSelection::Empty },
            ),
    {
        self.command_line.set_content(new_content);
        self.command_list = self.command_list.reset_selection();
        self.focus_on_list = false;
    }

    pub fn command_text(&self) -> (r: String)
        ensures
            r@ == self@.input.content,
    {
        self.command_line.text()
    }

    /// Empties the line.
    pub fn clear(&mut self)
        ensures
            final(self)@ == line_edited(InputModel { content: Seq::empty(), cursor: 0, selection: PromptInputSelection::Empty }),
    {
        self.command_line.clear();
        self.command_list = self.command_list.reset_selection();
        self.focus_on_list = false;
    }

    /// Scrolls the list so its highlighted entry fits in `visible_rows` rows.
    pub fn list_scroll_adjust(&mut self, visible_rows: usize)
        ensures
            final(self)@ == (CommandUiModel {
                scroll: scroll_adjusted(old(self)@.selection, old(self)@.scroll, visible_rows),
                ..old(self)@
            }),
    {
        self.command_list = self.command_list.adjust_scroll_for_visible_rows(visible_rows);
    }

    fn list_selection(&self) -> (r: Option<usize>)
        ensures
            r == self@.selection,
    {
        let index = self.command_list.selection().index();
        if index == usize::MAX { None } else { Some(index) }
    }

    fn matches(&self) -> (r: Vec<PromptListItemFrame>)
        ensures
            r@.map_values(|i: PromptListItemFrame| item_view(i)) == listed(self@),
    {
        let text = self.command_line.text();
        self.command_list.filter(text.as_str(), CommandScope::Normal)
    }

    fn highlight_move(&mut self, up: bool, list_rows: usize)
        ensures
            final(self)@ == highlight_moved(old(self)@, up, list_rows),
    {
        let count = self.matches().len();
        if count == 0 {
            self.command_list = self.command_list.reset_selection();
            self.focus_on_list = false;
            return;
        }
        self.focus_on_list = true;
        let next = match self.list_selection() {
            None => if up { count - 1 } else { 0 },
            Some(current) => if up && current > 0 {
                current - 1
            } else if !up && current < count - 1 {
                current + 1
            } else {
                current
            },
        };
        self.command_list = self.command_list.select_index(next);
        self.command_list = self.command_list.adjust_scroll_for_visible_rows(list_rows);
    }

    fn copy_from_list(&mut self, list_rows: usize)
        ensures
            final(self)@ == copied_from_list(old(self)@, list_rows),
    {
        let matches = self.matches();
        if !self.focus_on_list || matches.len() == 0 {
            return;
        }
        let selected = match self.list_selection() {
            None => {
                return;
            },
            Some(s) => s,
        };
        let last = matches.len() - 1;
        let index = if selected < last { selected } else { last };
        proof {
            assert(listed(self@)[index as int] == item_view(matches@[index as int]));
        }
        let label = chars_of(matches[index].label());
        let mut line_chars: Vec<char> = Vec::new();
        line_chars.push(':');
        extend_chars(&mut line_chars, label.as_slice());
        assert(line_chars@ =~= seq![':'] + label@);
        self.command_line.set_content(string_from_chars(line_chars.as_slice()));
        self.focus_on_list = false;
        let updated = self.matches();
        let ghost items = listed(self@);
        let mut found: Option<usize> = None;
        let mut idx: usize = 0;
        while idx < updated.len()
            invariant
                0 <= idx <= updated@.len(),
                updated@.map_values(|i: PromptListItemFrame| item_view(i)) == items,
                found == label_index(items.take(idx as int), label@),
                found matches Some(f) ==> f < idx,
            decreases updated@.len() - idx,
        {
            let candidate = chars_of(updated[idx].label());
            proof {
                assert(items[idx as int] == item_view(updated@[idx as int]));
                assert(items.take(idx + 1).drop_last() =~= items.take(idx as int));
            }
            if found.is_none() && chars_equal(candidate.as_slice(), label.as_slice()) {
                found = Some(idx);
            }
            idx += 1;
        }
        assert(items.take(idx as int) =~= items);
        let ghost m1 = CommandUiModel {
            input: InputModel {
                content: seq![':'] + label@,
                cursor: len16(seq![':'] + label@),
                selection: PromptInputSelection::Empty,
            },
            focus_on_list: false,
            ..old(self)@
        };
        assert(self@ == m1);
        match found {
            None => {},
            Some(k) => {
                self.command_list = self.command_list.select_index(k);
                self.command_list = self.command_list.adjust_scroll_for_visible_rows(list_rows);
            },
        }
    }

    /// Applies one action; `list_rows` is the number of list rows on screen.
    pub fn apply_action(&mut self, action: CommandUiAction, list_rows: usize)
        ensures
            final(self)@ == command_ui_applied(old(self)@, action, list_rows),
    {
        match action {
            CommandUiAction::StartPrompt => self.start_prompt(),
            CommandUiAction::Clear => self.clear(),
            CommandUiAction::InsertChar { ch } => {
                self.command_line.char_insert(ch);
                self.command_list = self.command_list.reset_selection();
                self.focus_on_list = false;
            },
            CommandUiAction::Backspace => {
                self.command_line.backspace();
                self.command_list = self.command_list.reset_selection();
                self.focus_on_list = false;
            },
            CommandUiAction::Delete => {
                self.command_line.delete();
                self.command_list = self.command_list.reset_selection();
                self.focus_on_list = false;
            },
            CommandUiAction::MoveLeft => {
                self.command_line.cursor_move_left();
                self.focus_on_list = false;
            },
            CommandUiAction::MoveRight => {
                self.command_line.cursor_move_right();
                self.focus_on_list = false;
            },
            CommandUiAction::MoveHome => {
                self.command_line.cursor_move_home();
                self.focus_on_list = false;
            },
            CommandUiAction::MoveEnd => {
                self.command_line.cursor_move_end();
                self.focus_on_list = false;
            },
            CommandUiAction::MoveSelectionUp => self.highlight_move(true, list_rows),
            CommandUiAction::MoveSelectionDown => self.highlight_move(false, list_rows),
            CommandUiAction::SelectFromList => self.copy_from_list(list_rows),
        }
    }

    /// What the prompt looks like now, to compare with after a request.
    pub fn snapshot(&self) -> (r: CommandUiSnapshot)
        ensures
            r.spec_look() == command_ui_look(self@),
    {
        CommandUiSnapshot {
            command_text: chars_of(self.command_line.text().as_str()),
            cursor_column: self.command_line.cursor_column(),
            focus_on_list: self.focus_on_list,
            selection: self.list_selection(),
            scroll_offset: self.command_list.scroll_position(),
        }
    }

    /// The frame: line, cursor, selection, focus, the listed commands, the highlighted
    /// entry (kept within the list) and the scroll position.
    pub fn frame(&self) -> (r: CommandUiFrame)
        ensures
            r.spec_line() == self@.input.content,
            r.spec_cursor() == self@.input.cursor,
            r.spec_line_selection() == as_line_selection(self@.input.selection),
            r.spec_focus_on_list() == self@.focus_on_list,
            r.spec_items().len() == listed(self@).len(),
            forall|k: int|
                0 <= k < listed(self@).len() ==> {
                    &&& (#[trigger] r.spec_items()[k]).spec_name() == listed(self@)[k].0
                    &&& r.spec_items()[k].spec_description() == listed(self@)[k].1
                    &&& r.spec_items()[k].spec_mode() == frame_item_mode(listed(self@)[k].2)
                },
            r.spec_selected() == match self@.selection {
                None => None,
                Some(i) => if listed(self@).len() == 0 {
                    None
                } else {
                    Some(if i < listed(self@).len() - 1 { i } else { (listed(self@).len() - 1) as usize })
                },
            },
            r.spec_scroll() == self@.scroll,
    {
        let matches = self.matches();
        let selected_index = match self.list_selection() {
            None => None,
            Some(idx) => if matches.len() == 0 {
                None
            } else {
                let last = matches.len() - 1;
                Some(if idx < last { idx } else { last })
            },
        };
        let ghost items = listed(self@);
        let mut list_items: Vec<CommandListItemFrame> = Vec::new();
        let mut k: usize = 0;
        while k < matches.len()
            invariant
                0 <= k <= matches@.len(),
                matches@.map_values(|i: PromptListItemFrame| item_view(i)) == items,
                list_items@.len() == k,
                forall|j: int|
                    0 <= j < k ==> {
                        &&& (#[trigger] list_items@[j]).spec_name() == items[j].0
                        &&& list_items@[j].spec_description() == items[j].1
                        &&& list_items@[j].spec_mode() == frame_item_mode(items[j].2)
                    },
            decreases matches@.len() - k,
        {
            proof {
                assert(items[k as int] == item_view(matches@[k as int]));
            }
            let entry = &matches[k];
            list_items.push(
                CommandListItemFrame::new(
                    string_from_chars(chars_of(entry.label()).as_slice()),
                    string_from_chars(chars_of(entry.detail()).as_slice()),
                    item_mode(entry.mode()),
                ),
            );
            k += 1;
        }
        CommandUiFrame::new(
            self.command_line.text(),
            self.command_line.cursor_column(),
            self.command_line.selection(),
            self.focus_on_list,
            list_items,
            selected_index,
            self.command_list.scroll_position(),
        )
    }
}

impl Default for CommandUiState {
    fn default() -> (r: Self)
        ensures
            r@ == line_edited(InputModel { content: Seq::empty(), cursor: 0, selection: PromptInputSelection::Empty }),
    {
        Self::new()
    }
}

} // verus!
