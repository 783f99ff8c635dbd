//! The prompt: its edit line, which list it shows (commands or key bindings), the
//! highlighted entry, focus, and the command history.
use vstd::prelude::*;
use vstd::string::*;
use crate::engine::command_list::{CommandList, EntryView, command_table, filter_commands, item_view, lemma_filter_commands_len, scroll_adjusted, selected_of};
use crate::engine::completion::{CommandCompletion, DirectoryListing, PathCompletionRequest, completed_line};
use crate::engine::history::{CommandHistory, HistoryModel, HistoryWrite, recalled_next, recalled_previous, recorded_entry, showing};
use crate::engine::keymap_list::{KeymapList, KeymapView, filter_keymaps, keymap_item, keymap_table, lemma_filter_keymaps_len};
use crate::engine::mode::{EditorMode, mode_after};
use crate::engine::placeholder::{PromptInputPlaceholder, placeholder_bytes};
use crate::engine::prompt_input::{InputModel, PromptInput, input_backspace, input_delete, input_insert, len16};
use crate::engine::query::normalized_query;
use crate::engine::signal::{CommandScope, FrameSignal};
use crate::protocol::path::FilePath;
use crate::protocol::prompt_ui::{PromptInputSelection, PromptListItemFrame, PromptListSelection, PromptUiAction, PromptUiFrame};
use crate::protocol::rpc::RequestEditorMode;
use crate::text::{chars_of, string_from_chars};

verus! {

/// Which list the prompt shows.
#[derive(Debug, PartialEq, Eq, Structural, Clone, Copy)]
pub enum PromptKind {
    Command,
    Keymap,
}

/// Everything the prompt's behaviour depends on.
pub struct PromptModel {
    pub input: InputModel,
    pub line_focus: bool,
    pub cmd_sel: usize,
    pub cmd_scroll: usize,
    pub key_sel: Option<usize>,
    pub key_scroll: usize,
    pub history: HistoryModel,
    pub kind: PromptKind,
    pub scope: CommandScope,
}

/// A command-list index as an optional selection (`usize::MAX` is none).
pub open spec fn opt_of(idx: usize) -> Option<usize> {
    if idx == usize::MAX { None } else { Some(idx) }
}

/// The highlighted entry of the list shown.
pub open spec fn list_selection(m: PromptModel) -> Option<usize> {
    match m.kind {
        PromptKind::Command => opt_of(m.cmd_sel),
        PromptKind::Keymap => m.key_sel,
    }
}

/// The scroll position of the list shown.
pub open spec fn list_scroll(m: PromptModel) -> usize {
    match m.kind {
        PromptKind::Command => m.cmd_scroll,
        PromptKind::Keymap => m.key_scroll,
    }
}

/// The entries the list shows for the current line, as list items.
pub open spec fn list_items(m: PromptModel) -> Seq<(Seq<char>, Seq<char>, crate::protocol::prompt_ui::PromptMode)> {
    match m.kind {
        PromptKind::Command => filter_commands(command_table(), normalized_query(m.input.content), m.scope),
        PromptKind::Keymap => filter_keymaps(keymap_table(), normalized_query(m.input.content)).map_values(
            |e: KeymapView| keymap_item(e),
        ),
    }
}

/// No entry highlighted, list scrolled to the top.
pub open spec fn list_reset(m: PromptModel) -> PromptModel {
    match m.kind {
        PromptKind::Command => PromptModel { cmd_sel: usize::MAX, cmd_scroll: 0, ..m },
        PromptKind::Keymap => PromptModel { key_sel: None, key_scroll: 0, ..m },
    }
}

/// No entry highlighted.
pub open spec fn list_cleared(m: PromptModel) -> PromptModel {
    match m.kind {
        PromptKind::Command => PromptModel { cmd_sel: usize::MAX, ..m },
        PromptKind::Keymap => PromptModel { key_sel: None, ..m },
    }
}

/// Entry `i` highlighted.
pub open spec fn list_selected(m: PromptModel, i: usize) -> PromptModel {
    match m.kind {
        PromptKind::Command => PromptModel { cmd_sel: i, ..m },
        PromptKind::Keymap => PromptModel { key_sel: Some(i), ..m },
    }
}

/// The list scrolled so the highlighted entry fits in `rows` rows.
pub open spec fn list_scrolled(m: PromptModel, rows: usize) -> PromptModel {
    match m.kind {
        PromptKind::Command => PromptModel { cmd_scroll: scroll_adjusted(opt_of(m.cmd_sel), m.cmd_scroll, rows), ..m },
        PromptKind::Keymap => PromptModel { key_scroll: scroll_adjusted(m.key_sel, m.key_scroll, rows), ..m },
    }
}

/// History navigation back at the line being typed.
pub open spec fn nav_reset(h: HistoryModel) -> HistoryModel {
    HistoryModel { cursor: None, draft: None, ..h }
}

/// The prompt switched to list `target` (nothing happens when it already shows it).
pub open spec fn kind_changed(m: PromptModel, target: PromptKind) -> PromptModel {
    if m.kind == target {
        m
    } else {
        let m2 = PromptModel { kind: target, ..m };
        PromptModel { line_focus: true, history: nav_reset(m.history), ..list_reset(m2) }
    }
}

/// A line starting with `;` shows key bindings, one starting with `:` commands.
pub open spec fn prefix_switched(m: PromptModel) -> PromptModel {
    if m.input.content.len() > 0 && m.input.content[0] == ';' {
        kind_changed(m, PromptKind::Keymap)
    } else if m.input.content.len() > 0 && m.input.content[0] == ':' {
        kind_changed(m, PromptKind::Command)
    } else {
        m
    }
}

/// After the line was edited: list reset, focus on the line, history back at the line,
/// list chosen by the line's first character.
pub open spec fn after_edit(m: PromptModel) -> PromptModel {
    let r = list_reset(m);
    prefix_switched(PromptModel { line_focus: true, history: nav_reset(m.history), ..r })
}

/// The command prompt opened for `scope`.
pub open spec fn command_prompt(m: PromptModel, scope: CommandScope) -> PromptModel {
    PromptModel {
        kind: PromptKind::Command,
        scope,
        input: InputModel { content: seq![':'], cursor: 1, selection: PromptInputSelection::Empty },
        cmd_sel: usize::MAX,
        cmd_scroll: 0,
        line_focus: true,
        history: nav_reset(m.history),
        ..m
    }
}

/// The keymap prompt opened.
pub open spec fn keymap_prompt(m: PromptModel) -> PromptModel {
    PromptModel {
        kind: PromptKind::Keymap,
        input: InputModel { content: seq![';'], cursor: 1, selection: PromptInputSelection::Empty },
        key_sel: None,
        key_scroll: 0,
        line_focus: true,
        history: nav_reset(m.history),
        ..m
    }
}

/// The prompt emptied.
pub open spec fn cleared(m: PromptModel) -> PromptModel {
    let r = list_reset(m);
    PromptModel {
        input: InputModel { content: Seq::empty(), cursor: 0, selection: PromptInputSelection::Empty },
        line_focus: true,
        history: nav_reset(m.history),
        ..r
    }
}

/// The highlight moved one entry up (`up`) or down, focus moved to the list.
pub open spec fn selection_moved(m: PromptModel, up: bool, rows: usize) -> PromptModel {
    let count = list_items(m).len();
    if count == 0 {
        PromptModel { line_focus: true, ..list_reset(m) }
    } else {
        let m1 = PromptModel { line_focus: false, ..m };
        let m2 = match list_selection(m) {
            None => if up { list_selected(m1, (count - 1) as usize) } else { list_selected(m1, 0) },
            Some(cur) => if up && cur > 0 {
                list_selected(m1, (cur - 1) as usize)
            } else if !up && cur < count - 1 {
                list_selected(m1, (cur + 1) as usize)
            } else {
                m1
            },
        };
        list_scrolled(m2, rows)
    }
}

/// The line `:name` for command `name`, with its placeholder selected.
pub open spec fn selected_line(name: Seq<char>) -> Seq<char> {
    seq![':'] + name
}

/// The selection of a line's placeholder.
pub open spec fn placeholder_selection(line: Seq<char>) -> PromptInputSelection {
    match placeholder_bytes(line) {
        None => PromptInputSelection::Empty,
        Some((s, e)) => PromptInputSelection::Range { start: s, end: e },
    }
}

/// The input after `set_content_with_selection(line, sel)`.
pub open spec fn input_with_selection(line: Seq<char>, sel: PromptInputSelection) -> InputModel {
    let start = match sel {
        PromptInputSelection::Empty => len16(line),
        PromptInputSelection::Range { start, .. } => start,
    };
    InputModel { content: line, cursor: if start < len16(line) { start } else { len16(line) }, selection: sel }
}

/// The label of the highlighted entry (the last one when the highlight is past the end).
pub open spec fn chosen_label(m: PromptModel) -> Seq<char> {
    let items = list_items(m);
    let sel = list_selection(m)->0;
    let idx = if sel < items.len() - 1 { sel as int } else { items.len() - 1 };
    items[idx].0
}

/// The highlighted command copied into the line (from the list, in the command prompt).
pub open spec fn selected_from_list(m: PromptModel, rows: usize) -> PromptModel {
    let items = list_items(m);
    if m.kind == PromptKind::Keymap || m.line_focus || items.len() == 0 || list_selection(m) is None {
        m
    } else {
        let label = chosen_label(m);
        let m2 = prefix_switched(PromptModel {
            input: input_with_selection(selected_line(label), placeholder_selection(selected_line(label))),
            line_focus: true,
            history: nav_reset(m.history),
            ..m
        });
        let found = exists|k: int| 0 <= k < list_items(m2).len() && #[trigger] list_items(m2)[k].0 == label;
        let m3 = if found { list_scrolled(m2, rows) } else { m2 };
        list_cleared(m3)
    }
}

/// The prompt after `action`; `rows` is the number of list rows on screen. Completion
/// (`Complete`) changes the line separately, see `PromptUiState::complete_path`.
pub open spec fn action_applied(m: PromptModel, action: PromptUiAction, rows: usize) -> PromptModel {
    match action {
        PromptUiAction::StartPrompt => command_prompt(m, CommandScope::Normal),
        PromptUiAction::Clear => cleared(m),
        PromptUiAction::InsertChar { ch } => after_edit(PromptModel { input: input_insert(m.input, ch), ..m }),
        PromptUiAction::Backspace => after_edit(PromptModel { input: input_backspace(m.input), ..m }),
        PromptUiAction::Delete => after_edit(PromptModel { input: input_delete(m.input), ..m }),
        PromptUiAction::MoveLeft => PromptModel {
            input: InputModel {
                cursor: if m.input.cursor > 0 { (m.input.cursor - 1) as u16 } else { 0 },
                selection: PromptInputSelection::Empty,
                ..m.input
            },
            line_focus: true,
            ..m
        },
        PromptUiAction::MoveRight => PromptModel {
            input: InputModel {
                cursor: if m.input.cursor < len16(m.input.content) { (m.input.cursor + 1) as u16 } else { m.input.cursor },
                selection: PromptInputSelection::Empty,
                ..m.input
            },
            line_focus: true,
            ..m
        },
        PromptUiAction::MoveHome => PromptModel {
            input: InputModel { cursor: 0, selection: PromptInputSelection::Empty, ..m.input },
            line_focus: true,
            ..m
        },
        PromptUiAction::MoveEnd => PromptModel {
            input: InputModel { cursor: len16(m.input.content), selection: PromptInputSelection::Empty, ..m.input },
            line_focus: true,
            ..m
        },
        PromptUiAction::Complete => after_edit(m),
        PromptUiAction::FocusPrompt => list_cleared(PromptModel { line_focus: true, ..m }),
        PromptUiAction::HistoryPrevious => if m.kind != PromptKind::Command {
            m
        } else if m.line_focus {
            let (h, i) = recalled_previous(m.history, m.input);
            prefix_switched(PromptModel { line_focus: true, ..list_reset(PromptModel { history: h, input: i, ..m }) })
        } else {
            selection_moved(m, true, rows)
        },
        PromptUiAction::HistoryNext => if m.kind != PromptKind::Command {
            m
        } else if m.line_focus {
            let (h, i) = recalled_next(m.history, m.input);
            prefix_switched(PromptModel { line_focus: true, ..list_reset(PromptModel { history: h, input: i, ..m }) })
        } else {
            selection_moved(m, false, rows)
        },
        PromptUiAction::MoveSelectionUp => selection_moved(m, true, rows),
        PromptUiAction::MoveSelectionDown => selection_moved(m, false, rows),
        PromptUiAction::SelectFromList => selected_from_list(m, rows),
    }
}

/// The prompt frame for model `m`.
pub open spec fn frame_selected(m: PromptModel) -> Option<usize> {
    let n = list_items(m).len();
    match list_selection(m) {
        None => None,
        Some(i) => if n == 0 { None } else { Some(if i < n - 1 { i } else { (n - 1) as usize }) },
    }
}

/// Whether `f` draws prompt `m`: its line, focus, cursor and selection, the listed
/// entries, the highlighted entry (kept within the list) and the scroll position.
pub open spec fn shows_prompt(f: PromptUiFrame, m: PromptModel) -> bool {
    &&& f.spec_line() == m.input.content
    &&& f.spec_line_focus() == m.line_focus
    &&& f.spec_cursor() == m.input.cursor
    &&& f.spec_line_selection() == m.input.selection
    &&& f.spec_items().map_values(|i: PromptListItemFrame| item_view(i)) == list_items(m)
    &&& f.spec_selection().spec_index() == match frame_selected(m) {
        None => usize::MAX,
        Some(i) => i,
    }
    &&& f.spec_scroll() == list_scroll(m)
}

/// The lines waiting for the history file after `line` was executed in prompt `p`:
/// its entry joins them when the prompt shows commands and the history has a file.
pub open spec fn queued_after(
    queue: Seq<Seq<char>>,
    p: PromptModel,
    file: Option<Seq<char>>,
    line: Seq<char>,
) -> Seq<Seq<char>> {
    if p.kind == PromptKind::Command && recorded_entry(line) is Some && file is Some {
        queue.push(recorded_entry(line)->0)
    } else {
        queue
    }
}

/// The prompt after a command line was recorded in the history (command prompt only).
pub open spec fn remembered(p: PromptModel, line: Seq<char>) -> PromptModel {
    if p.kind == PromptKind::Command {
        PromptModel {
            history: match recorded_entry(line) {
                None => p.history,
                Some(e) => HistoryModel { entries: p.history.entries.push(e), cursor: None, draft: None },
            },
            ..p
        }
    } else {
        p
    }
}

/// Recalling the history right after a command was recorded shows that command: the
/// entry it was recorded as.
pub proof fn law_recall_shows_last_recorded(p: PromptModel, line: Seq<char>, rows: usize)
    requires
        p.kind == PromptKind::Command,
        p.line_focus,
        recorded_entry(line) is Some,
    ensures
        action_applied(remembered(p, line), PromptUiAction::HistoryPrevious, rows).input.content
            == recorded_entry(line)->0,
{
}

/// Recalling the previous entry and then the next one brings back the line being typed
/// (with the cursor at its end), when the entry recalled keeps the command prompt open
/// (it does not start with `;`).
pub proof fn law_recall_round_trip(p: PromptModel, rows: usize)
    requires
        p.kind == PromptKind::Command,
        p.line_focus,
        p.history.cursor is None,
        0 < p.history.entries.len() <= usize::MAX,
        p.history.entries.last().len() == 0 || p.history.entries.last()[0] != ';',
    ensures
        action_applied(
            action_applied(p, PromptUiAction::HistoryPrevious, rows),
            PromptUiAction::HistoryNext,
            rows,
        ).input == showing(p.input.content),
{
    let (h, i) = recalled_previous(p.history, p.input);
    let q = PromptModel { line_focus: true, ..list_reset(PromptModel { history: h, input: i, ..p }) };
    let m1 = action_applied(p, PromptUiAction::HistoryPrevious, rows);
    assert(m1 == prefix_switched(q));
    assert(q.kind == PromptKind::Command);
    assert(m1.kind == PromptKind::Command);
    assert(m1.line_focus);
    assert(m1.history.cursor == h.cursor && m1.history.draft == h.draft && m1.history.entries == h.entries);
    let (h2, i2) = recalled_next(m1.history, m1.input);
    assert(i2 == showing(p.input.content));
}

/// After typing or deleting in the prompt, a line starting with `;` shows the key
/// bindings, one starting with `:` the commands, and any other line keeps the list.
pub proof fn law_line_prefix_picks_list(p: PromptModel, action: PromptUiAction, rows: usize)
    requires
        action is InsertChar || action is Backspace || action is Delete,
    ensures
        ({
            let n = action_applied(p, action, rows);
            &&& (n.input.content.len() > 0 && n.input.content[0] == ';') ==> n.kind == PromptKind::Keymap
            &&& (n.input.content.len() > 0 && n.input.content[0] == ':') ==> n.kind == PromptKind::Command
            &&& !(n.input.content.len() > 0 && (n.input.content[0] == ';' || n.input.content[0] == ':'))
                ==> n.kind == p.kind
        }),
{
}

/// The entry a selection move highlights among `n` entries: moving down from nothing
/// picks the first, moving up from nothing the last; otherwise one step, stopping at
/// either end.
pub open spec fn moved_target(sel: Option<usize>, up: bool, n: int) -> int {
    match sel {
        None => if up { n - 1 } else { 0 },
        Some(i) => if up {
            if i > 0 { i - 1 } else { 0 }
        } else {
            if i + 1 < n { i + 1 } else { n - 1 }
        },
    }
}

/// Moving the list highlight up or down keeps the line and the list shown. With no
/// entry listed, the highlight clears, the list scrolls to the top and focus stays on
/// the line. Otherwise focus moves to the list, the highlight moves as `moved_target`
/// says, and the list scrolls as little as it must to show it within `rows` rows.
pub proof fn law_selection_move(p: PromptModel, up: bool, rows: usize)
    requires
        rows > 0,
        list_selection(p) matches Some(i) ==> i < list_items(p).len(),
    ensures
        ({
            let n = list_items(p).len() as int;
            let action = if up { PromptUiAction::MoveSelectionUp } else { PromptUiAction::MoveSelectionDown };
            let q = action_applied(p, action, rows);
            let t = moved_target(list_selection(p), up, n);
            let s0 = list_scroll(p) as int;
            let s1 = list_scroll(q) as int;
            &&& q.input == p.input
            &&& q.kind == p.kind
            &&& list_items(q) == list_items(p)
            &&& n == 0 ==> list_selection(q) is None && s1 == 0 && q.line_focus
            &&& n > 0 ==> {
                &&& !q.line_focus
                &&& list_selection(q) == Some(t as usize)
                &&& s1 <= t < s1 + rows
                &&& (s0 <= t < s0 + rows ==> s1 == s0)
                &&& (t < s0 ==> s1 == t)
                &&& (t >= s0 + rows ==> s1 == t - rows + 1)
            }
        }),
{
    lemma_filter_commands_len(command_table(), normalized_query(p.input.content), p.scope);
    lemma_filter_keymaps_len(keymap_table(), normalized_query(p.input.content));
    assert(command_table().len() < 100);
    assert(keymap_table().len() < 100);
}

/// What the prompt looked like before a request.
pub struct CommandUiSnapshot {
    command_text: Vec<char>,
    cursor_column: u16,
    line_selection: PromptInputSelection,
    focus_on_list: bool,
    selection: Option<usize>,
    scroll_offset: usize,
}

/// What the prompt looks like now.
pub struct CommandUiView {
    text: Vec<char>,
    cursor: u16,
    selection: PromptInputSelection,
    line_focus: bool,
    selection_index: Option<usize>,
    scroll_offset: usize,
}

/// The six things a prompt snapshot records.
pub open spec fn prompt_look(m: PromptModel) -> (Seq<char>, u16, PromptInputSelection, bool, Option<usize>, usize) {
    (m.input.content, m.input.cursor, m.input.selection, m.line_focus, list_selection(m), list_scroll(m))
}

impl CommandUiView {
    pub closed spec fn spec_look(&self) -> (Seq<char>, u16, PromptInputSelection, bool, Option<usize>, usize) {
        (self.text@, self.cursor, self.selection, self.line_focus, self.selection_index, self.scroll_offset)
    }

    pub fn new(state: &PromptUiState) -> (r: Self)
        ensures
            r.spec_look() == prompt_look(state@),
    {
        Self {
            text: crate::text::copy_range(state.line.chars(), 0, state.line.chars().len()),
            cursor: state.line.cursor_column(),
            selection: state.line.selection(),
            line_focus: state.line_focus,
            selection_index: state.list_selection(),
            scroll_offset: state.list_scroll_position(),
        }
    }
}

impl CommandUiSnapshot {
    pub closed spec fn spec_look(&self) -> (Seq<char>, u16, PromptInputSelection, bool, Option<usize>, usize) {
        (self.command_text@, self.cursor_column, self.line_selection, self.focus_on_list, self.selection, self.scroll_offset)
    }

    pub fn new(
        command_text: String,
        cursor_column: u16,
        line_selection: PromptInputSelection,
        focus_on_list: bool,
        selection: Option<usize>,
        scroll_offset: usize,
    ) -> (r: Self)
        ensures
            r.spec_look() == (command_text@, cursor_column, line_selection, focus_on_list, selection, scroll_offset),
    {
        Self {
            command_text: chars_of(command_text.as_str()),
            cursor_column,
            line_selection,
            focus_on_list,
            selection,
            scroll_offset,
        }
    }

    /// Skip the frame when the prompt looks the same.
    pub fn frame_signal(&self, view: &CommandUiView) -> (r: FrameSignal)
        ensures
            r == if self.spec_look() == view.spec_look() { FrameSignal::Skip } else { FrameSignal::Frame },
    {
        let same_text = crate::text::chars_equal(self.command_text.as_slice(), view.text.as_slice());
        let same_cursor = self.cursor_column == view.cursor;
        let same_line_selection = self.line_selection == view.selection;
        let same_focus = self.focus_on_list == view.line_focus;
        let same_selection = self.selection == view.selection_index;
        let same_scroll = self.scroll_offset == view.scroll_offset;
        if same_text && same_cursor && same_line_selection && same_focus && same_selection && same_scroll {
            FrameSignal::Skip
        } else {
            FrameSignal::Frame
        }
    }
}

/// The prompt state.
pub struct PromptUiState {
    line: PromptInput,
    line_focus: bool,
    list_command: CommandList,
    list_keymap: KeymapList,
    history_command: CommandHistory,
    prompt_kind: PromptKind,
    command_scope: CommandScope,
}

impl View for PromptUiState {
    type V = PromptModel;

    closed spec fn view(&self) -> PromptModel {
        PromptModel {
            input: self.line@,
            line_focus: self.line_focus,
            cmd_sel: self.list_command.spec_selection().spec_index(),
            cmd_scroll: self.list_command.spec_scroll(),
            key_sel: self.list_keymap.spec_selected(),
            key_scroll: self.list_keymap.spec_scroll(),
            history: self.history_command@,
            kind: self.prompt_kind,
            scope: self.command_scope,
        }
    }
}

/// The initial prompt model, given its history.
pub open spec fn initial_prompt(history: HistoryModel) -> PromptModel {
    PromptModel {
        input: InputModel { content: Seq::empty(), cursor: 0, selection: PromptInputSelection::Empty },
        line_focus: true,
        cmd_sel: usize::MAX,
        cmd_scroll: 0,
        key_sel: None,
        key_scroll: 0,
        history,
        kind: PromptKind::Command,
        scope: CommandScope::Normal,
    }
}

impl PromptUiState {
    pub closed spec fn spec_history_path(&self) -> Option<Seq<char>> {
        self.history_command.spec_store().spec_path()
    }

    /// The directory holding the history file, when there is one.
    pub closed spec fn spec_history_directory(&self) -> Option<Seq<char>> {
        self.history_command.spec_store().spec_directory()
    }

    /// The recorded lines waiting to be written to the history file, oldest first.
    pub closed spec fn spec_history_queue(&self) -> Seq<Seq<char>> {
        self.history_command.spec_store().spec_pending()
    }

    /// A prompt with an empty history kept nowhere.
    pub fn new() -> (r: Self)
        ensures
            r@ == initial_prompt(HistoryModel { entries: Seq::empty(), cursor: None, draft: None }),
            r.spec_history_path() is None,
            r.spec_history_queue().len() == 0,
    {
        Self::with_history(CommandHistory::new())
    }

    /// A prompt using `history`.
    pub fn with_history(history: CommandHistory) -> (r: Self)
        ensures
            r@ == initial_prompt(history@),
            r.spec_history_path() == history.spec_store().spec_path(),
            r.spec_history_directory() == history.spec_store().spec_directory(),
            r.spec_history_queue() == history.spec_store().spec_pending(),
    {
        Self {
            line: PromptInput::new(),
            line_focus: true,
            list_command: CommandList::new(),
            list_keymap: KeymapList::new(),
            history_command: history,
            prompt_kind: PromptKind::Command,
            command_scope: CommandScope::Normal,
        }
    }

    /// Opens the command prompt for buffer commands.
    pub fn prompt_command(&mut self)
        ensures
            final(self)@ == command_prompt(old(self)@, CommandScope::Normal),
            final(self).spec_history_path() == old(self).spec_history_path(),
            final(self).spec_history_directory() == old(self).spec_history_directory(),
            final(self).spec_history_queue() == old(self).spec_history_queue(),
    {
        self.prompt_command_for(CommandScope::Normal);
    }

    /// Opens the command prompt for the commands of `scope`.
    pub fn prompt_command_for(&mut self, scope: CommandScope)
        ensures
            final(self)@ == command_prompt(old(self)@, scope),
            final(self).spec_history_path() == old(self).spec_history_path(),
            final(self).spec_history_directory() == old(self).spec_history_directory(),
            final(self).spec_history_queue() == old(self).spec_history_queue(),
    {
        self.prompt_kind = PromptKind::Command;
        self.command_scope = scope;
        self.line.start_prompt(':');
        self.list_command = self.list_command.reset_selection();
        self.line_focus = true;
        self.history_command.reset_navigation();
    }

    /// Opens the keymap prompt.
    pub fn prompt_keymap(&mut self)
        ensures
            final(self)@ == keymap_prompt(old(self)@),
            final(self).spec_history_path() == old(self).spec_history_path(),
            final(self).spec_history_directory() == old(self).spec_history_directory(),
            final(self).spec_history_queue() == old(self).spec_history_queue(),
    {
        self.prompt_kind = PromptKind::Keymap;
        self.line.start_prompt(';');
        self.list_keymap.reset_selection();
        self.line_focus = true;
        self.history_command.reset_navigation();
    }

    /// Replaces the line (as typed input).
    pub fn line_overwrite(&mut self, new_content: String)
        ensures
            final(self)@ == after_edit(PromptModel {
                input: InputModel {
                    content: new_content@,
                    cursor: len16(new_content@),
                    selection: PromptInputSelection::Empty,
                },
                ..old(self)@
            }),
            final(self).spec_history_path() == old(self).spec_history_path(),
            final(self).spec_history_directory() == old(self).spec_history_directory(),
            final(self).spec_history_queue() == old(self).spec_history_queue(),
    {
        self.line.set_content(new_content);
        self.list_reset();
        self.line_focus = true;
        self.history_command.reset_navigation();
        self.prefix_switch();
    }

    pub fn command_text(&self) -> (r: String)
        ensures
            r@ == self@.input.content,
    {
        self.line.text()
    }

    /// The history file, when the history is kept in one.
    pub fn history(&self) -> (r: FilePath)
        ensures
            r@ == self.spec_history_path(),
    {
        self.history_command.file()
    }

    /// Hands out the commands recorded since the last call, to be appended to the history file.
    pub fn take_history_writes(&mut self) -> (r: Vec<HistoryWrite>)
        ensures
            final(self)@ == old(self)@,
            final(self).spec_history_path() == old(self).spec_history_path(),
            final(self).spec_history_directory() == old(self).spec_history_directory(),
            r@.map_values(|w: HistoryWrite| w.line@) == old(self).spec_history_queue(),
            forall|i: int|
                0 <= i < r@.len() ==> old(self).spec_history_path() == Some((#[trigger] r@[i]).path@)
                    && old(self).spec_history_directory() == Some(r@[i].directory@),
            final(self).spec_history_queue().len() == 0,
    {
        self.history_command.take_pending_writes()
    }

    pub fn line_selection(&self) -> (r: PromptInputSelection)
        ensures
            r == self@.input.selection,
    {
        self.line.selection()
    }

    /// Empties the prompt.
    pub fn clear(&mut self)
        ensures
            final(self)@ == cleared(old(self)@),
            final(self).spec_history_path() == old(self).spec_history_path(),
            final(self).spec_history_directory() == old(self).spec_history_directory(),
            final(self).spec_history_queue() == old(self).spec_history_queue(),
    {
        self.line.clear();
        self.list_reset();
        self.line_focus = true;
        self.history_command.reset_navigation();
    }

    /// Puts `editor_mode` into the mode of the prompt shown (`readonly` as for `transition`).
    pub fn prompt_mode_sync(&self, editor_mode: &mut EditorMode, path: &FilePath, readonly: bool)
        ensures
            final(editor_mode).spec_mode() == mode_after(
                old(editor_mode).spec_mode(),
                if self@.kind == PromptKind::Command {
                    RequestEditorMode::PromptCommand
                } else {
                    RequestEditorMode::PromptKeymap
                },
                path@,
                readonly,
            ),
    {
        let requested = match self.prompt_kind {
            PromptKind::Command => RequestEditorMode::PromptCommand,
            PromptKind::Keymap => RequestEditorMode::PromptKeymap,
        };
        editor_mode.transition(requested, path, readonly);
    }

    /// Scrolls the list so its highlighted entry fits in `visible_rows` rows.
    pub fn list_scroll_adjust(&mut self, visible_rows: usize)
        ensures
            final(self)@ == list_scrolled(old(self)@, visible_rows),
            final(self).spec_history_path() == old(self).spec_history_path(),
            final(self).spec_history_directory() == old(self).spec_history_directory(),
            final(self).spec_history_queue() == old(self).spec_history_queue(),
    {
        self.list_scroll_reconcile(visible_rows);
    }

    /// The path completion the line asks for: the directory to list, if the line is
    /// an open command with the cursor at its end.
    pub fn completion_request(&self, working_dir: String) -> (r: Option<PathCompletionRequest>)
        ensures
            match crate::engine::completion::completion_target(self@.input.content, self@.input.cursor) {
                None => r is None,
                Some((_, path)) => r matches Some(q) && q.spec_parts()
                    == crate::engine::completion::completion_request(working_dir@, path),
            },
    {
        let completion = CommandCompletion::new(self.line.text(), self.line.cursor_column());
        completion.request(working_dir)
    }

    /// Completes the path in the line against `listing`, the listing of the directory
    /// `completion_request` named.
    pub fn complete_path(&mut self, working_dir: String, listing: &DirectoryListing)
        ensures
            final(self)@ == (PromptModel {
                input: completed_line(
                    old(self)@.input,
                    old(self)@.input.content,
                    old(self)@.input.cursor,
                    working_dir@,
                    listing.spec_entries(),
                ),
                ..old(self)@
            }),
            final(self).spec_history_path() == old(self).spec_history_path(),
            final(self).spec_history_directory() == old(self).spec_history_directory(),
            final(self).spec_history_queue() == old(self).spec_history_queue(),
    {
        let completion = CommandCompletion::new(self.line.text(), self.line.cursor_column());
        completion.apply(&mut self.line, working_dir, listing);
    }

    /// Applies one prompt action; `list_rows` is the number of list rows on screen.
    #[verifier::rlimit(50)]
    pub fn apply_action(&mut self, action: PromptUiAction, list_rows: usize)
        ensures
            final(self)@ == action_applied(old(self)@, action, list_rows),
            final(self).spec_history_path() == old(self).spec_history_path(),
            final(self).spec_history_directory() == old(self).spec_history_directory(),
            final(self).spec_history_queue() == old(self).spec_history_queue(),
    {
        match action {
            PromptUiAction::StartPrompt => {
                self.prompt_command();
            },
            PromptUiAction::Clear => {
                self.clear();
            },
            PromptUiAction::InsertChar { ch } => {
                self.line.char_insert(ch);
                self.after_edit();
            },
            PromptUiAction::Backspace => {
                self.line.backspace();
                self.after_edit();
            },
            PromptUiAction::Delete => {
                self.line.delete();
                self.after_edit();
            },
            PromptUiAction::MoveLeft => {
                self.line.cursor_move_left();
                self.line_focus = true;
            },
            PromptUiAction::MoveRight => {
                self.line.cursor_move_right();
                self.line_focus = true;
            },
            PromptUiAction::MoveHome => {
                self.line.cursor_move_home();
                self.line_focus = true;
            },
            PromptUiAction::MoveEnd => {
                self.line.cursor_move_end();
                self.line_focus = true;
            },
            PromptUiAction::Complete => {
                self.after_edit();
            },
            PromptUiAction::FocusPrompt => {
                self.line_focus = true;
                self.list_selection_clear();
            },
            PromptUiAction::HistoryPrevious => {
                if self.prompt_kind == PromptKind::Command {
                    if self.line_focus {
                        self.history_command.recall_previous(&mut self.line);
                        self.list_reset();
                        self.line_focus = true;
                        self.prefix_switch();
                    } else {
                        self.move_selection(true, list_rows);
                    }
                }
            },
            PromptUiAction::HistoryNext => {
                if self.prompt_kind == PromptKind::Command {
                    if self.line_focus {
                        self.history_command.recall_next(&mut self.line);
                        self.list_reset();
                        self.line_focus = true;
                        self.prefix_switch();
                    } else {
                        self.move_selection(false, list_rows);
                    }
                }
            },
            PromptUiAction::MoveSelectionUp => {
                self.move_selection(true, list_rows);
            },
            PromptUiAction::MoveSelectionDown => {
                self.move_selection(false, list_rows);
            },
            PromptUiAction::SelectFromList => {
                self.select_from_list(list_rows);
            },
        }
    }

    fn after_edit(&mut self)
        ensures
            final(self)@ == after_edit(old(self)@),
            final(self).spec_history_path() == old(self).spec_history_path(),
            final(self).spec_history_directory() == old(self).spec_history_directory(),
            final(self).spec_history_queue() == old(self).spec_history_queue(),
    {
        self.list_reset();
        self.line_focus = true;
        self.history_command.reset_navigation();
        self.prefix_switch();
    }

    fn select_from_list(&mut self, list_rows: usize)
        ensures
            final(self)@ == selected_from_list(old(self)@, list_rows),
            final(self).spec_history_path() == old(self).spec_history_path(),
            final(self).spec_history_directory() == old(self).spec_history_directory(),
            final(self).spec_history_queue() == old(self).spec_history_queue(),
    {
        if self.prompt_kind == PromptKind::Keymap {
            return;
        }
        let matches = self.list_filter();
        if self.line_focus || matches.len() == 0 {
            return;
        }
        let selected = match self.list_selection() {
            None => {
                return;
            },
            Some(s) => s,
        };
        let last = matches.len() - 1;
        let index = if selected < last { selected } else { last };
        let entry_label = chars_of(matches[index].label());
        let mut line_chars: Vec<char> = Vec::new();
        line_chars.push(':');
        crate::text::extend_chars(&mut line_chars, entry_label.as_slice());
        assert(line_chars@ =~= selected_line(entry_label@));
        let line = string_from_chars(line_chars.as_slice());
        let placeholder = PromptInputPlaceholder;
        let selection = placeholder.selection_for(line.as_str());
        self.line.set_content_with_selection(line, selection);
        self.line_focus = true;
        self.history_command.reset_navigation();
        self.prefix_switch();
        let ghost label = chosen_label(old(self)@);
        assert(entry_label@ == label);
        assert(self@ == prefix_switched(PromptModel {
            input: input_with_selection(selected_line(label), placeholder_selection(selected_line(label))),
            line_focus: true,
            history: nav_reset(old(self)@.history),
            ..old(self)@
        }));
        let updated_matches = self.list_filter();
        let mut found = false;
        let mut idx: usize = 0;
        while idx < updated_matches.len()
            invariant
                0 <= idx <= updated_matches@.len(),
                updated_matches@.map_values(|i: PromptListItemFrame| item_view(i)) == list_items(self@),
                found == exists|k: int| 0 <= k < idx && #[trigger] list_items(self@)[k].0 == entry_label@,
            decreases updated_matches@.len() - idx,
        {
            let candidate = chars_of(updated_matches[idx].label());
            let is_match = crate::text::chars_equal(candidate.as_slice(), entry_label.as_slice());
            proof {
                assert(list_items(self@)[idx as int] == item_view(updated_matches@[idx as int]));
                assert(list_items(self@)[idx as int].0 == candidate@);
                if !found && !is_match {
                    assert forall|k: int| 0 <= k < idx + 1 implies #[trigger] list_items(self@)[k].0 != entry_label@ by {
                        if k == idx {
                        }
                    }
                }
            }
            found = found || is_match;
            idx += 1;
        }
        if found {
            self.list_scroll_adjust(list_rows);
        }
        self.list_selection_clear();
    }

    fn move_selection(&mut self, up: bool, list_rows: usize)
        ensures
            final(self)@ == selection_moved(old(self)@, up, list_rows),
            final(self).spec_history_path() == old(self).spec_history_path(),
            final(self).spec_history_directory() == old(self).spec_history_directory(),
            final(self).spec_history_queue() == old(self).spec_history_queue(),
    {
        let match_count = self.list_filter().len();
        if match_count == 0 {
            self.list_reset();
            self.line_focus = true;
            return;
        }
        self.line_focus = false;
        match self.list_selection() {
            None => {
                if up {
                    self.list_select_index(match_count - 1);
                } else {
                    self.list_select_index(0);
                }
            },
            Some(current_index) => {
                let max_index = match_count - 1;
                if up && current_index > 0 {
                    self.list_select_index(current_index - 1);
                } else if !up && current_index < max_index {
                    self.list_select_index(current_index + 1);
                }
            },
        }
        self.list_scroll_reconcile(list_rows);
    }

    fn prefix_switch(&mut self)
        ensures
            final(self)@ == prefix_switched(old(self)@),
            final(self).spec_history_path() == old(self).spec_history_path(),
            final(self).spec_history_directory() == old(self).spec_history_directory(),
            final(self).spec_history_queue() == old(self).spec_history_queue(),
    {
        let chars = self.line.chars();
        if chars.len() > 0 && chars[0] == ';' {
            self.prompt_kind_change(PromptKind::Keymap);
        } else if chars.len() > 0 && chars[0] == ':' {
            self.prompt_kind_change(PromptKind::Command);
        }
    }

    fn prompt_kind_change(&mut self, target: PromptKind)
        ensures
            final(self)@ == kind_changed(old(self)@, target),
            final(self).spec_history_path() == old(self).spec_history_path(),
            final(self).spec_history_directory() == old(self).spec_history_directory(),
            final(self).spec_history_queue() == old(self).spec_history_queue(),
    {
        if self.prompt_kind == target {
            return;
        }
        self.prompt_kind = target;
        self.list_reset();
        self.line_focus = true;
        self.history_command.reset_navigation();
    }

    /// Records an executed command line in the history (command prompt only).
    pub fn remember_command(&mut self, line: &str)
        ensures
            final(self)@ == remembered(old(self)@, line@),
            final(self).spec_history_path() == old(self).spec_history_path(),
            final(self).spec_history_directory() == old(self).spec_history_directory(),
            final(self).spec_history_queue() == queued_after(
                old(self).spec_history_queue(),
                old(self)@,
                old(self).spec_history_path(),
                line@,
            ),
    {
        if self.prompt_kind == PromptKind::Command {
            self.history_command.record(line);
        }
    }

    /// What the prompt looks like now, to compare with after a request.
    pub fn snapshot(&self) -> (r: CommandUiSnapshot)
        ensures
            r.spec_look() == prompt_look(self@),
    {
        CommandUiSnapshot::new(
            self.line.text(),
            self.line.cursor_column(),
            self.line.selection(),
            self.line_focus,
            self.list_selection(),
            self.list_scroll_position(),
        )
    }

    pub fn ui_view(&self) -> (r: CommandUiView)
        ensures
            r.spec_look() == prompt_look(self@),
    {
        CommandUiView::new(self)
    }

    /// The prompt frame: line, focus, cursor, selection, the listed entries, the
    /// highlighted entry (kept within the list) and the scroll position.
    pub fn frame(&self) -> (r: PromptUiFrame)
        ensures
            shows_prompt(r, self@),
    {
        let matches = self.list_filter();
        let selected_index = match self.list_selection() {
            None => PromptListSelection::empty(),
            Some(idx) => if matches.len() == 0 {
                PromptListSelection::empty()
            } else {
                let last = matches.len() - 1;
                PromptListSelection::at(if idx < last { idx } else { last })
            },
        };
        PromptUiFrame::new(
            self.line.text(),
            self.line_focus,
            self.line.cursor_column(),
            self.line.selection(),
            matches,
            selected_index,
            self.list_scroll_position(),
        )
    }

    fn list_filter(&self) -> (r: Vec<PromptListItemFrame>)
        ensures
            r@.map_values(|i: PromptListItemFrame| item_view(i)) == list_items(self@),
    {
        let text = self.line.text();
        match self.prompt_kind {
            PromptKind::Command => self.list_command.filter(text.as_str(), self.command_scope),
            PromptKind::Keymap => self.list_keymap.filter(text.as_str()),
        }
    }

    fn list_reset(&mut self)
        ensures
            final(self)@ == list_reset(old(self)@),
            final(self).spec_history_path() == old(self).spec_history_path(),
            final(self).spec_history_directory() == old(self).spec_history_directory(),
            final(self).spec_history_queue() == old(self).spec_history_queue(),
    {
        match self.prompt_kind {
            PromptKind::Command => {
                self.list_command = self.list_command.reset_selection();
            },
            PromptKind::Keymap => self.list_keymap.reset_selection(),
        }
    }

    fn list_selection(&self) -> (r: Option<usize>)
        ensures
            r == list_selection(self@),
    {
        match self.prompt_kind {
            PromptKind::Command => {
                let index = self.list_command.selection().index();
                if index == usize::MAX { None } else { Some(index) }
            },
            PromptKind::Keymap => self.list_keymap.selection(),
        }
    }

    fn list_selection_clear(&mut self)
        ensures
            final(self)@ == list_cleared(old(self)@),
            final(self).spec_history_path() == old(self).spec_history_path(),
            final(self).spec_history_directory() == old(self).spec_history_directory(),
            final(self).spec_history_queue() == old(self).spec_history_queue(),
    {
        match self.prompt_kind {
            PromptKind::Command => {
                self.list_command = self.list_command.selection_clear();
            },
            PromptKind::Keymap => self.list_keymap.selection_clear(),
        }
    }

    fn list_scroll_position(&self) -> (r: usize)
        ensures
            r == list_scroll(self@),
    {
        match self.prompt_kind {
            PromptKind::Command => self.list_command.scroll_position(),
            PromptKind::Keymap => self.list_keymap.scroll_position(),
        }
    }

    fn list_select_index(&mut self, new_index: usize)
        ensures
            final(self)@ == list_selected(old(self)@, new_index),
            final(self).spec_history_path() == old(self).spec_history_path(),
            final(self).spec_history_directory() == old(self).spec_history_directory(),
            final(self).spec_history_queue() == old(self).spec_history_queue(),
    {
        match self.prompt_kind {
            PromptKind::Command => {
                self.list_command = self.list_command.select_index(new_index);
            },
            PromptKind::Keymap => self.list_keymap.select_index(new_index),
        }
    }

    fn list_scroll_reconcile(&mut self, visible_rows: usize)
        ensures
            final(self)@ == list_scrolled(old(self)@, visible_rows),
            final(self).spec_history_path() == old(self).spec_history_path(),
            final(self).spec_history_directory() == old(self).spec_history_directory(),
            final(self).spec_history_queue() == old(self).spec_history_queue(),
    {
        match self.prompt_kind {
            PromptKind::Command => {
                self.list_command = self.list_command.adjust_scroll_for_visible_rows(visible_rows);
            },
            PromptKind::Keymap => self.list_keymap.adjust_scroll_for_visible_rows(visible_rows),
        }
    }
}

impl Default for PromptUiState {
    fn default() -> (r: Self)
        ensures
            r@ == initial_prompt(HistoryModel { entries: Seq::empty(), cursor: None, draft: None }),
    {
        Self::new()
    }
}

} // verus!
