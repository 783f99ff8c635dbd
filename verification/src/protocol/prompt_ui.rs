//! What the prompt (command line or keymap search) looks like in a frame.
use vstd::prelude::*;
use vstd::string::*;

verus! {

/// The highlighted list entry; `usize::MAX` stands for no entry.
#[derive(Debug, PartialEq, Eq, Structural, Clone, Copy)]
pub struct PromptListSelection {
    index: usize,
}

impl PromptListSelection {
    pub closed spec fn spec_index(&self) -> usize {
        self.index
    }

    pub fn empty() -> (r: Self)
        ensures
            r.spec_index() == usize::MAX,
    {
        Self { index: usize::MAX }
    }

    pub fn at(index: usize) -> (r: Self)
        ensures
            r.spec_index() == index,
    {
        Self { index }
    }

    pub fn index(&self) -> (r: usize)
        ensures
            r == self.spec_index(),
    {
        self.index
    }

    /// The selection kept inside a list of `max` entries: nothing for an empty list or
    /// no selection, otherwise the index moved down to the last entry at most.
    pub fn clamped(&self, max: usize) -> (r: Self)
        ensures
            (max == 0 || self.spec_index() == usize::MAX) ==> r.spec_index() == usize::MAX,
            !(max == 0 || self.spec_index() == usize::MAX) ==> r.spec_index() == (if self.spec_index()
                < max - 1 {
                self.spec_index()
            } else {
                (max - 1) as usize
            }),
    {
        if max == 0 || self.index == usize::MAX {
            return Self::empty();
        }
        let last = max - 1;
        Self::at(if self.index < last { self.index } else { last })
    }

    /// Whether row `row_index` of a list scrolled by `scroll_offset` shows the selection.
    pub fn selected_row(&self, scroll_offset: usize, row_index: usize) -> (r: bool)
        ensures
            r == (self.spec_index() != usize::MAX && self.spec_index() as int == (if scroll_offset
                + row_index > usize::MAX {
                usize::MAX as int
            } else {
                scroll_offset + row_index
            })),
    {
        let target = if scroll_offset > usize::MAX - row_index {
            usize::MAX
        } else {
            scroll_offset + row_index
        };
        self.index != usize::MAX && self.index == target
    }
}

/// A selected span of the prompt input, in characters.
#[derive(Debug, PartialEq, Eq, Structural, Clone, Copy)]
pub enum PromptInputSelection {
    Empty,
    Range { start: u16, end: u16 },
}

impl PromptInputSelection {
    pub fn range(start: u16, end: u16) -> (r: Self)
        ensures
            r == (PromptInputSelection::Range { start, end }),
    {
        Self::Range { start, end }
    }

    pub fn clear(&mut self)
        ensures
            *final(self) == PromptInputSelection::Empty,
    {
        *self = PromptInputSelection::Empty;
    }

    /// Every selected character index, in increasing order.
    pub fn indices(&self) -> (r: Vec<usize>)
        ensures
            match *self {
                PromptInputSelection::Empty => r@.len() == 0,
                PromptInputSelection::Range { start, end } => {
                    &&& r@.len() == if end > start { end - start } else { 0 }
                    &&& forall|k: int| 0 <= k < r@.len() ==> #[trigger] r@[k] == start + k
                },
            },
    {
        match self {
            PromptInputSelection::Empty => Vec::new(),
            PromptInputSelection::Range { start, end } => span_indices(*start, *end),
        }
    }
}

/// `start..max(start, end)` as a vector.
pub fn span_indices(start: u16, end: u16) -> (r: Vec<usize>)
    ensures
        r@.len() == if end > start { end - start } else { 0 },
        forall|k: int| 0 <= k < r@.len() ==> #[trigger] r@[k] == start + k,
{
    let mut indices: Vec<usize> = Vec::new();
    let mut idx: usize = start as usize;
    let stop: usize = if end > start { end as usize } else { start as usize };
    while idx < stop
        invariant
            start <= idx <= stop,
            stop == if end > start { end as usize } else { start as usize },
            indices@.len() == idx - start,
            forall|k: int| 0 <= k < indices@.len() ==> #[trigger] indices@[k] == start + k,
        decreases stop - idx,
    {
        indices.push(idx);
        idx = idx + 1;
    }
    indices
}

/// Which mode a list entry belongs to.
#[derive(Debug, PartialEq, Eq, Structural, Clone, Copy)]
pub enum PromptMode {
    Command,
    Normal,
    Edit,
    Visual,
    PromptCommand,
    PromptKeymap,
}

/// One entry of the prompt list.
#[derive(Debug)]
pub struct PromptListItemFrame {
    name: String,
    description: String,
    mode: PromptMode,
}

impl Clone for PromptListItemFrame {
    fn clone(&self) -> (r: Self)
        ensures
            r == *self,
    {
        PromptListItemFrame {
            name: self.name.clone(),
            description: self.description.clone(),
            mode: self.mode,
        }
    }
}

impl PromptListItemFrame {
    pub closed spec fn spec_name(&self) -> Seq<char> {
        self.name@
    }

    pub closed spec fn spec_description(&self) -> Seq<char> {
        self.description@
    }

    pub closed spec fn spec_mode(&self) -> PromptMode {
        self.mode
    }

    pub fn new(name: String, description: String, mode: PromptMode) -> (r: Self)
        ensures
            r.spec_name() == name@,
            r.spec_description() == description@,
            r.spec_mode() == mode,
    {
        Self { name, description, mode }
    }

    pub fn label(&self) -> (r: &str)
        ensures
            r@ == self.spec_name(),
    {
        self.name.as_str()
    }

    pub fn detail(&self) -> (r: &str)
        ensures
            r@ == self.spec_description(),
    {
        self.description.as_str()
    }

    pub fn mode(&self) -> (r: PromptMode)
        ensures
            r == self.spec_mode(),
    {
        self.mode
    }
}

/// The prompt as a frame shows it.
pub struct PromptUiFrame {
    line: String,
    cursor_x: u16,
    line_selection: PromptInputSelection,
    line_focus: bool,
    list_items: Vec<PromptListItemFrame>,
    selected_index: PromptListSelection,
    scroll_offset: usize,
}

impl Clone for PromptUiFrame {
    fn clone(&self) -> (r: Self)
        ensures
            r.same_as(*self),
    {
        let items = clone_items(&self.list_items);
        PromptUiFrame {
            line: self.line.clone(),
            cursor_x: self.cursor_x,
            line_selection: self.line_selection,
            line_focus: self.line_focus,
            list_items: items,
            selected_index: self.selected_index,
            scroll_offset: self.scroll_offset,
        }
    }
}

/// An element-wise copy of a list of entries.
pub fn clone_items(items: &Vec<PromptListItemFrame>) -> (r: Vec<PromptListItemFrame>)
    ensures
        r@ == items@,
{
    let mut out: Vec<PromptListItemFrame> = Vec::new();
    let mut i: usize = 0;
    while i < items.len()
        invariant
            0 <= i <= items@.len(),
            out@ == items@.take(i as int),
        decreases items@.len() - i,
    {
        out.push(items[i].clone());
        i += 1;
        assert(out@ =~= items@.take(i as int));
    }
    assert(items@.take(items@.len() as int) =~= items@);
    out
}

impl PromptUiFrame {
    /// Equality of everything a frame shows.
    pub open spec fn same_as(&self, other: PromptUiFrame) -> bool {
        &&& self.spec_line() == other.spec_line()
        &&& self.spec_cursor() == other.spec_cursor()
        &&& self.spec_line_selection() == other.spec_line_selection()
        &&& self.spec_line_focus() == other.spec_line_focus()
        &&& self.spec_items() == other.spec_items()
        &&& self.spec_selection() == other.spec_selection()
        &&& self.spec_scroll() == other.spec_scroll()
    }

    pub closed spec fn spec_line(&self) -> Seq<char> {
        self.line@
    }

    pub closed spec fn spec_cursor(&self) -> u16 {
        self.cursor_x
    }

    pub closed spec fn spec_line_selection(&self) -> PromptInputSelection {
        self.line_selection
    }

    pub closed spec fn spec_line_focus(&self) -> bool {
        self.line_focus
    }

    pub closed spec fn spec_items(&self) -> Seq<PromptListItemFrame> {
        self.list_items@
    }

    pub closed spec fn spec_selection(&self) -> PromptListSelection {
        self.selected_index
    }

    pub closed spec fn spec_scroll(&self) -> usize {
        self.scroll_offset
    }

    pub fn new(
        line: String,
        line_focus: bool,
        cursor_x: u16,
        line_selection: PromptInputSelection,
        list_items: Vec<PromptListItemFrame>,
        selected_index: PromptListSelection,
        scroll_offset: usize,
    ) -> (r: Self)
        ensures
            r.spec_line() == line@,
            r.spec_line_focus() == line_focus,
            r.spec_cursor() == cursor_x,
            r.spec_line_selection() == line_selection,
            r.spec_items() == list_items@,
            r.spec_selection() == selected_index,
            r.spec_scroll() == scroll_offset,
    {
        Self { line, line_focus, cursor_x, line_selection, list_items, selected_index, scroll_offset }
    }

    pub fn empty() -> (r: Self)
        ensures
            r.spec_line() == Seq::<char>::empty(),
            r.spec_line_focus() == false,
            r.spec_cursor() == 0,
            r.spec_line_selection() == PromptInputSelection::Empty,
            r.spec_items().len() == 0,
            r.spec_selection().spec_index() == usize::MAX,
            r.spec_scroll() == 0,
    {
        Self {
            line: String::new(),
            line_focus: false,
            cursor_x: 0,
            line_selection: PromptInputSelection::Empty,
            list_items: Vec::new(),
            selected_index: PromptListSelection::empty(),
            scroll_offset: 0,
        }
    }

    pub fn command_text(&self) -> (r: &str)
        ensures
            r@ == self.spec_line(),
    {
        self.line.as_str()
    }

    pub fn cursor_column(&self) -> (r: u16)
        ensures
            r == self.spec_cursor(),
    {
        self.cursor_x
    }

    pub fn command_selection(&self) -> (r: PromptInputSelection)
        ensures
            r == self.spec_line_selection(),
    {
        self.line_selection
    }

    pub fn line_focus(&self) -> (r: bool)
        ensures
            r == self.spec_line_focus(),
    {
        self.line_focus
    }

    pub fn command_items(&self) -> (r: &[PromptListItemFrame])
        ensures
            r@ == self.spec_items(),
    {
        self.list_items.as_slice()
    }

    pub fn selection(&self) -> (r: PromptListSelection)
        ensures
            r == self.spec_selection(),
    {
        self.selected_index
    }

    /// The selected list index, if an entry is selected.
    pub fn selected_item(&self) -> (r: Option<usize>)
        ensures
            r == (if self.spec_selection().spec_index() == usize::MAX {
                None
            } else {
                Some(self.spec_selection().spec_index())
            }),
    {
        if self.selected_index.index() == usize::MAX {
            None
        } else {
            Some(self.selected_index.index())
        }
    }

    pub fn scroll_position(&self) -> (r: usize)
        ensures
            r == self.spec_scroll(),
    {
        self.scroll_offset
    }
}

/// An edit or navigation step in the prompt.
#[derive(Debug, Clone, Copy)]
pub enum PromptUiAction {
    StartPrompt,
    Clear,
    InsertChar { ch: char },
    Backspace,
    Delete,
    MoveLeft,
    MoveRight,
    MoveHome,
    MoveEnd,
    Complete,
    FocusPrompt,
    HistoryPrevious,
    HistoryNext,
    MoveSelectionUp,
    MoveSelectionDown,
    SelectFromList,
}

} // verus!
