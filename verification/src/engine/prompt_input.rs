//! The editable line of the prompt: text, cursor and an optional selected span.
use vstd::prelude::*;
use crate::protocol::prompt_ui::PromptInputSelection;
use crate::text::{chars_of, copy_range, extend_chars, lemma_truncate_le, string_from_chars};

verus! {

/// Everything a prompt line's behaviour depends on.
pub struct InputModel {
    pub content: Seq<char>,
    pub cursor: u16,
    pub selection: PromptInputSelection,
}

/// The length of `c` as the cursor counts it (a `u16`, wrapping as `as` does).
pub open spec fn len16(c: Seq<char>) -> u16 {
    (c.len() as usize) as u16
}

/// Whether the selection covers at least one position.
pub open spec fn selection_active(sel: PromptInputSelection) -> bool {
    match sel {
        PromptInputSelection::Empty => false,
        PromptInputSelection::Range { start, end } => start < end,
    }
}

/// The selection clamped to the content: `(start, end)` with `start <= end <= len16`.
pub open spec fn selection_bounds(m: InputModel) -> (int, int) {
    match m.selection {
        PromptInputSelection::Empty => (0, 0),
        PromptInputSelection::Range { start, end } => {
            let max = len16(m.content);
            let s = if start < max { start } else { max };
            let e0 = if end < max { end } else { max };
            let e = if e0 < s { s } else { e0 };
            (s as int, e as int)
        },
    }
}

/// The model with the selected text replaced by `replacement` (cursor after it), or just
/// the selection dropped when it is empty after clamping.
pub open spec fn selection_replaced(m: InputModel, replacement: Seq<char>) -> InputModel {
    let (s, e) = selection_bounds(m);
    if s >= e {
        InputModel { selection: PromptInputSelection::Empty, ..m }
    } else {
        InputModel {
            content: m.content.take(s) + replacement + m.content.skip(e),
            cursor: (s + replacement.len()) as u16,
            selection: PromptInputSelection::Empty,
        }
    }
}

/// Backspace: removes the selection, or the character before the cursor.
pub open spec fn input_backspace(m: InputModel) -> InputModel {
    if selection_active(m.selection) {
        selection_replaced(m, Seq::empty())
    } else if m.cursor == 0 {
        m
    } else if (m.cursor - 1) < m.content.len() {
        InputModel { content: m.content.remove(m.cursor - 1), cursor: (m.cursor - 1) as u16, ..m }
    } else {
        m
    }
}

/// Delete: removes the selection, or the character under the cursor.
pub open spec fn input_delete(m: InputModel) -> InputModel {
    if selection_active(m.selection) {
        selection_replaced(m, Seq::empty())
    } else if (m.cursor as int) < m.content.len() {
        let c = m.content.remove(m.cursor as int);
        InputModel { content: c, cursor: if m.cursor < len16(c) { m.cursor } else { len16(c) }, ..m }
    } else {
        m
    }
}

/// Typing `ch`: replaces the selection, or inserts at the cursor.
pub open spec fn input_insert(m: InputModel, ch: char) -> InputModel {
    if selection_active(m.selection) {
        selection_replaced(m, seq![ch])
    } else if (m.cursor as int) <= m.content.len() {
        InputModel {
            content: m.content.insert(m.cursor as int, ch),
            cursor: if m.cursor == u16::MAX { u16::MAX } else { (m.cursor + 1) as u16 },
            ..m
        }
    } else {
        m
    }
}

/// The prompt's edit line.
pub struct PromptInput {
    content: Vec<char>,
    cursor_x: u16,
    selection: PromptInputSelection,
}

impl View for PromptInput {
    type V = InputModel;

    closed spec fn view(&self) -> InputModel {
        InputModel { content: self.content@, cursor: self.cursor_x, selection: self.selection }
    }
}

impl PromptInput {
    pub fn new() -> (r: Self)
        ensures
            r@ == (InputModel {
                content: Seq::empty(),
                cursor: 0,
                selection: PromptInputSelection::Empty,
            }),
    {
        Self { content: Vec::new(), cursor_x: 0, selection: PromptInputSelection::Empty }
    }

    /// Starts a prompt: the line holds just `prefix` and the cursor follows it.
    pub fn start_prompt(&mut self, prefix: char)
        ensures
            final(self)@ == (InputModel {
                content: seq![prefix],
                cursor: 1,
                selection: PromptInputSelection::Empty,
            }),
    {
        let mut content: Vec<char> = Vec::new();
        content.push(prefix);
        self.content = content;
        self.cursor_x = 1;
        self.selection = PromptInputSelection::Empty;
    }

    pub fn clear(&mut self)
        ensures
            final(self)@ == (InputModel {
                content: Seq::empty(),
                cursor: 0,
                selection: PromptInputSelection::Empty,
            }),
    {
        self.content = Vec::new();
        self.cursor_x = 0;
        self.selection = PromptInputSelection::Empty;
    }

    /// Replaces the line; the cursor goes to its end and the selection is dropped.
    pub fn set_content(&mut self, new_content: String)
        ensures
            final(self)@ == (InputModel {
                content: new_content@,
                cursor: len16(new_content@),
                selection: PromptInputSelection::Empty,
            }),
    {
        self.content = chars_of(new_content.as_str());
        self.cursor_x = self.content.len() as u16;
        self.selection = PromptInputSelection::Empty;
    }

    /// Replaces the line and selects `selection`; the cursor goes to the selection's
    /// start (the end of the line without a selection), at most the line's length.
    pub fn set_content_with_selection(&mut self, new_content: String, selection: PromptInputSelection)
        ensures
            ({
                let start = match selection {
                    PromptInputSelection::Empty => len16(new_content@),
                    PromptInputSelection::Range { start, .. } => start,
                };
                final(self)@ == (InputModel {
                    content: new_content@,
                    cursor: if start < len16(new_content@) { start } else { len16(new_content@) },
                    selection,
                })
            }),
    {
        self.content = chars_of(new_content.as_str());
        self.selection = selection;
        let len = self.content.len() as u16;
        let start = match selection {
            PromptInputSelection::Empty => len,
            PromptInputSelection::Range { start, .. } => start,
        };
        self.cursor_x = if start < len { start } else { len };
    }

    pub fn text(&self) -> (r: String)
        ensures
            r@ == self@.content,
    {
        string_from_chars(self.content.as_slice())
    }

    /// The line's characters.
    pub fn chars(&self) -> (r: &[char])
        ensures
            r@ == self@.content,
    {
        self.content.as_slice()
    }

    pub fn cursor_column(&self) -> (r: u16)
        ensures
            r == self@.cursor,
    {
        self.cursor_x
    }

    pub fn selection(&self) -> (r: PromptInputSelection)
        ensures
            r == self@.selection,
    {
        self.selection
    }

    pub fn backspace(&mut self)
        ensures
            final(self)@ == input_backspace(old(self)@),
    {
        if self.selection_active() {
            self.replace_selection(Vec::new());
            return;
        }
        if self.cursor_x == 0 {
            return;
        }
        let delete_at = (self.cursor_x - 1) as usize;
        if delete_at < self.content.len() {
            self.content.remove(delete_at);
            self.cursor_x = self.cursor_x - 1;
        }
    }

    pub fn delete(&mut self)
        ensures
            final(self)@ == input_delete(old(self)@),
    {
        if self.selection_active() {
            self.replace_selection(Vec::new());
            return;
        }
        let delete_at = self.cursor_x as usize;
        if delete_at < self.content.len() {
            self.content.remove(delete_at);
            let len = self.content.len() as u16;
            self.cursor_x = if self.cursor_x < len { self.cursor_x } else { len };
        }
    }

    pub fn cursor_move_left(&mut self)
        ensures
            final(self)@ == (InputModel {
                cursor: if old(self)@.cursor > 0 { (old(self)@.cursor - 1) as u16 } else { 0 },
                selection: PromptInputSelection::Empty,
                ..old(self)@
            }),
    {
        if self.cursor_x > 0 {
            self.cursor_x = self.cursor_x - 1;
        }
        self.selection = PromptInputSelection::Empty;
    }

    pub fn cursor_move_right(&mut self)
        ensures
            final(self)@ == (InputModel {
                cursor: if old(self)@.cursor < len16(old(self)@.content) {
                    (old(self)@.cursor + 1) as u16
                } else {
                    old(self)@.cursor
                },
                selection: PromptInputSelection::Empty,
                ..old(self)@
            }),
    {
        let limit = self.content.len() as u16;
        if self.cursor_x < limit {
            self.cursor_x = self.cursor_x + 1;
        }
        self.selection = PromptInputSelection::Empty;
    }

    pub fn cursor_move_home(&mut self)
        ensures
            final(self)@ == (InputModel {
                cursor: 0,
                selection: PromptInputSelection::Empty,
                ..old(self)@
            }),
    {
        self.cursor_x = 0;
        self.selection = PromptInputSelection::Empty;
    }

    pub fn cursor_move_end(&mut self)
        ensures
            final(self)@ == (InputModel {
                cursor: len16(old(self)@.content),
                selection: PromptInputSelection::Empty,
                ..old(self)@
            }),
    {
        self.cursor_x = self.content.len() as u16;
        self.selection = PromptInputSelection::Empty;
    }

    pub fn char_insert(&mut self, ch: char)
        ensures
            final(self)@ == input_insert(old(self)@, ch),
    {
        if self.selection_active() {
            let mut replacement: Vec<char> = Vec::new();
            replacement.push(ch);
            self.replace_selection(replacement);
            return;
        }
        let insert_at = self.cursor_x as usize;
        if insert_at <= self.content.len() {
            self.content.insert(insert_at, ch);
            self.cursor_x = if self.cursor_x == u16::MAX { u16::MAX } else { self.cursor_x + 1 };
        }
    }

    fn replace_selection(&mut self, replacement: Vec<char>)
        requires
            replacement@.len() <= 1,
        ensures
            final(self)@ == selection_replaced(old(self)@, replacement@),
    {
        let (start, end) = self.selection_range();
        if start >= end {
            self.selection = PromptInputSelection::Empty;
            return;
        }
        let prefix = copy_range(self.content.as_slice(), 0, start);
        let suffix = copy_range(self.content.as_slice(), end, self.content.len());
        let mut updated: Vec<char> = Vec::new();
        extend_chars(&mut updated, prefix.as_slice());
        extend_chars(&mut updated, replacement.as_slice());
        extend_chars(&mut updated, suffix.as_slice());
        assert(prefix@ =~= old(self)@.content.take(start as int));
        assert(suffix@ =~= old(self)@.content.skip(end as int));
        self.content = updated;
        self.cursor_x = (start + replacement.len()) as u16;
        self.selection = PromptInputSelection::Empty;
    }

    fn selection_active(&self) -> (r: bool)
        ensures
            r == selection_active(self@.selection),
    {
        match self.selection {
            PromptInputSelection::Empty => false,
            PromptInputSelection::Range { start, end } => start < end,
        }
    }

    fn selection_range(&self) -> (r: (usize, usize))
        ensures
            (r.0 as int, r.1 as int) == selection_bounds(self@),
            r.0 <= r.1 <= self@.content.len(),
            r.1 <= u16::MAX,
    {
        proof {
            lemma_truncate_le(self.content@.len() as usize);
        }
        match self.selection {
            PromptInputSelection::Empty => (0, 0),
            PromptInputSelection::Range { start, end } => {
                let max = self.content.len() as u16;
                let s = if start < max { start } else { max };
                let e0 = if end < max { end } else { max };
                let e = if e0 < s { s } else { e0 };
                (s as usize, e as usize)
            },
        }
    }
}

} // verus!
