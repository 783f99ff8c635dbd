//! The visual selection: an anchor set when visual mode starts, the range it spans to
//! the cursor, how that range is drawn, and rewriting its text.
use vstd::prelude::*;
use crate::engine::editor::{CursorPosition, EditorView};
use crate::engine::file::{File, next_token};
use crate::engine::line_view::{LineView, char_index, col_after, sat_add, sat_sub, seg_end, seg_start, snap_column, u16_sat_add, u16_sat_sub};
use crate::engine::signal::CommandScope;
use crate::engine::transform::{CaseStyle, case_transform};
use crate::protocol::frame::{Cursor, FrameSelection};
use crate::text::{chars_equal, copy_range, extend_chars};

verus! {

/// Scans from character `i` for the one whose columns contain `x`; returns its end.
pub open spec fn end_from(tab: u16, line: Seq<char>, x: u16, i: int) -> u16
    decreases line.len() - i,
{
    if i < 0 || i >= line.len() {
        x
    } else if x >= seg_start(tab, line, i) && x < seg_end(tab, line, i) {
        seg_end(tab, line, i)
    } else {
        end_from(tab, line, x, i + 1)
    }
}

/// The column a selection ending at `(x, row)` extends to: past the character under it.
pub open spec fn selection_end_column(tab: u16, lines: Seq<Seq<char>>, row: u16, x: u16) -> u16 {
    if (row as int) < lines.len() {
        end_from(tab, lines[row as int], x, 0)
    } else {
        x
    }
}

/// Whether position `a` comes before `b` (row first, then column).
pub open spec fn before(a: (u16, u16), b: (u16, u16)) -> bool {
    a.1 < b.1 || (a.1 == b.1 && a.0 < b.0)
}

/// The range (start, end) selected between `anchor` and `cursor`, as `(column, row)` pairs;
/// the end is extended past the character it falls in.
pub open spec fn range_between(
    tab: u16,
    lines: Seq<Seq<char>>,
    anchor: (u16, u16),
    cursor: (u16, u16),
) -> ((u16, u16), (u16, u16)) {
    if before(anchor, cursor) {
        (anchor, (selection_end_column(tab, lines, cursor.1, cursor.0), cursor.1))
    } else if before(cursor, anchor) {
        (cursor, (selection_end_column(tab, lines, anchor.1, anchor.0), anchor.1))
    } else {
        (cursor, (selection_end_column(tab, lines, cursor.1, cursor.0), cursor.1))
    }
}

/// How a range is drawn in a viewport whose top row is `top`, first column `left`,
/// of `cols` columns and `rows` rows.
pub open spec fn range_frame(
    start: (u16, u16),
    end: (u16, u16),
    top: u16,
    left: u16,
    cols: u16,
    rows: u16,
) -> FrameSelection {
    if cols == 0 || rows == 0 {
        FrameSelection::Empty
    } else {
        let bottom = sat_add(top, sat_sub(rows, 1));
        if end.1 < top || start.1 > bottom {
            FrameSelection::Empty
        } else {
            let max_row = sat_sub(rows, 1);
            let sr0 = sat_sub(start.1, top);
            let er0 = sat_sub(end.1, top);
            let sr = if sr0 > max_row { max_row } else { sr0 };
            let er = if er0 > max_row { max_row } else { er0 };
            let sc0 = if start.1 < top { 0 } else { sat_sub(start.0, left) };
            let ec0 = if end.1 > bottom { cols } else { sat_sub(end.0, left) };
            let sc = if sc0 > cols { cols } else { sc0 };
            let ec = if ec0 > cols { cols } else { ec0 };
            FrameSelection::Range {
                start: Cursor::spec_new(sc, sr),
                end: Cursor::spec_new(ec, er),
            }
        }
    }
}

/// The lines strictly between rows `a` and `b`, each followed by `\n`.
pub open spec fn middle_text(lines: Seq<Seq<char>>, a: int, b: int) -> Seq<char>
    decreases b - a,
{
    if a + 1 >= b {
        Seq::empty()
    } else {
        middle_text(lines, a, b - 1) + lines[b - 1] + seq!['\n']
    }
}

/// The outcome of rewriting a range: new lines, whether they changed, and the row and
/// column the cursor is placed at.
pub struct RewriteResult {
    pub lines: Seq<Seq<char>>,
    pub changed: bool,
    pub column: u16,
    pub row: u16,
}

/// Rewrites the text between `start` and `end` (clamped to the last line) in `style`.
pub open spec fn rewrite_range(
    tab: u16,
    lines: Seq<Seq<char>>,
    start: (u16, u16),
    end: (u16, u16),
    style: CaseStyle,
) -> RewriteResult {
    if lines.len() == 0 {
        RewriteResult { lines, changed: false, column: start.0, row: 0 }
    } else {
        let last = lines.len() - 1;
        let sr: int = if start.1 > last { last } else { start.1 as int };
        let er: int = if end.1 > last { last } else { end.1 as int };
        let sl = lines[sr];
        let el = lines[er];
        let si = char_index(tab, sl, start.0);
        let ei0 = char_index(tab, el, end.0);
        if sr == er {
            let ei = if ei0 < si { si } else { ei0 };
            let updated = sl.take(si) + case_transform(style, sl.subrange(si, ei)) + sl.skip(ei);
            let new_lines = lines.update(sr, updated);
            RewriteResult {
                lines: new_lines,
                changed: updated != sl,
                column: snap_column(tab, updated, start.0),
                row: sr as u16,
            }
        } else {
            let selected = sl.skip(si) + seq!['\n'] + middle_text(lines, sr, er) + el.take(ei0);
            let updated = sl.take(si) + case_transform(style, selected) + el.skip(ei0);
            let removed = if er > sr { er - sr } else { 0 };
            let new_lines = lines.take(sr) + seq![updated] + lines.skip(sr + 1 + removed);
            RewriteResult {
                lines: new_lines,
                changed: updated != sl || removed > 0,
                column: snap_column(tab, updated, start.0),
                row: sr as u16,
            }
        }
    }
}

/// A selected range of the buffer: from `start` up to (not including) `end`.
#[derive(Clone, Copy)]
pub struct SelectionRange {
    start: CursorPosition,
    end: CursorPosition,
}

impl SelectionRange {
    pub closed spec fn spec_start(&self) -> (u16, u16) {
        (self.start.spec_column(), self.start.spec_row())
    }

    pub closed spec fn spec_end(&self) -> (u16, u16) {
        (self.end.spec_column(), self.end.spec_row())
    }

    pub fn new(start: CursorPosition, end: CursorPosition) -> (r: Self)
        ensures
            r.spec_start() == (start.spec_column(), start.spec_row()),
            r.spec_end() == (end.spec_column(), end.spec_row()),
    {
        Self { start, end }
    }

    pub fn empty(position: CursorPosition) -> (r: Self)
        ensures
            r.spec_start() == (position.spec_column(), position.spec_row()),
            r.spec_end() == (position.spec_column(), position.spec_row()),
    {
        Self { start: position, end: position }
    }

    /// The range as drawn in `view`, which shows `number_of_columns` by `number_of_rows` cells.
    pub fn frame_selection(
        &self,
        view: &EditorView<'_>,
        number_of_columns: u16,
        number_of_rows: u16,
    ) -> (r: FrameSelection)
        ensures
            r == range_frame(
                self.spec_start(),
                self.spec_end(),
                view.spec_row_offset(),
                view.spec_column_offset(),
                number_of_columns,
                number_of_rows,
            ),
    {
        if number_of_columns == 0 || number_of_rows == 0 {
            return FrameSelection::none();
        }
        let view_top = view.row_offset();
        let view_bottom = u16_sat_add(view_top, u16_sat_sub(number_of_rows, 1));
        let start_row_abs = self.start.row();
        let end_row_abs = self.end.row();
        if end_row_abs < view_top || start_row_abs > view_bottom {
            return FrameSelection::none();
        }
        let start_before_view = start_row_abs < view_top;
        let end_after_view = end_row_abs > view_bottom;
        let max_row = u16_sat_sub(number_of_rows, 1);
        let mut start_row = u16_sat_sub(start_row_abs, view_top);
        let mut end_row = u16_sat_sub(end_row_abs, view_top);
        if start_row > max_row {
            start_row = max_row;
        }
        if end_row > max_row {
            end_row = max_row;
        }
        let max_col = number_of_columns;
        let mut start_col = u16_sat_sub(self.start.column(), view.column_offset());
        let mut end_col = u16_sat_sub(self.end.column(), view.column_offset());
        if start_before_view {
            start_col = 0;
        }
        if end_after_view {
            end_col = max_col;
        }
        if start_col > max_col {
            start_col = max_col;
        }
        if end_col > max_col {
            end_col = max_col;
        }
        FrameSelection::range(Cursor::new(start_col, start_row), Cursor::new(end_col, end_row))
    }

    /// Rewrites the selected text of `file` in `style` and returns where the cursor goes:
    /// the range's start column on its (clamped) start row, snapped to a character.
    pub fn apply_to(&self, file: &mut File, line_view: &LineView, style: CaseStyle) -> (r:
        CursorPosition)
        ensures
            ({
                let res = rewrite_range(
                    line_view.tab(),
                    old(file).spec_lines(),
                    self.spec_start(),
                    self.spec_end(),
                    style,
                );
                &&& final(file).spec_lines() == res.lines
                &&& final(file).spec_path() == old(file).spec_path()
                &&& final(file).spec_changed() == (old(file).spec_changed() || res.changed)
                &&& final(file).spec_token() == if res.changed {
                    next_token(old(file).spec_token())
                } else {
                    old(file).spec_token()
                }
                &&& r.spec_column() == res.column
                &&& r.spec_row() == res.row
            }),
    {
        let count = file.line_count();
        if count == 0 {
            return CursorPosition::new(self.start.column(), 0);
        }
        let last_row = count - 1;
        let start_row: usize = if self.start.row() as usize > last_row {
            last_row
        } else {
            self.start.row() as usize
        };
        let end_row: usize = if self.end.row() as usize > last_row {
            last_row
        } else {
            self.end.row() as usize
        };
        if start_row == end_row {
            rewrite_single(file, line_view, style, start_row, self.start.column(), self.end.column())
        } else {
            rewrite_multi(
                file,
                line_view,
                style,
                start_row,
                end_row,
                self.start.column(),
                self.end.column(),
            )
        }
    }
}

/// `rewrite_range` when the clamped range lies on one row.
fn rewrite_single(
    file: &mut File,
    line_view: &LineView,
    style: CaseStyle,
    row: usize,
    start_col: u16,
    end_col: u16,
) -> (r: CursorPosition)
    requires
        row < old(file).spec_lines().len(),
        row <= u16::MAX,
    ensures
        ({
            let tab = line_view.tab();
            let lines = old(file).spec_lines();
            let sl = lines[row as int];
            let si = char_index(tab, sl, start_col);
            let ei0 = char_index(tab, sl, end_col);
            let ei = if ei0 < si { si } else { ei0 };
            let updated = sl.take(si) + case_transform(style, sl.subrange(si, ei)) + sl.skip(ei);
            let changed = updated != sl;
            &&& final(file).spec_lines() == lines.update(row as int, updated)
            &&& final(file).spec_path() == old(file).spec_path()
            &&& final(file).spec_changed() == (old(file).spec_changed() || changed)
            &&& final(file).spec_token() == if changed {
                next_token(old(file).spec_token())
            } else {
                old(file).spec_token()
            }
            &&& r.spec_column() == snap_column(tab, updated, start_col)
            &&& r.spec_row() == row as u16
        }),
{
    let line = file.line_at(row).clone();
    let start_idx = line_view.column_to_char_index_render(line.as_slice(), start_col);
    let end_idx0 = line_view.column_to_char_index_render(line.as_slice(), end_col);
    let end_idx = if end_idx0 < start_idx { start_idx } else { end_idx0 };
    let prefix = copy_range(line.as_slice(), 0, start_idx);
    let selected = copy_range(line.as_slice(), start_idx, end_idx);
    let suffix = copy_range(line.as_slice(), end_idx, line.len());
    let replacement = style.transform(selected.as_slice());
    let mut updated: Vec<char> = Vec::new();
    extend_chars(&mut updated, prefix.as_slice());
    extend_chars(&mut updated, replacement.as_slice());
    extend_chars(&mut updated, suffix.as_slice());
    assert(prefix@ =~= line@.take(start_idx as int));
    assert(suffix@ =~= line@.skip(end_idx as int));
    let same = chars_equal(updated.as_slice(), line.as_slice());
    let column = line_view.snap_cursor_to_render_character(updated.as_slice(), start_col);
    file.line_set(row, updated);
    if !same {
        file.touch();
    }
    CursorPosition::new(column, row as u16)
}

/// The selected text of a range spanning rows `start_row < end_row`.
fn selected_across(
    file: &File,
    start_row: usize,
    end_row: usize,
    start_line: &Vec<char>,
    start_idx: usize,
    end_line: &Vec<char>,
    end_idx: usize,
) -> (r: Vec<char>)
    requires
        start_row != end_row,
        start_row < usize::MAX,
        start_row < file.spec_lines().len(),
        end_row < file.spec_lines().len(),
        start_idx <= start_line@.len(),
        end_idx <= end_line@.len(),
    ensures
        r@ == start_line@.skip(start_idx as int) + seq!['\n'] + middle_text(
            file.spec_lines(),
            start_row as int,
            end_row as int,
        ) + end_line@.take(end_idx as int),
{
    let ghost lines0 = file.spec_lines();
    let mut selected: Vec<char> = copy_range(start_line.as_slice(), start_idx, start_line.len());
    selected.push('\n');
    let mut mid_row: usize = start_row + 1;
    assert(selected@ =~= start_line@.skip(start_idx as int) + seq!['\n'] + middle_text(
        lines0,
        start_row as int,
        mid_row as int,
    ));
    while mid_row < end_row
        invariant
            start_row < mid_row,
            mid_row <= end_row || mid_row == start_row + 1,
            end_row < lines0.len(),
            file.spec_lines() == lines0,
            selected@ == start_line@.skip(start_idx as int) + seq!['\n'] + middle_text(
                lines0,
                start_row as int,
                mid_row as int,
            ),
        decreases end_row - mid_row,
    {
        extend_chars(&mut selected, file.line_at(mid_row).as_slice());
        selected.push('\n');
        mid_row += 1;
        assert(selected@ =~= start_line@.skip(start_idx as int) + seq!['\n'] + middle_text(
            lines0,
            start_row as int,
            mid_row as int,
        ));
    }
    proof {
        if end_row < start_row {
            assert(middle_text(lines0, start_row as int, end_row as int) =~= Seq::<char>::empty());
            assert(middle_text(lines0, start_row as int, mid_row as int) =~= Seq::<char>::empty());
        }
    }
    let tail_part = copy_range(end_line.as_slice(), 0, end_idx);
    assert(tail_part@ =~= end_line@.take(end_idx as int));
    extend_chars(&mut selected, tail_part.as_slice());
    selected
}

/// `rewrite_range` when the clamped range spans rows `start_row < end_row`.
#[verifier::rlimit(30)]
fn rewrite_multi(
    file: &mut File,
    line_view: &LineView,
    style: CaseStyle,
    start_row: usize,
    end_row: usize,
    start_col: u16,
    end_col: u16,
) -> (r: CursorPosition)
    requires
        start_row != end_row,
        start_row < usize::MAX,
        start_row < old(file).spec_lines().len(),
        end_row < old(file).spec_lines().len(),
        start_row <= u16::MAX,
    ensures
        ({
            let tab = line_view.tab();
            let lines = old(file).spec_lines();
            let sl = lines[start_row as int];
            let el = lines[end_row as int];
            let si = char_index(tab, sl, start_col);
            let ei0 = char_index(tab, el, end_col);
            let selected = sl.skip(si) + seq!['\n'] + middle_text(lines, start_row as int, end_row as int) + el.take(ei0);
            let updated = sl.take(si) + case_transform(style, selected) + el.skip(ei0);
            let removed: int = if end_row > start_row { end_row - start_row } else { 0 };
            let changed = updated != sl || removed > 0;
            &&& final(file).spec_lines() == lines.take(start_row as int) + seq![updated] + lines.skip(start_row + 1 + removed)
            &&& final(file).spec_path() == old(file).spec_path()
            &&& final(file).spec_changed() == (old(file).spec_changed() || changed)
            &&& final(file).spec_token() == if changed {
                next_token(old(file).spec_token())
            } else {
                old(file).spec_token()
            }
            &&& r.spec_column() == snap_column(tab, updated, start_col)
            &&& r.spec_row() == start_row as u16
        }),
{
    let ghost lines0 = file.spec_lines();
    let start_line = file.line_at(start_row).clone();
    let end_line = file.line_at(end_row).clone();
    let start_idx = line_view.column_to_char_index_render(start_line.as_slice(), start_col);
    let end_idx = line_view.column_to_char_index_render(end_line.as_slice(), end_col);
    let selected = selected_across(file, start_row, end_row, &start_line, start_idx, &end_line, end_idx);
    let replacement = style.transform(selected.as_slice());
    let prefix = copy_range(start_line.as_slice(), 0, start_idx);
    let suffix = copy_range(end_line.as_slice(), end_idx, end_line.len());
    let mut updated: Vec<char> = Vec::new();
    extend_chars(&mut updated, prefix.as_slice());
    extend_chars(&mut updated, replacement.as_slice());
    extend_chars(&mut updated, suffix.as_slice());
    assert(prefix@ =~= start_line@.take(start_idx as int));
    assert(suffix@ =~= end_line@.skip(end_idx as int));
    let same = chars_equal(updated.as_slice(), start_line.as_slice());
    let column = line_view.snap_cursor_to_render_character(updated.as_slice(), start_col);
    let ghost upd = updated@;
    file.line_set(start_row, updated);
    let ghost after_set = file.spec_lines();
    let removed: usize = if end_row > start_row { end_row - start_row } else { 0 };
    let mut remove_count: usize = removed;
    while remove_count > 0
        invariant
            remove_count <= removed,
            removed == if end_row > start_row { end_row - start_row } else { 0 },
            end_row < after_set.len(),
            start_row < after_set.len(),
            after_set == lines0.update(start_row as int, upd),
            file.spec_lines() == after_set.take(start_row + 1) + after_set.skip(
                start_row + 1 + (removed - remove_count),
            ),
            file.spec_path() == old(file).spec_path(),
            file.spec_changed() == old(file).spec_changed(),
            file.spec_token() == old(file).spec_token(),
        decreases remove_count,
    {
        file.line_remove(start_row + 1);
        remove_count -= 1;
        assert(file.spec_lines() =~= after_set.take(start_row + 1) + after_set.skip(
            start_row + 1 + (removed - remove_count),
        ));
    }
    assert(file.spec_lines() =~= lines0.take(start_row as int) + seq![upd] + lines0.skip(
        start_row + 1 + removed,
    ));
    if !same || removed > 0 {
        file.touch();
    }
    CursorPosition::new(column, start_row as u16)
}

/// The end position of a selection reaching `position`: past the character under it.
pub fn selection_end(file: &File, line_view: &LineView, position: CursorPosition) -> (r:
    CursorPosition)
    ensures
        r.spec_row() == position.spec_row(),
        r.spec_column() == selection_end_column(
            line_view.tab(),
            file.spec_lines(),
            position.spec_row(),
            position.spec_column(),
        ),
{
    let row = position.row();
    let row_index = row as usize;
    let column = if row_index < file.line_count() {
        selection_end_for_line(line_view, file.line_at(row_index).as_slice(), position.column())
    } else {
        position.column()
    };
    CursorPosition::new(column, row)
}

fn selection_end_for_line(line_view: &LineView, line: &[char], cursor_x: u16) -> (r: u16)
    ensures
        r == end_from(line_view.tab(), line@, cursor_x, 0),
{
    let mut column: u16 = 0;
    let mut i: usize = 0;
    while i < line.len()
        invariant
            0 <= i <= line@.len(),
            column == col_after(line_view.tab(), line@, i as int),
            end_from(line_view.tab(), line@, cursor_x, 0) == end_from(
                line_view.tab(),
                line@,
                cursor_x,
                i as int,
            ),
        decreases line@.len() - i,
    {
        let width = line_view.char_render_width(line[i], column);
        let start = column;
        let end = u16_sat_add(column, width);
        if cursor_x >= start && cursor_x < end {
            return end;
        }
        column = end;
        i += 1;
    }
    cursor_x
}

/// Where visual mode was started.
#[derive(Clone, Copy)]
pub struct SelectionAnchor {
    position: CursorPosition,
}

impl SelectionAnchor {
    pub closed spec fn spec_position(&self) -> (u16, u16) {
        (self.position.spec_column(), self.position.spec_row())
    }

    fn new(position: CursorPosition) -> (r: Self)
        ensures
            r.spec_position() == (position.spec_column(), position.spec_row()),
    {
        Self { position }
    }

    /// The range between the anchor and `cursor`.
    fn range_to(&self, cursor: CursorPosition, file: &File, line_view: &LineView) -> (r:
        SelectionRange)
        ensures
            (r.spec_start(), r.spec_end()) == range_between(
                line_view.tab(),
                file.spec_lines(),
                self.spec_position(),
                (cursor.spec_column(), cursor.spec_row()),
            ),
    {
        let a = self.position;
        let a_first = a.row() < cursor.row() || (a.row() == cursor.row() && a.column()
            < cursor.column());
        let c_first = cursor.row() < a.row() || (cursor.row() == a.row() && cursor.column()
            < a.column());
        if a_first {
            SelectionRange::new(a, selection_end(file, line_view, cursor))
        } else if c_first {
            SelectionRange::new(cursor, selection_end(file, line_view, a))
        } else {
            SelectionRange::new(cursor, selection_end(file, line_view, cursor))
        }
    }
}

/// Whether a visual selection is active, and where it started.
#[derive(Clone, Copy)]
pub enum VisualSelection {
    Idle,
    Active(SelectionAnchor),
}

impl VisualSelection {
    /// The anchor when a selection is active.
    pub closed spec fn spec_anchor(&self) -> Option<(u16, u16)> {
        match self {
            VisualSelection::Idle => None,
            VisualSelection::Active(a) => Some(a.spec_position()),
        }
    }

    pub fn new() -> (r: Self)
        ensures
            r.spec_anchor() is None,
    {
        Self::Idle
    }

    pub fn begin(&mut self, position: CursorPosition)
        ensures
            final(self).spec_anchor() == Some((position.spec_column(), position.spec_row())),
    {
        *self = Self::Active(SelectionAnchor::new(position));
    }

    pub fn clear(&mut self)
        ensures
            final(self).spec_anchor() is None,
    {
        *self = Self::Idle;
    }

    pub fn scope(&self) -> (r: CommandScope)
        ensures
            r == if self.spec_anchor() is None { CommandScope::Normal } else { CommandScope::Visual },
    {
        match self {
            Self::Idle => CommandScope::Normal,
            Self::Active(_) => CommandScope::Visual,
        }
    }

    /// The selected range: empty at the cursor when no selection is active.
    pub fn range_for(&self, cursor: CursorPosition, file: &File, line_view: &LineView) -> (r:
        SelectionRange)
        ensures
            (r.spec_start(), r.spec_end()) == match self.spec_anchor() {
                None => (
                    (cursor.spec_column(), cursor.spec_row()),
                    (cursor.spec_column(), cursor.spec_row()),
                ),
                Some(a) => range_between(
                    line_view.tab(),
                    file.spec_lines(),
                    a,
                    (cursor.spec_column(), cursor.spec_row()),
                ),
            },
    {
        match self {
            Self::Idle => SelectionRange::empty(cursor),
            Self::Active(anchor) => anchor.range_to(cursor, file, line_view),
        }
    }
}

/// The editor's selection state.
pub struct EditorSelection {
    visual: VisualSelection,
}

impl EditorSelection {
    pub closed spec fn spec_anchor(&self) -> Option<(u16, u16)> {
        self.visual.spec_anchor()
    }

    pub fn new() -> (r: Self)
        ensures
            r.spec_anchor() is None,
    {
        Self { visual: VisualSelection::new() }
    }

    pub fn begin(&mut self, position: CursorPosition)
        ensures
            final(self).spec_anchor() == Some((position.spec_column(), position.spec_row())),
    {
        self.visual.begin(position);
    }

    pub fn clear(&mut self)
        ensures
            final(self).spec_anchor() is None,
    {
        self.visual.clear();
    }

    pub fn scope(&self) -> (r: CommandScope)
        ensures
            r == if self.spec_anchor() is None { CommandScope::Normal } else { CommandScope::Visual },
    {
        self.visual.scope()
    }

    /// How the selection is drawn: nothing outside visual mode.
    pub fn frame_selection(
        &self,
        cursor: CursorPosition,
        view: &EditorView<'_>,
        number_of_columns: u16,
        number_of_rows: u16,
        file: &File,
        line_view: &LineView,
    ) -> (r: FrameSelection)
        ensures
            r == match self.spec_anchor() {
                None => FrameSelection::Empty,
                Some(a) => {
                    let range = range_between(
                        line_view.tab(),
                        file.spec_lines(),
                        a,
                        (cursor.spec_column(), cursor.spec_row()),
                    );
                    range_frame(
                        range.0,
                        range.1,
                        view.spec_row_offset(),
                        view.spec_column_offset(),
                        number_of_columns,
                        number_of_rows,
                    )
                },
            },
    {
        match self.visual.scope() {
            CommandScope::Normal => {
                return FrameSelection::none();
            },
            CommandScope::Visual => {},
        }
        let range = self.visual.range_for(cursor, file, line_view);
        range.frame_selection(view, number_of_columns, number_of_rows)
    }

    /// Rewrites the selected text in `style` and ends the selection; returns where
    /// the cursor goes.
    pub fn rewrite(
        &mut self,
        cursor: CursorPosition,
        file: &mut File,
        line_view: &LineView,
        style: CaseStyle,
    ) -> (r: CursorPosition)
        ensures
            final(self).spec_anchor() is None,
            ({
                let range = match old(self).spec_anchor() {
                    None => (
                        (cursor.spec_column(), cursor.spec_row()),
                        (cursor.spec_column(), cursor.spec_row()),
                    ),
                    Some(a) => range_between(
                        line_view.tab(),
                        old(file).spec_lines(),
                        a,
                        (cursor.spec_column(), cursor.spec_row()),
                    ),
                };
                let res = rewrite_range(line_view.tab(), old(file).spec_lines(), range.0, range.1, style);
                &&& final(file).spec_lines() == res.lines
                &&& final(file).spec_path() == old(file).spec_path()
                &&& final(file).spec_changed() == (old(file).spec_changed() || res.changed)
                &&& final(file).spec_token() == if res.changed {
                    next_token(old(file).spec_token())
                } else {
                    old(file).spec_token()
                }
                &&& r.spec_column() == res.column
                &&& r.spec_row() == res.row
            }),
    {
        let range = self.visual.range_for(cursor, file, line_view);
        let r = range.apply_to(file, line_view, style);
        self.visual.clear();
        r
    }
}

} // verus!
