//! The editor: a buffer, a cursor, scroll offsets and a visual selection, and the
//! edits and movements requests apply to them.
use vstd::prelude::*;
use vstd::string::*;
use crate::engine::file::{File, FileChangeToken, ensure_lines, insert_line, join_lines, next_token, path_is_unnamed, text_lines};
use crate::engine::line_view::{LineView, char_index, char_width, col_after, column_next, column_previous, display, is_control, lemma_char_index_of_column, lemma_char_index_past_end, lemma_col_after_mono, lemma_plain_columns, lemma_snap_at_start, lemma_snap_column_stable, lemma_step_back_over_typed, lemma_step_left_to_previous_start, lemma_step_right_to_next_start, line_len, sat_add, sat_sub, snap_column, tab_start_from, u16_sat_add, u16_sat_sub};
use crate::engine::selection::{EditorSelection, range_between, range_frame, rewrite_range};
use crate::engine::signal::{CommandScope, FrameSignal};
use crate::engine::transform::CaseStyle;
use crate::protocol::frame::FrameSelection;
use crate::protocol::path::FilePath;
use crate::protocol::rpc::MoveDirection;
use crate::protocol::status::StatusMessage;
use crate::text::{chars_of, copy_range, extend_chars, string_from_chars};

verus! {

/// The version string the welcome screen shows.
pub struct EditorVersion {
    label: &'static str,
}

/// The welcome text shown on an empty buffer.
pub open spec fn welcome_text() -> Seq<char> {
    "VimRust -- version "@ + "0.1.0"@
}

impl EditorVersion {
    pub closed spec fn spec_label(&self) -> Seq<char> {
        self.label@
    }

    pub fn current() -> (r: Self)
        ensures
            r.spec_label() == "0.1.0"@,
    {
        Self { label: "0.1.0" }
    }

    pub fn append_to(&self, target: &mut String)
        ensures
            final(target)@ == old(target)@ + self.spec_label(),
    {
        target.append(self.label);
    }
}

/// A position in the buffer: render column and line.
#[derive(Debug, Clone, Copy, PartialEq, Eq, Structural)]
pub struct CursorPosition {
    column: u16,
    row: u16,
}

impl CursorPosition {
    pub closed spec fn spec_column(&self) -> u16 {
        self.column
    }

    pub closed spec fn spec_row(&self) -> u16 {
        self.row
    }

    pub fn new(column: u16, row: u16) -> (r: Self)
        ensures
            r.spec_column() == column,
            r.spec_row() == row,
    {
        Self { column, row }
    }

    pub fn column(&self) -> (r: u16)
        ensures
            r == self.spec_column(),
    {
        self.column
    }

    pub fn row(&self) -> (r: u16)
        ensures
            r == self.spec_row(),
    {
        self.row
    }

    /// Whether two positions are the same.
    pub fn same(&self, other: &CursorPosition) -> (r: bool)
        ensures
            r == (self.spec_column() == other.spec_column() && self.spec_row() == other.spec_row()),
    {
        self.column == other.column && self.row == other.row
    }
}

/// Everything an editor's behaviour depends on.
pub struct EditorModel {
    pub cursor_x: u16,
    pub cursor_y: u16,
    pub columns_offset: u16,
    pub rows_offset: u16,
    pub lines: Seq<Seq<char>>,
    pub changed: bool,
    pub token: u64,
    pub path: Option<Seq<char>>,
    pub anchor: Option<(u16, u16)>,
    pub tab: u16,
}

/// Render length of line `y`, zero past the last line.
pub open spec fn file_line_length(m: EditorModel, y: u16) -> u16 {
    if (y as int) < m.lines.len() {
        line_len(m.tab, m.lines[y as int])
    } else {
        0
    }
}

/// The number of lines, capped at `u16::MAX`.
pub open spec fn line_count16(lines: Seq<Seq<char>>) -> u16 {
    if lines.len() > u16::MAX as int { u16::MAX } else { lines.len() as u16 }
}

/// `a * b`, saturated at `u16::MAX`.
pub open spec fn sat_mul(a: u16, b: u16) -> u16 {
    if a * b > u16::MAX as int { u16::MAX } else { (a * b) as u16 }
}

/// The model with an edit recorded.
pub open spec fn touched(m: EditorModel) -> EditorModel {
    EditorModel { changed: true, token: next_token(m.token), ..m }
}

/// Clamps the cursor row to `limit`, the column to its line, and snaps the column onto a character.
pub open spec fn settle_cursor(m: EditorModel, limit: u16) -> EditorModel {
    let y = if m.cursor_y > limit { limit } else { m.cursor_y };
    let ll = file_line_length(m, y);
    let x0 = if m.cursor_x > ll { ll } else { m.cursor_x };
    let x = if (y as int) < m.lines.len() { snap_column(m.tab, m.lines[y as int], x0) } else { x0 };
    EditorModel { cursor_x: x, cursor_y: y, ..m }
}

/// The model after moving the cursor in `dir`, before the cursor is settled onto the
/// text; `usable` is the number of text rows on screen.
pub open spec fn moved_raw(m: EditorModel, dir: MoveDirection, usable: u16) -> EditorModel {
    let flen = line_count16(m.lines);
    let has_line = (m.cursor_y as int) < m.lines.len();
    let raw = match dir {
        MoveDirection::Left => EditorModel {
            cursor_x: if has_line {
                column_previous(m.tab, m.lines[m.cursor_y as int], m.cursor_x)
            } else {
                sat_sub(m.cursor_x, 1)
            },
            ..m
        },
        MoveDirection::Right => EditorModel {
            cursor_x: if has_line {
                column_next(m.tab, m.lines[m.cursor_y as int], m.cursor_x)
            } else {
                sat_add(m.cursor_x, 1)
            },
            ..m
        },
        MoveDirection::Home => EditorModel { cursor_x: 0, ..m },
        MoveDirection::End => EditorModel { cursor_x: file_line_length(m, m.cursor_y), ..m },
        MoveDirection::Up => EditorModel { cursor_y: sat_sub(m.cursor_y, 1), ..m },
        MoveDirection::Down => EditorModel { cursor_y: sat_add(m.cursor_y, 1), ..m },
        MoveDirection::PageUp => if usable == 0 {
            EditorModel { cursor_y: 0, rows_offset: 0, ..m }
        } else {
            let ny = sat_sub(m.cursor_y, usable);
            let lower_third = (sat_mul(usable, 2) / 3) as u16;
            EditorModel { cursor_y: ny, rows_offset: sat_sub(ny, lower_third), ..m }
        },
        MoveDirection::PageDown => if usable == 0 {
            EditorModel { cursor_y: flen, ..m }
        } else {
            let ny0 = sat_add(m.cursor_y, usable);
            let ny = if ny0 > flen { flen } else { ny0 };
            let upper_third = (usable / 3) as u16;
            EditorModel { cursor_y: ny, rows_offset: sat_sub(ny, upper_third), ..m }
        },
    };
    raw
}

/// The model after moving the cursor in `dir`; `usable` is the number of text rows on screen.
pub open spec fn moved(m: EditorModel, dir: MoveDirection, usable: u16) -> EditorModel {
    settle_cursor(moved_raw(m, dir, usable), line_count16(m.lines))
}

/// The model after placing the cursor at `(column, row)`, clamped onto the text.
pub open spec fn placed(m: EditorModel, column: u16, row: u16) -> EditorModel {
    let max_row: u16 = if m.lines.len() == 0 {
        0
    } else if m.lines.len() - 1 > u16::MAX as int {
        u16::MAX
    } else {
        (m.lines.len() - 1) as u16
    };
    settle_cursor(EditorModel { cursor_x: column, cursor_y: row, ..m }, max_row)
}

/// The model after typing `ch` at the cursor.
pub open spec fn char_inserted(m: EditorModel, ch: char) -> EditorModel {
    let y = m.cursor_y as int;
    let lines = ensure_lines(m.lines, y);
    let line = lines[y];
    let at = char_index(m.tab, line, m.cursor_x);
    touched(
        EditorModel {
            lines: lines.update(y, line.insert(at, ch)),
            cursor_x: sat_add(m.cursor_x, char_width(m.tab, ch, m.cursor_x)),
            ..m
        },
    )
}

/// The model after splitting the cursor's line at the cursor.
pub open spec fn line_broken(m: EditorModel) -> EditorModel {
    let y = m.cursor_y as int;
    let lines = ensure_lines(m.lines, y);
    let line = lines[y];
    let at = char_index(m.tab, line, m.cursor_x);
    touched(
        EditorModel {
            lines: insert_line(lines.update(y, line.take(at)), y + 1, line.skip(at)),
            cursor_y: sat_add(m.cursor_y, 1),
            cursor_x: 0,
            ..m
        },
    )
}

/// The model after deleting the character before the cursor, joining the line to the
/// previous one at column zero.
pub open spec fn backspaced(m: EditorModel) -> EditorModel {
    let y = m.cursor_y as int;
    if m.cursor_x == 0 && m.cursor_y == 0 {
        m
    } else if m.cursor_x == 0 {
        if y == 0 || y >= m.lines.len() {
            m
        } else {
            touched(
                EditorModel {
                    lines: m.lines.update(y - 1, m.lines[y - 1] + m.lines[y]).remove(y),
                    cursor_y: (m.cursor_y - 1) as u16,
                    cursor_x: line_len(m.tab, m.lines[y - 1]),
                    ..m
                },
            )
        }
    } else if y >= m.lines.len() {
        m
    } else {
        let line = m.lines[y];
        let nx = column_previous(m.tab, line, m.cursor_x);
        let idx = char_index(m.tab, line, nx);
        if idx < line.len() {
            touched(EditorModel { lines: m.lines.update(y, line.remove(idx)), cursor_x: nx, ..m })
        } else {
            m
        }
    }
}

/// The model after deleting the character under the cursor, joining the next line at
/// the end of the line.
pub open spec fn deleted_under(m: EditorModel) -> EditorModel {
    let y = m.cursor_y as int;
    if y >= m.lines.len() {
        m
    } else {
        let line = m.lines[y];
        let idx = char_index(m.tab, line, m.cursor_x);
        if idx < line.len() {
            touched(EditorModel { lines: m.lines.update(y, line.remove(idx)), ..m })
        } else if y + 1 < m.lines.len() {
            touched(
                EditorModel { lines: m.lines.update(y, line + m.lines[y + 1]).remove(y + 1), ..m },
            )
        } else {
            m
        }
    }
}

/// Typing a one-column character at the start of a character (or at the end of the
/// line) and deleting back over it gives the text and the cursor back; only the
/// change state records the two edits.
pub proof fn law_backspace_undoes_typing(m: EditorModel, ch: char, at: int)
    requires
        (m.cursor_y as int) < m.lines.len(),
        0 <= at <= m.lines[m.cursor_y as int].len(),
        m.cursor_x == col_after(m.tab, m.lines[m.cursor_y as int], at),
        m.cursor_x < u16::MAX - 1,
        ch != '\t',
        !is_control(ch),
    ensures
        ({
            let n = backspaced(char_inserted(m, ch));
            &&& n.lines == m.lines
            &&& n.cursor_x == m.cursor_x
            &&& n.cursor_y == m.cursor_y
            &&& n.columns_offset == m.columns_offset
            &&& n.rows_offset == m.rows_offset
            &&& n.anchor == m.anchor
            &&& n.path == m.path
            &&& n.changed
        }),
{
    let y = m.cursor_y as int;
    let line = m.lines[y];
    lemma_step_back_over_typed(m.tab, line, at, ch);
    assert(ensure_lines(m.lines, y) == m.lines);
    let typed = line.insert(at, ch);
    let m1 = char_inserted(m, ch);
    assert(m1.lines == m.lines.update(y, typed));
    assert(m1.cursor_x == m.cursor_x + 1);
    assert(typed.remove(at) =~= line);
    assert(m.lines.update(y, typed).update(y, line) =~= m.lines);
}

/// Whatever way the cursor moves, it ends on the text: its row at most the number of
/// lines, its column within the render width of that row (zero past the last line) and
/// on the column that character is drawn at; the text, its path and its change state
/// stay as they were. This holds for lines narrower than `u16::MAX` render columns.
pub proof fn law_cursor_stays_on_text(m: EditorModel, dir: MoveDirection, usable: u16)
    requires
        forall|k: int| 0 <= k < m.lines.len() ==> line_len(m.tab, #[trigger] m.lines[k]) < u16::MAX,
    ensures
        ({
            let q = moved(m, dir, usable);
            &&& q.lines == m.lines
            &&& q.path == m.path
            &&& q.changed == m.changed
            &&& q.token == m.token
            &&& q.cursor_y <= line_count16(m.lines)
            &&& q.cursor_x <= file_line_length(q, q.cursor_y)
            &&& (q.cursor_y as int) < q.lines.len() ==> snap_column(
                q.tab,
                q.lines[q.cursor_y as int],
                q.cursor_x,
            ) == q.cursor_x
        }),
{
    lemma_settled_on_text(moved_raw(m, dir, usable), line_count16(m.lines));
}

/// A settled cursor lies on the text (see `law_cursor_stays_on_text`).
proof fn lemma_settled_on_text(r: EditorModel, limit: u16)
    requires
        forall|k: int| 0 <= k < r.lines.len() ==> line_len(r.tab, #[trigger] r.lines[k]) < u16::MAX,
    ensures
        ({
            let q = settle_cursor(r, limit);
            &&& q.cursor_y <= limit
            &&& q.cursor_x <= file_line_length(q, q.cursor_y)
            &&& (q.cursor_y as int) < q.lines.len() ==> snap_column(
                q.tab,
                q.lines[q.cursor_y as int],
                q.cursor_x,
            ) == q.cursor_x
        }),
{
    let q = settle_cursor(r, limit);
    let y = q.cursor_y as int;
    if y < r.lines.len() {
        let ll = file_line_length(r, q.cursor_y);
        let x0 = if r.cursor_x > ll { ll } else { r.cursor_x };
        assert(line_len(r.tab, r.lines[y]) < u16::MAX);
        lemma_snap_column_stable(r.tab, r.lines[y], x0);
    }
}

/// Deleting under the cursor, when the cursor column falls inside character `i` of its
/// line, removes exactly that character: the line becomes its first `i` characters
/// followed by the ones after `i`, every other line stays, the cursor stays and the
/// change is recorded.
pub proof fn law_delete_removes_character_under_cursor(m: EditorModel, i: int)
    requires
        (m.cursor_y as int) < m.lines.len(),
        0 <= i < m.lines[m.cursor_y as int].len(),
        col_after(m.tab, m.lines[m.cursor_y as int], i) <= m.cursor_x,
        m.cursor_x < col_after(m.tab, m.lines[m.cursor_y as int], i + 1),
    ensures
        ({
            let y = m.cursor_y as int;
            let line = m.lines[y];
            let n = deleted_under(m);
            &&& n.lines.len() == m.lines.len()
            &&& n.lines[y] == line.take(i) + line.skip(i + 1)
            &&& forall|k: int| 0 <= k < m.lines.len() && k != y ==> #[trigger] n.lines[k] == m.lines[k]
            &&& n.cursor_x == m.cursor_x
            &&& n.cursor_y == m.cursor_y
            &&& n.changed
        }),
{
    let y = m.cursor_y as int;
    let line = m.lines[y];
    lemma_char_index_of_column(m.tab, line, i, m.cursor_x);
    assert(line.remove(i) =~= line.take(i) + line.skip(i + 1));
}

/// Deleting under the cursor at or past the end of a line joins the next line onto it:
/// one line fewer, the lines before unchanged, the line holding its text followed by
/// the next line's, the later lines moved up by one; the cursor stays and the change
/// is recorded. At the end of the last line nothing changes.
pub proof fn law_delete_at_line_end_joins_next_line(m: EditorModel)
    requires
        (m.cursor_y as int) < m.lines.len(),
        line_len(m.tab, m.lines[m.cursor_y as int]) <= m.cursor_x,
        line_len(m.tab, m.lines[m.cursor_y as int]) < u16::MAX,
    ensures
        ({
            let y = m.cursor_y as int;
            let n = deleted_under(m);
            if y + 1 < m.lines.len() {
                &&& n.lines.len() == m.lines.len() - 1
                &&& n.lines[y] == m.lines[y] + m.lines[y + 1]
                &&& forall|k: int| 0 <= k < y ==> #[trigger] n.lines[k] == m.lines[k]
                &&& forall|k: int| y < k < n.lines.len() ==> #[trigger] n.lines[k] == m.lines[k + 1]
                &&& n.cursor_x == m.cursor_x
                &&& n.cursor_y == m.cursor_y
                &&& n.changed
            } else {
                n == m
            }
        }),
{
    let y = m.cursor_y as int;
    lemma_char_index_past_end(m.tab, m.lines[y], m.cursor_x);
}

/// Moving left from the start of character `i` (or from the end of the line, `i` being
/// its length) puts the cursor at the start column of the character before it, when
/// that one is not a tab; on a line of one-column characters that is one column left.
/// The row and the text stay.
pub proof fn law_left_moves_one_character_back(m: EditorModel, usable: u16, i: int)
    requires
        (m.cursor_y as int) < m.lines.len(),
        0 < i <= m.lines[m.cursor_y as int].len(),
        m.lines[m.cursor_y as int][i - 1] != '\t',
        m.cursor_x == col_after(m.tab, m.lines[m.cursor_y as int], i),
        m.cursor_x < u16::MAX,
    ensures
        ({
            let line = m.lines[m.cursor_y as int];
            let n = moved(m, MoveDirection::Left, usable);
            &&& n.cursor_x == col_after(m.tab, line, i - 1)
            &&& n.cursor_x < m.cursor_x
            &&& n.cursor_y == m.cursor_y
            &&& n.lines == m.lines
            &&& (forall|k: int| 0 <= k < i ==> #[trigger] line[k] != '\t' && !is_control(line[k]))
                ==> n.cursor_x == m.cursor_x - 1
        }),
{
    let y = m.cursor_y as int;
    let line = m.lines[y];
    lemma_step_left_to_previous_start(m.tab, line, i);
    lemma_snap_at_start(m.tab, line, i - 1);
    lemma_col_after_mono(m.tab, line, i, line.len() as int);
    if forall|k: int| 0 <= k < i ==> #[trigger] line[k] != '\t' && !is_control(line[k]) {
        lemma_plain_columns(m.tab, line, i);
        lemma_plain_columns(m.tab, line, i - 1);
    }
}

/// Moving right from the start of character `i`, when neither it nor the character
/// after it is a tab, puts the cursor at the start of the next character; on a line of
/// one-column characters that is one column right. The row and the text stay.
pub proof fn law_right_moves_one_character_on(m: EditorModel, usable: u16, i: int)
    requires
        (m.cursor_y as int) < m.lines.len(),
        0 <= i,
        i + 1 < m.lines[m.cursor_y as int].len(),
        m.lines[m.cursor_y as int][i] != '\t',
        m.lines[m.cursor_y as int][i + 1] != '\t',
        m.cursor_x == col_after(m.tab, m.lines[m.cursor_y as int], i),
        col_after(m.tab, m.lines[m.cursor_y as int], i + 2) < u16::MAX,
    ensures
        ({
            let line = m.lines[m.cursor_y as int];
            let n = moved(m, MoveDirection::Right, usable);
            &&& n.cursor_x == col_after(m.tab, line, i + 1)
            &&& n.cursor_x > m.cursor_x
            &&& n.cursor_y == m.cursor_y
            &&& n.lines == m.lines
            &&& (forall|k: int| 0 <= k <= i ==> #[trigger] line[k] != '\t' && !is_control(line[k]))
                ==> n.cursor_x == m.cursor_x + 1
        }),
{
    let y = m.cursor_y as int;
    let line = m.lines[y];
    lemma_col_after_mono(m.tab, line, i + 1, i + 2);
    lemma_step_right_to_next_start(m.tab, line, i);
    lemma_snap_at_start(m.tab, line, i + 1);
    lemma_col_after_mono(m.tab, line, i + 1, line.len() as int);
    if forall|k: int| 0 <= k <= i ==> #[trigger] line[k] != '\t' && !is_control(line[k]) {
        lemma_plain_columns(m.tab, line, i + 1);
        lemma_plain_columns(m.tab, line, i);
    }
}

/// With a viewport of at least one column and one row, scrolling keeps the cursor on
/// screen: the column offset is at most the cursor column and within `cols` columns
/// of it, and likewise for rows. Offsets move only as far as needed: they stay when the
/// cursor is already visible, move onto the cursor when it is before them, and put the
/// cursor on the last column (row) when it is past them.
pub proof fn law_scroll_keeps_cursor_visible(m: EditorModel, cols: u16, rows: u16)
    requires
        cols > 0,
        rows > 0,
    ensures
        ({
            let (c, r) = scrolled(m, cols, rows);
            let (x, y) = (m.cursor_x as int, m.cursor_y as int);
            let (c0, r0) = (m.columns_offset as int, m.rows_offset as int);
            &&& c <= x < c + cols
            &&& r <= y < r + rows
            &&& (c0 <= x < c0 + cols && c0 + cols <= u16::MAX ==> c == c0)
            &&& (x < c0 ==> c == x)
            &&& (x >= c0 + cols ==> c == x - cols + 1)
            &&& (r0 <= y < r0 + rows && r0 + rows <= u16::MAX ==> r == r0)
            &&& (y < r0 ==> r == y)
            &&& (y >= r0 + rows ==> r == y - rows + 1)
        }),
{
}

/// The model with the cursor moved to the start of the tab it is on.
pub open spec fn snapped_to_tab(m: EditorModel) -> EditorModel {
    let y = m.cursor_y as int;
    if y < m.lines.len() {
        match tab_start_from(m.tab, m.lines[y], m.cursor_x, 0) {
            Some(s) => EditorModel { cursor_x: s, ..m },
            None => m,
        }
    } else {
        m
    }
}

/// Scroll offsets (columns, rows) that keep the cursor inside a `cols` by `rows` viewport.
pub open spec fn scrolled(m: EditorModel, cols: u16, rows: u16) -> (u16, u16) {
    if rows == 0 {
        (m.columns_offset, m.rows_offset)
    } else {
        let r1 = if m.cursor_y < m.rows_offset { m.cursor_y } else { m.rows_offset };
        let r2 = if m.cursor_y >= sat_add(r1, rows) {
            sat_add(sat_sub(m.cursor_y, rows), 1)
        } else {
            r1
        };
        let c1 = if m.cursor_x < m.columns_offset { m.cursor_x } else { m.columns_offset };
        let c2 = if m.cursor_x >= sat_add(c1, cols) {
            sat_add(sat_sub(m.cursor_x, cols), 1)
        } else {
            c1
        };
        (c2, r2)
    }
}

/// Whether some line holds text.
pub open spec fn has_text(lines: Seq<Seq<char>>) -> bool {
    exists|i: int| 0 <= i < lines.len() && lines[i].len() > 0
}

/// `n` spaces.
pub open spec fn spaces(n: nat) -> Seq<char> {
    Seq::new(n, |k: int| ' ')
}

/// The welcome message centred in `cols` columns, on row `row` of `rows` when the
/// buffer is empty and that row is a third down the screen.
pub open spec fn welcome_line(lines: Seq<Seq<char>>, cols: u16, row: u16, rows: u16) -> Seq<char> {
    if row != rows / 3 || has_text(lines) {
        Seq::empty()
    } else {
        let w = if welcome_text().len() > cols { welcome_text().take(cols as int) } else { welcome_text() };
        let padding = (sat_sub(cols, w.len() as u16) / 2) as u16;
        (if padding > 1 { spaces((padding - 1) as nat) } else { Seq::empty() }) + w
    }
}

/// The row drawn past the end of the buffer: `~` and possibly the welcome message.
pub open spec fn tilde_row(lines: Seq<Seq<char>>, cols: u16, row: u16, rows: u16) -> Seq<char> {
    let l = seq!['~'] + welcome_line(lines, cols, row, rows);
    if l.len() > cols { l.take(cols as int) } else { l }
}

/// Columns `left .. left + cols` of `d`, as far as they exist.
pub open spec fn visible_slice(d: Seq<char>, left: u16, cols: u16) -> Seq<char> {
    let a: int = if left as int > d.len() { d.len() as int } else { left as int };
    let b: int = if left + cols > d.len() { d.len() as int } else { left + cols };
    d.subrange(a, b)
}

/// Screen row `r` of a viewport showing `lines` from row `top` and column `left`.
pub open spec fn rendered_row(
    tab: u16,
    lines: Seq<Seq<char>>,
    top: u16,
    left: u16,
    cols: u16,
    rows: u16,
    r: u16,
) -> Seq<char> {
    let fl = sat_add(r, top) as int;
    if fl >= lines.len() {
        tilde_row(lines, cols, r, rows)
    } else {
        visible_slice(display(tab, lines[fl]), left, cols)
    }
}

/// A read-only view of the editor with scroll offsets fitted to a viewport.
pub struct EditorView<'a> {
    file: &'a File,
    cursor_x: u16,
    cursor_y: u16,
    columns_offset: u16,
    rows_offset: u16,
}

impl<'a> EditorView<'a> {
    pub closed spec fn spec_file(&self) -> File {
        *self.file
    }

    pub closed spec fn spec_cursor_x(&self) -> u16 {
        self.cursor_x
    }

    pub closed spec fn spec_cursor_y(&self) -> u16 {
        self.cursor_y
    }

    pub closed spec fn spec_column_offset(&self) -> u16 {
        self.columns_offset
    }

    pub closed spec fn spec_row_offset(&self) -> u16 {
        self.rows_offset
    }

    pub fn file_ref(&self) -> (r: &File)
        ensures
            *r == self.spec_file(),
    {
        self.file
    }

    pub fn cursor_column(&self) -> (r: u16)
        ensures
            r == self.spec_cursor_x(),
    {
        self.cursor_x
    }

    pub fn cursor_row(&self) -> (r: u16)
        ensures
            r == self.spec_cursor_y(),
    {
        self.cursor_y
    }

    pub fn column_offset(&self) -> (r: u16)
        ensures
            r == self.spec_column_offset(),
    {
        self.columns_offset
    }

    pub fn row_offset(&self) -> (r: u16)
        ensures
            r == self.spec_row_offset(),
    {
        self.rows_offset
    }
}

/// Whether the buffer changed, for the status line.
pub struct FileChange {
    changed: bool,
}

impl FileChange {
    pub closed spec fn spec_changed(&self) -> bool {
        self.changed
    }

    /// `modified` when the buffer changed, `status` otherwise.
    pub fn status_or(&self, status: &StatusMessage) -> (r: StatusMessage)
        ensures
            self.spec_changed() ==> r@ == Some("modified"@),
            !self.spec_changed() ==> r == *status,
    {
        if self.changed {
            StatusMessage::text("modified")
        } else {
            status.clone()
        }
    }
}

/// The cursor, offsets and change token before a request.
pub struct EditorSnapshot {
    cursor_x: u16,
    cursor_y: u16,
    columns_offset: u16,
    rows_offset: u16,
    change_mark: FileChangeToken,
}

impl EditorSnapshot {
    pub closed spec fn spec_cursor(&self) -> (u16, u16) {
        (self.cursor_x, self.cursor_y)
    }

    pub closed spec fn spec_offsets(&self) -> (u16, u16) {
        (self.columns_offset, self.rows_offset)
    }

    pub closed spec fn spec_token(&self) -> u64 {
        self.change_mark.spec_value()
    }

    /// Whether `editor` still looks as it did: skip the frame when cursor, offsets
    /// and change token are all unchanged.
    pub fn frame_signal(&self, editor: &Editor) -> (r: FrameSignal)
        ensures
            r == if self.spec_cursor() == (editor@.cursor_x, editor@.cursor_y)
                && self.spec_offsets() == (editor@.columns_offset, editor@.rows_offset)
                && self.spec_token() == editor@.token {
                FrameSignal::Skip
            } else {
                FrameSignal::Frame
            },
    {
        let same_cursor = self.cursor_x == editor.cursor_x && self.cursor_y == editor.cursor_y;
        let same_offsets = self.columns_offset == editor.columns_offset && self.rows_offset
            == editor.rows_offset;
        let same_change = self.change_mark.same(&editor.file.change_mark());
        if same_cursor && same_offsets && same_change {
            FrameSignal::Skip
        } else {
            FrameSignal::Frame
        }
    }

    /// `status`, or `modified` when the buffer was edited since the snapshot.
    pub fn status_from(&self, editor: &Editor, status: StatusMessage) -> (r: StatusMessage)
        ensures
            self.spec_token() == editor@.token ==> r == status,
            self.spec_token() != editor@.token ==> r@ == Some("modified"@),
    {
        if self.change_mark.same(&editor.file.change_mark()) {
            status
        } else {
            StatusMessage::text("modified")
        }
    }
}

/// The editor state.
pub struct Editor {
    cursor_x: u16,
    cursor_y: u16,
    columns_offset: u16,
    rows_offset: u16,
    file: File,
    version: EditorVersion,
    selection: EditorSelection,
    line_view: LineView,
}

impl View for Editor {
    type V = EditorModel;

    closed spec fn view(&self) -> EditorModel {
        EditorModel {
            cursor_x: self.cursor_x,
            cursor_y: self.cursor_y,
            columns_offset: self.columns_offset,
            rows_offset: self.rows_offset,
            lines: self.file.spec_lines(),
            changed: self.file.spec_changed(),
            token: self.file.spec_token(),
            path: self.file.spec_path()@,
            anchor: self.selection.spec_anchor(),
            tab: self.line_view.tab(),
        }
    }
}

/// The model after a successful save: unchanged again, and an unnamed buffer now
/// named `untitled.txt`.
pub open spec fn saved(m: EditorModel) -> EditorModel {
    EditorModel {
        changed: false,
        token: 0,
        path: if path_is_unnamed(m.path) { Some(crate::protocol::path::untitled_name()) } else { m.path },
        ..m
    }
}

/// The model after a case rewrite of the selection in `style`.
pub open spec fn case_rewritten(m: EditorModel, style: CaseStyle) -> EditorModel {
    let range = match m.anchor {
        None => ((m.cursor_x, m.cursor_y), (m.cursor_x, m.cursor_y)),
        Some(a) => range_between(m.tab, m.lines, a, (m.cursor_x, m.cursor_y)),
    };
    let res = rewrite_range(m.tab, m.lines, range.0, range.1, style);
    EditorModel {
        lines: res.lines,
        changed: m.changed || res.changed,
        token: if res.changed { next_token(m.token) } else { m.token },
        cursor_x: res.column,
        cursor_y: res.row,
        anchor: None,
        ..m
    }
}

impl Editor {
    pub closed spec fn spec_file(&self) -> File {
        self.file
    }

    /// A fresh editor on `file`: cursor at the origin, no scrolling, no selection,
    /// tabs every four columns.
    pub fn new(file: File) -> (r: Self)
        ensures
            r@.cursor_x == 0 && r@.cursor_y == 0,
            r@.columns_offset == 0 && r@.rows_offset == 0,
            r@.lines == file.spec_lines(),
            r@.changed == file.spec_changed(),
            r@.token == file.spec_token(),
            r@.path == file.spec_path()@,
            r@.anchor is None,
            r@.tab == 4,
            r.spec_file() == file,
    {
        Self {
            cursor_x: 0,
            cursor_y: 0,
            columns_offset: 0,
            rows_offset: 0,
            file,
            version: EditorVersion::current(),
            selection: EditorSelection::new(),
            line_view: LineView::new(4),
        }
    }

    /// A view whose scroll offsets keep the cursor inside the viewport.
    pub fn view_with_scroll(&self, number_of_columns: u16, number_of_rows: u16) -> (r: EditorView<
        '_,
    >)
        ensures
            r.spec_file() == self.spec_file(),
            r.spec_file().spec_lines() == self@.lines,
            r.spec_file().spec_path()@ == self@.path,
            r.spec_cursor_x() == self@.cursor_x,
            r.spec_cursor_y() == self@.cursor_y,
            (r.spec_column_offset(), r.spec_row_offset()) == scrolled(
                self@,
                number_of_columns,
                number_of_rows,
            ),
    {
        let (columns_offset, rows_offset) = self.scroll_offsets_compute(
            number_of_columns,
            number_of_rows,
        );
        EditorView {
            file: &self.file,
            cursor_x: self.cursor_x,
            cursor_y: self.cursor_y,
            columns_offset,
            rows_offset,
        }
    }

    /// Loads the buffer: see `File::read`; `contents` is the text of `read_target()`.
    pub fn file_read(&mut self, contents: &str)
        ensures
            ({
                let f = old(self).spec_file();
                path_is_unnamed(f.spec_path()@) ==> final(self)@.lines == seq![
                    Seq::<char>::empty(),
                ] && final(self)@.path == Some(Seq::<char>::empty())
            }),
            !path_is_unnamed(old(self)@.path) ==> final(self)@.path == old(self)@.path
                && final(self)@.lines == (if text_lines(contents@).len() == 0 {
                seq![Seq::<char>::empty()]
            } else {
                text_lines(contents@)
            }),
            !final(self)@.changed,
            final(self)@.token == 0,
            final(self)@.cursor_x == old(self)@.cursor_x,
            final(self)@.cursor_y == old(self)@.cursor_y,
            final(self)@.tab == old(self)@.tab,
    {
        self.file.read(contents);
    }

    /// The path `read` takes text from, when the buffer names a file.
    pub fn file_read_target(&self) -> (r: Option<String>)
        ensures
            path_is_unnamed(self@.path) ==> r is None,
            !path_is_unnamed(self@.path) ==> (r matches Some(p) && Some(p@) == self@.path),
    {
        self.file.read_target()
    }

    /// Where and what a save writes: the save path and the lines joined by `\n`.
    pub fn file_save_plan(&self) -> (r: (String, String))
        ensures
            r.0@ == if path_is_unnamed(self@.path) {
                crate::protocol::path::untitled_name()
            } else {
                self@.path->0
            },
            r.1@ == join_lines(self@.lines),
    {
        (self.file.save_target(), self.file.save_contents())
    }

    /// Records a successful save: the buffer is unchanged and `file_path` receives the
    /// (possibly new) path; returns the status text `saved`.
    pub fn file_save(&mut self, file_path: &mut FilePath) -> (r: String)
        ensures
            r@ == "saved"@,
            final(self)@ == saved(old(self)@),
            final(file_path)@ == final(self)@.path,
    {
        self.file.mark_saved();
        *file_path = self.file.path();
        String::from_str("saved")
    }

    pub fn file_path(&self) -> (r: FilePath)
        ensures
            r@ == self@.path,
    {
        self.file.path()
    }

    /// `locked` when the file is read-only.
    pub fn message_lock(&self, readonly: bool) -> (r: StatusMessage)
        ensures
            readonly ==> r@ == Some("locked"@),
            !readonly ==> r@ == None::<Seq<char>>,
    {
        self.file.message_lock(readonly)
    }

    pub fn file_lines_snapshot(&self) -> (r: Vec<String>)
        ensures
            r@.map_values(|s: String| s@) == self@.lines,
    {
        self.file.lines_snapshot()
    }

    /// The number of lines of the buffer.
    pub fn line_count(&self) -> (r: usize)
        ensures
            r == self@.lines.len(),
    {
        self.file.line_count()
    }

    /// Replaces the buffer's lines; cursor and change state stay.
    pub fn file_lines_replace(&mut self, lines: Vec<String>)
        ensures
            final(self)@ == (EditorModel {
                lines: if lines@.len() == 0 {
                    seq![Seq::<char>::empty()]
                } else {
                    lines@.map_values(|s: String| s@)
                },
                ..old(self)@
            }),
    {
        self.file.lines_replace(lines);
    }

    /// Sets the cursor without clamping it to the text.
    pub fn cursor_position_store(&mut self, position: CursorPosition)
        ensures
            final(self)@ == (EditorModel {
                cursor_x: position.spec_column(),
                cursor_y: position.spec_row(),
                ..old(self)@
            }),
    {
        self.cursor_x = position.column;
        self.cursor_y = position.row;
    }

    pub fn cursor_position(&self) -> (r: CursorPosition)
        ensures
            r.spec_column() == self@.cursor_x,
            r.spec_row() == self@.cursor_y,
    {
        CursorPosition::new(self.cursor_x, self.cursor_y)
    }

    pub fn change_status(&self) -> (r: FileChange)
        ensures
            r.spec_changed() == self@.changed,
    {
        FileChange { changed: self.file.change_state() }
    }

    pub fn snapshot(&self) -> (r: EditorSnapshot)
        ensures
            r.spec_cursor() == (self@.cursor_x, self@.cursor_y),
            r.spec_offsets() == (self@.columns_offset, self@.rows_offset),
            r.spec_token() == self@.token,
    {
        EditorSnapshot {
            cursor_x: self.cursor_x,
            cursor_y: self.cursor_y,
            columns_offset: self.columns_offset,
            rows_offset: self.rows_offset,
            change_mark: self.file.change_mark(),
        }
    }

    /// Starts a visual selection at the cursor.
    pub fn visual_begin(&mut self)
        ensures
            final(self)@ == (EditorModel {
                anchor: Some((old(self)@.cursor_x, old(self)@.cursor_y)),
                ..old(self)@
            }),
    {
        let position = self.cursor_position();
        self.selection.begin(position);
    }

    /// Ends the visual selection.
    pub fn visual_clear(&mut self)
        ensures
            final(self)@ == (EditorModel { anchor: None, ..old(self)@ }),
    {
        self.selection.clear();
    }

    /// The commands that apply: buffer commands, or selection commands in visual mode.
    pub fn command_scope(&self) -> (r: CommandScope)
        ensures
            r == if self@.anchor is None { CommandScope::Normal } else { CommandScope::Visual },
    {
        self.selection.scope()
    }

    /// How the selection is drawn in `view`.
    pub fn selection_frame(&self, view: &EditorView<'_>, number_of_columns: u16, number_of_rows: u16)
        -> (r: FrameSelection)
        ensures
            r == match self@.anchor {
                None => FrameSelection::Empty,
                Some(a) => {
                    let range = range_between(
                        self@.tab,
                        self@.lines,
                        a,
                        (self@.cursor_x, self@.cursor_y),
                    );
                    range_frame(
                        range.0,
                        range.1,
                        view.spec_row_offset(),
                        view.spec_column_offset(),
                        number_of_columns,
                        number_of_rows,
                    )
                },
            },
    {
        let cursor = self.cursor_position();
        self.selection.frame_selection(
            cursor,
            view,
            number_of_columns,
            number_of_rows,
            &self.file,
            &self.line_view,
        )
    }

    /// Rewrites the selection in `style`, ends it and places the cursor at its start.
    pub fn selection_case(&mut self, style: CaseStyle)
        ensures
            final(self)@ == case_rewritten(old(self)@, style),
    {
        let position = self.cursor_position();
        let placed = self.selection.rewrite(position, &mut self.file, &self.line_view, style);
        self.cursor_x = placed.column;
        self.cursor_y = placed.row;
    }

    pub fn selection_case_kebab(&mut self)
        ensures
            final(self)@ == case_rewritten(old(self)@, CaseStyle::Kebab),
    {
        self.selection_case(CaseStyle::Kebab);
    }

    pub fn selection_case_camel(&mut self)
        ensures
            final(self)@ == case_rewritten(old(self)@, CaseStyle::Camel),
    {
        self.selection_case(CaseStyle::Camel);
    }

    pub fn selection_case_snake(&mut self)
        ensures
            final(self)@ == case_rewritten(old(self)@, CaseStyle::Snake),
    {
        self.selection_case(CaseStyle::Snake);
    }

    pub fn selection_case_screaming_snake(&mut self)
        ensures
            final(self)@ == case_rewritten(old(self)@, CaseStyle::ScreamingSnake),
    {
        self.selection_case(CaseStyle::ScreamingSnake);
    }

    pub fn selection_case_pascal(&mut self)
        ensures
            final(self)@ == case_rewritten(old(self)@, CaseStyle::Pascal),
    {
        self.selection_case(CaseStyle::Pascal);
    }

    pub fn selection_case_train(&mut self)
        ensures
            final(self)@ == case_rewritten(old(self)@, CaseStyle::Train),
    {
        self.selection_case(CaseStyle::Train);
    }

    pub fn selection_case_flat(&mut self)
        ensures
            final(self)@ == case_rewritten(old(self)@, CaseStyle::Flat),
    {
        self.selection_case(CaseStyle::Flat);
    }

    fn scroll_offsets_compute(&self, number_of_columns: u16, number_of_rows: u16) -> (r: (u16, u16))
        ensures
            r == scrolled(self@, number_of_columns, number_of_rows),
    {
        if number_of_rows == 0 {
            return (self.columns_offset, self.rows_offset);
        }
        let mut rows_offset = self.rows_offset;
        let mut columns_offset = self.columns_offset;
        if self.cursor_y < rows_offset {
            rows_offset = self.cursor_y;
        }
        if self.cursor_y >= u16_sat_add(rows_offset, number_of_rows) {
            rows_offset = u16_sat_add(u16_sat_sub(self.cursor_y, number_of_rows), 1);
        }
        if self.cursor_x < columns_offset {
            columns_offset = self.cursor_x;
        }
        if self.cursor_x >= u16_sat_add(columns_offset, number_of_columns) {
            columns_offset = u16_sat_add(u16_sat_sub(self.cursor_x, number_of_columns), 1);
        }
        (columns_offset, rows_offset)
    }

    /// The text rows of `view`: buffer lines as drawn and cut to the viewport, `~`
    /// rows past the end (one carrying the centred welcome message on an empty buffer).
    pub fn rows_render(&self, view: &EditorView<'_>, number_of_columns: u16, number_of_rows: u16)
        -> (r: Vec<String>)
        ensures
            r@.len() == number_of_rows,
            forall|i: int|
                0 <= i < number_of_rows ==> #[trigger] r@[i]@ == rendered_row(
                    self@.tab,
                    view.spec_file().spec_lines(),
                    view.spec_row_offset(),
                    view.spec_column_offset(),
                    number_of_columns,
                    number_of_rows,
                    i as u16,
                ),
    {
        let ghost lines = view.spec_file().spec_lines();
        let file = view.file_ref();
        let mut rows: Vec<String> = Vec::new();
        let mut row_number: u16 = 0;
        while row_number < number_of_rows
            invariant
                row_number <= number_of_rows,
                rows@.len() == row_number,
                lines == file.spec_lines(),
                lines == view.spec_file().spec_lines(),
                forall|i: int|
                    0 <= i < row_number ==> #[trigger] rows@[i]@ == rendered_row(
                        self@.tab,
                        lines,
                        view.spec_row_offset(),
                        view.spec_column_offset(),
                        number_of_columns,
                        number_of_rows,
                        i as u16,
                    ),
            decreases number_of_rows - row_number,
        {
            let file_line_number = u16_sat_add(row_number, view.row_offset()) as usize;
            if file_line_number >= file.line_count() {
                let mut line: Vec<char> = Vec::new();
                line.push('~');
                let welcome = self.welcome_line(file, number_of_columns, row_number, number_of_rows);
                extend_chars(&mut line, welcome.as_slice());
                if line.len() > number_of_columns as usize {
                    line.truncate(number_of_columns as usize);
                }
                assert(line@ =~= tilde_row(lines, number_of_columns, row_number, number_of_rows));
                rows.push(string_from_chars(line.as_slice()));
            } else {
                let file_line = file.line_at(file_line_number);
                let displayable = self.line_view.displayable_line(file_line.as_slice());
                let len = displayable.len();
                let left = view.column_offset() as usize;
                let a: usize = if left > len { len } else { left };
                let b: usize = if left + number_of_columns as usize > len {
                    len
                } else {
                    left + number_of_columns as usize
                };
                let slice = copy_range(displayable.as_slice(), a, b);
                rows.push(string_from_chars(slice.as_slice()));
            }
            row_number += 1;
        }
        rows
    }

    fn welcome_line(&self, file: &File, number_of_columns: u16, row_number: u16, number_of_rows: u16)
        -> (r: Vec<char>)
        ensures
            r@ == welcome_line(file.spec_lines(), number_of_columns, row_number, number_of_rows),
    {
        if row_number != number_of_rows / 3 {
            return Vec::new();
        }
        let mut found_text = false;
        let mut index: usize = 0;
        let total = file.line_count();
        while index < total
            invariant
                total == file.spec_lines().len(),
                0 <= index <= total,
                found_text == exists|i: int| 0 <= i < index && file.spec_lines()[i].len() > 0,
            decreases total - index,
        {
            if file.line_at(index).len() > 0 {
                found_text = true;
            }
            index += 1;
        }
        if found_text {
            return Vec::new();
        }
        let mut text = String::from_str("VimRust -- version ");
        let version = EditorVersion::current();
        version.append_to(&mut text);
        let mut welcome = chars_of(text.as_str());
        assert(welcome@ == welcome_text());
        if welcome.len() > number_of_columns as usize {
            welcome.truncate(number_of_columns as usize);
        }
        let padding: u16 = u16_sat_sub(number_of_columns, welcome.len() as u16) / 2;
        let mut line: Vec<char> = Vec::new();
        if padding > 1 {
            let mut count: u16 = 0;
            while count < padding - 1
                invariant
                    padding > 1,
                    count <= padding - 1,
                    line@ == spaces(count as nat),
                decreases padding - 1 - count,
            {
                line.push(' ');
                count += 1;
                assert(line@ =~= spaces(count as nat));
            }
        }
        extend_chars(&mut line, welcome.as_slice());
        assert(line@ =~= welcome_line(file.spec_lines(), number_of_columns, row_number, number_of_rows));
        line
    }

    /// Moves the cursor; `usable_rows` is the number of text rows on screen.
    pub fn cursor_move(&mut self, direction: MoveDirection, usable_rows: u16)
        ensures
            final(self)@ == moved(old(self)@, direction, usable_rows),
    {
        let file_lines_len: u16 = self.file.line_total();
        let has_line = (self.cursor_y as usize) < self.file.line_count();
        match direction {
            MoveDirection::Left => {
                if has_line {
                    self.cursor_x = self.line_view.column_previous_render(
                        self.file.line_at(self.cursor_y as usize).as_slice(),
                        self.cursor_x,
                    );
                } else {
                    self.cursor_x = u16_sat_sub(self.cursor_x, 1);
                }
            },
            MoveDirection::Right => {
                if has_line {
                    self.cursor_x = self.line_view.column_next_render(
                        self.file.line_at(self.cursor_y as usize).as_slice(),
                        self.cursor_x,
                    );
                } else {
                    self.cursor_x = u16_sat_add(self.cursor_x, 1);
                }
            },
            MoveDirection::Home => {
                self.cursor_x = 0;
            },
            MoveDirection::End => {
                self.cursor_x = self.file_line_length(self.cursor_y);
            },
            MoveDirection::Up => {
                self.cursor_y = u16_sat_sub(self.cursor_y, 1);
            },
            MoveDirection::Down => {
                self.cursor_y = u16_sat_add(self.cursor_y, 1);
            },
            MoveDirection::PageUp => {
                if usable_rows == 0 {
                    self.cursor_y = 0;
                    self.rows_offset = 0;
                } else {
                    let new_cursor_y = u16_sat_sub(self.cursor_y, usable_rows);
                    let doubled: u16 = if usable_rows > 0x7fff { u16::MAX } else { usable_rows * 2 };
                    let lower_third = doubled / 3;
                    let new_offset = u16_sat_sub(new_cursor_y, lower_third);
                    self.cursor_y = new_cursor_y;
                    self.rows_offset = new_offset;
                }
            },
            MoveDirection::PageDown => {
                if usable_rows == 0 {
                    self.cursor_y = file_lines_len;
                } else {
                    let advanced = u16_sat_add(self.cursor_y, usable_rows);
                    let new_cursor_y = if advanced > file_lines_len {
                        file_lines_len
                    } else {
                        advanced
                    };
                    let upper_third = usable_rows / 3;
                    let new_offset = u16_sat_sub(new_cursor_y, upper_third);
                    self.cursor_y = new_cursor_y;
                    self.rows_offset = new_offset;
                }
            },
        }
        self.settle(file_lines_len);
    }

    fn settle(&mut self, limit: u16)
        ensures
            final(self)@ == settle_cursor(old(self)@, limit),
    {
        if self.cursor_y > limit {
            self.cursor_y = limit;
        }
        let line_length = self.file_line_length(self.cursor_y);
        if self.cursor_x > line_length {
            self.cursor_x = line_length;
        }
        if (self.cursor_y as usize) < self.file.line_count() {
            self.cursor_x = self.line_view.snap_cursor_to_render_character(
                self.file.line_at(self.cursor_y as usize).as_slice(),
                self.cursor_x,
            );
        }
    }

    /// Places the cursor at `position`, clamped onto the text.
    pub fn cursor_place(&mut self, position: CursorPosition)
        ensures
            final(self)@ == placed(old(self)@, position.spec_column(), position.spec_row()),
    {
        self.cursor_x = position.column;
        self.cursor_y = position.row;
        let count = self.file.line_count();
        let max_row: u16 = if count == 0 {
            0
        } else if count - 1 > 0xffff {
            u16::MAX
        } else {
            (count - 1) as u16
        };
        self.settle(max_row);
    }

    /// Types `ch` at the cursor (adding lines up to the cursor's when needed).
    pub fn char_insert(&mut self, ch: char)
        requires
            old(self)@.lines.len() < usize::MAX,
        ensures
            final(self)@ == char_inserted(old(self)@, ch),
    {
        let target_line = self.cursor_y as usize;
        self.file.line_ensure(target_line);
        let mut line = self.file.line_at(target_line).clone();
        let insert_at = self.line_view.column_to_char_index_render(line.as_slice(), self.cursor_x);
        let advance = self.line_view.char_render_width(ch, self.cursor_x);
        let ghost before = line@;
        line.insert(insert_at, ch);
        self.file.line_set(target_line, line);
        self.cursor_x = u16_sat_add(self.cursor_x, advance);
        self.file.touch();
    }

    /// Splits the cursor's line at the cursor and moves to the start of the new line.
    pub fn line_break(&mut self)
        requires
            old(self)@.lines.len() < usize::MAX,
        ensures
            final(self)@ == line_broken(old(self)@),
    {
        let target_line = self.cursor_y as usize;
        self.file.line_ensure(target_line);
        let line = self.file.line_at(target_line).clone();
        let split_at = self.line_view.column_to_char_index_render(line.as_slice(), self.cursor_x);
        let head = copy_range(line.as_slice(), 0, split_at);
        let remainder = copy_range(line.as_slice(), split_at, line.len());
        assert(head@ =~= line@.take(split_at as int));
        assert(remainder@ =~= line@.skip(split_at as int));
        self.file.line_set(target_line, head);
        self.file.line_insert(target_line + 1, remainder);
        self.cursor_y = u16_sat_add(self.cursor_y, 1);
        self.cursor_x = 0;
        self.file.touch();
    }

    /// Deletes the character before the cursor; at column zero joins the line to the
    /// previous one.
    pub fn backspace_delete(&mut self)
        ensures
            final(self)@ == backspaced(old(self)@),
    {
        if self.cursor_x == 0 && self.cursor_y == 0 {
            return;
        }
        if self.cursor_x == 0 {
            let current_index = self.cursor_y as usize;
            if current_index == 0 || current_index >= self.file.line_count() {
                return;
            }
            let current_line = self.file.line_at(current_index).clone();
            let mut previous = self.file.line_at(current_index - 1).clone();
            let new_cursor_x = self.line_view.visual_line_length(previous.as_slice());
            extend_chars(&mut previous, current_line.as_slice());
            self.file.line_set(current_index - 1, previous);
            self.file.line_remove(current_index);
            self.cursor_y = self.cursor_y - 1;
            self.cursor_x = new_cursor_x;
            self.file.touch();
            return;
        }
        if (self.cursor_y as usize) >= self.file.line_count() {
            return;
        }
        let mut line = self.file.line_at(self.cursor_y as usize).clone();
        let new_cursor_x = self.line_view.column_previous_render(line.as_slice(), self.cursor_x);
        let delete_idx = self.line_view.column_to_char_index_render(line.as_slice(), new_cursor_x);
        if delete_idx < line.len() {
            line.remove(delete_idx);
            self.file.line_set(self.cursor_y as usize, line);
            self.cursor_x = new_cursor_x;
            self.file.touch();
        }
    }

    /// Deletes the character under the cursor; at the end of a line joins the next line.
    pub fn under_cursor_delete(&mut self)
        ensures
            final(self)@ == deleted_under(old(self)@),
    {
        let current_index = self.cursor_y as usize;
        if current_index >= self.file.line_count() {
            return;
        }
        let mut line = self.file.line_at(current_index).clone();
        let delete_idx = self.line_view.column_to_char_index_render(line.as_slice(), self.cursor_x);
        if delete_idx < line.len() {
            line.remove(delete_idx);
            self.file.line_set(current_index, line);
            self.file.touch();
            return;
        }
        if current_index + 1 < self.file.line_count() {
            let next_line = self.file.line_at(current_index + 1).clone();
            extend_chars(&mut line, next_line.as_slice());
            self.file.line_set(current_index, line);
            self.file.line_remove(current_index + 1);
            self.file.touch();
        }
    }

    /// Moves the cursor to the start of the tab it is on.
    pub fn snap_cursor_to_tab_start(&mut self)
        ensures
            final(self)@ == snapped_to_tab(old(self)@),
    {
        if (self.cursor_y as usize) < self.file.line_count() {
            let start = self.line_view.tab_segment_start(
                self.file.line_at(self.cursor_y as usize).as_slice(),
                self.cursor_x,
            );
            start.apply(&mut self.cursor_x);
        }
    }

    fn file_line_length(&self, cursor_y: u16) -> (r: u16)
        ensures
            r == file_line_length(self@, cursor_y),
    {
        let line_index = cursor_y as usize;
        if line_index >= self.file.line_count() {
            return 0;
        }
        self.line_view.line_length(self.file.line_at(line_index).as_slice())
    }
}

} // verus!
