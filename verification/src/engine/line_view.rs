//! How a line of text is laid out on screen: tabs expand to the next tab stop,
//! control characters render as four-column `<XX>` escapes, everything else takes one column.
//! Columns are `u16` and every column addition saturates at `u16::MAX`.
use vstd::prelude::*;

verus! {

/// `a + b`, saturated at `u16::MAX`.
pub open spec fn sat_add(a: u16, b: u16) -> u16 {
    if a + b > u16::MAX as int { u16::MAX } else { (a + b) as u16 }
}

/// `a - b`, saturated at zero.
pub open spec fn sat_sub(a: u16, b: u16) -> u16 {
    if a < b { 0 } else { (a - b) as u16 }
}

pub fn u16_sat_add(a: u16, b: u16) -> (r: u16)
    ensures
        r == sat_add(a, b),
{
    if a as u32 + b as u32 > 0xffff { u16::MAX } else { a + b }
}

pub fn u16_sat_sub(a: u16, b: u16) -> (r: u16)
    ensures
        r == sat_sub(a, b),
{
    if a < b { 0 } else { a - b }
}

/// Columns a tab advances when it starts at `column`, for a tab stop of `size`
/// (a size of zero behaves as one).
pub open spec fn tab_advance(size: u16, column: u16) -> u16 {
    let tab_size: u16 = if size == 0 { 1 } else { size };
    (tab_size - column % tab_size) as u16
}

/// Control characters (U+0000..=U+001F and U+007F) render as a four-column escape.
pub open spec fn is_control(c: char) -> bool {
    (c as u32) <= 0x1f || (c as u32) == 0x7f
}

/// Render width of `c` when it starts at `column`.
pub open spec fn char_width(tab: u16, c: char, column: u16) -> u16 {
    if c == '\t' {
        tab_advance(tab, column)
    } else if is_control(c) {
        4
    } else {
        1
    }
}

/// The render column reached after the first `n` characters of `line`.
pub open spec fn col_after(tab: u16, line: Seq<char>, n: int) -> u16
    decreases n,
{
    if n <= 0 {
        0
    } else {
        let p = col_after(tab, line, n - 1);
        sat_add(p, char_width(tab, line[n - 1], p))
    }
}

/// Render column where character `i` starts.
pub open spec fn seg_start(tab: u16, line: Seq<char>, i: int) -> u16 {
    col_after(tab, line, i)
}

/// Render column just past character `i`.
pub open spec fn seg_end(tab: u16, line: Seq<char>, i: int) -> u16 {
    col_after(tab, line, i + 1)
}

/// The column a cursor stops at inside character `i`: the last column of a tab,
/// the first column of anything else.
pub open spec fn seg_stop(tab: u16, line: Seq<char>, i: int) -> u16 {
    if line[i] == '\t' {
        sat_sub(seg_end(tab, line, i), 1)
    } else {
        seg_start(tab, line, i)
    }
}

/// Render length of the whole line.
pub open spec fn line_len(tab: u16, line: Seq<char>) -> u16 {
    col_after(tab, line, line.len() as int)
}

/// The largest stop strictly left of `x` among the first `n` characters, or zero.
pub open spec fn prev_best(tab: u16, line: Seq<char>, x: u16, n: int) -> u16
    decreases n,
{
    if n <= 0 {
        0
    } else {
        let b = prev_best(tab, line, x, n - 1);
        let s = seg_stop(tab, line, n - 1);
        if s < x && s >= b { s } else { b }
    }
}

/// Where the cursor lands moving one step left from `x`.
pub open spec fn column_previous(tab: u16, line: Seq<char>, x: u16) -> u16 {
    prev_best(tab, line, x, line.len() as int)
}

/// The stop of the character after `i`, or the end of `i` when `i` is last.
pub open spec fn stop_after(tab: u16, line: Seq<char>, i: int) -> u16 {
    if i + 1 < line.len() {
        seg_stop(tab, line, i + 1)
    } else {
        seg_end(tab, line, i)
    }
}

/// Scans characters from `i` for the first one whose end lies right of `x`.
pub open spec fn next_from(tab: u16, line: Seq<char>, x: u16, i: int) -> u16
    decreases line.len() - i,
{
    if i < 0 || i >= line.len() {
        if line.len() == 0 { 0 } else { seg_end(tab, line, line.len() - 1) }
    } else {
        let start = seg_start(tab, line, i);
        let end = seg_end(tab, line, i);
        if x < start {
            seg_stop(tab, line, i)
        } else if x < end {
            if line[i] == '\t' {
                let target = sat_sub(end, 1);
                if x < target { target } else { stop_after(tab, line, i) }
            } else if i + 1 < line.len() && line[i + 1] == '\t' {
                seg_stop(tab, line, i + 1)
            } else {
                end
            }
        } else {
            next_from(tab, line, x, i + 1)
        }
    }
}

/// Where the cursor lands moving one step right from `x`.
pub open spec fn column_next(tab: u16, line: Seq<char>, x: u16) -> u16 {
    next_from(tab, line, x, 0)
}

/// Scans from `i` for the character under column `c` (already clamped to the line length).
pub open spec fn snap_from(tab: u16, line: Seq<char>, c: u16, i: int) -> u16
    decreases line.len() - i,
{
    if i < 0 || i >= line.len() {
        c
    } else {
        let start = seg_start(tab, line, i);
        let end = seg_end(tab, line, i);
        if c >= start && c < end {
            if line[i] == '\t' { sat_sub(end, 1) } else { start }
        } else if c == line_len(tab, line) && i == line.len() - 1 {
            if line[i] == '\t' {
                sat_sub(end, 1)
            } else if is_control(line[i]) {
                start
            } else {
                c
            }
        } else {
            snap_from(tab, line, c, i + 1)
        }
    }
}

/// The column a cursor at `x` is drawn at: clamped to the line and moved onto the
/// stop of the character it falls in.
pub open spec fn snap_column(tab: u16, line: Seq<char>, x: u16) -> u16 {
    if line.len() == 0 {
        0
    } else {
        let c = if x < line_len(tab, line) { x } else { line_len(tab, line) };
        snap_from(tab, line, c, 0)
    }
}

/// Scans from `i` for the character that column `x` belongs to.
pub open spec fn index_from(tab: u16, line: Seq<char>, x: u16, i: int) -> int
    decreases line.len() - i,
{
    if i < 0 || i >= line.len() {
        line.len() as int
    } else if x <= seg_start(tab, line, i) || x < seg_end(tab, line, i) {
        i
    } else {
        index_from(tab, line, x, i + 1)
    }
}

/// Index of the character under render column `x`, or the line length past the end.
pub open spec fn char_index(tab: u16, line: Seq<char>, x: u16) -> int {
    index_from(tab, line, x, 0)
}

/// Scans from `i` for a tab whose columns contain `x`.
pub open spec fn tab_start_from(tab: u16, line: Seq<char>, x: u16, i: int) -> Option<u16>
    decreases line.len() - i,
{
    if i < 0 || i >= line.len() {
        None
    } else if x >= seg_start(tab, line, i) && x < seg_end(tab, line, i) && line[i] == '\t' {
        Some(seg_start(tab, line, i))
    } else {
        tab_start_from(tab, line, x, i + 1)
    }
}

proof fn lemma_char_width_positive(tab: u16, c: char, column: u16)
    ensures
        char_width(tab, c, column) >= 1,
{
    let size: u16 = if tab == 0 { 1 } else { tab };
    assert(column % size < size);
}

/// Columns never go back along a line.
pub proof fn lemma_col_after_mono(tab: u16, line: Seq<char>, i: int, j: int)
    requires
        0 <= i <= j,
    ensures
        col_after(tab, line, i) <= col_after(tab, line, j),
    decreases j,
{
    if i < j {
        lemma_col_after_mono(tab, line, i, j - 1);
    }
}

/// Before the columns saturate, every character moves them forward.
proof fn lemma_col_after_strict(tab: u16, line: Seq<char>, i: int, j: int)
    requires
        0 <= i < j,
        col_after(tab, line, j) < u16::MAX,
    ensures
        col_after(tab, line, i) < col_after(tab, line, j),
    decreases j,
{
    lemma_char_width_positive(tab, line[j - 1], col_after(tab, line, j - 1));
    lemma_col_after_mono(tab, line, j - 1, j);
    if i < j - 1 {
        lemma_col_after_strict(tab, line, i, j - 1);
    }
}

/// Scanning from character `i` (at or left of `c`), the snapped column lies between
/// the start of `i` and the line's end, and snapping it again from `i` keeps it.
proof fn lemma_snap_from_stable(tab: u16, line: Seq<char>, c: u16, i: int)
    requires
        line.len() > 0,
        0 <= i <= line.len(),
        c <= line_len(tab, line),
        line_len(tab, line) < u16::MAX,
        col_after(tab, line, i) <= c,
    ensures
        snap_from(tab, line, c, i) <= line_len(tab, line),
        col_after(tab, line, i) <= snap_from(tab, line, c, i),
        snap_from(tab, line, snap_from(tab, line, c, i), i) == snap_from(tab, line, c, i),
    decreases line.len() - i,
{
    if i < line.len() {
        let n = line.len() as int;
        lemma_col_after_mono(tab, line, i + 1, n);
        lemma_col_after_strict(tab, line, i, i + 1);
        let start = seg_start(tab, line, i);
        let end = seg_end(tab, line, i);
        if c >= start && c < end {
        } else if c == line_len(tab, line) && i == n - 1 {
        } else {
            lemma_snap_from_stable(tab, line, c, i + 1);
        }
    }
}

/// Snapping a column never passes the line's end, and a snapped column snaps to
/// itself, on a line narrower than `u16::MAX` columns.
pub proof fn lemma_snap_column_stable(tab: u16, line: Seq<char>, x: u16)
    requires
        line_len(tab, line) < u16::MAX,
    ensures
        snap_column(tab, line, x) <= line_len(tab, line),
        snap_column(tab, line, snap_column(tab, line, x)) == snap_column(tab, line, x),
{
    if line.len() > 0 {
        let c = if x < line_len(tab, line) { x } else { line_len(tab, line) };
        lemma_snap_from_stable(tab, line, c, 0);
    }
}

/// Columns of a prefix do not depend on what follows it.
proof fn lemma_col_after_shared_prefix(tab: u16, a: Seq<char>, b: Seq<char>, n: int)
    requires
        0 <= n <= a.len(),
        n <= b.len(),
        forall|k: int| 0 <= k < n ==> a[k] == b[k],
    ensures
        col_after(tab, a, n) == col_after(tab, b, n),
    decreases n,
{
    if n > 0 {
        lemma_col_after_shared_prefix(tab, a, b, n - 1);
    }
}

/// A one-column character typed at the start of character `at` (column `x`): moving
/// one step left from just after it lands on it, at column `x`.
pub proof fn lemma_step_back_over_typed(tab: u16, line: Seq<char>, at: int, ch: char)
    requires
        0 <= at <= line.len(),
        ch != '\t',
        !is_control(ch),
        col_after(tab, line, at) < u16::MAX - 1,
    ensures
        ({
            let typed = line.insert(at, ch);
            let x = col_after(tab, line, at);
            &&& col_after(tab, typed, at) == x
            &&& col_after(tab, typed, at + 1) == x + 1
            &&& column_previous(tab, typed, (x + 1) as u16) == x
            &&& char_index(tab, typed, x) == at
            &&& char_index(tab, line, x) == at
        }),
{
    let typed = line.insert(at, ch);
    let x = col_after(tab, line, at);
    let big = (x + 1) as u16;
    lemma_col_after_shared_prefix(tab, line, typed, at);
    assert(col_after(tab, typed, at + 1) == x + 1);
    // Every character before `at` ends by column `x` and starts before it.
    assert forall|i: int| 0 <= i < at implies #[trigger] seg_start(tab, typed, i) < x && seg_end(tab, typed, i) <= x by {
        lemma_col_after_strict(tab, typed, i, at);
        lemma_col_after_mono(tab, typed, i + 1, at);
    }
    // Stops before `at` lie left of `x`.
    assert forall|i: int| 0 <= i < at implies #[trigger] seg_stop(tab, typed, i) < x by {
        lemma_col_after_strict(tab, typed, i, at);
        lemma_col_after_mono(tab, typed, i + 1, at);
    }
    // Stops after the typed character lie right of it.
    assert forall|i: int| at < i < typed.len() implies #[trigger] seg_stop(tab, typed, i) >= big by {
        lemma_col_after_mono(tab, typed, at + 1, i);
        lemma_char_width_positive(tab, typed[i], col_after(tab, typed, i));
    }
    lemma_prev_best_before(tab, typed, big, at, x as int);
    assert(prev_best(tab, typed, big, at + 1) == x);
    lemma_prev_best_after(tab, typed, big, at + 1, typed.len() as int, x);
    lemma_index_before(tab, typed, x, at, 0);
    assert forall|k: int| 0 <= k < at implies #[trigger] seg_start(tab, line, k) < x && seg_end(tab, line, k) <= x by {
        lemma_col_after_strict(tab, line, k, at);
        lemma_col_after_mono(tab, line, k + 1, at);
    }
    if at < line.len() {
        lemma_index_before(tab, line, x, at, 0);
    } else {
        lemma_index_none(tab, line, x, 0);
    }
}

/// A column inside character `i` (from its start up to, not including, its end) is
/// the column of character `i`.
pub proof fn lemma_char_index_of_column(tab: u16, line: Seq<char>, i: int, x: u16)
    requires
        0 <= i < line.len(),
        col_after(tab, line, i) <= x < col_after(tab, line, i + 1),
    ensures
        char_index(tab, line, x) == i,
{
    assert forall|k: int| 0 <= k < i implies #[trigger] seg_start(tab, line, k) < x && seg_end(tab, line, k) <= x by {
        lemma_col_after_strict(tab, line, k, i);
        lemma_col_after_mono(tab, line, k + 1, i);
    }
    lemma_index_within(tab, line, x, i, 0);
}

/// A column at or past the line's end falls on no character.
pub proof fn lemma_char_index_past_end(tab: u16, line: Seq<char>, x: u16)
    requires
        line_len(tab, line) <= x,
        line_len(tab, line) < u16::MAX,
    ensures
        char_index(tab, line, x) == line.len(),
{
    let n = line.len() as int;
    assert forall|k: int| 0 <= k < n implies #[trigger] seg_start(tab, line, k) < x && seg_end(tab, line, k) <= x by {
        lemma_col_after_strict(tab, line, k, n);
        lemma_col_after_mono(tab, line, k + 1, n);
    }
    lemma_index_none(tab, line, x, 0);
}

proof fn lemma_index_within(tab: u16, line: Seq<char>, x: u16, at: int, i: int)
    requires
        0 <= i <= at < line.len(),
        seg_start(tab, line, at) <= x < seg_end(tab, line, at),
        forall|k: int| 0 <= k < at ==> #[trigger] seg_start(tab, line, k) < x && seg_end(tab, line, k) <= x,
    ensures
        index_from(tab, line, x, i) == at,
    decreases at - i,
{
    if i < at {
        lemma_index_within(tab, line, x, at, i + 1);
    }
}

/// Moving left from the start of character `i` lands on the start of character `i - 1`
/// when that one is not a tab (a tab is entered at its last column).
pub proof fn lemma_step_left_to_previous_start(tab: u16, line: Seq<char>, i: int)
    requires
        0 < i <= line.len(),
        line[i - 1] != '\t',
        col_after(tab, line, i) < u16::MAX,
    ensures
        column_previous(tab, line, col_after(tab, line, i)) == col_after(tab, line, i - 1),
        col_after(tab, line, i - 1) < col_after(tab, line, i),
{
    let big = col_after(tab, line, i);
    let x = col_after(tab, line, i - 1);
    lemma_col_after_strict(tab, line, i - 1, i);
    assert forall|k: int| 0 <= k < i - 1 implies #[trigger] seg_stop(tab, line, k) < x by {
        lemma_col_after_strict(tab, line, k, i - 1);
        lemma_col_after_mono(tab, line, k + 1, i - 1);
        lemma_col_after_strict(tab, line, k, k + 1);
    }
    lemma_prev_best_before(tab, line, big, i - 1, x as int);
    assert(prev_best(tab, line, big, i) == x);
    assert forall|k: int| i <= k < line.len() implies #[trigger] seg_stop(tab, line, k) >= big by {
        lemma_col_after_mono(tab, line, i, k);
        lemma_col_after_mono(tab, line, k, k + 1);
        lemma_char_width_positive(tab, line[k], col_after(tab, line, k));
    }
    lemma_prev_best_after(tab, line, big, i, line.len() as int, x);
}

/// Moving right from the start of character `i`, neither it nor the next one being a
/// tab, lands on the start of character `i + 1`.
pub proof fn lemma_step_right_to_next_start(tab: u16, line: Seq<char>, i: int)
    requires
        0 <= i,
        i + 1 < line.len(),
        line[i] != '\t',
        line[i + 1] != '\t',
        col_after(tab, line, i + 1) < u16::MAX,
    ensures
        column_next(tab, line, col_after(tab, line, i)) == col_after(tab, line, i + 1),
        col_after(tab, line, i) < col_after(tab, line, i + 1),
{
    lemma_col_after_strict(tab, line, i, i + 1);
    lemma_next_from_at(tab, line, i, 0);
}

proof fn lemma_next_from_at(tab: u16, line: Seq<char>, i: int, k: int)
    requires
        0 <= k <= i,
        i + 1 < line.len(),
        line[i] != '\t',
        line[i + 1] != '\t',
        col_after(tab, line, i) < col_after(tab, line, i + 1),
        col_after(tab, line, i + 1) < u16::MAX,
    ensures
        next_from(tab, line, col_after(tab, line, i), k) == col_after(tab, line, i + 1),
    decreases i - k,
{
    if k < i {
        lemma_col_after_mono(tab, line, k, i);
        lemma_col_after_mono(tab, line, k + 1, i);
        lemma_next_from_at(tab, line, i, k + 1);
    }
}

/// The start column of a character other than a tab is where the cursor is drawn.
pub proof fn lemma_snap_at_start(tab: u16, line: Seq<char>, j: int)
    requires
        0 <= j < line.len(),
        line[j] != '\t',
        col_after(tab, line, j + 1) < u16::MAX,
    ensures
        snap_column(tab, line, col_after(tab, line, j)) == col_after(tab, line, j),
{
    let c = col_after(tab, line, j);
    lemma_col_after_strict(tab, line, j, j + 1);
    lemma_col_after_mono(tab, line, j + 1, line.len() as int);
    lemma_snap_from_at(tab, line, c, j, 0);
}

proof fn lemma_snap_from_at(tab: u16, line: Seq<char>, c: u16, j: int, i: int)
    requires
        0 <= i <= j < line.len(),
        line[j] != '\t',
        c == col_after(tab, line, j),
        c < col_after(tab, line, j + 1),
    ensures
        snap_from(tab, line, c, i) == c,
    decreases j - i,
{
    if i < j {
        lemma_col_after_mono(tab, line, i + 1, j);
        lemma_snap_from_at(tab, line, c, j, i + 1);
    }
}

/// On a line of one-column characters (no tab, no control character) character `n`
/// starts at column `n`.
pub proof fn lemma_plain_columns(tab: u16, line: Seq<char>, n: int)
    requires
        0 <= n <= line.len(),
        col_after(tab, line, n) < u16::MAX,
        forall|k: int| 0 <= k < n ==> #[trigger] line[k] != '\t' && !is_control(line[k]),
    ensures
        col_after(tab, line, n) == n,
    decreases n,
{
    if n > 0 {
        lemma_col_after_mono(tab, line, n - 1, n);
        lemma_plain_columns(tab, line, n - 1);
    }
}

proof fn lemma_index_none(tab: u16, line: Seq<char>, x: u16, i: int)
    requires
        0 <= i <= line.len(),
        forall|k: int| 0 <= k < line.len() ==> #[trigger] seg_start(tab, line, k) < x && seg_end(tab, line, k) <= x,
    ensures
        index_from(tab, line, x, i) == line.len(),
    decreases line.len() - i,
{
    if i < line.len() {
        lemma_index_none(tab, line, x, i + 1);
    }
}

proof fn lemma_prev_best_before(tab: u16, line: Seq<char>, big: u16, n: int, x: int)
    requires
        0 <= n,
        n <= line.len(),
        forall|i: int| 0 <= i < n ==> #[trigger] seg_stop(tab, line, i) < x,
        0 <= x,
    ensures
        prev_best(tab, line, big, n) <= x,
    decreases n,
{
    if n > 0 {
        lemma_prev_best_before(tab, line, big, n - 1, x);
    }
}

proof fn lemma_prev_best_after(tab: u16, line: Seq<char>, big: u16, from: int, n: int, best: u16)
    requires
        0 <= from <= n <= line.len(),
        prev_best(tab, line, big, from) == best,
        forall|i: int| from <= i < line.len() ==> #[trigger] seg_stop(tab, line, i) >= big,
    ensures
        prev_best(tab, line, big, n) == best,
    decreases n - from,
{
    if from < n {
        lemma_prev_best_after(tab, line, big, from + 1, n, best);
    }
}

proof fn lemma_index_before(tab: u16, line: Seq<char>, x: u16, at: int, i: int)
    requires
        0 <= i <= at < line.len(),
        seg_start(tab, line, at) == x,
        forall|k: int| 0 <= k < at ==> #[trigger] seg_start(tab, line, k) < x && seg_end(tab, line, k) <= x,
    ensures
        index_from(tab, line, x, i) == at,
    decreases at - i,
{
    if i < at {
        lemma_index_before(tab, line, x, at, i + 1);
    }
}

/// Uppercase hexadecimal digit for `d` in `0..16`.
pub open spec fn hex_digit(d: u32) -> char {
    if d == 0 { '0' } else if d == 1 { '1' } else if d == 2 { '2' } else if d == 3 { '3' }
    else if d == 4 { '4' } else if d == 5 { '5' } else if d == 6 { '6' } else if d == 7 { '7' }
    else if d == 8 { '8' } else if d == 9 { '9' } else if d == 10 { 'A' } else if d == 11 { 'B' }
    else if d == 12 { 'C' } else if d == 13 { 'D' } else if d == 14 { 'E' } else { 'F' }
}

/// How character `c` starting at `column` is drawn.
pub open spec fn expand(tab: u16, c: char, column: u16) -> Seq<char> {
    if c == '\t' {
        Seq::new(tab_advance(tab, column) as nat, |k: int| ' ')
    } else if is_control(c) {
        seq!['<', hex_digit((c as u32) / 16), hex_digit((c as u32) % 16), '>']
    } else {
        seq![c]
    }
}

/// How the first `n` characters of `line` are drawn.
pub open spec fn display_prefix(tab: u16, line: Seq<char>, n: int) -> Seq<char>
    decreases n,
{
    if n <= 0 {
        Seq::empty()
    } else {
        display_prefix(tab, line, n - 1) + expand(tab, line[n - 1], col_after(tab, line, n - 1))
    }
}

/// How the whole line is drawn.
pub open spec fn display(tab: u16, line: Seq<char>) -> Seq<char> {
    display_prefix(tab, line, line.len() as int)
}

fn hex_upper(d: u32) -> (c: char)
    requires
        d < 16,
    ensures
        c == hex_digit(d),
{
    if d == 0 { '0' } else if d == 1 { '1' } else if d == 2 { '2' } else if d == 3 { '3' }
    else if d == 4 { '4' } else if d == 5 { '5' } else if d == 6 { '6' } else if d == 7 { '7' }
    else if d == 8 { '8' } else if d == 9 { '9' } else if d == 10 { 'A' } else if d == 11 { 'B' }
    else if d == 12 { 'C' } else if d == 13 { 'D' } else if d == 14 { 'E' } else { 'F' }
}

/// A tab stop width.
#[derive(Clone, Copy)]
pub struct TabStop {
    size: u16,
}

impl TabStop {
    pub closed spec fn spec_size(&self) -> u16 {
        self.size
    }

    pub fn new(size: u16) -> (t: Self)
        ensures
            t.spec_size() == size,
    {
        Self { size }
    }

    pub fn advance_width(&self, column: u16) -> (w: u16)
        ensures
            w == tab_advance(self.spec_size(), column),
            w >= 1,
    {
        let tab_size: u16 = if self.size == 0 { 1 } else { self.size };
        let offset: u16 = column % tab_size;
        tab_size - offset
    }
}

/// The start column of a tab under the cursor, if there is one.
pub struct TabSegmentStart {
    column: u16,
}

impl TabSegmentStart {
    pub closed spec fn spec_column(&self) -> u16 {
        self.column
    }

    fn empty() -> (s: Self)
        ensures
            s.spec_column() == u16::MAX,
    {
        Self { column: u16::MAX }
    }

    fn at(column: u16) -> (s: Self)
        ensures
            s.spec_column() == column,
    {
        Self { column }
    }

    /// Moves `cursor` onto the recorded start, when one was found.
    pub fn apply(&self, cursor: &mut u16)
        ensures
            *final(cursor) == if self.spec_column() != u16::MAX {
                self.spec_column()
            } else {
                *old(cursor)
            },
    {
        if self.column != u16::MAX {
            *cursor = self.column;
        }
    }
}

/// Layout rules for one line of text.
pub struct LineView {
    tab_stop: TabStop,
}

impl LineView {
    /// The tab stop width this view lays lines out with.
    pub closed spec fn tab(&self) -> u16 {
        self.tab_stop.spec_size()
    }

    pub fn new(tab_size: u16) -> (v: Self)
        ensures
            v.tab() == tab_size,
    {
        Self { tab_stop: TabStop::new(tab_size) }
    }

    pub fn char_render_width(&self, character: char, column: u16) -> (w: u16)
        ensures
            w == char_width(self.tab(), character, column),
    {
        if character == '\t' {
            self.tab_stop.advance_width(column)
        } else if (character as u32) <= 0x1f || (character as u32) == 0x7f {
            4
        } else {
            1
        }
    }

    /// The characters that draw `line`: tabs become spaces up to the next stop,
    /// control characters become `<XX>` in uppercase hexadecimal.
    pub fn displayable_line(&self, line: &[char]) -> (out: Vec<char>)
        ensures
            out@ == display(self.tab(), line@),
    {
        let mut expanded: Vec<char> = Vec::new();
        let mut column: u16 = 0;
        let mut i: usize = 0;
        while i < line.len()
            invariant
                0 <= i <= line@.len(),
                column == col_after(self.tab(), line@, i as int),
                expanded@ == display_prefix(self.tab(), line@, i as int),
            decreases line@.len() - i,
        {
            let ch = line[i];
            let width = self.char_render_width(ch, column);
            if ch == '\t' {
                let ghost base = expanded@;
                let mut count: u16 = 0;
                while count < width
                    invariant
                        count <= width,
                        expanded@ == base + Seq::new(count as nat, |k: int| ' '),
                    decreases width - count,
                {
                    expanded.push(' ');
                    count += 1;
                    assert(expanded@ =~= base + Seq::new(count as nat, |k: int| ' '));
                }
            } else if (ch as u32) <= 0x1f || (ch as u32) == 0x7f {
                let code: u32 = ch as u32;
                expanded.push('<');
                expanded.push(hex_upper(code / 16));
                expanded.push(hex_upper(code % 16));
                expanded.push('>');
            } else {
                expanded.push(ch);
            }
            proof {
                let e = expand(self.tab(), ch, column);
                assert(display_prefix(self.tab(), line@, i + 1) == display_prefix(
                    self.tab(),
                    line@,
                    i as int,
                ) + e);
            }
            assert(expanded@ =~= display_prefix(self.tab(), line@, i + 1));
            column = u16_sat_add(column, width);
            i += 1;
        }
        expanded
    }

    /// `(start, end, character)` for every character of `line`.
    pub fn segments_render(&self, line: &[char]) -> (segs: Vec<(u16, u16, char)>)
        ensures
            segs@.len() == line@.len(),
            forall|i: int|
                0 <= i < line@.len() ==> #[trigger] segs@[i] == (
                    seg_start(self.tab(), line@, i),
                    seg_end(self.tab(), line@, i),
                    line@[i],
                ),
    {
        let mut segments: Vec<(u16, u16, char)> = Vec::new();
        let mut column: u16 = 0;
        let mut i: usize = 0;
        while i < line.len()
            invariant
                0 <= i <= line@.len(),
                segments@.len() == i,
                column == col_after(self.tab(), line@, i as int),
                forall|j: int|
                    0 <= j < i ==> #[trigger] segments@[j] == (
                        seg_start(self.tab(), line@, j),
                        seg_end(self.tab(), line@, j),
                        line@[j],
                    ),
            decreases line@.len() - i,
        {
            let ch = line[i];
            let start = column;
            let width = self.char_render_width(ch, column);
            let end = u16_sat_add(column, width);
            segments.push((start, end, ch));
            column = end;
            i += 1;
        }
        segments
    }

    /// One step right from `cursor_x`: past the character under the cursor, onto the
    /// last column of a following tab.
    pub fn column_next_render(&self, line: &[char], cursor_x: u16) -> (r: u16)
        ensures
            r == column_next(self.tab(), line@, cursor_x),
    {
        let segments = self.segments_render(line);
        let n = segments.len();
        if n == 0 {
            return 0;
        }
        let mut idx: usize = 0;
        while idx < n
            invariant
                n == line@.len(),
                n == segments@.len(),
                0 <= idx <= n,
                forall|i: int|
                    0 <= i < line@.len() ==> #[trigger] segments@[i] == (
                        seg_start(self.tab(), line@, i),
                        seg_end(self.tab(), line@, i),
                        line@[i],
                    ),
                next_from(self.tab(), line@, cursor_x, 0) == next_from(
                    self.tab(),
                    line@,
                    cursor_x,
                    idx as int,
                ),
            decreases n - idx,
        {
            let (start, end, ch) = segments[idx];
            if cursor_x < start {
                if ch == '\t' {
                    return u16_sat_sub(end, 1);
                }
                return start;
            }
            if cursor_x < end {
                if ch == '\t' {
                    let target = u16_sat_sub(end, 1);
                    if cursor_x < target {
                        return target;
                    }
                    if idx + 1 < n {
                        let (next_start, next_end, next_ch) = segments[idx + 1];
                        if next_ch == '\t' {
                            return u16_sat_sub(next_end, 1);
                        }
                        return next_start;
                    }
                    return end;
                }
                if idx + 1 < n {
                    let (_, next_end, next_ch) = segments[idx + 1];
                    if next_ch == '\t' {
                        return u16_sat_sub(next_end, 1);
                    }
                }
                return end;
            }
            idx += 1;
        }
        let (_, last_end, _) = segments[n - 1];
        last_end
    }

    /// One step left from `current_x`: the nearest stop strictly to the left, or column 0.
    pub fn column_previous_render(&self, line: &[char], current_x: u16) -> (r: u16)
        ensures
            r == column_previous(self.tab(), line@, current_x),
    {
        let segments = self.segments_render(line);
        let mut best: u16 = 0;
        let mut i: usize = 0;
        while i < segments.len()
            invariant
                segments@.len() == line@.len(),
                0 <= i <= segments@.len(),
                forall|j: int|
                    0 <= j < line@.len() ==> #[trigger] segments@[j] == (
                        seg_start(self.tab(), line@, j),
                        seg_end(self.tab(), line@, j),
                        line@[j],
                    ),
                best == prev_best(self.tab(), line@, current_x, i as int),
            decreases segments@.len() - i,
        {
            let (start, end, ch) = segments[i];
            let stop = if ch == '\t' { u16_sat_sub(end, 1) } else { start };
            if stop < current_x && stop >= best {
                best = stop;
            }
            i += 1;
        }
        best
    }

    /// Clamps `cursor_x` to the line and moves it onto the character it falls in.
    pub fn snap_cursor_to_render_character(&self, line: &[char], cursor_x: u16) -> (r: u16)
        ensures
            r == snap_column(self.tab(), line@, cursor_x),
    {
        let segments = self.segments_render(line);
        let n = segments.len();
        if n == 0 {
            return 0;
        }
        let (_, line_length, _) = segments[n - 1];
        let clamped_x = if cursor_x < line_length { cursor_x } else { line_length };
        let last_index = n - 1;
        let mut idx: usize = 0;
        while idx < n
            invariant
                n == line@.len(),
                n == segments@.len(),
                n > 0,
                last_index == n - 1,
                line_length == line_len(self.tab(), line@),
                clamped_x == (if cursor_x < line_length { cursor_x } else { line_length }),
                0 <= idx <= n,
                forall|i: int|
                    0 <= i < line@.len() ==> #[trigger] segments@[i] == (
                        seg_start(self.tab(), line@, i),
                        seg_end(self.tab(), line@, i),
                        line@[i],
                    ),
                snap_from(self.tab(), line@, clamped_x, 0) == snap_from(
                    self.tab(),
                    line@,
                    clamped_x,
                    idx as int,
                ),
            decreases n - idx,
        {
            let (start, end, ch) = segments[idx];
            let in_segment = clamped_x >= start && clamped_x < end;
            let at_line_end = clamped_x == line_length && idx == last_index;
            if in_segment {
                if ch == '\t' {
                    return u16_sat_sub(end, 1);
                }
                return start;
            }
            if at_line_end {
                if ch == '\t' {
                    return u16_sat_sub(end, 1);
                }
                if (ch as u32) <= 0x1f || (ch as u32) == 0x7f {
                    return start;
                }
                return clamped_x;
            }
            idx += 1;
        }
        clamped_x
    }

    /// The start column of the tab under `cursor_x`, if the cursor is on a tab.
    pub fn tab_segment_start(&self, line: &[char], cursor_x: u16) -> (r: TabSegmentStart)
        ensures
            match tab_start_from(self.tab(), line@, cursor_x, 0) {
                Some(s) => r.spec_column() == s && s != u16::MAX,
                None => r.spec_column() == u16::MAX,
            },
    {
        let segments = self.segments_render(line);
        let mut i: usize = 0;
        while i < segments.len()
            invariant
                segments@.len() == line@.len(),
                0 <= i <= segments@.len(),
                forall|j: int|
                    0 <= j < line@.len() ==> #[trigger] segments@[j] == (
                        seg_start(self.tab(), line@, j),
                        seg_end(self.tab(), line@, j),
                        line@[j],
                    ),
                tab_start_from(self.tab(), line@, cursor_x, 0) == tab_start_from(
                    self.tab(),
                    line@,
                    cursor_x,
                    i as int,
                ),
            decreases segments@.len() - i,
        {
            let (start, end, ch) = segments[i];
            if cursor_x >= start && cursor_x < end && ch == '\t' {
                return TabSegmentStart::at(start);
            }
            i += 1;
        }
        TabSegmentStart::empty()
    }

    /// Index of the character drawn at column `cursor_x` (the line length past the end).
    pub fn column_to_char_index_render(&self, line: &[char], cursor_x: u16) -> (r: usize)
        ensures
            r as int == char_index(self.tab(), line@, cursor_x),
            r <= line@.len(),
    {
        let mut column: u16 = 0;
        let mut idx: usize = 0;
        while idx < line.len()
            invariant
                0 <= idx <= line@.len(),
                column == col_after(self.tab(), line@, idx as int),
                index_from(self.tab(), line@, cursor_x, 0) == index_from(
                    self.tab(),
                    line@,
                    cursor_x,
                    idx as int,
                ),
            decreases line@.len() - idx,
        {
            let ch = line[idx];
            let width = self.char_render_width(ch, column);
            if cursor_x <= column {
                return idx;
            }
            if cursor_x < u16_sat_add(column, width) {
                return idx;
            }
            column = u16_sat_add(column, width);
            idx += 1;
        }
        line.len()
    }

    /// Render length of `line`.
    pub fn visual_line_length(&self, line: &[char]) -> (r: u16)
        ensures
            r == line_len(self.tab(), line@),
    {
        let mut column: u16 = 0;
        let mut i: usize = 0;
        while i < line.len()
            invariant
                0 <= i <= line@.len(),
                column == col_after(self.tab(), line@, i as int),
            decreases line@.len() - i,
        {
            let width = self.char_render_width(line[i], column);
            column = u16_sat_add(column, width);
            i += 1;
        }
        column
    }

    pub fn line_length(&self, line: &[char]) -> (r: u16)
        ensures
            r == line_len(self.tab(), line@),
    {
        self.visual_line_length(line)
    }
}

} // verus!
