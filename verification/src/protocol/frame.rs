//! A frame: everything a client needs to draw the editor once.
use vstd::prelude::*;
use vstd::string::*;
use crate::protocol::path::FilePath;
use crate::protocol::prompt_ui::PromptUiFrame;
use crate::protocol::status::StatusMessage;
use crate::protocol::version::ProtocolVersion;
use crate::text::push_decimal;

verus! {

/// The editor mode a frame is drawn in.
#[derive(Debug, PartialEq, Eq, Structural, Clone, Copy)]
pub enum FrameEditorMode {
    Normal,
    Edit,
    Visual,
    PromptCommand,
    PromptKeymap,
}

/// A screen position: column and row.
#[derive(Debug, PartialEq, Eq, Structural, Clone, Copy)]
pub struct Cursor {
    col: u16,
    row: u16,
}

/// Receives the cursor position of a frame.
pub trait CursorSink {
    fn place(&mut self, column: u16, row: u16);
}

/// Receives the visible rows of a frame, one call per row.
pub trait FrameRowSink {
    fn paint_row(&mut self, index: u16, row: &str, selection: RowSelection);
}

/// Receives the size of a frame.
pub trait ViewportSink {
    fn size(&mut self, columns: u16, rows: u16);
}

impl Cursor {
    pub closed spec fn spec_col(&self) -> u16 {
        self.col
    }

    pub closed spec fn spec_row(&self) -> u16 {
        self.row
    }

    /// The cursor at column `col` and row `row`.
    pub closed spec fn spec_new(col: u16, row: u16) -> Cursor {
        Cursor { col, row }
    }

    pub fn new(col: u16, row: u16) -> (r: Self)
        ensures
            r.spec_col() == col,
            r.spec_row() == row,
            r == Cursor::spec_new(col, row),
    {
        Self { col, row }
    }

    pub fn column(&self) -> (r: u16)
        ensures
            r == self.spec_col(),
    {
        self.col
    }

    pub fn row(&self) -> (r: u16)
        ensures
            r == self.spec_row(),
    {
        self.row
    }

    /// Hands the position to `sink`.
    pub fn place_on<S: CursorSink>(&self, sink: &mut S) {
        sink.place(self.col, self.row);
    }
}

/// The `row:column/total` indicator of the status line (zero-based inside).
#[derive(Debug, PartialEq, Eq, Structural, Clone, Copy)]
pub struct StatusPosition {
    column: u16,
    row: u16,
    total_rows: u16,
}

/// `n + 1`, saturated at `u16::MAX`.
pub open spec fn one_based(n: u16) -> u16 {
    if n == u16::MAX { u16::MAX } else { (n + 1) as u16 }
}

impl StatusPosition {
    pub closed spec fn spec_column(&self) -> u16 {
        self.column
    }

    pub closed spec fn spec_row(&self) -> u16 {
        self.row
    }

    pub closed spec fn spec_total(&self) -> u16 {
        self.total_rows
    }

    /// What `append_to` writes: one-based row and column, and at least one total row.
    pub open spec fn text(&self) -> Seq<char> {
        crate::text::decimal(one_based(self.spec_row()) as nat) + seq![':'] + crate::text::decimal(
            one_based(self.spec_column()) as nat,
        ) + seq!['/'] + crate::text::decimal(
            (if self.spec_total() > 1 { self.spec_total() } else { 1 }) as nat,
        )
    }

    pub fn new(column: u16, row: u16, total_rows: u16) -> (r: Self)
        ensures
            r.spec_column() == column,
            r.spec_row() == row,
            r.spec_total() == total_rows,
    {
        Self { column, row, total_rows }
    }

    pub fn column(&self) -> (r: u16)
        ensures
            r == self.spec_column(),
    {
        self.column
    }

    pub fn row(&self) -> (r: u16)
        ensures
            r == self.spec_row(),
    {
        self.row
    }

    pub fn total_rows(&self) -> (r: u16)
        ensures
            r == self.spec_total(),
    {
        self.total_rows
    }

    /// Appends `row:column/total` to `target`.
    pub fn append_to(&self, target: &mut String)
        ensures
            final(target)@ == old(target)@ + self.text(),
    {
        let column: u16 = if self.column == u16::MAX { u16::MAX } else { self.column + 1 };
        let row: u16 = if self.row == u16::MAX { u16::MAX } else { self.row + 1 };
        let total: u16 = if self.total_rows > 1 { self.total_rows } else { 1 };
        push_decimal(target, row as u32);
        crate::text::string_push(target, ':');
        push_decimal(target, column as u32);
        crate::text::string_push(target, '/');
        push_decimal(target, total as u32);
        assert(target@ =~= old(target)@ + self.text());
    }
}

impl Default for StatusPosition {
    fn default() -> (r: Self)
        ensures
            r.spec_column() == 0,
            r.spec_row() == 0,
            r.spec_total() == 1,
    {
        Self { column: 0, row: 0, total_rows: 1 }
    }
}

/// The rows of text a frame shows.
#[derive(Debug)]
pub struct FrameRows(Vec<String>);

impl FrameRows {
    pub closed spec fn spec_rows(&self) -> Seq<Seq<char>> {
        self.0@.map_values(|r: String| r@)
    }

    pub fn new(rows: Vec<String>) -> (r: Self)
        ensures
            r.spec_rows() == rows@.map_values(|r: String| r@),
    {
        Self(rows)
    }

    /// A copy of the rows.
    pub fn duplicate(&self) -> (r: Self)
        ensures
            r.spec_rows() == self.spec_rows(),
    {
        let mut out: Vec<String> = Vec::new();
        let mut i: usize = 0;
        while i < self.0.len()
            invariant
                0 <= i <= self.0@.len(),
                out@.len() == i,
                forall|k: int| 0 <= k < i ==> #[trigger] out@[k]@ == self.0@[k]@,
            decreases self.0@.len() - i,
        {
            out.push(self.0[i].clone());
            i += 1;
        }
        assert(out@.map_values(|r: String| r@) =~= self.0@.map_values(|r: String| r@));
        Self(out)
    }

    /// The number of rows.
    pub fn len(&self) -> (r: usize)
        ensures
            r == self.spec_rows().len(),
    {
        self.0.len()
    }

    /// The row at `index`.
    pub fn row(&self, index: usize) -> (r: &str)
        requires
            index < self.spec_rows().len(),
        ensures
            r@ == self.spec_rows()[index as int],
    {
        self.0[index].as_str()
    }

    /// How row `i` is highlighted, for every row `paint` hands out: at most
    /// `usable_rows` rows, each with its span of `selection` clamped to its length.
    pub fn painted(&self, usable_rows: u16, selection: &FrameSelection) -> (r: Vec<RowSelection>)
        ensures
            r@.len() == if self.spec_rows().len() < usable_rows as int {
                self.spec_rows().len() as int
            } else {
                usable_rows as int
            },
            forall|i: int|
                0 <= i < r@.len() ==> #[trigger] r@[i] == row_span_of(
                    *selection,
                    i as u16,
                    clamp_u16(self.spec_rows()[i].len()),
                ),
    {
        let mut out: Vec<RowSelection> = Vec::new();
        let mut idx: usize = 0;
        while idx < self.0.len() && idx < usable_rows as usize
            invariant
                0 <= idx <= self.0@.len(),
                idx <= usable_rows,
                out@.len() == idx,
                forall|i: int|
                    0 <= i < idx ==> #[trigger] out@[i] == row_span_of(
                        *selection,
                        i as u16,
                        clamp_u16(self.spec_rows()[i].len()),
                    ),
            decreases self.0@.len() - idx,
        {
            let row = &self.0[idx];
            let count = row.as_str().unicode_len();
            let row_len: u16 = if count > 0xffff { u16::MAX } else { count as u16 };
            out.push(selection.row_span(idx as u16, row_len));
            idx += 1;
        }
        out
    }

    /// Hands each visible row to `sink` with its highlighted span (see `painted`).
    pub fn paint<S: FrameRowSink>(&self, usable_rows: u16, selection: &FrameSelection, sink: &mut S) {
        let plan = self.painted(usable_rows, selection);
        let mut idx: usize = 0;
        while idx < plan.len()
            invariant
                plan@.len() <= self.spec_rows().len(),
                plan@.len() <= usable_rows,
            decreases plan@.len() - idx,
        {
            sink.paint_row(idx as u16, self.0[idx].as_str(), plan[idx]);
            idx += 1;
        }
    }
}

/// `n` capped at `u16::MAX`.
pub open spec fn clamp_u16(n: nat) -> u16 {
    if n > u16::MAX as nat { u16::MAX } else { n as u16 }
}

/// A frame's size: columns and rows.
#[derive(Debug, PartialEq, Eq, Structural, Clone, Copy)]
pub struct Viewport(u16, u16);

impl Viewport {
    pub closed spec fn spec_columns(&self) -> u16 {
        self.0
    }

    pub closed spec fn spec_rows(&self) -> u16 {
        self.1
    }

    pub fn new(columns: u16, rows: u16) -> (r: Self)
        ensures
            r.spec_columns() == columns,
            r.spec_rows() == rows,
    {
        Self(columns, rows)
    }

    pub fn columns(&self) -> (r: u16)
        ensures
            r == self.spec_columns(),
    {
        self.0
    }

    pub fn rows(&self) -> (r: u16)
        ensures
            r == self.spec_rows(),
    {
        self.1
    }

    /// Hands the size to `sink`.
    pub fn apply_to<S: ViewportSink>(&self, sink: &mut S) {
        sink.size(self.0, self.1);
    }
}

/// The prompt of a frame, when the frame shows one.
pub enum CommandUiAccess {
    Available(PromptUiFrame),
    Missing,
}

/// The prompt slot of a frame: a prompt frame and whether it is shown.
pub struct CommandUiSlot {
    frame: PromptUiFrame,
    visible: bool,
}

impl CommandUiSlot {
    pub closed spec fn spec_visible(&self) -> bool {
        self.visible
    }

    pub closed spec fn spec_frame(&self) -> PromptUiFrame {
        self.frame
    }

    pub fn available(frame: PromptUiFrame) -> (r: Self)
        ensures
            r.spec_visible(),
            r.spec_frame() == frame,
    {
        Self { frame, visible: true }
    }

    pub fn missing() -> (r: Self)
        ensures
            !r.spec_visible(),
    {
        Self { frame: PromptUiFrame::empty(), visible: false }
    }

    /// The prompt frame when it is shown.
    pub fn access(&self) -> (r: CommandUiAccess)
        ensures
            self.spec_visible() ==> (r matches CommandUiAccess::Available(f) && f.same_as(
                self.spec_frame(),
            )),
            !self.spec_visible() ==> r is Missing,
    {
        if self.visible {
            CommandUiAccess::Available(self.frame.clone())
        } else {
            CommandUiAccess::Missing
        }
    }

    /// The prompt frame whatever its visibility.
    pub fn frame(&self) -> (r: &PromptUiFrame)
        ensures
            *r == self.spec_frame(),
    {
        &self.frame
    }

    pub fn visible(&self) -> (r: bool)
        ensures
            r == self.spec_visible(),
    {
        self.visible
    }
}

impl Default for CommandUiSlot {
    fn default() -> (r: Self)
        ensures
            !r.spec_visible(),
    {
        Self::missing()
    }
}

/// The selected region of a frame, in screen cells.
#[derive(Debug, PartialEq, Eq, Structural, Clone, Copy)]
pub enum FrameSelection {
    Empty,
    Range { start: Cursor, end: Cursor },
}

/// The highlighted columns of one row.
#[derive(Debug, PartialEq, Eq, Structural, Clone, Copy)]
pub enum RowSelection {
    Empty,
    Range { start: u16, end: u16 },
}

/// The columns of row `row` (of length `row_len`) inside selection `sel`.
pub open spec fn row_span_of(sel: FrameSelection, row: u16, row_len: u16) -> RowSelection {
    match sel {
        FrameSelection::Empty => RowSelection::Empty,
        FrameSelection::Range { start, end } => {
            let start_row = start.spec_row();
            let end_row = end.spec_row();
            if row < start_row || row > end_row {
                RowSelection::Empty
            } else {
                let s: u16 = if start_row == end_row || row == start_row {
                    start.spec_col()
                } else {
                    0
                };
                let e: u16 = if start_row == end_row || row == end_row {
                    end.spec_col()
                } else {
                    row_len
                };
                let s2: u16 = if s > row_len { row_len } else { s };
                let e2: u16 = if e > row_len { row_len } else { e };
                if e2 <= s2 {
                    RowSelection::Empty
                } else {
                    RowSelection::Range { start: s2, end: e2 }
                }
            }
        },
    }
}

impl FrameSelection {
    pub fn none() -> (r: Self)
        ensures
            r == FrameSelection::Empty,
    {
        Self::Empty
    }

    pub fn range(start: Cursor, end: Cursor) -> (r: Self)
        ensures
            r == (FrameSelection::Range { start, end }),
    {
        Self::Range { start, end }
    }

    /// The part of this selection on row `row`, clamped to `row_len` columns.
    pub fn row_span(&self, row: u16, row_len: u16) -> (r: RowSelection)
        ensures
            r == row_span_of(*self, row, row_len),
    {
        match self {
            FrameSelection::Empty => RowSelection::Empty,
            FrameSelection::Range { start, end } => {
                let start_row = start.row;
                let end_row = end.row;
                if row < start_row || row > end_row {
                    return RowSelection::Empty;
                }
                let mut start_col: u16 = 0;
                let mut end_col: u16 = row_len;
                if start_row == end_row {
                    start_col = start.col;
                    end_col = end.col;
                } else if row == start_row {
                    start_col = start.col;
                    end_col = row_len;
                } else if row == end_row {
                    start_col = 0;
                    end_col = end.col;
                }
                if start_col > row_len {
                    start_col = row_len;
                }
                if end_col > row_len {
                    end_col = row_len;
                }
                if end_col <= start_col {
                    RowSelection::Empty
                } else {
                    RowSelection::Range { start: start_col, end: end_col }
                }
            },
        }
    }
}

impl Default for FrameSelection {
    fn default() -> (r: Self)
        ensures
            r == FrameSelection::Empty,
    {
        Self::Empty
    }
}

/// Everything a client draws for one state of the editor.
pub struct Frame {
    mode: FrameEditorMode,
    cursor: Cursor,
    rows: FrameRows,
    status: StatusMessage,
    status_position: StatusPosition,
    file_path: FilePath,
    size: Viewport,
    command_ui: CommandUiSlot,
    selection: FrameSelection,
    protocol_version: ProtocolVersion,
}

impl Frame {
    pub closed spec fn spec_mode(&self) -> FrameEditorMode {
        self.mode
    }

    pub closed spec fn spec_cursor(&self) -> Cursor {
        self.cursor
    }

    pub closed spec fn spec_rows(&self) -> Seq<Seq<char>> {
        self.rows.spec_rows()
    }

    pub closed spec fn spec_status(&self) -> StatusMessage {
        self.status
    }

    pub closed spec fn spec_position(&self) -> StatusPosition {
        self.status_position
    }

    pub closed spec fn spec_path(&self) -> FilePath {
        self.file_path
    }

    pub closed spec fn spec_size(&self) -> (u16, u16) {
        (self.size.spec_columns(), self.size.spec_rows())
    }

    pub closed spec fn spec_command_ui(&self) -> CommandUiSlot {
        self.command_ui
    }

    pub closed spec fn spec_selection(&self) -> FrameSelection {
        self.selection
    }

    pub closed spec fn spec_protocol(&self) -> ProtocolVersion {
        self.protocol_version
    }

    pub fn new(
        mode: FrameEditorMode,
        cursor: Cursor,
        rows: Vec<String>,
        status: StatusMessage,
        status_position: StatusPosition,
        file_path: FilePath,
        size: (u16, u16),
        command_ui: CommandUiSlot,
        selection: FrameSelection,
        protocol_version: ProtocolVersion,
    ) -> (r: Self)
        ensures
            r.spec_mode() == mode,
            r.spec_cursor() == cursor,
            r.spec_rows() == rows@.map_values(|r: String| r@),
            r.spec_status() == status,
            r.spec_position() == status_position,
            r.spec_path() == file_path,
            r.spec_size() == size,
            r.spec_command_ui() == command_ui,
            r.spec_selection() == selection,
            r.spec_protocol() == protocol_version,
    {
        Self {
            mode,
            cursor,
            rows: FrameRows::new(rows),
            status,
            status_position,
            file_path,
            size: Viewport::new(size.0, size.1),
            command_ui,
            selection,
            protocol_version,
        }
    }

    pub fn empty() -> (r: Self)
        ensures
            r.spec_mode() == FrameEditorMode::Normal,
            r.spec_cursor().spec_col() == 0 && r.spec_cursor().spec_row() == 0,
            r.spec_rows().len() == 0,
            r.spec_status() == StatusMessage::Empty,
            r.spec_path()@ == Some(Seq::<char>::empty()),
            r.spec_size() == (0u16, 0u16),
            !r.spec_command_ui().spec_visible(),
            r.spec_selection() == FrameSelection::Empty,
            r.spec_protocol().spec_number() == crate::protocol::version::current_protocol_number(),
    {
        let r = Self {
            mode: FrameEditorMode::Normal,
            cursor: Cursor::new(0, 0),
            rows: FrameRows::new(Vec::new()),
            status: StatusMessage::Empty,
            status_position: StatusPosition::default(),
            file_path: FilePath::Provided { path: String::new() },
            size: Viewport::new(0, 0),
            command_ui: CommandUiSlot::missing(),
            selection: FrameSelection::none(),
            protocol_version: ProtocolVersion::current(),
        };
        assert(r.spec_rows() =~= Seq::<Seq<char>>::empty());
        r
    }

    pub fn mode(&self) -> (r: FrameEditorMode)
        ensures
            r == self.spec_mode(),
    {
        self.mode
    }

    pub fn cursor(&self) -> (r: Cursor)
        ensures
            r == self.spec_cursor(),
    {
        self.cursor
    }

    pub fn rows(&self) -> (r: FrameRows)
        ensures
            r.spec_rows() == self.spec_rows(),
    {
        self.rows.duplicate()
    }

    /// Hands the first `usable_rows` rows to `sink` with their highlighted spans.
    pub fn paint_rows<S: FrameRowSink>(&self, usable_rows: u16, sink: &mut S) {
        self.rows.paint(usable_rows, &self.selection, sink);
    }

    pub fn status(&self) -> (r: StatusMessage)
        ensures
            r == self.spec_status(),
    {
        self.status.clone()
    }

    pub fn position(&self) -> (r: StatusPosition)
        ensures
            r == self.spec_position(),
    {
        self.status_position
    }

    pub fn path(&self) -> (r: FilePath)
        ensures
            r == self.spec_path(),
    {
        self.file_path.clone()
    }

    pub fn viewport(&self) -> (r: Viewport)
        ensures
            (r.spec_columns(), r.spec_rows()) == self.spec_size(),
    {
        self.size
    }

    /// Columns and rows of the frame.
    pub fn size(&self) -> (r: (u16, u16))
        ensures
            r == self.spec_size(),
    {
        (self.size.columns(), self.size.rows())
    }

    /// The prompt, when the frame shows one.
    pub fn command_ui(&self) -> (r: CommandUiAccess)
        ensures
            self.spec_command_ui().spec_visible() ==> (r matches CommandUiAccess::Available(f)
                && f.same_as(self.spec_command_ui().spec_frame())),
            !self.spec_command_ui().spec_visible() ==> r is Missing,
    {
        self.command_ui.access()
    }

    /// The prompt slot itself.
    pub fn command_ui_slot(&self) -> (r: &CommandUiSlot)
        ensures
            *r == self.spec_command_ui(),
    {
        &self.command_ui
    }

    pub fn selection(&self) -> (r: FrameSelection)
        ensures
            r == self.spec_selection(),
    {
        self.selection
    }

    pub fn protocol(&self) -> (r: ProtocolVersion)
        ensures
            r == self.spec_protocol(),
    {
        self.protocol_version
    }

    pub fn status_update(&mut self, status: StatusMessage)
        ensures
            final(self).spec_status() == status,
            final(self).spec_mode() == old(self).spec_mode(),
            final(self).spec_cursor() == old(self).spec_cursor(),
            final(self).spec_rows() == old(self).spec_rows(),
            final(self).spec_position() == old(self).spec_position(),
            final(self).spec_path() == old(self).spec_path(),
            final(self).spec_size() == old(self).spec_size(),
            final(self).spec_command_ui() == old(self).spec_command_ui(),
            final(self).spec_selection() == old(self).spec_selection(),
            final(self).spec_protocol() == old(self).spec_protocol(),
    {
        self.status = status;
    }
}

} // verus!
