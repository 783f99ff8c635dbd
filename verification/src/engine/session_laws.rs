//! What holds of the session across requests.
use vstd::prelude::*;
use crate::engine::command_list::scroll_adjusted;
use crate::engine::editor::{EditorModel, char_inserted, law_backspace_undoes_typing, saved};
use crate::engine::line_view::{col_after, is_control};
use crate::engine::file::{join_lines, law_saved_text_reads_back, loaded_lines, next_token, path_is_unnamed, plain_lines};
use crate::engine::mode::{EditorModeState, is_prompt};
use crate::engine::prompt_ui_state::{PromptKind, PromptModel, list_scrolled};
use crate::engine::rpc::{
    OutcomeView, PendingView, ReplyView, SessionModel, StepView, accepted, frame_status, read_lines, resumed,
    save_target, typed,
};
use crate::protocol::path::untitled_name;
use crate::protocol::prompt_ui::PromptUiAction;
use crate::protocol::rpc::{DeleteKind, RequestEditorMode, RequestView};

verus! {

/// The editor mode a mode request asks for.
pub open spec fn requested_state(requested: RequestEditorMode) -> EditorModeState {
    match requested {
        RequestEditorMode::Normal => EditorModeState::Normal,
        RequestEditorMode::Edit => EditorModeState::Edit,
        RequestEditorMode::Visual => EditorModeState::Visual,
        RequestEditorMode::PromptCommand => EditorModeState::PromptCommand,
        RequestEditorMode::PromptKeymap => EditorModeState::PromptKeymap,
    }
}

/// The session with nothing awaited.
pub open spec fn settled(m: SessionModel) -> SessionModel {
    SessionModel { pending: PendingView::Idle, ..m }
}

proof fn lemma_scroll_adjusted_stable(selected: Option<usize>, scroll: usize, rows: usize)
    ensures
        scroll_adjusted(selected, scroll_adjusted(selected, scroll, rows), rows) == scroll_adjusted(
            selected,
            scroll,
            rows,
        ),
{
}

proof fn lemma_list_scrolled_stable(p: PromptModel, rows: usize)
    ensures
        list_scrolled(list_scrolled(p, rows), rows) == list_scrolled(p, rows),
{
    match p.kind {
        PromptKind::Command => {
            let sel = if p.cmd_sel == usize::MAX { None } else { Some(p.cmd_sel) };
            lemma_scroll_adjusted_stable(sel, p.cmd_scroll, rows);
        },
        PromptKind::Keymap => lemma_scroll_adjusted_stable(p.key_sel, p.key_scroll, rows),
    }
}

/// Resizing the screen to the size it already has asks for no frame and changes
/// nothing, whatever the first resize did.
pub proof fn law_repeated_resize_skips(m: SessionModel, cols: u16, rows: u16, suppress_frame: bool, readonly: bool, working_dir: Seq<char>)
    ensures
        ({
            let (m1, s1) = accepted(m, RequestView::EditorResize { cols, rows, suppress_frame }, readonly, working_dir);
            let (m2, s2) = accepted(m1, RequestView::EditorResize { cols, rows, suppress_frame: false }, readonly, working_dir);
            m2 == m1 && s2 == StepView::Done(OutcomeView::Skip)
        }),
{
    let (m1, s1) = accepted(m, RequestView::EditorResize { cols, rows, suppress_frame }, readonly, working_dir);
    if is_prompt(m.mode) {
        lemma_list_scrolled_stable(m.prompt, crate::engine::rpc::list_rows(rows));
    }
}

/// Asking for the mode the editor is in asks for no frame and keeps the mode.
pub proof fn law_current_mode_request_skips(m: SessionModel, requested: RequestEditorMode, readonly: bool, working_dir: Seq<char>)
    requires
        requested_state(requested) == m.mode,
    ensures
        ({
            let (n, s) = accepted(m, RequestView::ModeSet(requested), readonly, working_dir);
            n.mode == m.mode && s == StepView::Done(OutcomeView::Skip)
        }),
{
}

/// Edit mode is refused for a read-only file: the mode stays and no frame follows.
pub proof fn law_readonly_file_refuses_edit_mode(m: SessionModel, working_dir: Seq<char>)
    requires
        m.editor.path is Some,
        m.mode != EditorModeState::Edit,
    ensures
        ({
            let (n, s) = accepted(m, RequestView::ModeSet(RequestEditorMode::Edit), true, working_dir);
            n.mode == m.mode && n.editor.lines == m.editor.lines && s == StepView::Done(OutcomeView::Skip)
        }),
{
}

/// Prompt requests outside the prompt, and command execution outside the command
/// prompt, are ignored: nothing changes and no frame follows.
pub proof fn law_prompt_requests_need_the_prompt(
    m: SessionModel,
    action: PromptUiAction,
    line: Option<Seq<char>>,
    readonly: bool,
    working_dir: Seq<char>,
)
    ensures
        !is_prompt(m.mode) ==> accepted(m, RequestView::CommandUi(action), readonly, working_dir) == (
            settled(m),
            StepView::Done(OutcomeView::Skip),
        ),
        m.mode != EditorModeState::PromptCommand ==> accepted(
            m,
            RequestView::CommandExecute(line),
            readonly,
            working_dir,
        ) == (settled(m), StepView::Done(OutcomeView::Skip)),
{
}

proof fn lemma_typed_token(e: EditorModel, text: Seq<char>)
    requires
        e.token + text.len() <= u64::MAX,
    ensures
        e.token <= typed(e, text).token <= e.token + text.len(),
        typed(e, text).token == e.token ==> typed(e, text) == e,
    decreases text.len(),
{
    if text.len() > 0 {
        lemma_typed_token(e, text.drop_last());
    }
}

/// An edit answered without a frame changed neither the text nor the status (as long
/// as the edit counter has room for the edit).
pub proof fn law_skipped_edit_changes_nothing(m: SessionModel, request: RequestView, readonly: bool, working_dir: Seq<char>)
    requires
        request is TextInsert || request is TextDelete || request is LineBreak,
        request is TextInsert ==> m.editor.token + request->TextInsert_0.len() <= u64::MAX,
        m.editor.token < u64::MAX,
    ensures
        ({
            let (n, s) = accepted(m, request, readonly, working_dir);
            s == StepView::Done(OutcomeView::Skip) ==> n.editor == m.editor && n.status == m.status
        }),
{
    match request {
        RequestView::TextInsert(text) => lemma_typed_token(m.editor, text),
        _ => {},
    }
}

/// Typing a one-column character at the start of a character (or at the end of the
/// line) and then deleting it with backspace gives the text and the cursor back.
pub proof fn law_typing_then_backspace_restores_text(
    m: SessionModel,
    ch: char,
    at: int,
    readonly: bool,
    working_dir: Seq<char>,
)
    requires
        m.editor.lines.len() < usize::MAX,
        (m.editor.cursor_y as int) < m.editor.lines.len(),
        0 <= at <= m.editor.lines[m.editor.cursor_y as int].len(),
        m.editor.cursor_x == col_after(m.editor.tab, m.editor.lines[m.editor.cursor_y as int], at),
        m.editor.cursor_x < u16::MAX - 1,
        ch != '\t',
        !is_control(ch),
    ensures
        ({
            let (m1, s1) = accepted(m, RequestView::TextInsert(seq![ch]), readonly, working_dir);
            let (m2, s2) = accepted(m1, RequestView::TextDelete(DeleteKind::Backspace), readonly, working_dir);
            &&& m2.editor.lines == m.editor.lines
            &&& m2.editor.cursor_x == m.editor.cursor_x
            &&& m2.editor.cursor_y == m.editor.cursor_y
        }),
{
    law_backspace_undoes_typing(m.editor, ch, at);
    let t = seq![ch];
    assert(t.drop_last() =~= Seq::<char>::empty());
    assert(typed(m.editor, t.drop_last()) == m.editor);
    assert(typed(m.editor, t) == char_inserted(m.editor, ch));
}

/// Saving and then opening the file the save wrote, with the text it wrote, gives the
/// document back with the lines it had (for lines that survive being joined by `\n`;
/// see `plain_lines`).
pub proof fn law_save_then_open_restores_lines(m: SessionModel, readonly: bool, working_dir: Seq<char>)
    requires
        plain_lines(m.editor.lines),
    ensures
        ({
            let text = join_lines(m.editor.lines);
            let target = save_target(m.editor.path);
            let (m1, s1) = accepted(m, RequestView::FileSave, readonly, working_dir);
            let (m2, o2) = resumed(m1, ReplyView::Written);
            let (m3, s3) = accepted(m2, RequestView::FileOpen(target), readonly, working_dir);
            let (m4, o4) = resumed(m3, ReplyView::Text(text));
            &&& s1 == StepView::Write(target, text)
            &&& s3 == StepView::Read(target)
            &&& m4.editor.lines == m.editor.lines
            &&& m4.editor.path == Some(target)
        }),
{
    let target = save_target(m.editor.path);
    assert(target.len() > 0) by {
        reveal_strlit("untitled.txt");
    }
    law_saved_text_reads_back(m.editor.lines);
    assert(read_lines(target, join_lines(m.editor.lines)) == m.editor.lines);
}

/// A second save of a saved document writes to the same file and is acknowledged
/// without a frame: the document's path no longer changes.
pub proof fn law_second_save_needs_no_frame(m: SessionModel, readonly: bool, working_dir: Seq<char>)
    ensures
        ({
            let (m1, s1) = accepted(m, RequestView::FileSave, readonly, working_dir);
            let (m2, o2) = resumed(m1, ReplyView::Written);
            let (m3, s3) = accepted(m2, RequestView::FileSave, readonly, working_dir);
            let (m4, o4) = resumed(m3, ReplyView::Written);
            &&& s3 == StepView::Write(save_target(m2.editor.path), join_lines(m.editor.lines))
            &&& save_target(m2.editor.path) == save_target(m.editor.path)
            &&& o4 == OutcomeView::Ack((crate::protocol::rpc::AckKind::Save, Some("saved"@), m2.editor.path))
            &&& m4.editor == m2.editor
        }),
{
    reveal_strlit("untitled.txt");
}

/// After a save the status line reads `saved`, unless the file is read-only.
pub proof fn law_save_reports_saved(m: SessionModel, readonly: bool, working_dir: Seq<char>)
    ensures
        ({
            let (m1, s1) = accepted(m, RequestView::FileSave, readonly, working_dir);
            let (m2, o2) = resumed(m1, ReplyView::Written);
            frame_status(m2.editor, m2.status, false) == Some("saved"@)
        }),
{
}

/// The error prefix of a failed file operation the session waits for.
pub open spec fn failure_prefix(pending: PendingView) -> Seq<char> {
    match pending {
        PendingView::Open { opened_by, .. } => crate::engine::rpc::open_error_text(opened_by),
        PendingView::Save { .. } => "save failed: "@,
        PendingView::SaveAs { .. } => "save_as failed: "@,
        _ => Seq::empty(),
    }
}

/// A read or write that failed is answered with an error carrying the failure, and
/// changes nothing.
pub proof fn law_failed_io_changes_nothing(m: SessionModel, error: Seq<char>)
    requires
        m.pending is Open || m.pending is Save || m.pending is SaveAs,
    ensures
        resumed(m, ReplyView::Failed(error)) == (settled(m), OutcomeView::Error(failure_prefix(m.pending) + error)),
{
}

} // verus!
