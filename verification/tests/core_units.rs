use vimrust::engine::command_line::CommandLine as PromptCommandLine;
use vimrust::engine::command_list::{CommandList, CommandRegistry};
use vimrust::engine::command_text::{
    case_style_for, command_blocked, command_for_name, placeholder_present, CaseArgument, CaseStyleChoice,
    CommandParts, CommandPath, CommandRequest, CommandText,
};
use vimrust::engine::command_ui_state::CommandUiState;
use vimrust::engine::completion::{CommandCompletion, CommonPrefix, DirectoryListing, PathCompletionRequest};
use vimrust::engine::file::File;
use vimrust::engine::keymap_list::KeymapList;
use vimrust::engine::line_view::LineView;
use vimrust::engine::placeholder::{placeholder_bounds, CommandPlaceholder, PromptInputPlaceholder};
use vimrust::engine::prompt_entry::PromptEntry;
use vimrust::engine::prompt_input::PromptInput;
use vimrust::engine::query::{fuzzy_match, lowercase_chars, query_from_input, trim_whitespace};
use vimrust::engine::signal::{CommandScope, FrameSignal};
use vimrust::engine::transform::CaseStyle;
use vimrust::protocol::command_ui::{CommandLineSelection, CommandUiAction};
use vimrust::protocol::frame::{Cursor, FrameSelection, RowSelection, StatusPosition};
use vimrust::protocol::path::{DocumentFile, FilePath};
use vimrust::protocol::prompt_ui::{PromptInputSelection, PromptListSelection};
use vimrust::protocol::status::StatusMessage;
use vimrust::text::{path_join, string_from_chars};

fn chars(s: &str) -> Vec<char> {
    s.chars().collect()
}

fn text(v: &[char]) -> String {
    v.iter().collect()
}

#[test]
fn case_styles_rewrite_words() {
    let input = chars("hello wORLD-42 x");
    assert_eq!(text(&CaseStyle::Kebab.transform(&input)), "hello-world-42-x");
    assert_eq!(text(&CaseStyle::Snake.transform(&input)), "hello_world_42_x");
    assert_eq!(text(&CaseStyle::ScreamingSnake.transform(&input)), "HELLO_WORLD_42_X");
    assert_eq!(text(&CaseStyle::Camel.transform(&input)), "helloWorld42X");
    assert_eq!(text(&CaseStyle::Pascal.transform(&input)), "HelloWorld42X");
    assert_eq!(text(&CaseStyle::Train.transform(&input)), "Hello-World-42-X");
    assert_eq!(text(&CaseStyle::Flat.transform(&input)), "helloworld42x");
    assert_eq!(text(&CaseStyle::Kebab.transform(&chars("  __  "))), "");
}

#[test]
fn line_view_expands_tabs_and_controls() {
    let view = LineView::new(4);
    assert_eq!(text(&view.displayable_line(&chars("a\tb"))), "a   b");
    assert_eq!(text(&view.displayable_line(&chars("\u{1}x"))), "<01>x");
    assert_eq!(view.line_length(&chars("a\tb")), 5);
    assert_eq!(view.char_render_width('\t', 2), 2);
    assert_eq!(view.char_render_width('\u{7f}', 0), 4);
    assert_eq!(view.column_to_char_index_render(&chars("a\tb"), 2), 1);
    assert_eq!(view.column_to_char_index_render(&chars("a\tb"), 4), 2);
}

#[test]
fn line_view_moves_over_tabs() {
    let view = LineView::new(4);
    let line = chars("a\tb");
    // Moving right from the `a` lands on the last column of the tab.
    assert_eq!(view.column_next_render(&line, 0), 3);
    assert_eq!(view.column_next_render(&line, 3), 4);
    assert_eq!(view.column_previous_render(&line, 4), 3);
    assert_eq!(view.column_previous_render(&line, 3), 0);
    assert_eq!(view.snap_cursor_to_render_character(&line, 2), 3);
}

#[test]
fn prompt_input_edits_and_selections() {
    let mut input = PromptInput::new();
    input.start_prompt(':');
    input.char_insert('a');
    input.char_insert('b');
    assert_eq!(input.text(), ":ab");
    assert_eq!(input.cursor_column(), 3);
    input.cursor_move_left();
    input.backspace();
    assert_eq!(input.text(), ":b");
    assert_eq!(input.cursor_column(), 1);
    input.delete();
    assert_eq!(input.text(), ":");
    input.set_content_with_selection(String::from(":o {path}"), PromptInputSelection::range(3, 9));
    assert_eq!(input.cursor_column(), 3);
    input.char_insert('x');
    assert_eq!(input.text(), ":o x");
    assert_eq!(input.selection(), PromptInputSelection::Empty);
}

#[test]
fn command_line_keeps_its_selection_type() {
    let mut line = PromptCommandLine::new();
    line.start_prompt();
    line.set_content_with_selection(String::from(":o {p}"), CommandLineSelection::range(3, 6));
    assert_eq!(line.selection(), CommandLineSelection::range(3, 6));
    line.backspace();
    assert_eq!(line.text(), ":o ");
    assert_eq!(line.selection(), CommandLineSelection::Empty);
}

#[test]
fn placeholders_are_found_by_braces() {
    assert_eq!(placeholder_bounds(":o {path}"), Some((3, 9)));
    assert_eq!(placeholder_bounds(":o {path"), None);
    assert_eq!(PromptInputPlaceholder.selection_for(":o {x}"), PromptInputSelection::range(3, 6));
    assert_eq!(CommandPlaceholder.selection_for(":q"), CommandLineSelection::Empty);
    assert!(placeholder_present(":o }{"));
    assert!(!placeholder_present(":o {"));
    assert!(command_blocked(PromptInputSelection::range(0, 1), false));
    assert!(command_blocked(PromptInputSelection::Empty, true));
    assert!(!command_blocked(PromptInputSelection::Empty, false));
}

#[test]
fn command_text_reads_commands() {
    assert!(matches!(CommandText::new(String::from(":SAVE")).request(), CommandRequest::Save));
    assert!(matches!(CommandText::new(String::from(":s")).request(), CommandRequest::Save));
    assert!(matches!(CommandText::new(String::from(":sq")).request(), CommandRequest::SaveAndQuit));
    assert!(matches!(CommandText::new(String::from("  q ")).request(), CommandRequest::Quit));
    assert!(matches!(CommandText::new(String::from(":::")).request(), CommandRequest::Skip));
    assert!(matches!(CommandText::new(String::from(":History")).request(), CommandRequest::History));
    match CommandText::new(String::from(":open   notes.txt ")).request() {
        CommandRequest::Open { path: CommandPath::Provided(p) } => assert_eq!(p, "notes.txt"),
        _ => panic!("expected open with path"),
    }
    assert!(matches!(
        CommandText::new(String::from(":o")).request(),
        CommandRequest::Open { path: CommandPath::Missing }
    ));
    assert!(matches!(
        CommandText::new(String::from(":case Screaming rest")).request(),
        CommandRequest::Case { style: CaseStyle::ScreamingSnake }
    ));
    assert!(matches!(CommandText::new(String::from(":nope")).request(), CommandRequest::Skip));
}

#[test]
fn command_parts_lowercase_the_name() {
    let parts = CommandParts::new("OPEN\t a b");
    assert_eq!(parts.name(), "open");
    assert_eq!(parts.rest(), "a b");
    let single = CommandParts::new("Quit");
    assert_eq!(single.name(), "quit");
    assert_eq!(single.rest(), "");
}

#[test]
fn case_arguments_name_styles() {
    assert_eq!(CaseArgument::new(String::from("  ")).style(), CaseStyleChoice::Missing);
    assert_eq!(CaseArgument::new(String::from(" PASCAL x")).style(), CaseStyleChoice::Known(CaseStyle::Pascal));
    assert_eq!(CaseArgument::new(String::from("dotted")).style(), CaseStyleChoice::Unknown);
    assert_eq!(case_style_for("train"), CaseStyleChoice::Known(CaseStyle::Train));
    assert_eq!(case_style_for("Train"), CaseStyleChoice::Unknown);
    assert!(matches!(command_for_name("case", "flat"), CommandRequest::Case { style: CaseStyle::Flat }));
    assert!(matches!(command_for_name("CASE", "flat"), CommandRequest::Skip));
}

#[test]
fn query_normalises_and_matches_fuzzily() {
    assert_eq!(text(&query_from_input(&chars(":; Open "))), "open");
    assert_eq!(text(&lowercase_chars("ÀB")), "àb");
    assert!(fuzzy_match(&chars("sv"), &chars("save")));
    assert!(!fuzzy_match(&chars("vs"), &chars("save")));
    assert!(fuzzy_match(&chars(""), &chars("")));
    assert_eq!(text(&trim_whitespace(&chars("\u{a0} x \t"))), "x");
}

#[test]
fn command_list_filters_by_scope() {
    let list = CommandList::new();
    let normal = list.filter("o", CommandScope::Normal);
    assert!(normal.iter().any(|i| i.label() == "open"));
    assert!(normal.iter().all(|i| !i.label().starts_with("case")));
    let visual = list.filter(":case", CommandScope::Visual);
    assert_eq!(visual.len(), 7);
    let registry = CommandRegistry::new();
    assert_eq!(registry.matching("", CommandScope::Normal).len(), 10);
    let moved = list.select_index(3).adjust_scroll_for_visible_rows(2);
    assert_eq!(moved.scroll_position(), 2);
    assert_eq!(moved.selection().index(), 3);
}

#[test]
fn keymap_list_filters_and_scrolls() {
    let mut list = KeymapList::new();
    let all = list.filter(";");
    assert!(all.len() > 10);
    let quit = list.filter("; q");
    assert!(quit.iter().any(|i| i.label() == "q"));
    list.select_index(5);
    list.adjust_scroll_for_visible_rows(3);
    assert_eq!(list.scroll_position(), 3);
    list.selection_clear();
    assert_eq!(list.selection(), None);
}

#[test]
fn prompt_entries_share_one_interface() {
    fn describe<E: PromptEntry>(e: &E) -> String {
        format!("{}|{}", e.label(), e.detail())
    }
    let registry = CommandRegistry::new();
    let items = registry.matching("quit", CommandScope::Normal);
    assert!(items.iter().any(|i| format!("{}|{}", i.label(), i.detail()) == "quit|Quit the editor"));
    let _ = describe::<vimrust::engine::command_list::CommandEntry>;
}

#[test]
fn completion_picks_common_prefix() {
    let listing = DirectoryListing::new(vec![
        String::from("notes.md"),
        String::from("notes.txt"),
        String::from(""),
        String::from("src/"),
    ]);
    let request = PathCompletionRequest::new(String::from("/w"), String::from("no"));
    assert_eq!(request.base_dir(), "/w");
    let mut input = PromptInput::new();
    input.set_content(String::from(":o no"));
    let completion = CommandCompletion::new(String::from(":o no"), 5);
    completion.apply(&mut input, String::from("/w"), &listing);
    assert_eq!(input.text(), ":o notes.");
    let nested = PathCompletionRequest::new(String::from("/w"), String::from("src/ma"));
    assert_eq!(nested.base_dir(), "/w/src/");
    let absolute = PathCompletionRequest::new(String::from("/w"), String::from("/etc/ho"));
    assert_eq!(absolute.base_dir(), "/etc/");
    let mut common = CommonPrefix::new(String::from("abcd"));
    common.refine("abxy");
    assert_eq!(common.value(), "ab");
}

#[test]
fn completion_only_at_line_end_of_open() {
    let listing = DirectoryListing::new(vec![String::from("notes.txt")]);
    let mut input = PromptInput::new();
    input.set_content(String::from(":q no"));
    CommandCompletion::new(String::from(":q no"), 5).apply(&mut input, String::from("/w"), &listing);
    assert_eq!(input.text(), ":q no");
    assert!(CommandCompletion::new(String::from(":o no"), 2).request(String::from("/w")).is_none());
}

#[test]
fn prompt_positions_count_utf8_bytes() {
    assert_eq!(placeholder_bounds(":é {x}"), Some((4, 7)));
    assert_eq!(PromptInputPlaceholder.selection_for("ü{€}"), PromptInputSelection::range(2, 7));
    // ":o é" is four characters but five bytes: completion applies only at byte 5.
    assert!(CommandCompletion::new(String::from(":o é"), 4).request(String::from("/w")).is_none());
    assert!(CommandCompletion::new(String::from(":o é"), 5).request(String::from("/w")).is_some());
}

#[test]
fn list_focus_command_ui_selects_from_list() {
    let mut ui = CommandUiState::new();
    ui.start_prompt();
    ui.apply_action(CommandUiAction::InsertChar { ch: 'q' }, 5);
    let before = ui.snapshot();
    ui.apply_action(CommandUiAction::MoveSelectionDown, 5);
    assert_eq!(before.frame_signal(&ui), FrameSignal::Frame);
    ui.apply_action(CommandUiAction::SelectFromList, 5);
    let frame = ui.frame();
    assert_eq!(frame.command_text(), ":q");
    assert!(!frame.list_focus());
    assert_eq!(frame.selected_item(), Some(0));
    let same = ui.snapshot();
    assert_eq!(same.frame_signal(&ui), FrameSignal::Skip);
    ui.clear();
    assert_eq!(ui.command_text(), "");
}

#[test]
fn file_round_trips_lines() {
    let mut file = File::new(FilePath::Provided { path: String::from("/w/a.txt") });
    file.read("one\r\ntwo\n\nthree");
    assert_eq!(
        file.lines_snapshot(),
        vec![String::from("one"), String::from("two"), String::new(), String::from("three")]
    );
    assert_eq!(file.save_contents(), "one\ntwo\n\nthree");
    assert_eq!(file.save_target(), "/w/a.txt");
    let line = file.line_at_mut(0);
    line.push('!');
    assert_eq!(file.lines_snapshot()[0], "one!");
    let mut unnamed = File::new(FilePath::Missing);
    unnamed.read("ignored");
    assert_eq!(unnamed.lines_snapshot(), vec![String::new()]);
    assert_eq!(unnamed.save_target(), "untitled.txt");
    unnamed.mark_saved();
    assert_eq!(unnamed.path(), FilePath::Provided { path: String::from("untitled.txt") });
}

#[test]
fn document_paths_need_a_name() {
    let empty = DocumentFile { path: String::new() };
    assert!(empty.open_path().is_err());
    assert!(empty.metadata_path().is_err());
    assert_eq!(empty.save_path(), "untitled.txt");
    assert_eq!(empty.display_text(), "[No Filename]");
    let named = DocumentFile { path: String::from("x.rs") };
    assert_eq!(named.open_path().ok(), Some(String::from("x.rs")));
    assert_eq!(FilePath::Missing.display_text(), "[No Filename]");
    assert!(FilePath::Missing.same_as(&FilePath::Missing));
}

#[test]
fn status_texts_are_formatted() {
    let mut line = String::new();
    StatusMessage::text("saved").append_to_status_line(&mut line);
    assert_eq!(line, " > saved");
    let mut position = String::new();
    StatusPosition::new(4, 9, 0).append_to(&mut position);
    assert_eq!(position, "10:5/1");
    assert_eq!(StatusMessage::Empty.or(StatusMessage::text("x")), StatusMessage::text("x"));
}

#[test]
fn frame_selection_spans_rows() {
    let selection = FrameSelection::range(Cursor::new(2, 1), Cursor::new(3, 3));
    assert_eq!(selection.row_span(0, 10), RowSelection::Empty);
    assert_eq!(selection.row_span(1, 10), RowSelection::Range { start: 2, end: 10 });
    assert_eq!(selection.row_span(2, 10), RowSelection::Range { start: 0, end: 10 });
    assert_eq!(selection.row_span(3, 2), RowSelection::Range { start: 0, end: 2 });
    assert_eq!(PromptListSelection::at(7).clamped(3).index(), 2);
    assert_eq!(PromptListSelection::at(7).clamped(0).index(), usize::MAX);
}

#[test]
fn paths_join_with_one_separator() {
    assert_eq!(path_join("/a", "b"), "/a/b");
    assert_eq!(path_join("/a/", "b"), "/a/b");
    assert_eq!(string_from_chars(&chars("xyz")), "xyz");
}

#[test]
fn rewriting_twice_keeps_separator_styles() {
    for style in [CaseStyle::Kebab, CaseStyle::Snake, CaseStyle::ScreamingSnake, CaseStyle::Train, CaseStyle::Flat] {
        let once = style.transform(&chars("Hello  big_World 7"));
        let twice = style.transform(&once);
        assert_eq!(once, twice);
    }
    // camelCase loses its word starts when rewritten again.
    let once = CaseStyle::Camel.transform(&chars("hello world"));
    assert_eq!(text(&once), "helloWorld");
    assert_eq!(text(&CaseStyle::Camel.transform(&once)), "helloworld");
}
