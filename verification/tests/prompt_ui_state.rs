use vimrust::engine::prompt_ui_state::PromptUiState;
use vimrust::protocol::prompt_ui::{PromptListItemFrame, PromptUiAction};

fn label_present(items: &[PromptListItemFrame], label: &str) -> bool {
    let mut idx = 0;
    while idx < items.len() {
        if items[idx].label() == label {
            return true;
        }
        idx = idx.saturating_add(1);
    }
    false
}

#[test]
fn prompt_switches_to_keymap_on_semicolon_prefix() {
    let mut prompt = PromptUiState::new();
    prompt.prompt_command();
    prompt.apply_action(PromptUiAction::Backspace, 10);
    prompt.apply_action(PromptUiAction::InsertChar { ch: ';' }, 10);

    let frame = prompt.frame();
    assert!(label_present(frame.command_items(), ":"));
    assert!(!label_present(frame.command_items(), "o {path[:line[:column]]}"));
}

#[test]
fn prompt_switches_to_command_on_colon_prefix() {
    let mut prompt = PromptUiState::new();
    prompt.prompt_keymap();
    prompt.apply_action(PromptUiAction::Backspace, 10);
    prompt.apply_action(PromptUiAction::InsertChar { ch: ':' }, 10);

    let frame = prompt.frame();
    assert!(label_present(frame.command_items(), "o {path[:line[:column]]}"));
    assert!(!label_present(frame.command_items(), "Ctrl+Down"));
}

#[test]
fn list_highlight_moves_and_scrolls_minimally() {
    let mut prompt = PromptUiState::new();
    prompt.prompt_command();
    let count = prompt.frame().command_items().len();
    assert!(count > 3);

    prompt.apply_action(PromptUiAction::MoveSelectionUp, 3);
    let frame = prompt.frame();
    assert_eq!(frame.selection().index(), count - 1);
    assert_eq!(frame.scroll_position(), count - 3);
    assert!(!frame.line_focus());
    assert_eq!(frame.command_text(), ":");

    prompt.apply_action(PromptUiAction::MoveSelectionDown, 3);
    assert_eq!(prompt.frame().selection().index(), count - 1);

    prompt.apply_action(PromptUiAction::MoveSelectionUp, 3);
    let frame = prompt.frame();
    assert_eq!(frame.selection().index(), count - 2);
    assert_eq!(frame.scroll_position(), count - 3);
}

#[test]
fn list_highlight_starts_at_the_top_moving_down() {
    let mut prompt = PromptUiState::new();
    prompt.prompt_command();
    prompt.apply_action(PromptUiAction::MoveSelectionDown, 3);
    let frame = prompt.frame();
    assert_eq!(frame.selection().index(), 0);
    assert_eq!(frame.scroll_position(), 0);
}
