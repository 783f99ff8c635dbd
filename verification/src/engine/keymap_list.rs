//! The key bindings the keymap prompt lists, and its list state.
use vstd::prelude::*;
use crate::engine::command_list::{EntryView, item_view, scroll_adjusted, adjust_scroll};
use crate::engine::prompt_entry::PromptEntry;
use crate::engine::query::{fuzzy, fuzzy_match, lowercase_chars, normalized_query, query_from_input};
use crate::protocol::prompt_ui::{PromptListItemFrame, PromptMode};
use crate::text::{chars_of, spec_lowercase};

verus! {

/// A binding's mode, key and description.
pub type KeymapView = (PromptMode, Seq<char>, Seq<char>);

/// The bindings, in the order the list shows them.
pub open spec fn keymap_table() -> Seq<KeymapView> {
    seq![
        (PromptMode::Normal, "q"@, "Quit the editor"@),
        (PromptMode::Normal, "e"@, "Enter edit mode"@),
        (PromptMode::Normal, "s"@, "Save the current buffer"@),
        (PromptMode::Normal, ":"@, "Open the command prompt"@),
        (PromptMode::Normal, "v"@, "Enter visual mode"@),
        (PromptMode::Normal, ";"@, "Open the keymap prompt"@),
        (PromptMode::Normal, "h"@, "Move cursor left"@),
        (PromptMode::Normal, "j"@, "Move cursor down"@),
        (PromptMode::Normal, "k"@, "Move cursor up"@),
        (PromptMode::Normal, "l"@, "Move cursor right"@),
        (PromptMode::Normal, "PageUp"@, "Move cursor one page up"@),
        (PromptMode::Normal, "PageDown"@, "Move cursor one page down"@),
        (PromptMode::Normal, "Home"@, "Move cursor to line start"@),
        (PromptMode::Normal, "End"@, "Move cursor to line end"@),
        (PromptMode::Edit, "Esc"@, "Return to normal mode"@),
        (PromptMode::Edit, "Backspace"@, "Delete character before cursor"@),
        (PromptMode::Edit, "Delete"@, "Delete character under cursor"@),
        (PromptMode::Edit, "Enter"@, "Insert line break"@),
        (PromptMode::Visual, "Esc"@, "Return to normal mode"@),
        (PromptMode::Visual, ":"@, "Open the command prompt"@),
        (PromptMode::Visual, "h"@, "Move cursor left"@),
        (PromptMode::Visual, "j"@, "Move cursor down"@),
        (PromptMode::Visual, "k"@, "Move cursor up"@),
        (PromptMode::Visual, "l"@, "Move cursor right"@),
        (PromptMode::Visual, "PageUp"@, "Move cursor one page up"@),
        (PromptMode::Visual, "PageDown"@, "Move cursor one page down"@),
        (PromptMode::Visual, "Home"@, "Move cursor to line start"@),
        (PromptMode::Visual, "End"@, "Move cursor to line end"@),
        (PromptMode::PromptCommand, "Esc"@, "Return to normal mode"@),
        (PromptMode::PromptCommand, "Enter"@, "Execute command"@),
        (PromptMode::PromptCommand, "Backspace"@, "Delete character before cursor"@),
        (PromptMode::PromptCommand, "Delete"@, "Delete character under cursor"@),
        (PromptMode::PromptCommand, "Left"@, "Move cursor left"@),
        (PromptMode::PromptCommand, "Right"@, "Move cursor right"@),
        (PromptMode::PromptCommand, "Home"@, "Move cursor to line start"@),
        (PromptMode::PromptCommand, "End"@, "Move cursor to line end"@),
        (PromptMode::PromptCommand, "Tab"@, "Complete file name in command prompt"@),
        (PromptMode::PromptCommand, "Ctrl+Up"@, "Move focus to command line"@),
        (PromptMode::PromptCommand, "Ctrl+Down"@, "Move focus to command list"@),
        (PromptMode::PromptCommand, "Up"@, "Recall previous command from history"@),
        (PromptMode::PromptCommand, "Down"@, "Recall next command from history"@),
        (PromptMode::PromptKeymap, "Esc"@, "Return to normal mode"@),
        (PromptMode::PromptKeymap, "Backspace"@, "Delete character before cursor"@),
        (PromptMode::PromptKeymap, "Delete"@, "Delete character under cursor"@),
        (PromptMode::PromptKeymap, "Left"@, "Move cursor left"@),
        (PromptMode::PromptKeymap, "Right"@, "Move cursor right"@),
        (PromptMode::PromptKeymap, "Home"@, "Move cursor to line start"@),
        (PromptMode::PromptKeymap, "End"@, "Move cursor to line end"@),
        (PromptMode::PromptKeymap, "Ctrl+Up"@, "Move focus to keymap input"@),
        (PromptMode::PromptKeymap, "Ctrl+Down"@, "Move focus to keymap list"@),
        (PromptMode::PromptKeymap, "Up"@, "Move selection up"@),
        (PromptMode::PromptKeymap, "Down"@, "Move selection down"@),
    ]
}

/// The name a mode is searched by.
pub open spec fn mode_label(m: PromptMode) -> Seq<char> {
    match m {
        PromptMode::Command => "command"@,
        PromptMode::Normal => "normal"@,
        PromptMode::Edit => "edit"@,
        PromptMode::Visual => "visual"@,
        PromptMode::PromptCommand => "prompt_command"@,
        PromptMode::PromptKeymap => "prompt_keymap"@,
    }
}

/// Whether a binding is listed for normalised query `q`: its key (as written), its
/// lowercased description or its mode's name contains `q` as a subsequence.
pub open spec fn keymap_matches(e: KeymapView, q: Seq<char>) -> bool {
    fuzzy(q, e.1) || fuzzy(q, spec_lowercase(e.2)) || fuzzy(q, mode_label(e.0))
}

/// The bindings of `t` listed for `q`, in order.
pub open spec fn filter_keymaps(t: Seq<KeymapView>, q: Seq<char>) -> Seq<KeymapView>
    decreases t.len(),
{
    if t.len() == 0 {
        Seq::empty()
    } else {
        let rest = filter_keymaps(t.drop_last(), q);
        if keymap_matches(t.last(), q) { rest.push(t.last()) } else { rest }
    }
}

/// Filtering keeps at most the bindings it is given.
pub proof fn lemma_filter_keymaps_len(t: Seq<KeymapView>, q: Seq<char>)
    ensures
        filter_keymaps(t, q).len() <= t.len(),
    decreases t.len(),
{
    if t.len() > 0 {
        lemma_filter_keymaps_len(t.drop_last(), q);
    }
}

/// A binding is listed for a query exactly when the query is a subsequence of its key,
/// of its lowercased description or of its mode's name; the list holds nothing else.
pub proof fn law_keymap_listed_by_key_description_or_mode(t: Seq<KeymapView>, q: Seq<char>, k: int)
    requires
        0 <= k < t.len(),
    ensures
        filter_keymaps(t, q).contains(t[k]) <==> (fuzzy(q, t[k].1) || fuzzy(q, spec_lowercase(t[k].2)) || fuzzy(
            q,
            mode_label(t[k].0),
        )),
        forall|j: int| 0 <= j < filter_keymaps(t, q).len() ==> t.contains(#[trigger] filter_keymaps(t, q)[j]),
    decreases t.len(),
{
    let d = t.drop_last();
    let rest = filter_keymaps(d, q);
    let f = filter_keymaps(t, q);
    if k < t.len() - 1 {
        law_keymap_listed_by_key_description_or_mode(d, q, k);
        assert(d[k] == t[k]);
    } else if t.len() > 1 {
        law_keymap_listed_by_key_description_or_mode(d, q, 0);
    }
    if t.len() > 1 {
        assert forall|j: int| 0 <= j < f.len() implies t.contains(#[trigger] f[j]) by {
            if j < rest.len() {
                assert(f[j] == rest[j]);
                let w = choose|w: int| 0 <= w < d.len() && d[w] == rest[j];
                assert(t[w] == d[w]);
            } else {
                assert(t[t.len() - 1] == f[j]);
            }
        }
        if !keymap_matches(t[k], q) && f.contains(t[k]) {
            let w = choose|w: int| 0 <= w < f.len() && f[w] == t[k];
            if w < rest.len() {
                assert(f[w] == rest[w]);
                assert(rest.contains(t[k]));
                let v = choose|v: int| 0 <= v < rest.len() && rest[v] == t[k];
                assert(d.contains(rest[v]));
                let u = choose|u: int| 0 <= u < d.len() && d[u] == rest[v];
                assert(d[u] == t[u]);
                law_keymap_listed_by_key_description_or_mode(d, q, u);
            }
        }
        if keymap_matches(t[k], q) && k < t.len() - 1 {
            let w = choose|w: int| 0 <= w < rest.len() && rest[w] == d[k];
            assert(f[w] == rest[w]);
        }
        if keymap_matches(t[k], q) && k == t.len() - 1 {
            assert(f[f.len() - 1] == t[k]);
        }
    } else {
        assert(d.len() == 0);
        assert(rest.len() == 0);
        if keymap_matches(t[k], q) {
            assert(f[0] == t[k]);
        }
    }
}

/// A binding as a list item: the key, the description and the mode.
pub open spec fn keymap_item(e: KeymapView) -> (Seq<char>, Seq<char>, PromptMode) {
    (e.1, e.2, e.0)
}

/// One key binding.
pub struct KeymapEntry {
    mode: PromptMode,
    key: &'static str,
    description: &'static str,
}

impl KeymapEntry {
    pub closed spec fn spec_view(&self) -> KeymapView {
        (self.mode, self.key@, self.description@)
    }

    /// The binding as a list item.
    pub fn item(&self) -> (r: PromptListItemFrame)
        ensures
            item_view(r) == keymap_item(self.spec_view()),
    {
        PromptListItemFrame::new(String::from_str(self.key), String::from_str(self.description), self.mode)
    }
}

impl PromptEntry for KeymapEntry {
    open spec fn entry(&self) -> EntryView {
        keymap_item(self.spec_view())
    }

    fn label(&self) -> (r: &str) {
        self.key
    }

    fn detail(&self) -> (r: &str) {
        self.description
    }

    fn mode(&self) -> (r: PromptMode) {
        self.mode
    }
}

fn mode_label_chars(m: PromptMode) -> (r: Vec<char>)
    ensures
        r@ == mode_label(m),
{
    let s = match m {
        PromptMode::Command => "command",
        PromptMode::Normal => "normal",
        PromptMode::Edit => "edit",
        PromptMode::Visual => "visual",
        PromptMode::PromptCommand => "prompt_command",
        PromptMode::PromptKeymap => "prompt_keymap",
    };
    chars_of(s)
}

/// All key bindings.
pub struct KeymapRegistry {
    keymaps: Vec<KeymapEntry>,
}

impl KeymapRegistry {
    pub closed spec fn spec_entries(&self) -> Seq<KeymapView> {
        self.keymaps@.map_values(|e: KeymapEntry| e.spec_view())
    }

    pub fn new() -> (r: Self)
        ensures
            r.spec_entries() == keymap_table(),
    {
        let mut keymaps: Vec<KeymapEntry> = Vec::new();
        keymaps.push(KeymapEntry { mode: PromptMode::Normal, key: "q", description: "Quit the editor" });
        keymaps.push(KeymapEntry { mode: PromptMode::Normal, key: "e", description: "Enter edit mode" });
        keymaps.push(KeymapEntry { mode: PromptMode::Normal, key: "s", description: "Save the current buffer" });
        keymaps.push(KeymapEntry { mode: PromptMode::Normal, key: ":", description: "Open the command prompt" });
        keymaps.push(KeymapEntry { mode: PromptMode::Normal, key: "v", description: "Enter visual mode" });
        keymaps.push(KeymapEntry { mode: PromptMode::Normal, key: ";", description: "Open the keymap prompt" });
        keymaps.push(KeymapEntry { mode: PromptMode::Normal, key: "h", description: "Move cursor left" });
        keymaps.push(KeymapEntry { mode: PromptMode::Normal, key: "j", description: "Move cursor down" });
        keymaps.push(KeymapEntry { mode: PromptMode::Normal, key: "k", description: "Move cursor up" });
        keymaps.push(KeymapEntry { mode: PromptMode::Normal, key: "l", description: "Move cursor right" });
        keymaps.push(KeymapEntry { mode: PromptMode::Normal, key: "PageUp", description: "Move cursor one page up" });
        keymaps.push(KeymapEntry { mode: PromptMode::Normal, key: "PageDown", description: "Move cursor one page down" });
        keymaps.push(KeymapEntry { mode: PromptMode::Normal, key: "Home", description: "Move cursor to line start" });
        keymaps.push(KeymapEntry { mode: PromptMode::Normal, key: "End", description: "Move cursor to line end" });
        keymaps.push(KeymapEntry { mode: PromptMode::Edit, key: "Esc", description: "Return to normal mode" });
        keymaps.push(KeymapEntry { mode: PromptMode::Edit, key: "Backspace", description: "Delete character before cursor" });
        keymaps.push(KeymapEntry { mode: PromptMode::Edit, key: "Delete", description: "Delete character under cursor" });
        keymaps.push(KeymapEntry { mode: PromptMode::Edit, key: "Enter", description: "Insert line break" });
        keymaps.push(KeymapEntry { mode: PromptMode::Visual, key: "Esc", description: "Return to normal mode" });
        keymaps.push(KeymapEntry { mode: PromptMode::Visual, key: ":", description: "Open the command prompt" });
        keymaps.push(KeymapEntry { mode: PromptMode::Visual, key: "h", description: "Move cursor left" });
        keymaps.push(KeymapEntry { mode: PromptMode::Visual, key: "j", description: "Move cursor down" });
        keymaps.push(KeymapEntry { mode: PromptMode::Visual, key: "k", description: "Move cursor up" });
        keymaps.push(KeymapEntry { mode: PromptMode::Visual, key: "l", description: "Move cursor right" });
        keymaps.push(KeymapEntry { mode: PromptMode::Visual, key: "PageUp", description: "Move cursor one page up" });
        keymaps.push(KeymapEntry { mode: PromptMode::Visual, key: "PageDown", description: "Move cursor one page down" });
        keymaps.push(KeymapEntry { mode: PromptMode::Visual, key: "Home", description: "Move cursor to line start" });
        keymaps.push(KeymapEntry { mode: PromptMode::Visual, key: "End", description: "Move cursor to line end" });
        keymaps.push(KeymapEntry { mode: PromptMode::PromptCommand, key: "Esc", description: "Return to normal mode" });
        keymaps.push(KeymapEntry { mode: PromptMode::PromptCommand, key: "Enter", description: "Execute command" });
        keymaps.push(KeymapEntry { mode: PromptMode::PromptCommand, key: "Backspace", description: "Delete character before cursor" });
        keymaps.push(KeymapEntry { mode: PromptMode::PromptCommand, key: "Delete", description: "Delete character under cursor" });
        keymaps.push(KeymapEntry { mode: PromptMode::PromptCommand, key: "Left", description: "Move cursor left" });
        keymaps.push(KeymapEntry { mode: PromptMode::PromptCommand, key: "Right", description: "Move cursor right" });
        keymaps.push(KeymapEntry { mode: PromptMode::PromptCommand, key: "Home", description: "Move cursor to line start" });
        keymaps.push(KeymapEntry { mode: PromptMode::PromptCommand, key: "End", description: "Move cursor to line end" });
        keymaps.push(KeymapEntry { mode: PromptMode::PromptCommand, key: "Tab", description: "Complete file name in command prompt" });
        keymaps.push(KeymapEntry { mode: PromptMode::PromptCommand, key: "Ctrl+Up", description: "Move focus to command line" });
        keymaps.push(KeymapEntry { mode: PromptMode::PromptCommand, key: "Ctrl+Down", description: "Move focus to command list" });
        keymaps.push(KeymapEntry { mode: PromptMode::PromptCommand, key: "Up", description: "Recall previous command from history" });
        keymaps.push(KeymapEntry { mode: PromptMode::PromptCommand, key: "Down", description: "Recall next command from history" });
        keymaps.push(KeymapEntry { mode: PromptMode::PromptKeymap, key: "Esc", description: "Return to normal mode" });
        keymaps.push(KeymapEntry { mode: PromptMode::PromptKeymap, key: "Backspace", description: "Delete character before cursor" });
        keymaps.push(KeymapEntry { mode: PromptMode::PromptKeymap, key: "Delete", description: "Delete character under cursor" });
        keymaps.push(KeymapEntry { mode: PromptMode::PromptKeymap, key: "Left", description: "Move cursor left" });
        keymaps.push(KeymapEntry { mode: PromptMode::PromptKeymap, key: "Right", description: "Move cursor right" });
        keymaps.push(KeymapEntry { mode: PromptMode::PromptKeymap, key: "Home", description: "Move cursor to line start" });
        keymaps.push(KeymapEntry { mode: PromptMode::PromptKeymap, key: "End", description: "Move cursor to line end" });
        keymaps.push(KeymapEntry { mode: PromptMode::PromptKeymap, key: "Ctrl+Up", description: "Move focus to keymap input" });
        keymaps.push(KeymapEntry { mode: PromptMode::PromptKeymap, key: "Ctrl+Down", description: "Move focus to keymap list" });
        keymaps.push(KeymapEntry { mode: PromptMode::PromptKeymap, key: "Up", description: "Move selection up" });
        keymaps.push(KeymapEntry { mode: PromptMode::PromptKeymap, key: "Down", description: "Move selection down" });
        let r = Self { keymaps };
        assert(r.spec_entries() =~= keymap_table());
        r
    }

    /// The bindings matching `query`.
    pub fn matching(&self, query: &str) -> (r: Vec<PromptListItemFrame>)
        ensures
            r@.map_values(|i: PromptListItemFrame| item_view(i)) == filter_keymaps(
                self.spec_entries(),
                normalized_query(query@),
            ).map_values(|e: KeymapView| keymap_item(e)),
    {
        let input = chars_of(query);
        let normalized = query_from_input(input.as_slice());
        let mut matches: Vec<PromptListItemFrame> = Vec::new();
        let mut i: usize = 0;
        while i < self.keymaps.len()
            invariant
                0 <= i <= self.keymaps@.len(),
                normalized@ == normalized_query(query@),
                matches@.map_values(|i: PromptListItemFrame| item_view(i)) == filter_keymaps(
                    self.spec_entries().take(i as int),
                    normalized@,
                ).map_values(|e: KeymapView| keymap_item(e)),
            decreases self.keymaps@.len() - i,
        {
            let entry = &self.keymaps[i];
            proof {
                let t = self.spec_entries().take(i + 1);
                assert(t.drop_last() =~= self.spec_entries().take(i as int));
                assert(t.last() == entry.spec_view());
            }
            let key = chars_of(entry.key);
            let desc = lowercase_chars(entry.description);
            let label = mode_label_chars(entry.mode);
            let ghost prev_items = matches@.map_values(|i: PromptListItemFrame| item_view(i));
            let ghost prev = filter_keymaps(self.spec_entries().take(i as int), normalized@);
            if fuzzy_match(normalized.as_slice(), key.as_slice()) || fuzzy_match(
                normalized.as_slice(),
                desc.as_slice(),
            ) || fuzzy_match(normalized.as_slice(), label.as_slice()) {
                matches.push(entry.item());
                assert(matches@.map_values(|i: PromptListItemFrame| item_view(i)) =~= prev_items.push(
                    keymap_item(entry.spec_view()),
                ));
                assert(prev.push(entry.spec_view()).map_values(|e: KeymapView| keymap_item(e))
                    =~= prev.map_values(|e: KeymapView| keymap_item(e)).push(
                    keymap_item(entry.spec_view()),
                ));
            }
            i += 1;
            assert(matches@.map_values(|i: PromptListItemFrame| item_view(i)) =~= filter_keymaps(
                self.spec_entries().take(i as int),
                normalized@,
            ).map_values(|e: KeymapView| keymap_item(e)));
        }
        assert(self.spec_entries().take(self.keymaps@.len() as int) =~= self.spec_entries());
        matches
    }
}

/// The keymap list: all bindings, the highlighted one and the scroll position.
pub struct KeymapList {
    registry: KeymapRegistry,
    selected_index: Option<usize>,
    scroll_offset: usize,
}

impl KeymapList {
    #[verifier::type_invariant]
    spec fn registry_complete(self) -> bool {
        self.registry.spec_entries() == keymap_table()
    }

    pub closed spec fn spec_selected(&self) -> Option<usize> {
        self.selected_index
    }

    pub closed spec fn spec_scroll(&self) -> usize {
        self.scroll_offset
    }

    pub fn new() -> (r: Self)
        ensures
            r.spec_selected() is None,
            r.spec_scroll() == 0,
    {
        Self { registry: KeymapRegistry::new(), selected_index: None, scroll_offset: 0 }
    }

    /// The bindings listed for `query`.
    pub fn filter(&self, query: &str) -> (r: Vec<PromptListItemFrame>)
        ensures
            r@.map_values(|i: PromptListItemFrame| item_view(i)) == filter_keymaps(
                keymap_table(),
                normalized_query(query@),
            ).map_values(|e: KeymapView| keymap_item(e)),
    {
        proof {
            use_type_invariant(self);
        }
        self.registry.matching(query)
    }

    /// No binding highlighted, scrolled to the top.
    pub fn reset_selection(&mut self)
        ensures
            final(self).spec_selected() is None,
            final(self).spec_scroll() == 0,
    {
        proof {
            use_type_invariant(&*self);
        }
        self.selected_index = None;
        self.scroll_offset = 0;
    }

    /// No binding highlighted; the scroll position stays.
    pub fn selection_clear(&mut self)
        ensures
            final(self).spec_selected() is None,
            final(self).spec_scroll() == old(self).spec_scroll(),
    {
        proof {
            use_type_invariant(&*self);
        }
        self.selected_index = None;
    }

    pub fn selection(&self) -> (r: Option<usize>)
        ensures
            r == self.spec_selected(),
    {
        self.selected_index
    }

    pub fn scroll_position(&self) -> (r: usize)
        ensures
            r == self.spec_scroll(),
    {
        self.scroll_offset
    }

    pub fn select_index(&mut self, new_index: usize)
        ensures
            final(self).spec_selected() == Some(new_index),
            final(self).spec_scroll() == old(self).spec_scroll(),
    {
        proof {
            use_type_invariant(&*self);
        }
        self.selected_index = Some(new_index);
    }

    /// Scrolls so the highlighted binding lies within `visible_rows` rows.
    pub fn adjust_scroll_for_visible_rows(&mut self, visible_rows: usize)
        ensures
            final(self).spec_selected() == old(self).spec_selected(),
            final(self).spec_scroll() == scroll_adjusted(old(self).spec_selected(), old(self).spec_scroll(), visible_rows),
    {
        proof {
            use_type_invariant(&*self);
        }
        self.scroll_offset = adjust_scroll(self.selected_index, self.scroll_offset, visible_rows);
    }
}

impl Default for KeymapList {
    fn default() -> (r: Self)
        ensures
            r.spec_selected() is None,
            r.spec_scroll() == 0,
    {
        Self::new()
    }
}

} // verus!
