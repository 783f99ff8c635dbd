//! The commands the command prompt offers, and the list state of the prompt.
use vstd::prelude::*;
use crate::engine::query::{fuzzy, fuzzy_match, lowercase_chars, normalized_query, query_from_input};
use crate::engine::prompt_entry::PromptEntry;
use crate::engine::signal::CommandScope;
use crate::protocol::prompt_ui::{PromptListItemFrame, PromptListSelection, PromptMode};
use crate::text::{chars_of, spec_lowercase};

verus! {

/// An entry's name, description and mode.
pub type EntryView = (Seq<char>, Seq<char>, PromptMode);

/// A list item's name, description and mode.
pub open spec fn item_view(i: PromptListItemFrame) -> EntryView {
    (i.spec_name(), i.spec_description(), i.spec_mode())
}

/// The commands, in the order the list shows them.
pub open spec fn command_table() -> Seq<EntryView> {
    seq![
        ("s"@, "Save the current buffer"@, PromptMode::Command),
        ("save"@, "Save the current buffer"@, PromptMode::Command),
        ("q"@, "Quit the editor"@, PromptMode::Command),
        ("quit"@, "Quit the editor"@, PromptMode::Command),
        ("sq"@, "Save and quit"@, PromptMode::Command),
        ("o {path[:line[:column]]}"@, "Open a file"@, PromptMode::Command),
        ("o"@, "Reload the current file from disk"@, PromptMode::Command),
        ("open {path[:line[:column]]}"@, "Open a file"@, PromptMode::Command),
        ("open"@, "Reload the current file from disk"@, PromptMode::Command),
        ("history"@, "Open command prompt history"@, PromptMode::Command),
        ("case kebab"@, "Convert selection to kebab-case"@, PromptMode::Visual),
        ("case camel"@, "Convert selection to camelCase"@, PromptMode::Visual),
        ("case snake"@, "Convert selection to snake_case"@, PromptMode::Visual),
        ("case screaming"@, "Convert selection to SCREAMING_SNAKE_CASE"@, PromptMode::Visual),
        ("case pascal"@, "Convert selection to PascalCase"@, PromptMode::Visual),
        ("case train"@, "Convert selection to Train-Case"@, PromptMode::Visual),
        ("case flat"@, "Convert selection to flatcase"@, PromptMode::Visual),
    ]
}

/// Whether a command of `mode` is offered in `scope`.
pub open spec fn command_allowed(scope: CommandScope, mode: PromptMode) -> bool {
    match scope {
        CommandScope::Normal => mode == PromptMode::Command,
        CommandScope::Visual => mode == PromptMode::Visual,
    }
}

/// Whether a command is listed for normalised query `q` in `scope`: its name or its
/// description (both lowercased) contains `q` as a subsequence.
pub open spec fn command_matches(e: EntryView, q: Seq<char>, scope: CommandScope) -> bool {
    command_allowed(scope, e.2) && (fuzzy(q, spec_lowercase(e.0)) || fuzzy(q, spec_lowercase(e.1)))
}

/// The commands of `t` listed for `q` in `scope`, in order.
pub open spec fn filter_commands(t: Seq<EntryView>, q: Seq<char>, scope: CommandScope) -> Seq<EntryView>
    decreases t.len(),
{
    if t.len() == 0 {
        Seq::empty()
    } else {
        let rest = filter_commands(t.drop_last(), q, scope);
        if command_matches(t.last(), q, scope) { rest.push(t.last()) } else { rest }
    }
}

/// Filtering keeps at most the entries it is given.
pub proof fn lemma_filter_commands_len(t: Seq<EntryView>, q: Seq<char>, scope: CommandScope)
    ensures
        filter_commands(t, q, scope).len() <= t.len(),
    decreases t.len(),
{
    if t.len() > 0 {
        lemma_filter_commands_len(t.drop_last(), q, scope);
    }
}

/// A command is listed for a query in a scope exactly when the scope offers its mode
/// and the query is a subsequence of its lowercased name or of its lowercased
/// description; the list holds nothing else.
pub proof fn law_command_listed_by_name_or_description(t: Seq<EntryView>, q: Seq<char>, scope: CommandScope, k: int)
    requires
        0 <= k < t.len(),
    ensures
        filter_commands(t, q, scope).contains(t[k]) <==> (command_allowed(scope, t[k].2) && (fuzzy(
            q,
            spec_lowercase(t[k].0),
        ) || fuzzy(q, spec_lowercase(t[k].1)))),
        forall|j: int| 0 <= j < filter_commands(t, q, scope).len() ==> t.contains(#[trigger] filter_commands(t, q, scope)[j]),
    decreases t.len(),
{
    let d = t.drop_last();
    let rest = filter_commands(d, q, scope);
    let f = filter_commands(t, q, scope);
    if k < t.len() - 1 {
        law_command_listed_by_name_or_description(d, q, scope, k);
        assert(d[k] == t[k]);
    } else if t.len() > 1 {
        law_command_listed_by_name_or_description(d, q, scope, 0);
    }
    if t.len() > 1 {
        assert forall|j: int| 0 <= j < f.len() implies t.contains(#[trigger] f[j]) by {
            if j < rest.len() {
                assert(f[j] == rest[j]);
                let w = choose|w: int| 0 <= w < d.len() && d[w] == rest[j];
                assert(t[w] == d[w]);
            } else {
                assert(t[t.len() - 1] == f[j]);
            }
        }
        if !command_matches(t[k], q, scope) && f.contains(t[k]) {
            let w = choose|w: int| 0 <= w < f.len() && f[w] == t[k];
            if w < rest.len() {
                assert(f[w] == rest[w]);
                assert(rest.contains(t[k]));
                let v = choose|v: int| 0 <= v < rest.len() && rest[v] == t[k];
                assert(d.contains(rest[v]));
                let u = choose|u: int| 0 <= u < d.len() && d[u] == rest[v];
                assert(d[u] == t[u]);
                law_command_listed_by_name_or_description(d, q, scope, u);
            }
        }
        if command_matches(t[k], q, scope) && k < t.len() - 1 {
            let w = choose|w: int| 0 <= w < rest.len() && rest[w] == d[k];
            assert(f[w] == rest[w]);
        }
        if command_matches(t[k], q, scope) && k == t.len() - 1 {
            assert(f[f.len() - 1] == t[k]);
        }
    } else {
        assert(d.len() == 0);
        assert(rest.len() == 0);
        if command_matches(t[k], q, scope) {
            assert(f[0] == t[k]);
        }
    }
}

/// One command of the command prompt.
pub struct CommandEntry {
    name: &'static str,
    description: &'static str,
    mode: PromptMode,
}

impl CommandEntry {
    pub closed spec fn spec_view(&self) -> EntryView {
        (self.name@, self.description@, self.mode)
    }

    /// The entry as a list item.
    pub fn item(&self) -> (r: PromptListItemFrame)
        ensures
            item_view(r) == self.spec_view(),
    {
        PromptListItemFrame::new(String::from_str(self.name), String::from_str(self.description), self.mode)
    }
}

impl PromptEntry for CommandEntry {
    open spec fn entry(&self) -> EntryView {
        self.spec_view()
    }

    fn label(&self) -> (r: &str) {
        self.name
    }

    fn detail(&self) -> (r: &str) {
        self.description
    }

    fn mode(&self) -> (r: PromptMode) {
        self.mode
    }
}

/// All commands.
pub struct CommandRegistry {
    commands: Vec<CommandEntry>,
}

impl CommandRegistry {
    pub closed spec fn spec_entries(&self) -> Seq<EntryView> {
        self.commands@.map_values(|e: CommandEntry| e.spec_view())
    }

    pub fn new() -> (r: Self)
        ensures
            r.spec_entries() == command_table(),
    {
        let mut commands: Vec<CommandEntry> = Vec::new();
        commands.push(CommandEntry { name: "s", description: "Save the current buffer", mode: PromptMode::Command });
        commands.push(CommandEntry { name: "save", description: "Save the current buffer", mode: PromptMode::Command });
        commands.push(CommandEntry { name: "q", description: "Quit the editor", mode: PromptMode::Command });
        commands.push(CommandEntry { name: "quit", description: "Quit the editor", mode: PromptMode::Command });
        commands.push(CommandEntry { name: "sq", description: "Save and quit", mode: PromptMode::Command });
        commands.push(CommandEntry { name: "o {path[:line[:column]]}", description: "Open a file", mode: PromptMode::Command });
        commands.push(CommandEntry { name: "o", description: "Reload the current file from disk", mode: PromptMode::Command });
        commands.push(CommandEntry { name: "open {path[:line[:column]]}", description: "Open a file", mode: PromptMode::Command });
        commands.push(CommandEntry { name: "open", description: "Reload the current file from disk", mode: PromptMode::Command });
        commands.push(CommandEntry { name: "history", description: "Open command prompt history", mode: PromptMode::Command });
        commands.push(CommandEntry { name: "case kebab", description: "Convert selection to kebab-case", mode: PromptMode::Visual });
        commands.push(CommandEntry { name: "case camel", description: "Convert selection to camelCase", mode: PromptMode::Visual });
        commands.push(CommandEntry { name: "case snake", description: "Convert selection to snake_case", mode: PromptMode::Visual });
        commands.push(CommandEntry { name: "case screaming", description: "Convert selection to SCREAMING_SNAKE_CASE", mode: PromptMode::Visual });
        commands.push(CommandEntry { name: "case pascal", description: "Convert selection to PascalCase", mode: PromptMode::Visual });
        commands.push(CommandEntry { name: "case train", description: "Convert selection to Train-Case", mode: PromptMode::Visual });
        commands.push(CommandEntry { name: "case flat", description: "Convert selection to flatcase", mode: PromptMode::Visual });
        let r = Self { commands };
        assert(r.spec_entries() =~= command_table());
        r
    }

    /// The commands offered in `scope` whose name or description matches `query`.
    pub fn matching(&self, query: &str, scope: CommandScope) -> (r: Vec<PromptListItemFrame>)
        ensures
            r@.map_values(|i: PromptListItemFrame| item_view(i)) == filter_commands(
                self.spec_entries(),
                normalized_query(query@),
                scope,
            ),
    {
        let input = chars_of(query);
        let normalized = query_from_input(input.as_slice());
        let mut matches: Vec<PromptListItemFrame> = Vec::new();
        let mut i: usize = 0;
        while i < self.commands.len()
            invariant
                0 <= i <= self.commands@.len(),
                normalized@ == normalized_query(query@),
                matches@.map_values(|i: PromptListItemFrame| item_view(i)) == filter_commands(
                    self.spec_entries().take(i as int),
                    normalized@,
                    scope,
                ),
            decreases self.commands@.len() - i,
        {
            let entry = &self.commands[i];
            let allow = match scope {
                CommandScope::Normal => match entry.mode {
                    PromptMode::Command => true,
                    _ => false,
                },
                CommandScope::Visual => match entry.mode {
                    PromptMode::Visual => true,
                    _ => false,
                },
            };
            proof {
                let t = self.spec_entries().take(i + 1);
                assert(t.drop_last() =~= self.spec_entries().take(i as int));
                assert(t.last() == entry.spec_view());
            }
            if allow {
                let name = lowercase_chars(entry.name);
                let desc = lowercase_chars(entry.description);
                if fuzzy_match(normalized.as_slice(), name.as_slice()) || fuzzy_match(
                    normalized.as_slice(),
                    desc.as_slice(),
                ) {
                    matches.push(entry.item());
                }
            }
            i += 1;
            assert(matches@.map_values(|i: PromptListItemFrame| item_view(i)) =~= filter_commands(
                self.spec_entries().take(i as int),
                normalized@,
                scope,
            ));
        }
        assert(self.spec_entries().take(self.commands@.len() as int) =~= self.spec_entries());
        matches
    }
}

/// Scroll position of a list so that `selected` (when there is one) stays within
/// `visible_rows` rows.
pub open spec fn scroll_adjusted(selected: Option<usize>, scroll: usize, visible_rows: usize) -> usize {
    if visible_rows == 0 {
        0
    } else {
        match selected {
            None => scroll,
            Some(s) => if s < scroll {
                s
            } else if s as int >= (if scroll + visible_rows > usize::MAX { usize::MAX as int } else { scroll + visible_rows }) {
                ((if s < visible_rows { 0 } else { s - visible_rows }) + 1) as usize
            } else {
                scroll
            },
        }
    }
}

/// The selected index of a list selection, when one is selected.
pub open spec fn selected_of(s: PromptListSelection) -> Option<usize> {
    if s.spec_index() == usize::MAX { None } else { Some(s.spec_index()) }
}

pub fn adjust_scroll(selected: Option<usize>, scroll: usize, visible_rows: usize) -> (r: usize)
    ensures
        r == scroll_adjusted(selected, scroll, visible_rows),
{
    if visible_rows == 0 {
        return 0;
    }
    match selected {
        None => scroll,
        Some(s) => {
            let bottom = if scroll > usize::MAX - visible_rows { usize::MAX } else { scroll + visible_rows };
            if s < scroll {
                s
            } else if s >= bottom {
                let base = if s < visible_rows { 0 } else { s - visible_rows };
                base + 1
            } else {
                scroll
            }
        },
    }
}

/// The command list: all commands and the highlighted entry.
pub struct CommandList {
    registry: CommandRegistry,
    selection: CommandListSelection,
}

/// The highlighted entry and the scroll position of the command list.
#[derive(Clone, Copy)]
struct CommandListSelection {
    selected_index: PromptListSelection,
    scroll_offset: usize,
}

impl CommandList {
    #[verifier::type_invariant]
    spec fn registry_complete(self) -> bool {
        self.registry.spec_entries() == command_table()
    }

    /// The highlighted entry.
    pub closed spec fn spec_selection(&self) -> PromptListSelection {
        self.selection.selected_index
    }

    pub closed spec fn spec_scroll(&self) -> usize {
        self.selection.scroll_offset
    }

    fn with(selected_index: PromptListSelection, scroll_offset: usize) -> (r: Self)
        ensures
            r.spec_selection() == selected_index,
            r.spec_scroll() == scroll_offset,
    {
        Self { registry: CommandRegistry::new(), selection: CommandListSelection { selected_index, scroll_offset } }
    }

    pub fn new() -> (r: Self)
        ensures
            r.spec_selection().spec_index() == usize::MAX,
            r.spec_scroll() == 0,
    {
        Self::with(PromptListSelection::empty(), 0)
    }

    /// The commands listed for `query` in `scope`.
    pub fn filter(&self, query: &str, scope: CommandScope) -> (r: Vec<PromptListItemFrame>)
        ensures
            r@.map_values(|i: PromptListItemFrame| item_view(i)) == filter_commands(
                command_table(),
                normalized_query(query@),
                scope,
            ),
    {
        proof {
            use_type_invariant(self);
        }
        self.registry.matching(query, scope)
    }

    /// No entry highlighted, scrolled to the top.
    pub fn reset_selection(&self) -> (r: Self)
        ensures
            r.spec_selection().spec_index() == usize::MAX,
            r.spec_scroll() == 0,
    {
        Self::with(PromptListSelection::empty(), 0)
    }

    /// No entry highlighted; the scroll position stays.
    pub fn selection_clear(&self) -> (r: Self)
        ensures
            r.spec_selection().spec_index() == usize::MAX,
            r.spec_scroll() == self.spec_scroll(),
    {
        Self::with(PromptListSelection::empty(), self.selection.scroll_offset)
    }

    pub fn selection(&self) -> (r: PromptListSelection)
        ensures
            r == self.spec_selection(),
    {
        self.selection.selected_index
    }

    pub fn scroll_position(&self) -> (r: usize)
        ensures
            r == self.spec_scroll(),
    {
        self.selection.scroll_offset
    }

    /// Entry `new_index` highlighted; the scroll position stays.
    pub fn select_index(&self, new_index: usize) -> (r: Self)
        ensures
            r.spec_selection().spec_index() == new_index,
            r.spec_scroll() == self.spec_scroll(),
    {
        Self::with(PromptListSelection::at(new_index), self.selection.scroll_offset)
    }

    /// Scrolled so the highlighted entry lies within `visible_rows` rows.
    pub fn adjust_scroll_for_visible_rows(&self, visible_rows: usize) -> (r: Self)
        ensures
            r.spec_selection() == self.spec_selection(),
            r.spec_scroll() == scroll_adjusted(selected_of(self.spec_selection()), self.spec_scroll(), visible_rows),
    {
        let index = self.selection.selected_index.index();
        let selected = if index == usize::MAX { None } else { Some(index) };
        let scroll = adjust_scroll(selected, self.selection.scroll_offset, visible_rows);
        Self::with(self.selection.selected_index, scroll)
    }
}

impl Default for CommandList {
    fn default() -> (r: Self)
        ensures
            r.spec_selection().spec_index() == usize::MAX,
            r.spec_scroll() == 0,
    {
        Self::new()
    }
}

} // verus!
