//! The command history: where it is kept, reading it back, recording commands and
//! recalling them into the prompt.
use vstd::prelude::*;
use vstd::string::*;
use crate::engine::file::{ends_with_cr, law_appended_line_reads_back, lines_view, split_lines, text_lines};
use crate::engine::prompt_input::{InputModel, PromptInput, len16};
use crate::engine::query::{lemma_trim_trimmed, strip_leading, strip_leading_char, trim, trim_whitespace};
use crate::protocol::path::FilePath;
use crate::protocol::prompt_ui::PromptInputSelection;
use crate::text::{chars_of, joined_path, path_join, string_from_chars};

verus! {

/// The views of a vector of strings.
pub open spec fn strings_view(v: Seq<String>) -> Seq<Seq<char>> {
    v.map_values(|s: String| s@)
}

/// The entries a history file holds: its lines, trimmed, without empty ones.
pub open spec fn history_lines(lines: Seq<Seq<char>>) -> Seq<Seq<char>>
    decreases lines.len(),
{
    if lines.len() == 0 {
        Seq::empty()
    } else {
        let rest = history_lines(lines.drop_last());
        let t = trim(lines.last());
        if t.len() == 0 { rest } else { rest.push(t) }
    }
}

/// A command recorded in one session is restored in the next: the history file holds
/// whole lines, the recorded entry is appended with a final `\n`, and reading the
/// file back yields the entries it held before followed by that entry (for an entry
/// without a `\n` of its own).
pub proof fn law_recorded_entry_restored(text: Seq<char>, line: Seq<char>)
    requires
        text.len() == 0 || text.last() == '\n',
        recorded_entry(line) is Some,
        !recorded_entry(line)->0.contains('\n'),
    ensures
        history_lines(text_lines(text + recorded_entry(line)->0 + seq!['\n'])) == history_lines(
            text_lines(text),
        ).push(recorded_entry(line)->0),
{
    let e = recorded_entry(line)->0;
    lemma_trim_trimmed(strip_leading(line, ':'));
    assert(!ends_with_cr(e));
    law_appended_line_reads_back(text, e);
    let all = text_lines(text).push(e);
    assert(all.drop_last() =~= text_lines(text));
    assert(trim(all.last()) == e);
}

/// One line to add to the history file: the directory to create, the file and the line
/// (written followed by a newline).
pub struct HistoryWrite {
    pub directory: String,
    pub path: String,
    pub line: String,
}

/// Adds the entries of history file text `contents` to `entries`.
pub fn restore_entries(entries: &mut Vec<String>, contents: &str)
    ensures
        strings_view(final(entries)@) == strings_view(old(entries)@) + history_lines(text_lines(contents@)),
{
    let chars = chars_of(contents);
    let lines = split_lines(chars.as_slice());
    let ghost all = lines_view(lines@);
    let mut i: usize = 0;
    while i < lines.len()
        invariant
            0 <= i <= lines@.len(),
            all == lines_view(lines@),
            all == text_lines(contents@),
            strings_view(entries@) == strings_view(old(entries)@) + history_lines(all.take(i as int)),
        decreases lines@.len() - i,
    {
        let trimmed = trim_whitespace(lines[i].as_slice());
        proof {
            let t = all.take(i + 1);
            assert(t.drop_last() =~= all.take(i as int));
            assert(t.last() == lines@[i as int]@);
        }
        let ghost prev = strings_view(entries@);
        if trimmed.len() > 0 {
            entries.push(string_from_chars(trimmed.as_slice()));
            assert(strings_view(entries@) =~= prev.push(trimmed@));
        }
        i += 1;
        assert(strings_view(entries@) =~= strings_view(old(entries)@) + history_lines(all.take(i as int)));
    }
    assert(all.take(lines@.len() as int) =~= all);
}

/// The history file and the directory holding it.
pub struct CommandHistoryFile {
    directory: String,
    path: String,
}

impl CommandHistoryFile {
    pub closed spec fn spec_directory(&self) -> Seq<char> {
        self.directory@
    }

    pub closed spec fn spec_path(&self) -> Seq<char> {
        self.path@
    }

    pub fn new(directory: String, path: String) -> (r: Self)
        ensures
            r.spec_directory() == directory@,
            r.spec_path() == path@,
    {
        Self { directory, path }
    }

    /// Adds the entries of the file's text `contents` to `entries`.
    pub fn restore(&self, entries: &mut Vec<String>, contents: &str)
        ensures
            strings_view(final(entries)@) == strings_view(old(entries)@) + history_lines(text_lines(contents@)),
    {
        restore_entries(entries, contents);
    }

    /// The write that adds `line` to the file.
    pub fn append(&self, line: &str) -> (r: HistoryWrite)
        ensures
            r.directory@ == self.spec_directory(),
            r.path@ == self.spec_path(),
            r.line@ == line@,
    {
        HistoryWrite { directory: self.directory.clone(), path: self.path.clone(), line: String::from_str(line) }
    }

    pub fn path(&self) -> (r: FilePath)
        ensures
            r@ == Some(self.spec_path()),
    {
        FilePath::Provided { path: self.path.clone() }
    }
}

/// Where the history is kept, if anywhere.
pub enum CommandHistoryLocation {
    Missing,
    File { file: CommandHistoryFile },
}

impl CommandHistoryLocation {
    /// The history file's path, when there is one.
    pub open spec fn spec_path(&self) -> Option<Seq<char>> {
        match self {
            CommandHistoryLocation::Missing => None,
            CommandHistoryLocation::File { file } => Some(file.spec_path()),
        }
    }

    /// The directory holding the history file, when there is one.
    pub open spec fn spec_directory(&self) -> Option<Seq<char>> {
        match self {
            CommandHistoryLocation::Missing => None,
            CommandHistoryLocation::File { file } => Some(file.spec_directory()),
        }
    }

    /// Adds the entries of the file's text `contents` to `entries`; nothing without a file.
    pub fn restore(&self, entries: &mut Vec<String>, contents: &str)
        ensures
            self is Missing ==> final(entries)@ == old(entries)@,
            self is File ==> strings_view(final(entries)@) == strings_view(old(entries)@)
                + history_lines(text_lines(contents@)),
    {
        match self {
            CommandHistoryLocation::Missing => {},
            CommandHistoryLocation::File { file } => file.restore(entries, contents),
        }
    }

    /// The write that adds `line` to the file; nothing without a file.
    pub fn append(&self, line: &str) -> (r: Option<HistoryWrite>)
        ensures
            self is Missing ==> r is None,
            self is File ==> (r matches Some(w) && w.path@ == self.spec_path()->0 && w.directory@
                == self.spec_directory()->0 && w.line@ == line@),
    {
        match self {
            CommandHistoryLocation::Missing => None,
            CommandHistoryLocation::File { file } => Some(file.append(line)),
        }
    }

    pub fn file(&self) -> (r: FilePath)
        ensures
            r@ == self.spec_path(),
    {
        match self {
            CommandHistoryLocation::Missing => FilePath::Missing,
            CommandHistoryLocation::File { file } => file.path(),
        }
    }
}

/// The directory under which the history is kept.
pub struct CommandHistoryDirectory {
    path: String,
}

/// The history directory under base directory `base`.
pub open spec fn history_directory(base: Seq<char>) -> Seq<char> {
    joined_path(base, "vimrust"@)
}

/// The history file under base directory `base`.
pub open spec fn history_file_path(base: Seq<char>) -> Seq<char> {
    joined_path(history_directory(base), "history"@)
}

impl CommandHistoryDirectory {
    pub closed spec fn spec_path(&self) -> Seq<char> {
        self.path@
    }

    pub fn new(path: String) -> (r: Self)
        ensures
            r.spec_path() == path@,
    {
        Self { path }
    }

    /// The history file `vimrust/history` under this directory.
    pub fn file(self) -> (r: CommandHistoryFile)
        ensures
            r.spec_directory() == history_directory(self.spec_path()),
            r.spec_path() == history_file_path(self.spec_path()),
    {
        let directory = path_join(self.path.as_str(), "vimrust");
        let path = path_join(directory.as_str(), "history");
        CommandHistoryFile::new(directory, path)
    }
}

/// The base directory of the history, if known.
pub enum CommandHistoryRoot {
    Missing,
    Directory { directory: CommandHistoryDirectory },
}

impl CommandHistoryRoot {
    pub fn from(base: String) -> (r: Self)
        ensures
            r matches CommandHistoryRoot::Directory { directory } && directory.spec_path() == base@,
    {
        Self::Directory { directory: CommandHistoryDirectory::new(base) }
    }

    /// Where the history lives: `vimrust/history` under the base directory.
    pub fn location(self) -> (r: CommandHistoryLocation)
        ensures
            match self {
                CommandHistoryRoot::Missing => r is Missing,
                CommandHistoryRoot::Directory { directory } => r.spec_path() == Some(
                    history_file_path(directory.spec_path()),
                ),
            },
    {
        match self {
            CommandHistoryRoot::Missing => CommandHistoryLocation::Missing,
            CommandHistoryRoot::Directory { directory } => CommandHistoryLocation::File {
                file: directory.file(),
            },
        }
    }
}

/// The operating system family, which decides where the history is kept.
#[derive(Debug, PartialEq, Eq, Structural, Clone, Copy)]
pub enum HostOs {
    Windows,
    MacOs,
    Unix,
}

/// The environment variables the history location is derived from.
pub struct CommandHistoryEnvironment {
    pub os: HostOs,
    pub appdata: Option<String>,
    pub local_appdata: Option<String>,
    pub home: Option<String>,
    pub xdg_state_home: Option<String>,
}

/// A variable's value, when set.
pub open spec fn var_view(v: Option<String>) -> Option<Seq<char>> {
    match v {
        None => None,
        Some(s) => Some(s@),
    }
}

/// The base directory of the history for environment `env`: `%APPDATA%` (else
/// `%LOCALAPPDATA%`) on Windows, `$HOME/Library/Application Support` on macOS,
/// `$XDG_STATE_HOME` (else `$HOME/.local/state`) elsewhere.
pub open spec fn history_base(env: CommandHistoryEnvironment) -> Option<Seq<char>> {
    match env.os {
        HostOs::Windows => match var_view(env.appdata) {
            Some(v) => Some(v),
            None => var_view(env.local_appdata),
        },
        HostOs::MacOs => match var_view(env.home) {
            Some(h) => Some(joined_path(joined_path(h, "Library"@), "Application Support"@)),
            None => None,
        },
        HostOs::Unix => match var_view(env.xdg_state_home) {
            Some(v) => Some(v),
            None => match var_view(env.home) {
                Some(h) => Some(joined_path(joined_path(h, ".local"@), "state"@)),
                None => None,
            },
        },
    }
}

fn root_of(base: Option<String>) -> (r: CommandHistoryLocation)
    ensures
        r.spec_path() == match var_view(base) {
            Some(b) => Some(history_file_path(b)),
            None => None,
        },
{
    match base {
        None => CommandHistoryRoot::Missing.location(),
        Some(b) => CommandHistoryRoot::from(b).location(),
    }
}

fn copy_var(v: &Option<String>) -> (r: Option<String>)
    ensures
        var_view(r) == var_view(*v),
{
    match v {
        None => None,
        Some(s) => Some(s.clone()),
    }
}

impl CommandHistoryEnvironment {
    /// Where the history is kept in this environment.
    pub fn location(&self) -> (r: CommandHistoryLocation)
        ensures
            r.spec_path() == match history_base(*self) {
                Some(b) => Some(history_file_path(b)),
                None => None,
            },
    {
        match self.os {
            HostOs::Windows => self.location_windows(),
            HostOs::MacOs => self.location_macos(),
            HostOs::Unix => self.location_unix(),
        }
    }

    fn location_windows(&self) -> (r: CommandHistoryLocation)
        requires
            self.os == HostOs::Windows,
        ensures
            r.spec_path() == match history_base(*self) {
                Some(b) => Some(history_file_path(b)),
                None => None,
            },
    {
        let base = match &self.appdata {
            Some(v) => Some(v.clone()),
            None => copy_var(&self.local_appdata),
        };
        root_of(base)
    }

    fn location_macos(&self) -> (r: CommandHistoryLocation)
        requires
            self.os == HostOs::MacOs,
        ensures
            r.spec_path() == match history_base(*self) {
                Some(b) => Some(history_file_path(b)),
                None => None,
            },
    {
        let base = match &self.home {
            None => None,
            Some(h) => {
                let lib = path_join(h.as_str(), "Library");
                Some(path_join(lib.as_str(), "Application Support"))
            },
        };
        root_of(base)
    }

    fn location_unix(&self) -> (r: CommandHistoryLocation)
        requires
            self.os == HostOs::Unix,
        ensures
            r.spec_path() == match history_base(*self) {
                Some(b) => Some(history_file_path(b)),
                None => None,
            },
    {
        let base = match &self.xdg_state_home {
            Some(v) => Some(v.clone()),
            None => match &self.home {
                None => None,
                Some(h) => {
                    let local = path_join(h.as_str(), ".local");
                    Some(path_join(local.as_str(), "state"))
                },
            },
        };
        root_of(base)
    }
}

/// Where the history is kept, and the lines recorded since the last time the writes
/// were collected.
pub struct CommandHistoryStore {
    location: CommandHistoryLocation,
    pending: Vec<HistoryWrite>,
}

impl CommandHistoryStore {
    /// Every queued write goes to the history file, under its directory.
    #[verifier::type_invariant]
    spec fn writes_go_to_location(self) -> bool {
        forall|i: int|
            0 <= i < self.pending@.len() ==> self.location.spec_path() == Some((#[trigger] self.pending@[i]).path@)
                && self.location.spec_directory() == Some(self.pending@[i].directory@)
    }

    pub closed spec fn spec_path(&self) -> Option<Seq<char>> {
        self.location.spec_path()
    }

    pub closed spec fn spec_directory(&self) -> Option<Seq<char>> {
        self.location.spec_directory()
    }

    /// The lines waiting to be written, oldest first.
    pub closed spec fn spec_pending(&self) -> Seq<Seq<char>> {
        self.pending@.map_values(|w: HistoryWrite| w.line@)
    }

    /// A store that keeps the history nowhere.
    pub fn new() -> (r: Self)
        ensures
            r.spec_path() is None,
            r.spec_directory() is None,
            r.spec_pending().len() == 0,
    {
        let r = Self { location: CommandHistoryLocation::Missing, pending: Vec::new() };
        assert(r.spec_pending() =~= Seq::<Seq<char>>::empty());
        r
    }

    /// A store keeping the history at `location`.
    pub fn at(location: CommandHistoryLocation) -> (r: Self)
        ensures
            r.spec_path() == location.spec_path(),
            r.spec_pending().len() == 0,
    {
        let r = Self { location, pending: Vec::new() };
        assert(r.spec_pending() =~= Seq::<Seq<char>>::empty());
        r
    }

    /// Adds the entries of the history file's text `contents` to `entries` (none
    /// without a file).
    pub fn restore(&self, entries: &mut Vec<String>, contents: &str)
        ensures
            self.spec_path() is None ==> final(entries)@ == old(entries)@,
            self.spec_path() is Some ==> strings_view(final(entries)@) == strings_view(old(entries)@)
                + history_lines(text_lines(contents@)),
    {
        self.location.restore(entries, contents);
    }

    /// Queues `line` for the history file (when there is one).
    pub fn append(&mut self, line: &str)
        ensures
            final(self).spec_path() == old(self).spec_path(),
            final(self).spec_directory() == old(self).spec_directory(),
            old(self).spec_path() is None ==> final(self).spec_pending() == old(self).spec_pending(),
            old(self).spec_path() is Some ==> final(self).spec_pending() == old(self).spec_pending().push(line@),
    {
        proof {
            use_type_invariant(&*self);
        }
        match self.location.append(line) {
            None => {},
            Some(write) => {
                let ghost before = self.pending@;
                let mut queue: Vec<HistoryWrite> = Vec::new();
                std::mem::swap(&mut queue, &mut self.pending);
                queue.push(write);
                self.pending = queue;
                assert(self.spec_pending() =~= before.map_values(|w: HistoryWrite| w.line@).push(line@));
            },
        }
    }

    /// Hands out the queued writes, oldest first, and forgets them.
    pub fn take_pending(&mut self) -> (r: Vec<HistoryWrite>)
        ensures
            r@.map_values(|w: HistoryWrite| w.line@) == old(self).spec_pending(),
            forall|i: int|
                0 <= i < r@.len() ==> old(self).spec_path() == Some((#[trigger] r@[i]).path@)
                    && old(self).spec_directory() == Some(r@[i].directory@),
            final(self).spec_pending().len() == 0,
            final(self).spec_path() == old(self).spec_path(),
            final(self).spec_directory() == old(self).spec_directory(),
    {
        proof {
            use_type_invariant(&*self);
        }
        let mut out: Vec<HistoryWrite> = Vec::new();
        std::mem::swap(&mut out, &mut self.pending);
        assert(self.spec_pending() =~= Seq::<Seq<char>>::empty());
        out
    }

    pub fn file(&self) -> (r: FilePath)
        ensures
            r@ == self.spec_path(),
    {
        self.location.file()
    }
}

/// Which history entry the prompt shows: none (`None`, the line being typed) or one.
pub type HistoryCursor = Option<usize>;

/// The history model: entries, the recalled entry and the line typed before recalling.
pub struct HistoryModel {
    pub entries: Seq<Seq<char>>,
    pub cursor: HistoryCursor,
    pub draft: Option<Seq<char>>,
}

/// The entry a command line is recorded as: without leading `:` and surrounding
/// whitespace; nothing when that leaves nothing or a lone `:`.
pub open spec fn recorded_entry(line: Seq<char>) -> Option<Seq<char>> {
    let t = trim(strip_leading(line, ':'));
    if t.len() == 0 || t == seq![':'] { None } else { Some(t) }
}

/// The input showing `content` with the cursor at its end.
pub open spec fn showing(content: Seq<char>) -> InputModel {
    InputModel { content, cursor: len16(content), selection: PromptInputSelection::Empty }
}

/// History and input after recalling the previous (older) entry.
pub open spec fn recalled_previous(h: HistoryModel, input: InputModel) -> (HistoryModel, InputModel) {
    if h.entries.len() == 0 {
        (h, input)
    } else {
        match h.cursor {
            None => {
                let i = h.entries.len() - 1;
                (
                    HistoryModel { cursor: Some(i as usize), draft: Some(input.content), ..h },
                    showing(h.entries[i]),
                )
            },
            Some(i) => if i == 0 {
                (h, if 0 < h.entries.len() { showing(h.entries[0]) } else { input })
            } else {
                (
                    HistoryModel { cursor: Some((i - 1) as usize), ..h },
                    if i - 1 < h.entries.len() { showing(h.entries[i - 1]) } else { input },
                )
            },
        }
    }
}

/// History and input after recalling the next (newer) entry, or the draft past the newest.
pub open spec fn recalled_next(h: HistoryModel, input: InputModel) -> (HistoryModel, InputModel) {
    match h.cursor {
        None => (h, input),
        Some(i) => if i + 1 < h.entries.len() {
            (HistoryModel { cursor: Some((i + 1) as usize), ..h }, showing(h.entries[i + 1]))
        } else {
            (
                HistoryModel { cursor: None, draft: None, ..h },
                match h.draft {
                    Some(d) => showing(d),
                    None => input,
                },
            )
        },
    }
}

/// The recorded commands and the state of recalling them.
pub struct CommandHistory {
    entries: Vec<String>,
    cursor: CommandHistoryCursor,
    draft: CommandHistoryDraft,
    store: CommandHistoryStore,
}

enum CommandHistoryCursor {
    Tail,
    At { index: usize },
}

enum CommandHistoryDraft {
    Empty,
    Stored { line: String },
}

impl View for CommandHistory {
    type V = HistoryModel;

    closed spec fn view(&self) -> HistoryModel {
        HistoryModel {
            entries: strings_view(self.entries@),
            cursor: match self.cursor {
                CommandHistoryCursor::Tail => None,
                CommandHistoryCursor::At { index } => Some(index),
            },
            draft: match self.draft {
                CommandHistoryDraft::Empty => None,
                CommandHistoryDraft::Stored { line } => Some(line@),
            },
        }
    }
}

impl CommandHistory {
    pub closed spec fn spec_store(&self) -> CommandHistoryStore {
        self.store
    }

    /// An empty history kept nowhere.
    pub fn new() -> (r: Self)
        ensures
            r@ == (HistoryModel { entries: Seq::empty(), cursor: None, draft: None }),
            r.spec_store().spec_path() is None,
            r.spec_store().spec_pending().len() == 0,
    {
        let r = Self {
            entries: Vec::new(),
            cursor: CommandHistoryCursor::Tail,
            draft: CommandHistoryDraft::Empty,
            store: CommandHistoryStore::new(),
        };
        assert(r@.entries =~= Seq::<Seq<char>>::empty());
        r
    }

    /// A history kept in `store`, starting with the entries of the file text `contents`.
    pub fn with_store(store: CommandHistoryStore, contents: &str) -> (r: Self)
        ensures
            r@.entries == if store.spec_path() is None {
                Seq::<Seq<char>>::empty()
            } else {
                history_lines(text_lines(contents@))
            },
            r@.cursor is None,
            r@.draft is None,
            r.spec_store() == store,
    {
        let mut entries: Vec<String> = Vec::new();
        store.restore(&mut entries, contents);
        assert(strings_view(Seq::<String>::empty()) =~= Seq::<Seq<char>>::empty());
        Self { entries, cursor: CommandHistoryCursor::Tail, draft: CommandHistoryDraft::Empty, store }
    }

    /// Records an executed command line (see `recorded_entry`) and returns to the
    /// line being typed.
    pub fn record(&mut self, line: &str)
        ensures
            match recorded_entry(line@) {
                None => final(self)@ == old(self)@,
                Some(e) => final(self)@ == (HistoryModel {
                    entries: old(self)@.entries.push(e),
                    cursor: None,
                    draft: None,
                }),
            },
            final(self).spec_store().spec_path() == old(self).spec_store().spec_path(),
            final(self).spec_store().spec_directory() == old(self).spec_store().spec_directory(),
            final(self).spec_store().spec_pending() == if recorded_entry(line@) is Some && old(
                self,
            ).spec_store().spec_path() is Some {
                old(self).spec_store().spec_pending().push(recorded_entry(line@)->0)
            } else {
                old(self).spec_store().spec_pending()
            },
    {
        let input = chars_of(line);
        let stripped = strip_leading_char(input.as_slice(), ':');
        let trimmed = trim_whitespace(stripped.as_slice());
        if trimmed.len() == 0 || (trimmed.len() == 1 && trimmed[0] == ':') {
            assert(trimmed@ =~= seq![':'] || trimmed@.len() == 0);
            return;
        }
        assert(trimmed@ != seq![':']);
        let text = string_from_chars(trimmed.as_slice());
        self.store.append(text.as_str());
        let ghost before = self.entries@;
        self.entries.push(text);
        assert(strings_view(self.entries@) =~= strings_view(before).push(trimmed@));
        self.cursor = CommandHistoryCursor::Tail;
        self.draft = CommandHistoryDraft::Empty;
    }

    /// Back to the line being typed, forgetting the draft.
    pub fn reset_navigation(&mut self)
        ensures
            final(self)@ == (HistoryModel { cursor: None, draft: None, ..old(self)@ }),
            final(self).spec_store() == old(self).spec_store(),
    {
        self.cursor = CommandHistoryCursor::Tail;
        self.draft = CommandHistoryDraft::Empty;
    }

    /// The history file, when the history is kept in one.
    pub fn file(&self) -> (r: FilePath)
        ensures
            r@ == self.spec_store().spec_path(),
    {
        self.store.file()
    }

    /// Hands out the lines recorded since the last call, to be appended to the file.
    pub fn take_pending_writes(&mut self) -> (r: Vec<HistoryWrite>)
        ensures
            final(self)@ == old(self)@,
            r@.map_values(|w: HistoryWrite| w.line@) == old(self).spec_store().spec_pending(),
            forall|i: int|
                0 <= i < r@.len() ==> old(self).spec_store().spec_path() == Some((#[trigger] r@[i]).path@)
                    && old(self).spec_store().spec_directory() == Some(r@[i].directory@),
            final(self).spec_store().spec_pending().len() == 0,
            final(self).spec_store().spec_path() == old(self).spec_store().spec_path(),
            final(self).spec_store().spec_directory() == old(self).spec_store().spec_directory(),
    {
        self.store.take_pending()
    }

    /// Shows the previous (older) entry in `prompt_input`.
    pub fn recall_previous(&mut self, prompt_input: &mut PromptInput)
        ensures
            (final(self)@, final(prompt_input)@) == recalled_previous(old(self)@, old(prompt_input)@),
            final(self).spec_store() == old(self).spec_store(),
    {
        if self.entries.len() == 0 {
            return;
        }
        match self.cursor {
            CommandHistoryCursor::Tail => {
                let draft = prompt_input.text();
                self.draft = CommandHistoryDraft::Stored { line: draft };
                let index = self.entries.len() - 1;
                self.cursor = CommandHistoryCursor::At { index };
                self.apply_index(prompt_input, index);
            },
            CommandHistoryCursor::At { index } => {
                if index == 0 {
                    self.apply_index(prompt_input, index);
                    return;
                }
                let next_index = index - 1;
                self.cursor = CommandHistoryCursor::At { index: next_index };
                self.apply_index(prompt_input, next_index);
            },
        }
    }

    /// Shows the next (newer) entry in `prompt_input`, or the draft past the newest one.
    pub fn recall_next(&mut self, prompt_input: &mut PromptInput)
        ensures
            (final(self)@, final(prompt_input)@) == recalled_next(old(self)@, old(prompt_input)@),
            final(self).spec_store() == old(self).spec_store(),
    {
        match self.cursor {
            CommandHistoryCursor::Tail => {},
            CommandHistoryCursor::At { index } => {
                if index < self.entries.len() && index + 1 < self.entries.len() {
                    let next_index = index + 1;
                    self.cursor = CommandHistoryCursor::At { index: next_index };
                    self.apply_index(prompt_input, next_index);
                    return;
                }
                self.cursor = CommandHistoryCursor::Tail;
                self.restore_draft(prompt_input);
            },
        }
    }

    fn apply_index(&self, prompt_input: &mut PromptInput, index: usize)
        ensures
            final(prompt_input)@ == if index < self@.entries.len() {
                showing(self@.entries[index as int])
            } else {
                old(prompt_input)@
            },
    {
        if index < self.entries.len() {
            prompt_input.set_content(self.entries[index].clone());
        }
    }

    fn restore_draft(&mut self, prompt_input: &mut PromptInput)
        ensures
            final(self)@ == (HistoryModel { draft: None, ..old(self)@ }),
            final(prompt_input)@ == match old(self)@.draft {
                Some(d) => showing(d),
                None => old(prompt_input)@,
            },
            final(self).spec_store() == old(self).spec_store(),
    {
        match &self.draft {
            CommandHistoryDraft::Stored { line } => {
                prompt_input.set_content(line.clone());
            },
            CommandHistoryDraft::Empty => {},
        }
        self.draft = CommandHistoryDraft::Empty;
    }
}

} // verus!
