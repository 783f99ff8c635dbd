//! Reading an executed command line: the command it names, its argument, and whether
//! it may run at all.
use vstd::prelude::*;
use crate::engine::query::{is_unicode_whitespace, is_whitespace, skip_ws, strip_leading, strip_leading_char, trim, trim_whitespace};
use crate::engine::transform::CaseStyle;
use crate::protocol::prompt_ui::PromptInputSelection;
use crate::text::{chars_equal, chars_of, copy_range, lowercase, spec_lowercase, string_from_chars};

verus! {

/// Index of the first whitespace character at or after `i` (the length when none).
pub open spec fn next_ws(s: Seq<char>, i: int) -> int
    decreases s.len() - i,
{
    if i < 0 || i >= s.len() {
        s.len() as int
    } else if is_unicode_whitespace(s[i]) {
        i
    } else {
        next_ws(s, i + 1)
    }
}

/// The characters before the first whitespace.
pub open spec fn first_word(s: Seq<char>) -> Seq<char> {
    s.take(next_ws(s, 0))
}

/// What follows the first word, without the whitespace before it.
pub open spec fn after_first_word(s: Seq<char>) -> Seq<char> {
    s.skip(skip_ws(s, next_ws(s, 0)))
}

/// The command an executed line holds: leading `:` characters and surrounding
/// whitespace removed.
pub open spec fn command_body(raw: Seq<char>) -> Seq<char> {
    trim(strip_leading(raw, ':'))
}

/// The path argument of an open command.
pub enum CommandPath {
    Missing,
    Provided(String),
}

/// The case style a `case` command asks for.
#[derive(Debug, PartialEq, Eq, Structural, Clone, Copy)]
pub enum CaseStyleChoice {
    Missing,
    Known(CaseStyle),
    Unknown,
}

/// What an executed command line asks for.
pub enum CommandRequest {
    Save,
    SaveAndQuit,
    Quit,
    Open { path: CommandPath },
    History,
    Case { style: CaseStyle },
    Skip,
}

/// A command request with its path argument as characters.
pub enum CommandAction {
    Save,
    SaveAndQuit,
    Quit,
    Open(Option<Seq<char>>),
    History,
    Case(CaseStyle),
    Skip,
}

impl View for CommandRequest {
    type V = CommandAction;

    open spec fn view(&self) -> CommandAction {
        match self {
            CommandRequest::Save => CommandAction::Save,
            CommandRequest::SaveAndQuit => CommandAction::SaveAndQuit,
            CommandRequest::Quit => CommandAction::Quit,
            CommandRequest::Open { path } => CommandAction::Open(
                match path {
                    CommandPath::Missing => None,
                    CommandPath::Provided(p) => Some(p@),
                },
            ),
            CommandRequest::History => CommandAction::History,
            CommandRequest::Case { style } => CommandAction::Case(*style),
            CommandRequest::Skip => CommandAction::Skip,
        }
    }
}

/// The style a lowercased style word names.
pub open spec fn case_choice(word: Seq<char>) -> CaseStyleChoice {
    if word == "kebab"@ {
        CaseStyleChoice::Known(CaseStyle::Kebab)
    } else if word == "camel"@ {
        CaseStyleChoice::Known(CaseStyle::Camel)
    } else if word == "snake"@ {
        CaseStyleChoice::Known(CaseStyle::Snake)
    } else if word == "screaming"@ {
        CaseStyleChoice::Known(CaseStyle::ScreamingSnake)
    } else if word == "pascal"@ {
        CaseStyleChoice::Known(CaseStyle::Pascal)
    } else if word == "train"@ {
        CaseStyleChoice::Known(CaseStyle::Train)
    } else if word == "flat"@ {
        CaseStyleChoice::Known(CaseStyle::Flat)
    } else {
        CaseStyleChoice::Unknown
    }
}

/// The style the argument of a `case` command names: its first word, lowercased.
pub open spec fn case_argument_choice(raw: Seq<char>) -> CaseStyleChoice {
    let t = trim(raw);
    if t.len() == 0 {
        CaseStyleChoice::Missing
    } else {
        case_choice(spec_lowercase(first_word(t)))
    }
}

/// The command a lowercased command name and its argument stand for.
pub open spec fn command_for(name: Seq<char>, rest: Seq<char>) -> CommandAction {
    if name == "s"@ || name == "save"@ {
        CommandAction::Save
    } else if name == "sq"@ {
        CommandAction::SaveAndQuit
    } else if name == "q"@ || name == "quit"@ {
        CommandAction::Quit
    } else if name == "o"@ || name == "open"@ {
        CommandAction::Open(if rest.len() == 0 { None } else { Some(rest) })
    } else if name == "history"@ {
        CommandAction::History
    } else if name == "case"@ {
        match case_argument_choice(rest) {
            CaseStyleChoice::Known(style) => CommandAction::Case(style),
            _ => CommandAction::Skip,
        }
    } else {
        CommandAction::Skip
    }
}

/// The command an executed line asks for.
pub open spec fn command_action(raw: Seq<char>) -> CommandAction {
    let body = command_body(raw);
    if body.len() == 0 {
        CommandAction::Skip
    } else {
        command_for(spec_lowercase(first_word(body)), after_first_word(body))
    }
}

/// Index of the first whitespace character of `s`.
fn word_end(s: &[char]) -> (r: usize)
    ensures
        r == next_ws(s@, 0),
        r <= s@.len(),
{
    let mut i: usize = 0;
    while i < s.len() && !is_whitespace(s[i])
        invariant
            0 <= i <= s@.len(),
            next_ws(s@, 0) == next_ws(s@, i as int),
        decreases s@.len() - i,
    {
        i += 1;
    }
    i
}

/// Index of the first non-whitespace character of `s` at or after `from`.
fn blank_end(s: &[char], from: usize) -> (r: usize)
    requires
        from <= s@.len(),
    ensures
        r == skip_ws(s@, from as int),
        from <= r <= s@.len(),
{
    let mut i: usize = from;
    while i < s.len() && is_whitespace(s[i])
        invariant
            from <= i <= s@.len(),
            skip_ws(s@, from as int) == skip_ws(s@, i as int),
        decreases s@.len() - i,
    {
        i += 1;
    }
    i
}

/// Whether `s` equals the characters of `word`.
fn is_word(s: &[char], word: &str) -> (r: bool)
    ensures
        r == (s@ == word@),
{
    let w = chars_of(word);
    chars_equal(s, w.as_slice())
}

/// The argument of a `case` command.
pub struct CaseArgument {
    raw: String,
}

impl CaseArgument {
    pub closed spec fn spec_raw(&self) -> Seq<char> {
        self.raw@
    }

    pub fn new(raw: String) -> (r: Self)
        ensures
            r.spec_raw() == raw@,
    {
        Self { raw }
    }

    /// The style the argument names: `Missing` when it is blank, `Unknown` when its
    /// first word names no style.
    pub fn style(&self) -> (r: CaseStyleChoice)
        ensures
            r == case_argument_choice(self.spec_raw()),
    {
        let chars = chars_of(self.raw.as_str());
        let raw = trim_whitespace(chars.as_slice());
        if raw.len() == 0 {
            return CaseStyleChoice::Missing;
        }
        let split_at = word_end(raw.as_slice());
        let token = string_from_chars(copy_range(raw.as_slice(), 0, split_at).as_slice());
        assert(token@ == first_word(raw@));
        let lower = lowercase(token.as_str());
        case_style_for(lower.as_str())
    }
}

/// The style a lowercased style word names.
pub fn case_style_for(word: &str) -> (r: CaseStyleChoice)
    ensures
        r == case_choice(word@),
{
    let w = chars_of(word);
    let w = w.as_slice();
    if is_word(w, "kebab") {
        CaseStyleChoice::Known(CaseStyle::Kebab)
    } else if is_word(w, "camel") {
        CaseStyleChoice::Known(CaseStyle::Camel)
    } else if is_word(w, "snake") {
        CaseStyleChoice::Known(CaseStyle::Snake)
    } else if is_word(w, "screaming") {
        CaseStyleChoice::Known(CaseStyle::ScreamingSnake)
    } else if is_word(w, "pascal") {
        CaseStyleChoice::Known(CaseStyle::Pascal)
    } else if is_word(w, "train") {
        CaseStyleChoice::Known(CaseStyle::Train)
    } else if is_word(w, "flat") {
        CaseStyleChoice::Known(CaseStyle::Flat)
    } else {
        CaseStyleChoice::Unknown
    }
}

/// A command split into its name (lowercased) and the rest of the line.
pub struct CommandParts {
    name: String,
    rest: String,
}

impl CommandParts {
    pub closed spec fn spec_name(&self) -> Seq<char> {
        self.name@
    }

    pub closed spec fn spec_rest(&self) -> Seq<char> {
        self.rest@
    }

    /// Splits `line` at its first whitespace: the lowercased word before it, and what
    /// follows without leading whitespace.
    pub fn new(line: &str) -> (r: Self)
        ensures
            r.spec_name() == spec_lowercase(first_word(line@)),
            r.spec_rest() == after_first_word(line@),
    {
        let chars = chars_of(line);
        let split_at = word_end(chars.as_slice());
        let name = string_from_chars(copy_range(chars.as_slice(), 0, split_at).as_slice());
        let rest_at = blank_end(chars.as_slice(), split_at);
        let rest = string_from_chars(copy_range(chars.as_slice(), rest_at, chars.len()).as_slice());
        assert(rest@ =~= after_first_word(line@));
        Self { name: lowercase(name.as_str()), rest }
    }

    pub fn name(&self) -> (r: &str)
        ensures
            r@ == self.spec_name(),
    {
        self.name.as_str()
    }

    pub fn rest(&self) -> (r: &str)
        ensures
            r@ == self.spec_rest(),
    {
        self.rest.as_str()
    }
}

/// The command a lowercased command name and its argument stand for.
pub fn command_for_name(name: &str, rest: &str) -> (r: CommandRequest)
    ensures
        r@ == command_for(name@, rest@),
{
    let n = chars_of(name);
    let n = n.as_slice();
    if is_word(n, "s") || is_word(n, "save") {
        CommandRequest::Save
    } else if is_word(n, "sq") {
        CommandRequest::SaveAndQuit
    } else if is_word(n, "q") || is_word(n, "quit") {
        CommandRequest::Quit
    } else if is_word(n, "o") || is_word(n, "open") {
        let rest_chars = chars_of(rest);
        let path = if rest_chars.len() == 0 {
            CommandPath::Missing
        } else {
            CommandPath::Provided(string_from_chars(rest_chars.as_slice()))
        };
        CommandRequest::Open { path }
    } else if is_word(n, "history") {
        CommandRequest::History
    } else if is_word(n, "case") {
        let argument = CaseArgument::new(string_from_chars(chars_of(rest).as_slice()));
        match argument.style() {
            CaseStyleChoice::Known(style) => CommandRequest::Case { style },
            _ => CommandRequest::Skip,
        }
    } else {
        CommandRequest::Skip
    }
}

/// An executed command line.
pub struct CommandText {
    raw: String,
}

impl CommandText {
    pub closed spec fn spec_raw(&self) -> Seq<char> {
        self.raw@
    }

    pub fn new(raw: String) -> (r: Self)
        ensures
            r.spec_raw() == raw@,
    {
        Self { raw }
    }

    /// The command the line asks for; a blank line asks for nothing.
    pub fn request(&self) -> (r: CommandRequest)
        ensures
            r@ == command_action(self.spec_raw()),
    {
        let chars = chars_of(self.raw.as_str());
        let stripped = strip_leading_char(chars.as_slice(), ':');
        let body = trim_whitespace(stripped.as_slice());
        if body.len() == 0 {
            return CommandRequest::Skip;
        }
        let body_text = string_from_chars(body.as_slice());
        let parts = CommandParts::new(body_text.as_str());
        command_for_name(parts.name(), parts.rest())
    }
}

/// Whether a line still holds a `{...}` placeholder: it contains both braces.
pub open spec fn has_placeholder(line: Seq<char>) -> bool {
    line.contains('{') && line.contains('}')
}

/// Whether `line` contains `c`.
fn contains_char(line: &[char], c: char) -> (r: bool)
    ensures
        r == line@.contains(c),
{
    let mut i: usize = 0;
    while i < line.len()
        invariant
            0 <= i <= line@.len(),
            forall|k: int| 0 <= k < i ==> line@[k] != c,
        decreases line@.len() - i,
    {
        if line[i] == c {
            return true;
        }
        i += 1;
    }
    false
}

/// Whether `line` still holds a placeholder.
pub fn placeholder_present(line: &str) -> (r: bool)
    ensures
        r == has_placeholder(line@),
{
    let chars = chars_of(line);
    contains_char(chars.as_slice(), '{') && contains_char(chars.as_slice(), '}')
}

/// Whether a command may not run yet: part of the line is selected, or it still
/// holds a placeholder to fill in.
pub open spec fn execution_blocked(selection: PromptInputSelection, placeholder: bool) -> bool {
    selection is Range || placeholder
}

/// Decides whether a command may run.
pub fn command_blocked(selection: PromptInputSelection, placeholder: bool) -> (r: bool)
    ensures
        r == execution_blocked(selection, placeholder),
{
    match selection {
        PromptInputSelection::Range { .. } => true,
        PromptInputSelection::Empty => placeholder,
    }
}

} // verus!
