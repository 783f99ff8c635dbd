//! Finding the `{...}` placeholder of a command template, to select it for the user.
use vstd::prelude::*;
use crate::protocol::command_ui::CommandLineSelection;
use crate::protocol::prompt_ui::PromptInputSelection;
use crate::text::{chars_of, utf8_len, utf8_offset16};

verus! {

/// Index of the first `c` at or after `i` (the length when there is none).
pub open spec fn find_char(s: Seq<char>, c: char, i: int) -> int
    decreases s.len() - i,
{
    if i < 0 || i >= s.len() {
        s.len() as int
    } else if s[i] == c {
        i
    } else {
        find_char(s, c, i + 1)
    }
}

/// The span from the first `{` through the first `}` after it, when both exist, as
/// character indices.
pub open spec fn placeholder_span(line: Seq<char>) -> Option<(int, int)> {
    let s = find_char(line, '{', 0);
    if s >= line.len() {
        None
    } else {
        let e = find_char(line, '}', s);
        if e >= line.len() { None } else { Some((s, e + 1)) }
    }
}

fn find(s: &[char], c: char, from: usize) -> (r: usize)
    requires
        from <= s@.len(),
    ensures
        r as int == find_char(s@, c, from as int),
        r <= s@.len(),
{
    let mut i = from;
    while i < s.len() && s[i] != c
        invariant
            from <= i <= s@.len(),
            find_char(s@, c, from as int) == find_char(s@, c, i as int),
        decreases s@.len() - i,
    {
        i += 1;
    }
    i
}

/// The placeholder span as UTF-8 byte offsets into the line, kept as `u16` (the low
/// sixteen bits, as `as u16` keeps them).
pub open spec fn placeholder_bytes(line: Seq<char>) -> Option<(u16, u16)> {
    match placeholder_span(line) {
        None => None,
        Some((s, e)) => Some((
            (utf8_len(line.take(s)) % 0x10000) as u16,
            (utf8_len(line.take(e)) % 0x10000) as u16,
        )),
    }
}

/// The placeholder span of `line` as byte offsets (see `placeholder_bytes`).
pub fn placeholder_bounds(line: &str) -> (r: Option<(u16, u16)>)
    ensures
        r == placeholder_bytes(line@),
{
    let chars = chars_of(line);
    let start = find(chars.as_slice(), '{', 0);
    if start >= chars.len() {
        return None;
    }
    let end = find(chars.as_slice(), '}', start);
    if end >= chars.len() {
        return None;
    }
    let start_byte = utf8_offset16(chars.as_slice(), start);
    let end_byte = utf8_offset16(chars.as_slice(), end + 1);
    Some((start_byte, end_byte))
}

/// Selects the placeholder of a prompt line.
pub struct PromptInputPlaceholder;

impl PromptInputPlaceholder {
    /// The placeholder of `line` as a prompt selection (byte offsets, see `placeholder_bytes`).
    pub fn selection_for(&self, line: &str) -> (r: PromptInputSelection)
        ensures
            r == match placeholder_bytes(line@) {
                None => PromptInputSelection::Empty,
                Some((s, e)) => PromptInputSelection::Range { start: s, end: e },
            },
    {
        match placeholder_bounds(line) {
            None => PromptInputSelection::Empty,
            Some((start, end)) => PromptInputSelection::range(start, end),
        }
    }
}

/// Selects the placeholder of a command line.
pub struct CommandPlaceholder;

impl CommandPlaceholder {
    /// The placeholder of `line` as a command-line selection (byte offsets, see `placeholder_bytes`).
    pub fn selection_for(&self, line: &str) -> (r: CommandLineSelection)
        ensures
            r == match placeholder_bytes(line@) {
                None => CommandLineSelection::Empty,
                Some((s, e)) => CommandLineSelection::Range { start: s, end: e },
            },
    {
        match placeholder_bounds(line) {
            None => CommandLineSelection::Empty,
            Some((start, end)) => CommandLineSelection::range(start, end),
        }
    }
}

} // verus!
