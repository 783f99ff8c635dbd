//! The text buffer of one document: its lines, its path and whether it changed.
use vstd::prelude::*;
use vstd::string::*;
use crate::protocol::path::{DocumentFile, FilePath};
use crate::protocol::status::StatusMessage;
use crate::text::{chars_of, string_from_chars, string_push, push_chars};

verus! {

/// A marker of the buffer's change state: each edit advances it, open and save reset it.
#[derive(Debug, PartialEq, Eq, Structural, Clone, Copy)]
pub struct FileChangeToken {
    value: u64,
}

impl FileChangeToken {
    pub closed spec fn spec_value(&self) -> u64 {
        self.value
    }

    pub fn new() -> (r: Self)
        ensures
            r.spec_value() == 0,
    {
        Self { value: 0 }
    }

    /// The token after one more edit (saturating).
    pub fn next(&self) -> (r: Self)
        ensures
            r.spec_value() == if self.spec_value() == u64::MAX {
                u64::MAX
            } else {
                (self.spec_value() + 1) as u64
            },
    {
        Self { value: if self.value == u64::MAX { u64::MAX } else { self.value + 1 } }
    }

    /// Whether two tokens mark the same state.
    pub fn same(&self, other: &FileChangeToken) -> (r: bool)
        ensures
            r == (self.spec_value() == other.spec_value()),
    {
        self.value == other.value
    }
}

/// `v` advanced by one edit.
pub open spec fn next_token(v: u64) -> u64 {
    if v == u64::MAX { u64::MAX } else { (v + 1) as u64 }
}

/// Whether a path names nothing: missing, or the empty string.
pub open spec fn path_is_unnamed(p: Option<Seq<char>>) -> bool {
    match p {
        None => true,
        Some(s) => s.len() == 0,
    }
}

/// The lines `str::lines` yields for `text`: split after each `\n`, a `\n` and a
/// `\r` right before it removed, no empty line after a final `\n`.
pub open spec fn text_lines(text: Seq<char>) -> Seq<Seq<char>>
    decreases text.len(),
{
    if text.len() == 0 {
        Seq::empty()
    } else {
        let k = first_newline(text, 0);
        proof {
            lemma_first_newline_bounds(text, 0);
        }
        if k >= text.len() {
            seq![text]
        } else {
            let piece = text.take(k);
            let line = if piece.len() > 0 && piece.last() == '\r' { piece.drop_last() } else { piece };
            seq![line] + text_lines(text.skip(k + 1))
        }
    }
}

/// Index of the first `\n` at or after `i`, or the length when there is none.
pub open spec fn first_newline(text: Seq<char>, i: int) -> int
    decreases text.len() - i,
{
    if i < 0 || i >= text.len() {
        text.len() as int
    } else if text[i] == '\n' {
        i
    } else {
        first_newline(text, i + 1)
    }
}

pub proof fn lemma_first_newline_bounds(text: Seq<char>, i: int)
    requires
        0 <= i,
    ensures
        i <= first_newline(text, i) <= text.len() || (i > text.len() && first_newline(text, i)
            == text.len()),
        first_newline(text, i) < text.len() ==> text[first_newline(text, i)] == '\n',
        forall|j: int| i <= j < first_newline(text, i) ==> text[j] != '\n',
    decreases text.len() - i,
{
    if i < text.len() && text[i] != '\n' {
        lemma_first_newline_bounds(text, i + 1);
    }
}

/// The lines joined by `\n`.
pub open spec fn join_lines(lines: Seq<Seq<char>>) -> Seq<char>
    decreases lines.len(),
{
    if lines.len() == 0 {
        Seq::empty()
    } else if lines.len() == 1 {
        lines[0]
    } else {
        join_lines(lines.drop_last()) + seq!['\n'] + lines.last()
    }
}

/// The lines a buffer takes from `text`: those of `text_lines`, or one empty line.
pub open spec fn loaded_lines(text: Seq<char>) -> Seq<Seq<char>> {
    if text_lines(text).len() == 0 {
        seq![Seq::<char>::empty()]
    } else {
        text_lines(text)
    }
}

/// Whether a line ends with a carriage return.
pub open spec fn ends_with_cr(line: Seq<char>) -> bool {
    line.len() > 0 && line.last() == '\r'
}

/// `line` without a final carriage return.
pub open spec fn without_cr(line: Seq<char>) -> Seq<char> {
    if ends_with_cr(line) { line.drop_last() } else { line }
}

/// Lines that come back unchanged from their text joined by `\n`: at least one line,
/// none holding a `\n`, none but the last ending with `\r`, and a last line that is
/// not empty unless it is the only one.
pub open spec fn plain_lines(lines: Seq<Seq<char>>) -> bool {
    &&& lines.len() >= 1
    &&& forall|i: int| 0 <= i < lines.len() ==> !(#[trigger] lines[i]).contains('\n')
    &&& forall|i: int| 0 <= i < lines.len() - 1 ==> !ends_with_cr(#[trigger] lines[i])
    &&& (lines.len() == 1 || lines.last().len() > 0)
}

proof fn lemma_first_newline_none(t: Seq<char>, i: int)
    requires
        0 <= i <= t.len(),
        forall|j: int| i <= j < t.len() ==> t[j] != '\n',
    ensures
        first_newline(t, i) == t.len(),
    decreases t.len() - i,
{
    if i < t.len() {
        lemma_first_newline_none(t, i + 1);
    }
}

proof fn lemma_first_newline_at(t: Seq<char>, i: int, k: int)
    requires
        0 <= i <= k < t.len(),
        t[k] == '\n',
        forall|j: int| i <= j < k ==> t[j] != '\n',
    ensures
        first_newline(t, i) == k,
    decreases k - i,
{
    if i < k {
        lemma_first_newline_at(t, i + 1, k);
    }
}

/// The text of a line, a `\n` and more splits into the line and the lines of the rest.
proof fn lemma_text_lines_split(a: Seq<char>, rest: Seq<char>)
    requires
        !a.contains('\n'),
    ensures
        text_lines(a + seq!['\n'] + rest) == seq![without_cr(a)] + text_lines(rest),
{
    let t = a + seq!['\n'] + rest;
    assert forall|j: int| 0 <= j < a.len() implies t[j] != '\n' by {
        assert(t[j] == a[j]);
    }
    lemma_first_newline_at(t, 0, a.len() as int);
    assert(t.take(a.len() as int) =~= a);
    assert(t.skip(a.len() as int + 1) =~= rest);
}

/// Text that ends a line (or is empty) followed by more: the lines of both, in order.
proof fn lemma_text_lines_append(c: Seq<char>, x: Seq<char>)
    requires
        c.len() == 0 || c.last() == '\n',
    ensures
        text_lines(c + x) == text_lines(c) + text_lines(x),
    decreases c.len(),
{
    if c.len() == 0 {
        assert(c + x =~= x);
        assert(text_lines(c) + text_lines(x) =~= text_lines(x));
    } else {
        lemma_first_newline_bounds(c, 0);
        let k = first_newline(c, 0);
        if k >= c.len() {
            assert(c[c.len() - 1] == '\n');
            assert(false);
        }
        let a = c.take(k);
        let c2 = c.skip(k + 1);
        assert(!a.contains('\n')) by {
            if a.contains('\n') {
                let j = choose|j: int| 0 <= j < a.len() && a[j] == '\n';
                assert(c[j] == '\n');
            }
        }
        assert(c =~= a + seq!['\n'] + c2);
        assert(c + x =~= a + seq!['\n'] + (c2 + x));
        lemma_text_lines_split(a, c2);
        lemma_text_lines_split(a, c2 + x);
        if c2.len() > 0 {
            assert(c2.last() == c.last());
        }
        lemma_text_lines_append(c2, x);
        assert(seq![without_cr(a)] + (text_lines(c2) + text_lines(x)) =~= (seq![without_cr(a)] + text_lines(c2))
            + text_lines(x));
    }
}

/// Joining at least two lines: the first, a `\n`, and the rest joined.
proof fn lemma_join_front(lines: Seq<Seq<char>>)
    requires
        lines.len() >= 2,
    ensures
        join_lines(lines) == lines[0] + seq!['\n'] + join_lines(lines.skip(1)),
    decreases lines.len(),
{
    if lines.len() == 2 {
        assert(lines.drop_last() =~= seq![lines[0]]);
        assert(lines.skip(1) =~= seq![lines[1]]);
        assert(join_lines(lines.drop_last()) == lines[0]);
        assert(join_lines(lines.skip(1)) == lines[1]);
    } else {
        let d = lines.drop_last();
        let r = lines.skip(1);
        lemma_join_front(d);
        assert(d.skip(1) =~= r.drop_last());
        assert(r.last() == lines.last());
        assert(join_lines(r) == join_lines(r.drop_last()) + seq!['\n'] + r.last());
        assert(join_lines(lines) == join_lines(d) + seq!['\n'] + lines.last());
        assert(join_lines(lines) =~= lines[0] + seq!['\n'] + join_lines(r));
    }
}

proof fn lemma_text_lines_of_join(lines: Seq<Seq<char>>)
    requires
        plain_lines(lines),
        lines.len() > 1 || lines[0].len() > 0,
    ensures
        text_lines(join_lines(lines)) == lines,
    decreases lines.len(),
{
    if lines.len() == 1 {
        let a = lines[0];
        assert(!a.contains('\n'));
        lemma_first_newline_none(a, 0);
        assert(text_lines(a) =~= seq![a]);
        assert(lines =~= seq![a]);
    } else {
        let rest = lines.skip(1);
        lemma_join_front(lines);
        assert(!lines[0].contains('\n'));
        lemma_text_lines_split(lines[0], join_lines(rest));
        assert(!ends_with_cr(lines[0]));
        assert(plain_lines(rest)) by {
            assert forall|i: int| 0 <= i < rest.len() implies !(#[trigger] rest[i]).contains('\n') by {
                assert(rest[i] == lines[i + 1]);
            }
            assert forall|i: int| 0 <= i < rest.len() - 1 implies !ends_with_cr(#[trigger] rest[i]) by {
                assert(rest[i] == lines[i + 1]);
            }
            assert(rest.last() == lines.last());
        }
        assert(rest.len() > 1 || rest[0].len() > 0) by {
            if rest.len() == 1 {
                assert(rest[0] == lines.last());
            }
        }
        lemma_text_lines_of_join(rest);
        assert(seq![lines[0]] + rest =~= lines);
    }
}

/// Saving writes the lines joined by `\n`; reading that text back gives the same
/// lines, for lines that hold no `\n`, where none but the last ends with `\r` and the
/// last is empty only when it is the only one.
pub proof fn law_saved_text_reads_back(lines: Seq<Seq<char>>)
    requires
        plain_lines(lines),
    ensures
        loaded_lines(join_lines(lines)) == lines,
{
    if lines.len() == 1 && lines[0].len() == 0 {
        assert(join_lines(lines) == lines[0]);
        assert(text_lines(Seq::<char>::empty()).len() == 0);
        assert(lines[0] =~= Seq::<char>::empty());
        assert(lines =~= seq![Seq::<char>::empty()]);
    } else {
        lemma_text_lines_of_join(lines);
        assert(lines.len() > 0);
    }
}

/// A line appended with a final `\n` to text that ends a line (or is empty) comes back
/// as the last line, when it holds no `\n` and does not end with `\r`.
pub proof fn law_appended_line_reads_back(text: Seq<char>, line: Seq<char>)
    requires
        text.len() == 0 || text.last() == '\n',
        !line.contains('\n'),
        !ends_with_cr(line),
    ensures
        text_lines(text + line + seq!['\n']) == text_lines(text).push(line),
{
    assert(text + line + seq!['\n'] =~= text + (line + seq!['\n'] + Seq::<char>::empty()));
    lemma_text_lines_append(text, line + seq!['\n'] + Seq::<char>::empty());
    lemma_text_lines_split(line, Seq::<char>::empty());
    assert(text_lines(Seq::<char>::empty()) =~= Seq::<Seq<char>>::empty());
    assert(text_lines(text) + seq![line] =~= text_lines(text).push(line));
}

/// `lines` extended with empty lines until it has more than `index` of them.
pub open spec fn ensure_lines(lines: Seq<Seq<char>>, index: int) -> Seq<Seq<char>> {
    if lines.len() <= index {
        lines + Seq::new((index + 1 - lines.len()) as nat, |k: int| Seq::<char>::empty())
    } else {
        lines
    }
}

/// `lines` with `line` inserted at `index`, or appended when `index` is past the end.
pub open spec fn insert_line(lines: Seq<Seq<char>>, index: int, line: Seq<char>) -> Seq<Seq<char>> {
    if index >= lines.len() {
        lines.push(line)
    } else {
        lines.insert(index, line)
    }
}

/// `lines` without line `index`, unchanged when `index` is past the end.
pub open spec fn remove_line(lines: Seq<Seq<char>>, index: int) -> Seq<Seq<char>> {
    if 0 <= index < lines.len() {
        lines.remove(index)
    } else {
        lines
    }
}

/// A lines vector's contents as character sequences.
pub open spec fn lines_view(v: Seq<Vec<char>>) -> Seq<Seq<char>> {
    v.map_values(|l: Vec<char>| l@)
}

/// Splits text into lines as `str::lines` does.
pub fn split_lines(text: &[char]) -> (r: Vec<Vec<char>>)
    ensures
        lines_view(r@) == text_lines(text@),
{
    let mut lines: Vec<Vec<char>> = Vec::new();
    let mut start: usize = 0;
    let n = text.len();
    assert(text@.skip(0) =~= text@);
    while start < n
        invariant
            n == text@.len(),
            0 <= start <= n,
            lines_view(lines@) + text_lines(text@.skip(start as int)) == text_lines(text@),
        decreases n - start,
    {
        let ghost rest = text@.skip(start as int);
        let mut k: usize = start;
        while k < n && text[k] != '\n'
            invariant
                start <= k <= n,
                n == text@.len(),
                rest == text@.skip(start as int),
                first_newline(rest, 0) == first_newline(rest, k - start),
            decreases n - k,
        {
            k += 1;
        }
        let mut line: Vec<char> = Vec::new();
        let mut j: usize = start;
        while j < k
            invariant
                start <= j <= k <= n,
                n == text@.len(),
                line@ == text@.subrange(start as int, j as int),
            decreases k - j,
        {
            line.push(text[j]);
            j += 1;
            assert(line@ =~= text@.subrange(start as int, j as int));
        }
        let ghost piece = line@;
        assert(piece =~= rest.take(k - start));
        if k < n {
            if line.len() > 0 && line[line.len() - 1] == '\r' {
                line.pop();
            }
            assert(rest.skip(k - start + 1) =~= text@.skip(k + 1));
            lines.push(line);
            assert(lines_view(lines@) =~= lines_view(lines@.drop_last()) + seq![lines@.last()@]);
            start = k + 1;
        } else {
            assert(k - start >= rest.len());
            assert(piece =~= rest);
            lines.push(line);
            assert(lines_view(lines@) =~= lines_view(lines@.drop_last()) + seq![lines@.last()@]);
            assert(text@.skip(n as int) =~= Seq::<char>::empty());
            start = n;
        }
    }
    assert(text@.skip(n as int) =~= Seq::<char>::empty());
    assert(lines_view(lines@) =~= text_lines(text@));
    lines
}

/// The buffer of one document.
pub struct File {
    path: FilePath,
    file_lines: Vec<Vec<char>>,
    changed: bool,
    change_token: FileChangeToken,
}

impl File {
    pub closed spec fn spec_path(&self) -> FilePath {
        self.path
    }

    pub closed spec fn spec_lines(&self) -> Seq<Seq<char>> {
        lines_view(self.file_lines@)
    }

    pub closed spec fn spec_changed(&self) -> bool {
        self.changed
    }

    pub closed spec fn spec_token(&self) -> u64 {
        self.change_token.spec_value()
    }

    /// An empty, unchanged buffer for `file_path`; its lines come from `read`.
    pub fn new(file_path: FilePath) -> (r: Self)
        ensures
            r.spec_path() == file_path,
            r.spec_lines().len() == 0,
            !r.spec_changed(),
            r.spec_token() == 0,
    {
        let r = Self {
            path: file_path,
            file_lines: Vec::new(),
            changed: false,
            change_token: FileChangeToken::new(),
        };
        assert(r.spec_lines() =~= Seq::<Seq<char>>::empty());
        r
    }

    pub fn path(&self) -> (r: FilePath)
        ensures
            r == self.spec_path(),
    {
        self.path.clone()
    }

    /// Whether the buffer has no file to read: its path is missing or empty.
    pub fn unnamed(&self) -> (r: bool)
        ensures
            r == path_is_unnamed(self.spec_path()@),
    {
        match &self.path {
            FilePath::Missing => true,
            FilePath::Provided { path } => path.as_str().is_empty(),
        }
    }

    /// The path `read` takes its text from, when the buffer names a file.
    pub fn read_target(&self) -> (r: Option<String>)
        ensures
            path_is_unnamed(self.spec_path()@) ==> r is None,
            !path_is_unnamed(self.spec_path()@) ==> (r matches Some(p) && Some(p@)
                == self.spec_path()@),
    {
        match &self.path {
            FilePath::Missing => None,
            FilePath::Provided { path } => if path.as_str().is_empty() {
                None
            } else {
                Some(path.clone())
            },
        }
    }

    /// Replaces the lines by those of `contents` (at least one, possibly empty) and
    /// marks the buffer unchanged.
    pub fn open(&mut self, contents: &str)
        ensures
            final(self).spec_path() == old(self).spec_path(),
            final(self).spec_lines() == if text_lines(contents@).len() == 0 {
                seq![Seq::<char>::empty()]
            } else {
                text_lines(contents@)
            },
            !final(self).spec_changed(),
            final(self).spec_token() == 0,
    {
        let chars = chars_of(contents);
        let mut lines = split_lines(chars.as_slice());
        if lines.len() == 0 {
            lines.push(Vec::new());
            assert(lines_view(lines@) =~= seq![Seq::<char>::empty()]);
        }
        self.file_lines = lines;
        self.changed = false;
        self.change_token = FileChangeToken::new();
    }

    /// An unnamed buffer holding one empty line.
    pub fn create(&mut self)
        ensures
            final(self).spec_path() == (FilePath::Provided { path: final(self).spec_path()->path }),
            final(self).spec_path()@ == Some(Seq::<char>::empty()),
            final(self).spec_lines() == seq![Seq::<char>::empty()],
            !final(self).spec_changed(),
            final(self).spec_token() == 0,
    {
        self.path = FilePath::Provided { path: String::new() };
        let mut lines: Vec<Vec<char>> = Vec::new();
        lines.push(Vec::new());
        self.file_lines = lines;
        assert(self.spec_lines() =~= seq![Seq::<char>::empty()]);
        self.changed = false;
        self.change_token = FileChangeToken::new();
    }

    /// Loads the buffer: an unnamed one starts empty, a named one takes the lines of
    /// `contents`, the text read from `read_target()`.
    pub fn read(&mut self, contents: &str)
        ensures
            path_is_unnamed(old(self).spec_path()@) ==> final(self).spec_lines() == seq![
                Seq::<char>::empty(),
            ] && final(self).spec_path()@ == Some(Seq::<char>::empty()),
            !path_is_unnamed(old(self).spec_path()@) ==> final(self).spec_path() == old(
                self,
            ).spec_path() && final(self).spec_lines() == (if text_lines(contents@).len() == 0 {
                seq![Seq::<char>::empty()]
            } else {
                text_lines(contents@)
            }),
            !final(self).spec_changed(),
            final(self).spec_token() == 0,
    {
        if self.unnamed() {
            self.create();
        } else {
            self.open(contents);
        }
    }

    /// The path `save` writes to: `untitled.txt` for an unnamed buffer.
    pub fn save_target(&self) -> (r: String)
        ensures
            r@ == if path_is_unnamed(self.spec_path()@) {
                crate::protocol::path::untitled_name()
            } else {
                self.spec_path()@->0
            },
    {
        let document = match &self.path {
            FilePath::Missing => DocumentFile { path: String::new() },
            FilePath::Provided { path } => DocumentFile { path: path.clone() },
        };
        document.save_path()
    }

    /// The text `save` writes: the lines joined by `\n`.
    pub fn save_contents(&self) -> (r: String)
        ensures
            r@ == join_lines(self.spec_lines()),
    {
        let mut out = String::new();
        let mut i: usize = 0;
        while i < self.file_lines.len()
            invariant
                0 <= i <= self.file_lines@.len(),
                out@ == join_lines(self.spec_lines().take(i as int)),
            decreases self.file_lines@.len() - i,
        {
            if i > 0 {
                string_push(&mut out, '\n');
            }
            push_chars(&mut out, self.file_lines[i].as_slice());
            proof {
                let t = self.spec_lines().take(i + 1);
                assert(t.drop_last() =~= self.spec_lines().take(i as int));
            }
            i += 1;
            assert(out@ =~= join_lines(self.spec_lines().take(i as int)));
        }
        assert(self.spec_lines().take(self.file_lines@.len() as int) =~= self.spec_lines());
        out
    }

    /// Records a successful write to `save_target()`: an unnamed buffer takes that
    /// path, and the buffer is unchanged again.
    pub fn mark_saved(&mut self)
        ensures
            final(self).spec_lines() == old(self).spec_lines(),
            path_is_unnamed(old(self).spec_path()@) ==> final(self).spec_path()@ == Some(
                crate::protocol::path::untitled_name(),
            ),
            !path_is_unnamed(old(self).spec_path()@) ==> final(self).spec_path() == old(
                self,
            ).spec_path(),
            !final(self).spec_changed(),
            final(self).spec_token() == 0,
    {
        if self.unnamed() {
            let target = self.save_target();
            self.path = FilePath::Provided { path: target };
        }
        self.changed = false;
        self.change_token = FileChangeToken::new();
    }

    /// `locked` when the file is read-only, nothing otherwise.
    pub fn message_lock(&self, readonly: bool) -> (r: StatusMessage)
        ensures
            readonly ==> r@ == Some("locked"@),
            !readonly ==> r@ == None::<Seq<char>>,
    {
        if readonly {
            StatusMessage::text("locked")
        } else {
            StatusMessage::Empty
        }
    }

    pub fn line_at(&self, index: usize) -> (r: &Vec<char>)
        requires
            index < self.spec_lines().len(),
        ensures
            r@ == self.spec_lines()[index as int],
    {
        &self.file_lines[index]
    }

    /// The line at `index`, to change in place; the rest of the buffer stays.
    pub fn line_at_mut(&mut self, index: usize) -> (r: &mut Vec<char>)
        requires
            index < old(self).spec_lines().len(),
        ensures
            (*r)@ == old(self).spec_lines()[index as int],
            final(self).spec_lines() == old(self).spec_lines().update(index as int, (*final(r))@),
            final(self).spec_path() == old(self).spec_path(),
            final(self).spec_changed() == old(self).spec_changed(),
            final(self).spec_token() == old(self).spec_token(),
    {
        &mut self.file_lines[index]
    }

    pub fn line_count(&self) -> (r: usize)
        ensures
            r == self.spec_lines().len(),
    {
        self.file_lines.len()
    }

    /// The number of lines, capped at `u16::MAX`.
    pub fn line_total(&self) -> (r: u16)
        ensures
            r == if self.spec_lines().len() > u16::MAX { u16::MAX } else { self.spec_lines().len() as u16 },
    {
        if self.file_lines.len() > 0xffff { u16::MAX } else { self.file_lines.len() as u16 }
    }

    /// Replaces line `index` by `line`.
    pub fn line_set(&mut self, index: usize, line: Vec<char>)
        requires
            index < old(self).spec_lines().len(),
        ensures
            final(self).spec_lines() == old(self).spec_lines().update(index as int, line@),
            final(self).spec_path() == old(self).spec_path(),
            final(self).spec_changed() == old(self).spec_changed(),
            final(self).spec_token() == old(self).spec_token(),
    {
        self.file_lines.set(index, line);
        assert(self.spec_lines() =~= old(self).spec_lines().update(index as int, line@));
    }

    /// Adds empty lines until line `index` exists.
    pub fn line_ensure(&mut self, index: usize)
        requires
            index < usize::MAX,
        ensures
            final(self).spec_lines() == ensure_lines(old(self).spec_lines(), index as int),
            final(self).spec_path() == old(self).spec_path(),
            final(self).spec_changed() == old(self).spec_changed(),
            final(self).spec_token() == old(self).spec_token(),
    {
        let ghost start = self.spec_lines();
        if self.file_lines.len() > index {
            return;
        }
        while self.file_lines.len() <= index
            invariant
                index < usize::MAX,
                self.file_lines@.len() <= index + 1,
                start.len() <= index ==> self.spec_lines() == start + Seq::new(
                    (self.file_lines@.len() - start.len()) as nat,
                    |k: int| Seq::<char>::empty(),
                ),
                start.len() > index ==> self.spec_lines() == start,
                self.spec_path() == old(self).spec_path(),
                self.spec_changed() == old(self).spec_changed(),
                self.spec_token() == old(self).spec_token(),
            decreases index + 1 - self.file_lines@.len(),
        {
            let ghost before = self.spec_lines();
            let empty: Vec<char> = Vec::new();
            self.file_lines.push(empty);
            assert(self.spec_lines() =~= before.push(Seq::<char>::empty()));
            assert(self.spec_lines() =~= start + Seq::new(
                (self.file_lines@.len() - start.len()) as nat,
                |k: int| Seq::<char>::empty(),
            ));
        }
    }

    /// Removes line `index` when it exists.
    pub fn line_remove(&mut self, index: usize)
        ensures
            final(self).spec_lines() == remove_line(old(self).spec_lines(), index as int),
            final(self).spec_path() == old(self).spec_path(),
            final(self).spec_changed() == old(self).spec_changed(),
            final(self).spec_token() == old(self).spec_token(),
    {
        if index < self.file_lines.len() {
            self.file_lines.remove(index);
            assert(self.spec_lines() =~= old(self).spec_lines().remove(index as int));
        }
    }

    /// Inserts `line` at `index`, or appends it when `index` is past the end.
    pub fn line_insert(&mut self, index: usize, line: Vec<char>)
        ensures
            final(self).spec_lines() == insert_line(old(self).spec_lines(), index as int, line@),
            final(self).spec_path() == old(self).spec_path(),
            final(self).spec_changed() == old(self).spec_changed(),
            final(self).spec_token() == old(self).spec_token(),
    {
        if index >= self.file_lines.len() {
            self.file_lines.push(line);
            assert(self.spec_lines() =~= old(self).spec_lines().push(line@));
        } else {
            self.file_lines.insert(index, line);
            assert(self.spec_lines() =~= old(self).spec_lines().insert(index as int, line@));
        }
    }

    /// A copy of the lines as strings.
    pub fn lines_snapshot(&self) -> (r: Vec<String>)
        ensures
            r@.map_values(|s: String| s@) == self.spec_lines(),
    {
        let mut out: Vec<String> = Vec::new();
        let mut i: usize = 0;
        while i < self.file_lines.len()
            invariant
                0 <= i <= self.file_lines@.len(),
                out@.len() == i,
                forall|k: int| 0 <= k < i ==> #[trigger] out@[k]@ == self.spec_lines()[k],
            decreases self.file_lines@.len() - i,
        {
            out.push(string_from_chars(self.file_lines[i].as_slice()));
            i += 1;
        }
        assert(out@.map_values(|s: String| s@) =~= self.spec_lines());
        out
    }

    /// Replaces the lines (at least one, possibly empty); the change state stays.
    pub fn lines_replace(&mut self, lines: Vec<String>)
        ensures
            final(self).spec_lines() == if lines@.len() == 0 {
                seq![Seq::<char>::empty()]
            } else {
                lines@.map_values(|s: String| s@)
            },
            final(self).spec_path() == old(self).spec_path(),
            final(self).spec_changed() == old(self).spec_changed(),
            final(self).spec_token() == old(self).spec_token(),
    {
        let mut out: Vec<Vec<char>> = Vec::new();
        let mut i: usize = 0;
        while i < lines.len()
            invariant
                0 <= i <= lines@.len(),
                out@.len() == i,
                forall|k: int| 0 <= k < i ==> #[trigger] out@[k]@ == lines@[k]@,
            decreases lines@.len() - i,
        {
            out.push(chars_of(lines[i].as_str()));
            i += 1;
        }
        if out.len() == 0 {
            out.push(Vec::new());
            assert(lines_view(out@) =~= seq![Seq::<char>::empty()]);
        } else {
            assert(lines_view(out@) =~= lines@.map_values(|s: String| s@));
        }
        self.file_lines = out;
    }

    /// Records an edit: the buffer is changed and its token advances.
    pub fn touch(&mut self)
        ensures
            final(self).spec_lines() == old(self).spec_lines(),
            final(self).spec_path() == old(self).spec_path(),
            final(self).spec_changed(),
            final(self).spec_token() == next_token(old(self).spec_token()),
    {
        self.changed = true;
        self.change_token = self.change_token.next();
    }

    pub fn change_state(&self) -> (r: bool)
        ensures
            r == self.spec_changed(),
    {
        self.changed
    }

    pub fn change_mark(&self) -> (r: FileChangeToken)
        ensures
            r.spec_value() == self.spec_token(),
    {
        self.change_token
    }
}

} // verus!
