//! File name completion for `:o` / `:open` in the command prompt.
use vstd::prelude::*;
use vstd::string::*;
use crate::engine::prompt_input::{InputModel, PromptInput, len16};
use crate::protocol::prompt_ui::PromptInputSelection;
use crate::text::{chars_of, copy_range, extend_chars, joined_path, path_join, string_from_chars, utf8_len, utf8_len_is};

verus! {

/// ASCII whitespace as `u8::is_ascii_whitespace` defines it.
pub open spec fn is_ascii_ws(c: char) -> bool {
    c == ' ' || c == '\t' || c == '\n' || c == '\x0C' || c == '\r'
}

fn ascii_ws(c: char) -> (r: bool)
    ensures
        r == is_ascii_ws(c),
{
    c == ' ' || c == '\t' || c == '\n' || c == '\x0C' || c == '\r'
}

/// First index at or after `i` that is not ASCII whitespace.
pub open spec fn skip_ascii_ws(s: Seq<char>, i: int) -> int
    decreases s.len() - i,
{
    if i < 0 || i >= s.len() {
        s.len() as int
    } else if !is_ascii_ws(s[i]) {
        i
    } else {
        skip_ascii_ws(s, i + 1)
    }
}

/// First index at or after `i` that is ASCII whitespace (the length when none is).
pub open spec fn skip_word(s: Seq<char>, i: int) -> int
    decreases s.len() - i,
{
    if i < 0 || i >= s.len() {
        s.len() as int
    } else if is_ascii_ws(s[i]) {
        i
    } else {
        skip_word(s, i + 1)
    }
}

/// For a prompt line `:o <path>` or `:open <path>` with the cursor at its end (the
/// cursor equal to the line's UTF-8 length): the text up to the path and the path itself.
pub open spec fn completion_target(line: Seq<char>, cursor: u16) -> Option<(Seq<char>, Seq<char>)> {
    if cursor as int != utf8_len(line) {
        None
    } else {
        let i0 = skip_ascii_ws(line, 0);
        if i0 >= line.len() || line[i0] != ':' {
            None
        } else {
            let i1 = skip_ascii_ws(line, i0 + 1);
            let i2 = skip_word(line, i1);
            if i1 >= i2 {
                None
            } else {
                let name = line.subrange(i1, i2);
                if name != "o"@ && name != "open"@ {
                    None
                } else {
                    let p = skip_ascii_ws(line, i2);
                    Some((line.take(p), line.skip(p)))
                }
            }
        }
    }
}

/// Index of the last `/` in `s`, if any.
pub open spec fn last_slash(s: Seq<char>, n: int) -> Option<int>
    decreases n,
{
    if n <= 0 {
        None
    } else if s[n - 1] == '/' {
        Some(n - 1)
    } else {
        last_slash(s, n - 1)
    }
}

/// How a path being typed splits: the directory to list, the leading directories as
/// typed (`leader`), and the partial file name (`prefix`). A path holding `{` or `}` (a
/// placeholder) counts as empty.
pub open spec fn completion_request(working_dir: Seq<char>, path: Seq<char>) -> (Seq<char>, Seq<char>, Seq<char>) {
    let p = if path.contains('{') || path.contains('}') { Seq::<char>::empty() } else { path };
    let absolute = p.len() > 0 && p[0] == '/';
    let (leader, prefix) = match last_slash(p, p.len() as int) {
        None => (Seq::<char>::empty(), p),
        Some(i) => (p.take(i + 1), p.skip(i + 1)),
    };
    let base = if absolute {
        if leader.len() == 0 { seq!['/'] } else { leader }
    } else if leader.len() == 0 {
        working_dir
    } else {
        joined_path(working_dir, leader)
    };
    (base, leader, prefix)
}

/// Whether `e` begins with `p`.
pub open spec fn starts_with(e: Seq<char>, p: Seq<char>) -> bool {
    p.len() <= e.len() && e.take(p.len() as int) == p
}

/// The entries beginning with `p`, in order.
pub open spec fn entries_with_prefix(entries: Seq<Seq<char>>, p: Seq<char>) -> Seq<Seq<char>>
    decreases entries.len(),
{
    if entries.len() == 0 {
        Seq::empty()
    } else {
        let rest = entries_with_prefix(entries.drop_last(), p);
        if starts_with(entries.last(), p) { rest.push(entries.last()) } else { rest }
    }
}

/// Length of the longest common prefix of `a` and `b`, counted from `i`.
pub open spec fn common_len(a: Seq<char>, b: Seq<char>, i: int) -> int
    decreases a.len() - i,
{
    if i < 0 || i >= a.len() || i >= b.len() || a[i] != b[i] {
        if i < 0 { 0 } else { i }
    } else {
        common_len(a, b, i + 1)
    }
}

/// The longest common prefix of the first `n` of `ms` (of `ms[0]` alone for `n <= 1`).
pub open spec fn common_prefix(ms: Seq<Seq<char>>, n: int) -> Seq<char>
    decreases n,
{
    if n <= 1 {
        ms[0]
    } else {
        let v = common_prefix(ms, n - 1);
        v.take(common_len(v, ms[n - 1], 0))
    }
}

/// What completing `prefix` against `entries` yields: the common prefix of the matching
/// entries, unless nothing matches or it adds nothing.
pub open spec fn completion_for(entries: Seq<Seq<char>>, prefix: Seq<char>) -> Option<Seq<char>> {
    let ms = entries_with_prefix(entries, prefix);
    if ms.len() == 0 {
        None
    } else {
        let c = common_prefix(ms, ms.len() as int);
        if c == prefix { None } else { Some(c) }
    }
}

/// `e` begins with `p` exactly when `p` is no longer and agrees with `e` position by position.
proof fn lemma_starts_with(e: Seq<char>, p: Seq<char>)
    ensures
        starts_with(e, p) <==> (p.len() <= e.len() && forall|k: int| 0 <= k < p.len() ==> #[trigger] e[k] == p[k]),
{
    if p.len() <= e.len() && forall|k: int| 0 <= k < p.len() ==> #[trigger] e[k] == p[k] {
        assert(e.take(p.len() as int) =~= p);
    }
    if starts_with(e, p) {
        assert forall|k: int| 0 <= k < p.len() implies #[trigger] e[k] == p[k] by {
            assert(e.take(p.len() as int)[k] == e[k]);
        }
    }
}

/// `common_len` from `i` stops at the first position where `a` and `b` differ or end.
proof fn lemma_common_len(a: Seq<char>, b: Seq<char>, i: int)
    requires
        0 <= i <= a.len(),
        i <= b.len(),
        forall|k: int| 0 <= k < i ==> #[trigger] a[k] == b[k],
    ensures
        i <= common_len(a, b, i) <= a.len(),
        common_len(a, b, i) <= b.len(),
        forall|k: int| 0 <= k < common_len(a, b, i) ==> #[trigger] a[k] == b[k],
        common_len(a, b, i) == a.len() || common_len(a, b, i) == b.len() || a[common_len(a, b, i)]
            != b[common_len(a, b, i)],
    decreases a.len() - i,
{
    if i < a.len() && i < b.len() && a[i] == b[i] {
        lemma_common_len(a, b, i + 1);
    }
}

/// The common prefix of the first `n` entries begins each of them.
proof fn lemma_common_prefix_begins_each(ms: Seq<Seq<char>>, n: int)
    requires
        1 <= n <= ms.len(),
    ensures
        forall|j: int| 0 <= j < n ==> starts_with(#[trigger] ms[j], common_prefix(ms, n)),
    decreases n,
{
    let c = common_prefix(ms, n);
    if n == 1 {
        lemma_starts_with(ms[0], c);
    } else {
        lemma_common_prefix_begins_each(ms, n - 1);
        let v = common_prefix(ms, n - 1);
        lemma_starts_with(ms[0], v);
        assert(v.len() <= ms[0].len());
        lemma_starts_with(ms[n - 1], v.take(0));
        lemma_common_len(v, ms[n - 1], 0);
        let l = common_len(v, ms[n - 1], 0);
        assert forall|j: int| 0 <= j < n implies starts_with(#[trigger] ms[j], c) by {
            lemma_starts_with(ms[j], c);
            if j < n - 1 {
                lemma_starts_with(ms[j], v);
            }
        }
    }
}

/// No sequence beginning each of the first `n` entries is longer than their common prefix.
proof fn lemma_common_prefix_longest(ms: Seq<Seq<char>>, n: int, d: Seq<char>)
    requires
        1 <= n <= ms.len(),
        forall|j: int| 0 <= j < n ==> starts_with(#[trigger] ms[j], d),
    ensures
        d.len() <= common_prefix(ms, n).len(),
    decreases n,
{
    if n == 1 {
        lemma_starts_with(ms[0], d);
    } else {
        lemma_common_prefix_longest(ms, n - 1, d);
        lemma_common_prefix_begins_each(ms, n - 1);
        let v = common_prefix(ms, n - 1);
        lemma_starts_with(ms[0], v);
        lemma_starts_with(ms[0], d);
        lemma_starts_with(ms[n - 1], d);
        lemma_common_len(v, ms[n - 1], 0);
        let l = common_len(v, ms[n - 1], 0);
        if d.len() > l {
            assert(v[l] == ms[0][l]);
            assert(d[l] == ms[0][l]);
            assert(d[l] == ms[n - 1][l]);
        }
    }
}

/// The entries beginning with `p` are exactly those of `entries` that do, in order.
proof fn lemma_entries_with_prefix(entries: Seq<Seq<char>>, p: Seq<char>)
    ensures
        forall|j: int|
            0 <= j < entries_with_prefix(entries, p).len() ==> starts_with(
                #[trigger] entries_with_prefix(entries, p)[j],
                p,
            ) && entries.contains(entries_with_prefix(entries, p)[j]),
        forall|k: int|
            0 <= k < entries.len() && starts_with(#[trigger] entries[k], p) ==> entries_with_prefix(
                entries,
                p,
            ).contains(entries[k]),
    decreases entries.len(),
{
    if entries.len() > 0 {
        let d = entries.drop_last();
        lemma_entries_with_prefix(d, p);
        let rest = entries_with_prefix(d, p);
        let ms = entries_with_prefix(entries, p);
        assert forall|j: int| 0 <= j < ms.len() implies starts_with(#[trigger] ms[j], p) && entries.contains(ms[j]) by {
            if j < rest.len() {
                assert(ms[j] == rest[j]);
                let w = choose|w: int| 0 <= w < d.len() && d[w] == rest[j];
                assert(entries[w] == d[w]);
            } else {
                assert(entries[entries.len() - 1] == ms[j]);
            }
        }
        assert forall|k: int| 0 <= k < entries.len() && starts_with(#[trigger] entries[k], p) implies ms.contains(entries[k]) by {
            if k < entries.len() - 1 {
                assert(d[k] == entries[k]);
                assert(rest.contains(d[k]));
                let w = choose|w: int| 0 <= w < rest.len() && rest[w] == d[k];
                assert(ms[w] == rest[w]);
            } else {
                assert(ms[ms.len() - 1] == entries[k]);
            }
        }
    }
}

/// Completing `prefix` against a directory's `entries` yields the longest common prefix
/// of the entries that begin with `prefix`: the value begins every such entry, extends
/// `prefix`, and no `d` beginning all of them is longer. Nothing is completed when no
/// entry begins with `prefix` or when `prefix` is already the longest common prefix.
pub proof fn law_completion_is_longest_common_prefix(entries: Seq<Seq<char>>, prefix: Seq<char>, d: Seq<char>)
    ensures
        ({
            let common = forall|k: int|
                0 <= k < entries.len() && starts_with(#[trigger] entries[k], prefix) ==> starts_with(entries[k], d);
            match completion_for(entries, prefix) {
                Some(c) => {
                    &&& forall|k: int|
                        0 <= k < entries.len() && starts_with(#[trigger] entries[k], prefix) ==> starts_with(entries[k], c)
                    &&& starts_with(c, prefix)
                    &&& c.len() > prefix.len()
                    &&& common ==> d.len() <= c.len()
                },
                None => {
                    ||| forall|k: int| 0 <= k < entries.len() ==> !starts_with(#[trigger] entries[k], prefix)
                    ||| (common ==> d.len() <= prefix.len())
                },
            }
        }),
{
    let ms = entries_with_prefix(entries, prefix);
    lemma_entries_with_prefix(entries, prefix);
    if ms.len() > 0 {
        let n = ms.len() as int;
        let c = common_prefix(ms, n);
        lemma_common_prefix_begins_each(ms, n);
        lemma_common_prefix_longest(ms, n, prefix);
        assert forall|k: int| 0 <= k < entries.len() && starts_with(#[trigger] entries[k], prefix) implies starts_with(entries[k], c) by {
            assert(ms.contains(entries[k]));
            let w = choose|w: int| 0 <= w < ms.len() && ms[w] == entries[k];
            assert(starts_with(ms[w], c));
        }
        if forall|k: int| 0 <= k < entries.len() && starts_with(#[trigger] entries[k], prefix) ==> starts_with(entries[k], d) {
            assert forall|j: int| 0 <= j < n implies starts_with(#[trigger] ms[j], d) by {
                assert(entries.contains(ms[j]));
                let w = choose|w: int| 0 <= w < entries.len() && entries[w] == ms[j];
                assert(starts_with(entries[w], prefix));
            }
            lemma_common_prefix_longest(ms, n, d);
        }
        lemma_starts_with(ms[0], c);
        lemma_starts_with(ms[0], prefix);
        lemma_starts_with(c, prefix);
    } else {
        assert forall|k: int| 0 <= k < entries.len() implies !starts_with(#[trigger] entries[k], prefix) by {
            if starts_with(entries[k], prefix) {
                assert(ms.contains(entries[k]));
            }
        }
    }
}

/// The directory the completion is computed in.
pub struct WorkingDirectory {
    path: String,
}

impl WorkingDirectory {
    pub closed spec fn spec_path(&self) -> Seq<char> {
        self.path@
    }

    pub fn new(path: String) -> (r: Self)
        ensures
            r.spec_path() == path@,
    {
        Self { path }
    }

    pub fn path(&self) -> (r: String)
        ensures
            r@ == self.spec_path(),
    {
        self.path.clone()
    }
}

/// The names in a directory; directories end in `/`.
pub struct DirectoryListing {
    entries: Vec<String>,
}

/// The non-empty names of `v`, in order.
pub open spec fn nonempty_names(v: Seq<Seq<char>>) -> Seq<Seq<char>>
    decreases v.len(),
{
    if v.len() == 0 {
        Seq::empty()
    } else {
        let rest = nonempty_names(v.drop_last());
        if v.last().len() > 0 { rest.push(v.last()) } else { rest }
    }
}

/// The views of a vector of strings.
pub open spec fn names_view(v: Seq<String>) -> Seq<Seq<char>> {
    v.map_values(|s: String| s@)
}

impl DirectoryListing {
    pub closed spec fn spec_entries(&self) -> Seq<Seq<char>> {
        names_view(self.entries@)
    }

    /// A listing of the given names; empty names are left out.
    pub fn new(names: Vec<String>) -> (r: Self)
        ensures
            r.spec_entries() == nonempty_names(names_view(names@)),
    {
        let mut entries: Vec<String> = Vec::new();
        let mut i: usize = 0;
        while i < names.len()
            invariant
                0 <= i <= names@.len(),
                names_view(entries@) == nonempty_names(names_view(names@).take(i as int)),
            decreases names@.len() - i,
        {
            proof {
                let t = names_view(names@).take(i + 1);
                assert(t.drop_last() =~= names_view(names@).take(i as int));
            }
            let ghost prev = names_view(entries@);
            if names[i].as_str().unicode_len() > 0 {
                entries.push(names[i].clone());
                assert(names_view(entries@) =~= prev.push(names@[i as int]@));
            }
            i += 1;
        }
        assert(names_view(names@).take(names@.len() as int) =~= names_view(names@));
        Self { entries }
    }

    /// The completion of `prefix` in this directory.
    pub fn completion_for(&self, prefix: &str) -> (r: CompletionCandidate)
        ensures
            match completion_for(self.spec_entries(), prefix@) {
                None => r is NoChange,
                Some(v) => r matches CompletionCandidate::Replace { value } && value@ == v,
            },
    {
        let p = chars_of(prefix);
        let mut matches: Vec<Vec<char>> = Vec::new();
        let mut i: usize = 0;
        while i < self.entries.len()
            invariant
                0 <= i <= self.entries@.len(),
                p@ == prefix@,
                matches@.map_values(|m: Vec<char>| m@) == entries_with_prefix(
                    self.spec_entries().take(i as int),
                    p@,
                ),
            decreases self.entries@.len() - i,
        {
            let e = chars_of(self.entries[i].as_str());
            proof {
                let t = self.spec_entries().take(i + 1);
                assert(t.drop_last() =~= self.spec_entries().take(i as int));
            }
            let ghost prev = matches@.map_values(|m: Vec<char>| m@);
            if p.len() <= e.len() {
                let head = copy_range(e.as_slice(), 0, p.len());
                if crate::text::chars_equal(head.as_slice(), p.as_slice()) {
                    matches.push(e);
                    assert(matches@.map_values(|m: Vec<char>| m@) =~= prev.push(self.spec_entries()[i as int]));
                }
            }
            i += 1;
        }
        assert(self.spec_entries().take(self.entries@.len() as int) =~= self.spec_entries());
        let ghost ms = matches@.map_values(|m: Vec<char>| m@);
        if matches.len() == 0 {
            return CompletionCandidate::NoChange;
        }
        let mut common = CommonPrefix::new(string_from_chars(matches[0].as_slice()));
        let mut idx: usize = 1;
        while idx < matches.len()
            invariant
                1 <= idx <= matches@.len(),
                ms == matches@.map_values(|m: Vec<char>| m@),
                common.spec_value() == common_prefix(ms, idx as int),
            decreases matches@.len() - idx,
        {
            let candidate = string_from_chars(matches[idx].as_slice());
            common.refine(candidate.as_str());
            idx += 1;
        }
        let value = common.value();
        let v = chars_of(value.as_str());
        if crate::text::chars_equal(v.as_slice(), p.as_slice()) {
            CompletionCandidate::NoChange
        } else {
            CompletionCandidate::Replace { value }
        }
    }
}

/// The longest common prefix of the names seen so far.
pub struct CommonPrefix {
    value: Vec<char>,
}

impl CommonPrefix {
    pub closed spec fn spec_value(&self) -> Seq<char> {
        self.value@
    }

    pub fn new(value: String) -> (r: Self)
        ensures
            r.spec_value() == value@,
    {
        Self { value: chars_of(value.as_str()) }
    }

    /// Shortens the prefix to what it shares with `candidate`.
    pub fn refine(&mut self, candidate: &str)
        ensures
            final(self).spec_value() == old(self).spec_value().take(
                common_len(old(self).spec_value(), candidate@, 0),
            ),
    {
        let cand = chars_of(candidate);
        let mut idx: usize = 0;
        while idx < self.value.len() && idx < cand.len() && self.value[idx] == cand[idx]
            invariant
                0 <= idx <= self.value@.len(),
                idx <= cand@.len(),
                common_len(self.value@, cand@, 0) == common_len(self.value@, cand@, idx as int),
            decreases self.value@.len() - idx,
        {
            idx += 1;
        }
        let ghost before = self.value@;
        self.value.truncate(idx);
        assert(self.value@ =~= before.take(idx as int));
    }

    pub fn value(self) -> (r: String)
        ensures
            r@ == self.spec_value(),
    {
        string_from_chars(self.value.as_slice())
    }
}

/// A completed file name, or nothing to change.
pub enum CompletionCandidate {
    Replace { value: String },
    NoChange,
}

impl CompletionCandidate {
    /// The completion with the typed leading directories put back in front.
    pub fn with_leader(self, leader: String) -> (r: PathCompletion)
        ensures
            match self {
                CompletionCandidate::NoChange => r is NoChange,
                CompletionCandidate::Replace { value } => r matches PathCompletion::Replace { value: v }
                    && v@ == leader@ + value@,
            },
    {
        match self {
            CompletionCandidate::Replace { value } => {
                let mut v = leader;
                v.append(value.as_str());
                PathCompletion::Replace { value: v }
            },
            CompletionCandidate::NoChange => PathCompletion::NoChange,
        }
    }
}

/// A completed path, or nothing to change.
pub enum PathCompletion {
    Replace { value: String },
    NoChange,
}

impl PathCompletion {
    /// Puts the completed path after `prefix` in the prompt line.
    pub fn apply(self, prompt_input: &mut PromptInput, prefix: String)
        ensures
            match self {
                PathCompletion::NoChange => final(prompt_input)@ == old(prompt_input)@,
                PathCompletion::Replace { value } => final(prompt_input)@ == (InputModel {
                    content: prefix@ + value@,
                    cursor: len16(prefix@ + value@),
                    selection: PromptInputSelection::Empty,
                }),
            },
    {
        match self {
            PathCompletion::Replace { value } => {
                let mut line = prefix;
                line.append(value.as_str());
                prompt_input.set_content(line);
            },
            PathCompletion::NoChange => {},
        }
    }
}

/// A path being completed: the directory to list and how the typed path splits.
pub struct PathCompletionRequest {
    base_dir: String,
    leader: String,
    prefix: String,
}

impl PathCompletionRequest {
    pub closed spec fn spec_parts(&self) -> (Seq<char>, Seq<char>, Seq<char>) {
        (self.base_dir@, self.leader@, self.prefix@)
    }

    pub fn new(working_dir: String, path: String) -> (r: Self)
        ensures
            r.spec_parts() == completion_request(working_dir@, path@),
    {
        let chars = chars_of(path.as_str());
        let mut has_brace = false;
        let mut i: usize = 0;
        while i < chars.len()
            invariant
                0 <= i <= chars@.len(),
                has_brace == exists|k: int| 0 <= k < i && (chars@[k] == '{' || chars@[k] == '}'),
            decreases chars@.len() - i,
        {
            if chars[i] == '{' || chars[i] == '}' {
                has_brace = true;
            }
            i += 1;
        }
        assert(has_brace == (path@.contains('{') || path@.contains('}'))) by {
            if path@.contains('{') {
                let k = choose|k: int| 0 <= k < path@.len() && path@[k] == '{';
                assert(chars@[k] == '{');
            }
            if path@.contains('}') {
                let k = choose|k: int| 0 <= k < path@.len() && path@[k] == '}';
                assert(chars@[k] == '}');
            }
        }
        let p: Vec<char> = if has_brace { Vec::new() } else { chars };
        let ghost pv = if path@.contains('{') || path@.contains('}') { Seq::<char>::empty() } else { path@ };
        assert(p@ == pv);
        let is_absolute = p.len() > 0 && p[0] == '/';
        let mut n: usize = p.len();
        while n > 0 && p[n - 1] != '/'
            invariant
                0 <= n <= p@.len(),
                last_slash(p@, p@.len() as int) == last_slash(p@, n as int),
            decreases n,
        {
            n -= 1;
        }
        let (leader, prefix) = if n == 0 {
            (Vec::new(), copy_range(p.as_slice(), 0, p.len()))
        } else {
            (copy_range(p.as_slice(), 0, n), copy_range(p.as_slice(), n, p.len()))
        };
        assert(p@.subrange(0, p@.len() as int) =~= p@);
        assert(leader@ =~= (if n == 0 { Seq::<char>::empty() } else { p@.take(n as int) }));
        assert(n > 0 ==> prefix@ =~= p@.skip(n as int));
        assert(last_slash(p@, p@.len() as int) == (if n == 0 { None } else { Some(n - 1) }));
        assert(n == 0 ==> prefix@ =~= p@);
        let leader_text = string_from_chars(leader.as_slice());
        proof {
            reveal_strlit("/");
        }
        let base_dir = if is_absolute {
            if leader.len() == 0 {
                String::from_str("/")
            } else {
                leader_text.clone()
            }
        } else if leader.len() == 0 {
            working_dir
        } else {
            path_join(working_dir.as_str(), leader_text.as_str())
        };
        let r = Self { base_dir, leader: leader_text, prefix: string_from_chars(prefix.as_slice()) };
        assert(r.spec_parts().1 == leader@);
        assert(r.spec_parts().2 == prefix@);
        r
    }

    pub fn base_dir(&self) -> (r: String)
        ensures
            r@ == self.spec_parts().0,
    {
        self.base_dir.clone()
    }

    /// The completion, given the listing of `base_dir()`.
    pub fn resolve(self, listing: &DirectoryListing) -> (r: PathCompletion)
        ensures
            match completion_for(listing.spec_entries(), self.spec_parts().2) {
                None => r is NoChange,
                Some(v) => r matches PathCompletion::Replace { value } && value@ == self.spec_parts().1 + v,
            },
    {
        let completion = listing.completion_for(self.prefix.as_str());
        completion.with_leader(self.leader)
    }
}

/// Where a completion applies: an open command's path, or nowhere.
pub enum CompletionTarget {
    Open(OpenPathTarget),
    Skip,
}

/// The part of the line before the path, and the path.
pub struct OpenPathTarget {
    prefix: String,
    path: String,
}

impl OpenPathTarget {
    pub closed spec fn spec_parts(&self) -> (Seq<char>, Seq<char>) {
        (self.prefix@, self.path@)
    }

    pub fn new(prefix: String, path: String) -> (r: Self)
        ensures
            r.spec_parts() == (prefix@, path@),
    {
        Self { prefix, path }
    }

    /// The request for the directory to list.
    pub fn request(&self, working_dir: String) -> (r: PathCompletionRequest)
        ensures
            r.spec_parts() == completion_request(working_dir@, self.spec_parts().1),
    {
        PathCompletionRequest::new(working_dir, self.path.clone())
    }

    /// Completes the path in `prompt_input`, given the listing of the requested directory.
    pub fn apply(self, prompt_input: &mut PromptInput, working_dir: String, listing: &DirectoryListing)
        ensures
            ({
                let (_, leader, prefix) = completion_request(working_dir@, self.spec_parts().1);
                match completion_for(listing.spec_entries(), prefix) {
                    None => final(prompt_input)@ == old(prompt_input)@,
                    Some(v) => final(prompt_input)@ == (InputModel {
                        content: self.spec_parts().0 + (leader + v),
                        cursor: len16(self.spec_parts().0 + (leader + v)),
                        selection: PromptInputSelection::Empty,
                    }),
                }
            }),
    {
        let request = PathCompletionRequest::new(working_dir, self.path);
        let completion = request.resolve(listing);
        completion.apply(prompt_input, self.prefix);
    }
}

impl CompletionTarget {
    pub closed spec fn spec_target(&self) -> Option<(Seq<char>, Seq<char>)> {
        match self {
            CompletionTarget::Open(t) => Some(t.spec_parts()),
            CompletionTarget::Skip => None,
        }
    }

    /// Where completing `line` with the cursor at `cursor` applies.
    pub fn new(line: String, cursor: u16) -> (r: Self)
        ensures
            r.spec_target() == completion_target(line@, cursor),
    {
        let s = chars_of(line.as_str());
        if !utf8_len_is(s.as_slice(), cursor) {
            return CompletionTarget::Skip;
        }
        let n = s.len();
        let mut idx: usize = 0;
        while idx < n && ascii_ws(s[idx])
            invariant
                n == s@.len(),
                0 <= idx <= n,
                skip_ascii_ws(s@, 0) == skip_ascii_ws(s@, idx as int),
            decreases n - idx,
        {
            idx += 1;
        }
        if idx >= n || s[idx] != ':' {
            return CompletionTarget::Skip;
        }
        idx += 1;
        let ghost colon = idx;
        while idx < n && ascii_ws(s[idx])
            invariant
                n == s@.len(),
                colon <= idx <= n,
                skip_ascii_ws(s@, colon as int) == skip_ascii_ws(s@, idx as int),
            decreases n - idx,
        {
            idx += 1;
        }
        let name_start = idx;
        while idx < n && !ascii_ws(s[idx])
            invariant
                n == s@.len(),
                name_start <= idx <= n,
                skip_word(s@, name_start as int) == skip_word(s@, idx as int),
            decreases n - idx,
        {
            idx += 1;
        }
        if name_start >= idx {
            return CompletionTarget::Skip;
        }
        let name = copy_range(s.as_slice(), name_start, idx);
        let o = chars_of("o");
        let open = chars_of("open");
        if !crate::text::chars_equal(name.as_slice(), o.as_slice()) && !crate::text::chars_equal(
            name.as_slice(),
            open.as_slice(),
        ) {
            return CompletionTarget::Skip;
        }
        let name_end = idx;
        let mut path_start = idx;
        while path_start < n && ascii_ws(s[path_start])
            invariant
                n == s@.len(),
                name_end <= path_start <= n,
                skip_ascii_ws(s@, name_end as int) == skip_ascii_ws(s@, path_start as int),
            decreases n - path_start,
        {
            path_start += 1;
        }
        let head = copy_range(s.as_slice(), 0, path_start);
        let tail = copy_range(s.as_slice(), path_start, n);
        assert(head@ =~= s@.take(path_start as int));
        assert(tail@ =~= s@.skip(path_start as int));
        CompletionTarget::Open(
            OpenPathTarget::new(string_from_chars(head.as_slice()), string_from_chars(tail.as_slice())),
        )
    }

    /// The completion's directory request, when the line is completable.
    pub fn request(&self, working_dir: String) -> (r: Option<PathCompletionRequest>)
        ensures
            match self.spec_target() {
                None => r is None,
                Some((_, path)) => r matches Some(q) && q.spec_parts() == completion_request(working_dir@, path),
            },
    {
        match self {
            CompletionTarget::Open(target) => Some(target.request(working_dir)),
            CompletionTarget::Skip => None,
        }
    }

    pub fn apply(self, prompt_input: &mut PromptInput, working_dir: String, listing: &DirectoryListing)
        ensures
            match self.spec_target() {
                None => final(prompt_input)@ == old(prompt_input)@,
                Some((head, path)) => {
                    let (_, leader, prefix) = completion_request(working_dir@, path);
                    match completion_for(listing.spec_entries(), prefix) {
                        None => final(prompt_input)@ == old(prompt_input)@,
                        Some(v) => final(prompt_input)@ == (InputModel {
                            content: head + (leader + v),
                            cursor: len16(head + (leader + v)),
                            selection: PromptInputSelection::Empty,
                        }),
                    }
                },
            },
    {
        match self {
            CompletionTarget::Open(target) => target.apply(prompt_input, working_dir, listing),
            CompletionTarget::Skip => {},
        }
    }
}

/// A completion of the prompt line at a cursor position.
pub struct CommandCompletion {
    line: String,
    cursor: u16,
}

impl CommandCompletion {
    pub closed spec fn spec_line(&self) -> Seq<char> {
        self.line@
    }

    pub closed spec fn spec_cursor(&self) -> u16 {
        self.cursor
    }

    pub fn new(line: String, cursor: u16) -> (r: Self)
        ensures
            r.spec_line() == line@,
            r.spec_cursor() == cursor,
    {
        Self { line, cursor }
    }

    /// The directory listing the completion needs, when the line is completable.
    pub fn request(&self, working_dir: String) -> (r: Option<PathCompletionRequest>)
        ensures
            match completion_target(self.spec_line(), self.spec_cursor()) {
                None => r is None,
                Some((_, path)) => r matches Some(q) && q.spec_parts() == completion_request(working_dir@, path),
            },
    {
        let target = CompletionTarget::new(self.line.clone(), self.cursor);
        target.request(working_dir)
    }

    /// Completes the path in `prompt_input`; `listing` is the listing of the directory
    /// `request` names.
    pub fn apply(self, prompt_input: &mut PromptInput, working_dir: String, listing: &DirectoryListing)
        ensures
            final(prompt_input)@ == completed_line(
                old(prompt_input)@,
                self.spec_line(),
                self.spec_cursor(),
                working_dir@,
                listing.spec_entries(),
            ),
    {
        let target = CompletionTarget::new(self.line, self.cursor);
        target.apply(prompt_input, working_dir, listing);
    }
}

/// `input` after completing `line` (cursor `cursor`) against `entries`.
pub open spec fn completed_line(
    input: InputModel,
    line: Seq<char>,
    cursor: u16,
    working_dir: Seq<char>,
    entries: Seq<Seq<char>>,
) -> InputModel {
    match completion_target(line, cursor) {
        None => input,
        Some((head, path)) => {
            let (_, leader, prefix) = completion_request(working_dir, path);
            match completion_for(entries, prefix) {
                None => input,
                Some(v) => InputModel {
                    content: head + (leader + v),
                    cursor: len16(head + (leader + v)),
                    selection: PromptInputSelection::Empty,
                },
            }
        },
    }
}

} // verus!
