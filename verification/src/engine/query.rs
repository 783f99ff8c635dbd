//! Matching prompt input against list entries: query normalisation and fuzzy matching.
use vstd::prelude::*;
use crate::text::{chars_of, copy_range, lowercase, spec_lowercase, string_from_chars};

verus! {

/// Unicode `White_Space`, the set `char::is_whitespace` tests.
pub open spec fn is_unicode_whitespace(c: char) -> bool {
    let u = c as u32;
    (0x9 <= u && u <= 0xd) || u == 0x20 || u == 0x85 || u == 0xa0 || u == 0x1680 || (0x2000 <= u
        && u <= 0x200a) || u == 0x2028 || u == 0x2029 || u == 0x202f || u == 0x205f || u == 0x3000
}

pub fn is_whitespace(c: char) -> (r: bool)
    ensures
        r == is_unicode_whitespace(c),
{
    let u = c as u32;
    (0x9 <= u && u <= 0xd) || u == 0x20 || u == 0x85 || u == 0xa0 || u == 0x1680 || (0x2000 <= u
        && u <= 0x200a) || u == 0x2028 || u == 0x2029 || u == 0x202f || u == 0x205f || u == 0x3000
}

/// Index of the first character at or after `i` that is not `c`.
pub open spec fn skip_char(s: Seq<char>, c: char, i: int) -> int
    decreases s.len() - i,
{
    if i < 0 || i >= s.len() {
        s.len() as int
    } else if s[i] != c {
        i
    } else {
        skip_char(s, c, i + 1)
    }
}

/// `s` without its leading run of `c`.
pub open spec fn strip_leading(s: Seq<char>, c: char) -> Seq<char> {
    s.skip(skip_char(s, c, 0))
}

/// Index of the first non-whitespace character at or after `i`.
pub open spec fn skip_ws(s: Seq<char>, i: int) -> int
    decreases s.len() - i,
{
    if i < 0 || i >= s.len() {
        s.len() as int
    } else if !is_unicode_whitespace(s[i]) {
        i
    } else {
        skip_ws(s, i + 1)
    }
}

/// End of `s.take(j)` without its trailing whitespace.
pub open spec fn trim_end_at(s: Seq<char>, j: int) -> int
    decreases j,
{
    if j <= 0 {
        0
    } else if !is_unicode_whitespace(s[j - 1]) {
        j
    } else {
        trim_end_at(s, j - 1)
    }
}

/// `s` without leading and trailing whitespace.
pub open spec fn trim(s: Seq<char>) -> Seq<char> {
    let a = skip_ws(s, 0);
    let b = trim_end_at(s, s.len() as int);
    if b <= a { Seq::empty() } else { s.subrange(a, b) }
}

proof fn lemma_skip_ws_stops(s: Seq<char>, i: int)
    requires
        0 <= i <= s.len(),
    ensures
        i <= skip_ws(s, i) <= s.len(),
        skip_ws(s, i) < s.len() ==> !is_unicode_whitespace(s[skip_ws(s, i)]),
    decreases s.len() - i,
{
    if i < s.len() && is_unicode_whitespace(s[i]) {
        lemma_skip_ws_stops(s, i + 1);
    }
}

proof fn lemma_trim_end_stops(s: Seq<char>, j: int)
    requires
        0 <= j <= s.len(),
    ensures
        0 <= trim_end_at(s, j) <= j,
        trim_end_at(s, j) > 0 ==> !is_unicode_whitespace(s[trim_end_at(s, j) - 1]),
    decreases j,
{
    if j > 0 && is_unicode_whitespace(s[j - 1]) {
        lemma_trim_end_stops(s, j - 1);
    }
}

/// A trimmed text that is not empty starts and ends with a non-whitespace character,
/// and trimming it again changes nothing.
pub proof fn lemma_trim_trimmed(s: Seq<char>)
    ensures
        trim(trim(s)) == trim(s),
        trim(s).len() > 0 ==> !is_unicode_whitespace(trim(s)[0]) && !is_unicode_whitespace(trim(s).last()),
{
    lemma_skip_ws_stops(s, 0);
    lemma_trim_end_stops(s, s.len() as int);
    let t = trim(s);
    if t.len() > 0 {
        assert(skip_ws(t, 0) == 0);
        assert(trim_end_at(t, t.len() as int) == t.len());
        assert(trim(t) =~= t);
    } else {
        assert(trim(t) =~= t);
    }
}

/// The query an input line stands for: leading `:` then `;` characters and surrounding
/// whitespace removed, lowercased.
pub open spec fn normalized_query(input: Seq<char>) -> Seq<char> {
    spec_lowercase(trim(strip_leading(strip_leading(input, ':'), ';')))
}

/// Whether `q[qi..]` appears in order (not necessarily adjacent) in `c[ci..]`,
/// matching each query character at its earliest occurrence.
pub open spec fn fuzzy_from(q: Seq<char>, c: Seq<char>, qi: int, ci: int) -> bool
    decreases c.len() - ci,
{
    if qi < 0 || qi >= q.len() {
        true
    } else if ci < 0 || ci >= c.len() {
        false
    } else if c[ci] == q[qi] {
        fuzzy_from(q, c, qi + 1, ci + 1)
    } else {
        fuzzy_from(q, c, qi, ci + 1)
    }
}

/// Whether `query` is a subsequence of `candidate`.
pub open spec fn fuzzy(query: Seq<char>, candidate: Seq<char>) -> bool {
    fuzzy_from(query, candidate, 0, 0)
}

/// `f` places each character of `q` at a position of `c` holding it, at increasing
/// positions: `q` occurs in `c` in order, not necessarily adjacent.
pub open spec fn embeds(q: Seq<char>, c: Seq<char>, f: Seq<int>) -> bool {
    &&& f.len() == q.len()
    &&& forall|i: int| 0 <= i < q.len() ==> 0 <= #[trigger] f[i] < c.len() && c[f[i]] == q[i]
    &&& forall|i: int, j: int| 0 <= i < j < q.len() ==> #[trigger] f[i] < #[trigger] f[j]
}

proof fn lemma_embedding_found(q: Seq<char>, c: Seq<char>, f: Seq<int>, qi: int, ci: int)
    requires
        0 <= qi,
        0 <= ci,
        f.len() == q.len(),
        forall|i: int| qi <= i < q.len() ==> ci <= #[trigger] f[i] < c.len() && c[f[i]] == q[i],
        forall|i: int, j: int| qi <= i < j < q.len() ==> #[trigger] f[i] < #[trigger] f[j],
    ensures
        fuzzy_from(q, c, qi, ci),
    decreases c.len() - ci,
{
    if qi < q.len() {
        assert(ci <= f[qi] < c.len());
        if c[ci] == q[qi] {
            assert forall|i: int| qi + 1 <= i < q.len() implies ci + 1 <= #[trigger] f[i] < c.len() && c[f[i]] == q[i] by {
                assert(f[qi] < f[i]);
            }
            lemma_embedding_found(q, c, f, qi + 1, ci + 1);
        } else {
            assert(f[qi] != ci);
            assert forall|i: int| qi <= i < q.len() implies ci + 1 <= #[trigger] f[i] < c.len() && c[f[i]] == q[i] by {
                if i > qi {
                    assert(f[qi] < f[i]);
                }
            }
            lemma_embedding_found(q, c, f, qi, ci + 1);
        }
    }
}

proof fn lemma_embedding_built(q: Seq<char>, c: Seq<char>, qi: int, ci: int) -> (f: Seq<int>)
    requires
        0 <= qi <= q.len(),
        0 <= ci,
        fuzzy_from(q, c, qi, ci),
    ensures
        f.len() == q.len() - qi,
        forall|i: int| 0 <= i < f.len() ==> ci <= #[trigger] f[i] < c.len() && c[f[i]] == q[qi + i],
        forall|i: int, j: int| 0 <= i < j < f.len() ==> #[trigger] f[i] < #[trigger] f[j],
    decreases c.len() - ci,
{
    if qi >= q.len() {
        Seq::empty()
    } else if c[ci] == q[qi] {
        let rest = lemma_embedding_built(q, c, qi + 1, ci + 1);
        let f = seq![ci].add(rest);
        assert forall|i: int| 0 <= i < f.len() implies ci <= #[trigger] f[i] < c.len() && c[f[i]] == q[qi + i] by {
            if i > 0 {
                assert(f[i] == rest[i - 1]);
            }
        }
        assert forall|i: int, j: int| 0 <= i < j < f.len() implies #[trigger] f[i] < #[trigger] f[j] by {
            assert(f[j] == rest[j - 1]);
            if i > 0 {
                assert(f[i] == rest[i - 1]);
            }
        }
        f
    } else {
        lemma_embedding_built(q, c, qi, ci + 1)
    }
}

/// `fuzzy(q, c)` holds exactly when `q` occurs in `c` in order: some increasing choice
/// of positions of `c` spells `q`.
pub proof fn law_fuzzy_is_subsequence(q: Seq<char>, c: Seq<char>, f: Seq<int>)
    ensures
        embeds(q, c, f) ==> fuzzy(q, c),
        fuzzy(q, c) ==> exists|g: Seq<int>| #[trigger] embeds(q, c, g),
{
    if embeds(q, c, f) {
        lemma_embedding_found(q, c, f, 0, 0);
    }
    if fuzzy(q, c) {
        let g = lemma_embedding_built(q, c, 0, 0);
        assert(embeds(q, c, g));
    }
}

/// Whether every character of `query` appears in `candidate`, in order.
pub fn fuzzy_match(query: &[char], candidate: &[char]) -> (r: bool)
    ensures
        r == fuzzy(query@, candidate@),
{
    if query.len() == 0 {
        return true;
    }
    let mut qi: usize = 0;
    let mut ci: usize = 0;
    while ci < candidate.len()
        invariant
            0 <= qi < query@.len(),
            0 <= ci <= candidate@.len(),
            fuzzy(query@, candidate@) == fuzzy_from(query@, candidate@, qi as int, ci as int),
        decreases candidate@.len() - ci,
    {
        if candidate[ci] == query[qi] {
            if qi + 1 < query.len() {
                qi += 1;
            } else {
                assert(fuzzy_from(query@, candidate@, (qi + 1) as int, (ci + 1) as int));
                return true;
            }
        }
        ci += 1;
    }
    false
}

/// The characters of `input` after its leading run of `c`.
pub fn strip_leading_char(input: &[char], c: char) -> (r: Vec<char>)
    ensures
        r@ == strip_leading(input@, c),
{
    let mut i: usize = 0;
    while i < input.len() && input[i] == c
        invariant
            0 <= i <= input@.len(),
            skip_char(input@, c, 0) == skip_char(input@, c, i as int),
        decreases input@.len() - i,
    {
        i += 1;
    }
    copy_range(input, i, input.len())
}

/// `input` without leading and trailing whitespace.
pub fn trim_whitespace(input: &[char]) -> (r: Vec<char>)
    ensures
        r@ == trim(input@),
{
    let mut a: usize = 0;
    while a < input.len() && is_whitespace(input[a])
        invariant
            0 <= a <= input@.len(),
            skip_ws(input@, 0) == skip_ws(input@, a as int),
        decreases input@.len() - a,
    {
        a += 1;
    }
    let mut b: usize = input.len();
    while b > 0 && is_whitespace(input[b - 1])
        invariant
            0 <= b <= input@.len(),
            trim_end_at(input@, input@.len() as int) == trim_end_at(input@, b as int),
        decreases b,
    {
        b -= 1;
    }
    if b <= a {
        Vec::new()
    } else {
        copy_range(input, a, b)
    }
}

/// The normalised query of an input line (see `normalized_query`).
pub fn query_from_input(input: &[char]) -> (r: Vec<char>)
    ensures
        r@ == normalized_query(input@),
{
    let a = strip_leading_char(input, ':');
    let b = strip_leading_char(a.as_slice(), ';');
    let t = trim_whitespace(b.as_slice());
    let s = string_from_chars(t.as_slice());
    let lower = lowercase(s.as_str());
    chars_of(lower.as_str())
}

/// The lowercase characters of `s`.
pub fn lowercase_chars(s: &str) -> (r: Vec<char>)
    ensures
        r@ == spec_lowercase(s@),
{
    let lower = lowercase(s);
    chars_of(lower.as_str())
}

} // verus!
