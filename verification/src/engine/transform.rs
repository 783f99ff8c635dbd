//! Rewriting selected text into a naming convention (kebab-case, camelCase, ...).
use vstd::prelude::*;

verus! {

/// A naming convention a selection can be rewritten into.
#[derive(Debug, PartialEq, Eq, Structural, Clone, Copy)]
pub enum CaseStyle {
    Kebab,
    Camel,
    Snake,
    ScreamingSnake,
    Pascal,
    Train,
    Flat,
}

/// ASCII letters and digits: the characters that make up words.
pub open spec fn is_word_char(c: char) -> bool {
    ('0' <= c && c <= '9') || ('A' <= c && c <= 'Z') || ('a' <= c && c <= 'z')
}

/// ASCII lowercase of `c` (other characters unchanged).
pub open spec fn ascii_lower(c: char) -> char {
    if 'A' <= c && c <= 'Z' { ((c as u8) + 32) as char } else { c }
}

/// ASCII uppercase of `c` (other characters unchanged).
pub open spec fn ascii_upper(c: char) -> char {
    if 'a' <= c && c <= 'z' { ((c as u8) - 32) as char } else { c }
}

/// One character of input: words are kept, everything else only separates words.
/// The state is the output so far and whether a separator came since the last word character.
pub open spec fn case_step(style: CaseStyle, out: Seq<char>, prev_sep: bool, ch: char) -> (
    Seq<char>,
    bool,
) {
    if !is_word_char(ch) {
        (out, true)
    } else {
        let joined = out.len() > 0 && prev_sep;
        let next = match style {
            CaseStyle::Kebab => (if joined { out.push('-') } else { out }).push(ascii_lower(ch)),
            CaseStyle::Snake => (if joined { out.push('_') } else { out }).push(ascii_lower(ch)),
            CaseStyle::ScreamingSnake => (if joined { out.push('_') } else { out }).push(
                ascii_upper(ch),
            ),
            CaseStyle::Camel => out.push(
                if out.len() == 0 {
                    ascii_lower(ch)
                } else if prev_sep {
                    ascii_upper(ch)
                } else {
                    ascii_lower(ch)
                },
            ),
            CaseStyle::Pascal => out.push(
                if out.len() == 0 || prev_sep {
                    ascii_upper(ch)
                } else {
                    ascii_lower(ch)
                },
            ),
            CaseStyle::Train => (if joined { out.push('-') } else { out }).push(
                if prev_sep || out.len() == 0 {
                    ascii_upper(ch)
                } else {
                    ascii_lower(ch)
                },
            ),
            CaseStyle::Flat => out.push(ascii_lower(ch)),
        };
        (next, false)
    }
}

/// The state after the first `n` characters of `s`.
pub open spec fn case_state(style: CaseStyle, s: Seq<char>, n: int) -> (Seq<char>, bool)
    decreases n,
{
    if n <= 0 {
        (Seq::empty(), true)
    } else {
        let p = case_state(style, s, n - 1);
        case_step(style, p.0, p.1, s[n - 1])
    }
}

/// `s` rewritten in `style`.
pub open spec fn case_transform(style: CaseStyle, s: Seq<char>) -> Seq<char> {
    case_state(style, s, s.len() as int).0
}

/// Styles that keep words apart with a separator, or do not mark word starts at all:
/// all but camelCase and PascalCase, whose word starts cannot be told apart again.
pub open spec fn keeps_word_breaks(style: CaseStyle) -> bool {
    style != CaseStyle::Camel && style != CaseStyle::Pascal
}

proof fn lemma_case_letters(c: char)
    requires
        is_word_char(c),
    ensures
        is_word_char(ascii_lower(c)),
        is_word_char(ascii_upper(c)),
        ascii_lower(ascii_lower(c)) == ascii_lower(c),
        ascii_upper(ascii_upper(c)) == ascii_upper(c),
{
}

/// The state after a prefix only depends on that prefix.
proof fn lemma_case_state_prefix(style: CaseStyle, a: Seq<char>, b: Seq<char>, k: int)
    requires
        0 <= k <= a.len(),
    ensures
        case_state(style, a + b, k) == case_state(style, a, k),
    decreases k,
{
    if k > 0 {
        lemma_case_state_prefix(style, a, b, k - 1);
        assert((a + b)[k - 1] == a[k - 1]);
    }
}

/// Rewriting the output of the first `n` characters again gives it back, ending
/// right after a word character (or at the start).
proof fn lemma_rewrite_stable(style: CaseStyle, s: Seq<char>, n: int)
    requires
        keeps_word_breaks(style),
        0 <= n <= s.len(),
    ensures
        ({
            let o = case_state(style, s, n).0;
            case_state(style, o, o.len() as int) == (o, o.len() == 0)
        }),
    decreases n,
{
    if n > 0 {
        lemma_rewrite_stable(style, s, n - 1);
        let (o0, p0) = case_state(style, s, n - 1);
        let c = s[n - 1];
        if is_word_char(c) {
            lemma_case_letters(c);
            let o1 = case_state(style, s, n).0;
            let k = o0.len() as int;
            let extra = o1.skip(k);
            assert(o1 =~= o0 + extra);
            lemma_case_state_prefix(style, o0, extra, k);
            assert(case_state(style, o1, k) == (o0, k == 0));
            if o1.len() == k + 2 {
                lemma_case_letters(o1[k + 1]);
                assert(case_state(style, o1, k + 1) == (o0, true));
                assert(case_state(style, o1, k + 2) =~= (o1, false));
            } else {
                lemma_case_letters(o1[k]);
                assert(case_state(style, o1, k + 1) =~= (o1, false));
            }
        }
    }
}

/// Rewriting into a style that keeps word breaks is stable: rewriting the result
/// again changes nothing.
pub proof fn law_case_rewrite_is_stable(style: CaseStyle, s: Seq<char>)
    requires
        keeps_word_breaks(style),
    ensures
        case_transform(style, case_transform(style, s)) == case_transform(style, s),
{
    lemma_rewrite_stable(style, s, s.len() as int);
}

fn is_word(c: char) -> (r: bool)
    ensures
        r == is_word_char(c),
{
    ('0' <= c && c <= '9') || ('A' <= c && c <= 'Z') || ('a' <= c && c <= 'z')
}

fn to_lower(c: char) -> (r: char)
    ensures
        r == ascii_lower(c),
{
    if 'A' <= c && c <= 'Z' { ((c as u8) + 32) as char } else { c }
}

fn to_upper(c: char) -> (r: char)
    ensures
        r == ascii_upper(c),
{
    if 'a' <= c && c <= 'z' { ((c as u8) - 32) as char } else { c }
}

impl CaseStyle {
    /// `input` rewritten in this style: runs of ASCII letters and digits become words
    /// joined by the style's separator and capitalised by its rule; all other
    /// characters are dropped.
    pub fn transform(&self, input: &[char]) -> (r: Vec<char>)
        ensures
            r@ == case_transform(*self, input@),
    {
        let mut output: Vec<char> = Vec::new();
        let mut prev_separator = true;
        let mut i: usize = 0;
        while i < input.len()
            invariant
                0 <= i <= input@.len(),
                (output@, prev_separator) == case_state(*self, input@, i as int),
            decreases input@.len() - i,
        {
            let ch = input[i];
            if is_word(ch) {
                let joined = output.len() > 0 && prev_separator;
                match self {
                    CaseStyle::Kebab => {
                        if joined {
                            output.push('-');
                        }
                        output.push(to_lower(ch));
                    },
                    CaseStyle::Snake => {
                        if joined {
                            output.push('_');
                        }
                        output.push(to_lower(ch));
                    },
                    CaseStyle::ScreamingSnake => {
                        if joined {
                            output.push('_');
                        }
                        output.push(to_upper(ch));
                    },
                    CaseStyle::Camel => {
                        let c = if output.len() == 0 {
                            to_lower(ch)
                        } else if prev_separator {
                            to_upper(ch)
                        } else {
                            to_lower(ch)
                        };
                        output.push(c);
                    },
                    CaseStyle::Pascal => {
                        let c = if output.len() == 0 || prev_separator {
                            to_upper(ch)
                        } else {
                            to_lower(ch)
                        };
                        output.push(c);
                    },
                    CaseStyle::Train => {
                        let first = prev_separator || output.len() == 0;
                        if joined {
                            output.push('-');
                        }
                        output.push(if first { to_upper(ch) } else { to_lower(ch) });
                    },
                    CaseStyle::Flat => {
                        output.push(to_lower(ch));
                    },
                }
                prev_separator = false;
            } else {
                prev_separator = true;
            }
            i += 1;
            assert(output@ =~= case_state(*self, input@, i as int).0);
        }
        output
    }
}

} // verus!
