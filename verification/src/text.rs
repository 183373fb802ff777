//! Verified text handling for operator input: whitespace tokenization,
//! splitting a line at its first space, and case folding of command names.

use vstd::prelude::*;
use vstd::string::StrSliceExecFns;

verus! {

/// The whitespace characters: exactly the Unicode `White_Space` set that
/// line tokenization splits on.
pub open spec fn is_space_char(c: char) -> bool {
    ||| c == '\u{09}'
    ||| c == '\u{0a}'
    ||| c == '\u{0b}'
    ||| c == '\u{0c}'
    ||| c == '\u{0d}'
    ||| c == ' '
    ||| c == '\u{85}'
    ||| c == '\u{a0}'
    ||| c == '\u{1680}'
    ||| ('\u{2000}' <= c && c <= '\u{200a}')
    ||| c == '\u{2028}'
    ||| c == '\u{2029}'
    ||| c == '\u{202f}'
    ||| c == '\u{205f}'
    ||| c == '\u{3000}'
}

/// Whether `c` is a whitespace character.
pub fn is_space(c: char) -> (r: bool)
    ensures
        r == is_space_char(c),
{
    c == '\u{09}' || c == '\u{0a}' || c == '\u{0b}' || c == '\u{0c}' || c == '\u{0d}' || c == ' '
        || c == '\u{85}' || c == '\u{a0}' || c == '\u{1680}' || ('\u{2000}' <= c && c
        <= '\u{200a}') || c == '\u{2028}' || c == '\u{2029}' || c == '\u{202f}' || c == '\u{205f}'
        || c == '\u{3000}'
}

/// The position where the token beginning at `i` ends: the first index at
/// or after `i` holding whitespace, or the end of the text.
pub open spec fn token_end(s: Seq<char>, i: int) -> int
    decreases s.len() - i,
{
    if i < 0 || i >= s.len() || is_space_char(s[i]) {
        i
    } else {
        token_end(s, i + 1)
    }
}

/// `token_end` stays within bounds, everything before it is non-space, and
/// it stops at a space or the end.
pub proof fn lemma_token_end(s: Seq<char>, i: int)
    requires
        0 <= i <= s.len(),
    ensures
        i <= token_end(s, i) <= s.len(),
        forall|j: int| i <= j < token_end(s, i) ==> !is_space_char(#[trigger] s[j]),
        token_end(s, i) < s.len() ==> is_space_char(s[token_end(s, i)]),
    decreases s.len() - i,
{
    if i < s.len() && !is_space_char(s[i]) {
        lemma_token_end(s, i + 1);
    }
}

/// The whitespace-separated tokens of `s` from position `i` on: maximal
/// runs of non-space characters, in order, with all whitespace dropped.
pub open spec fn tokens_from(s: Seq<char>, i: int) -> Seq<Seq<char>>
    decreases s.len() - i,
    via tokens_from_decreases
{
    if i < 0 || i >= s.len() {
        seq![]
    } else if is_space_char(s[i]) {
        tokens_from(s, i + 1)
    } else {
        seq![s.subrange(i, token_end(s, i))] + tokens_from(s, token_end(s, i))
    }
}

#[via_fn]
proof fn tokens_from_decreases(s: Seq<char>, i: int) {
    if 0 <= i < s.len() && !is_space_char(s[i]) {
        lemma_token_end(s, i);
    }
}

/// The whitespace-separated tokens of the whole text.
pub open spec fn whitespace_tokens(s: Seq<char>) -> Seq<Seq<char>> {
    tokens_from(s, 0)
}

/// Split `s` into its whitespace-separated tokens, dropping all whitespace:
/// the word list an ordinary command line denotes.
pub fn tokenize(s: &String) -> (r: Vec<String>)
    ensures
        r.deep_view() == whitespace_tokens(s@),
{
    let text: &str = s.as_str();
    let n: usize = text.unicode_len();
    let mut out: Vec<String> = Vec::new();
    let mut i: usize = 0;
    proof {
        assert(out.deep_view() + tokens_from(s@, 0) =~= tokens_from(s@, 0));
    }
    while i < n
        invariant
            text@ == s@,
            n == s@.len(),
            i <= n,
            out.deep_view() + tokens_from(s@, i as int) == tokens_from(s@, 0),
        decreases n - i,
    {
        let c = text.get_char(i);
        if is_space(c) {
            proof {
                assert(tokens_from(s@, i as int) == tokens_from(s@, i + 1));
            }
            i = i + 1;
        } else {
            let ghost start = i as int;
            let mut j: usize = i;
            while j < n && !is_space(text.get_char(j))
                invariant
                    text@ == s@,
                    n == s@.len(),
                    start <= j <= n,
                    0 <= start < n,
                    token_end(s@, start) == token_end(s@, j as int),
                decreases n - j,
            {
                proof {
                    assert(token_end(s@, j as int) == token_end(s@, j + 1));
                }
                j = j + 1;
            }
            proof {
                assert(token_end(s@, j as int) == j as int);
                assert(token_end(s@, start) == j as int);
            }
            let token: String = text.substring_char(i, j).to_owned();
            let ghost prev = out.deep_view();
            out.push(token);
            proof {
                assert(out.deep_view() =~= prev.push(token@));
                assert(tokens_from(s@, start) == seq![s@.subrange(start, j as int)]
                    + tokens_from(s@, j as int));
                assert(out.deep_view() + tokens_from(s@, j as int) =~= tokens_from(s@, 0));
            }
            i = j;
        }
    }
    proof {
        assert(tokens_from(s@, n as int) =~= Seq::<Seq<char>>::empty());
        assert(out.deep_view() =~= tokens_from(s@, 0));
    }
    out
}

/// The index of the first space character (U+0020 exactly) at or after
/// `i`, or the length of the text if there is none.
pub open spec fn first_space(s: Seq<char>, i: int) -> int
    decreases s.len() - i,
{
    if i < 0 || i >= s.len() {
        s.len() as int
    } else if s[i] == ' ' {
        i
    } else {
        first_space(s, i + 1)
    }
}

/// `first_space` stays within bounds and is the first space position.
pub proof fn lemma_first_space(s: Seq<char>, i: int)
    requires
        0 <= i <= s.len(),
    ensures
        i <= first_space(s, i) <= s.len(),
        forall|j: int| i <= j < first_space(s, i) ==> #[trigger] s[j] != ' ',
        first_space(s, i) < s.len() ==> s[first_space(s, i)] == ' ',
    decreases s.len() - i,
{
    if i < s.len() && s[i] != ' ' {
        lemma_first_space(s, i + 1);
    }
}

/// Split a line at its first space: the part before it, and the remainder
/// after it (`None` when the line holds no space at all). The remainder
/// keeps every later space untouched.
pub fn split_first_space(s: &String) -> (r: (String, Option<String>))
    ensures
        0 <= first_space(s@, 0) <= s@.len(),
        r.0@ == s@.subrange(0, first_space(s@, 0)),
        first_space(s@, 0) == s@.len() ==> r.1 is None,
        first_space(s@, 0) < s@.len() ==> (r.1 matches Some(rest) && rest@ == s@.subrange(
            first_space(s@, 0) + 1,
            s@.len() as int,
        )),
    {
    proof {
        lemma_first_space(s@, 0);
    }
    let text: &str = s.as_str();
    let n: usize = text.unicode_len();
    let mut i: usize = 0;
    while i < n && text.get_char(i) != ' '
        invariant
            text@ == s@,
            n == s@.len(),
            0 <= i <= n,
            first_space(s@, 0) == first_space(s@, i as int),
        decreases n - i,
    {
        proof {
            assert(first_space(s@, i as int) == first_space(s@, i + 1));
        }
        i = i + 1;
    }
    proof {
        assert(first_space(s@, i as int) == if i < n {
            i as int
        } else {
            n as int
        });
    }
    let head: String = text.substring_char(0, i).to_owned();
    if i < n {
        let rest: String = text.substring_char(i + 1, n).to_owned();
        (head, Some(rest))
    } else {
        (head, None)
    }
}

/// The lowercase folding of `s`, as full Unicode case mapping performs it.
pub uninterp spec fn lower_of(s: Seq<char>) -> Seq<char>;

/// Whether every character of `s` is a lowercase ASCII letter.
pub open spec fn seq_is_lower_ascii(s: Seq<char>) -> bool {
    forall|i: int| 0 <= i < s.len() ==> 'a' <= #[trigger] s[i] <= 'z'
}

/// Relies on `str::to_lowercase`: the lowercase mapping of the characters
/// alone determines the result; characters without an uppercase form — in
/// particular a name already made of lowercase ASCII letters — map to
/// themselves, so the result, holding no uppercase, lowercases to itself.
#[verifier::external_body]
pub(crate) fn lowercase(s: &String) -> (r: String)
    ensures
        r@ == lower_of(s@),
        lower_of(r@) == r@,
        seq_is_lower_ascii(s@) ==> r@ == s@,
{
    s.to_lowercase()
}

} // verus!
