//! Splitting text into tokens: the non-empty runs of characters between
//! separators.

use vstd::prelude::*;
use vstd::string::StrSliceExecFns;

verus! {

/// What separates tokens.
#[derive(Clone, Copy, Debug)]
pub enum Separator {
    /// The line feed.
    Newline,
    /// Any white-space character.
    Whitespace,
}

/// Whether a character is white space: the characters with the Unicode
/// property `White_Space`.
pub open spec fn is_whitespace(c: char) -> bool {
    let n = c as u32;
    ||| 0x09 <= n <= 0x0d
    ||| n == 0x20
    ||| n == 0x85
    ||| n == 0xa0
    ||| n == 0x1680
    ||| 0x2000 <= n <= 0x200a
    ||| n == 0x2028
    ||| n == 0x2029
    ||| n == 0x202f
    ||| n == 0x205f
    ||| n == 0x3000
}

impl Separator {
    /// Whether a character separates tokens.
    pub open spec fn separates(self, c: char) -> bool {
        match self {
            Separator::Newline => c == '\n',
            Separator::Whitespace => is_whitespace(c),
        }
    }

    /// Whether a character separates tokens.
    pub fn is_separator(self, c: char) -> (r: bool)
        ensures
            r == self.separates(c),
    {
        match self {
            Separator::Newline => c == '\n',
            Separator::Whitespace => {
                let n: u32 = c as u32;
                (0x09 <= n && n <= 0x0d) || n == 0x20 || n == 0x85 || n == 0xa0 || n == 0x1680 || (
                0x2000 <= n && n <= 0x200a) || n == 0x2028 || n == 0x2029 || n == 0x202f || n
                    == 0x205f || n == 0x3000
            },
        }
    }
}

/// Where the run of characters without a separator that ends at `i` starts.
pub open spec fn token_start(s: Seq<char>, sep: Separator, i: int) -> int
    decreases i,
{
    if i <= 0 {
        0
    } else if sep.separates(s[i - 1]) {
        i
    } else {
        token_start(s, sep, i - 1)
    }
}

/// The tokens that a separator before `i` has closed, in order.
pub open spec fn closed_tokens(s: Seq<char>, sep: Separator, i: int) -> Seq<Seq<char>>
    decreases i,
{
    if i <= 0 {
        Seq::empty()
    } else if sep.separates(s[i - 1]) && token_start(s, sep, i - 1) < i - 1 {
        closed_tokens(s, sep, i - 1).push(s.subrange(token_start(s, sep, i - 1), i - 1))
    } else {
        closed_tokens(s, sep, i - 1)
    }
}

/// The tokens of a text, in order: its maximal non-empty runs of characters
/// that are no separators.
pub open spec fn tokens(s: Seq<char>, sep: Separator) -> Seq<Seq<char>> {
    let n = s.len() as int;
    if token_start(s, sep, n) < n {
        closed_tokens(s, sep, n).push(s.subrange(token_start(s, sep, n), n))
    } else {
        closed_tokens(s, sep, n)
    }
}

/// Every run starts inside the text and not after its end.
pub proof fn lemma_token_start_bounds(s: Seq<char>, sep: Separator, i: int)
    requires
        0 <= i <= s.len(),
    ensures
        0 <= token_start(s, sep, i) <= i,
    decreases i,
{
    if i > 0 && !sep.separates(s[i - 1]) {
        lemma_token_start_bounds(s, sep, i - 1);
    }
}

/// No character of a run is a separator.
pub proof fn lemma_run_has_no_separator(s: Seq<char>, sep: Separator, i: int, k: int)
    requires
        0 <= i <= s.len(),
        token_start(s, sep, i) <= k < i,
    ensures
        !sep.separates(s[k]),
    decreases i,
{
    if i > 0 && !sep.separates(s[i - 1]) {
        if k < i - 1 {
            lemma_run_has_no_separator(s, sep, i - 1, k);
        }
    }
}

/// Whether a text is not empty and holds no separator.
pub open spec fn is_token(t: Seq<char>, sep: Separator) -> bool {
    t.len() > 0 && forall|k: int| 0 <= k < t.len() ==> !sep.separates(#[trigger] t[k])
}

/// Every closed token is not empty and holds no separator.
pub proof fn lemma_closed_tokens_are_tokens(s: Seq<char>, sep: Separator, i: int, j: int)
    requires
        0 <= i <= s.len(),
        0 <= j < closed_tokens(s, sep, i).len(),
    ensures
        is_token(closed_tokens(s, sep, i)[j], sep),
    decreases i,
{
    if i > 0 {
        let a = token_start(s, sep, i - 1);
        if sep.separates(s[i - 1]) && a < i - 1 {
            if j < closed_tokens(s, sep, i - 1).len() {
                lemma_closed_tokens_are_tokens(s, sep, i - 1, j);
            } else {
                lemma_token_start_bounds(s, sep, i - 1);
                let piece = s.subrange(a, i - 1);
                assert forall|k: int| 0 <= k < piece.len() implies !sep.separates(
                    #[trigger] piece[k],
                ) by {
                    lemma_run_has_no_separator(s, sep, i - 1, a + k);
                }
            }
        } else {
            lemma_closed_tokens_are_tokens(s, sep, i - 1, j);
        }
    }
}

/// Every token of a text is not empty and holds no separator.
pub proof fn lemma_tokens_are_tokens(s: Seq<char>, sep: Separator, j: int)
    requires
        0 <= j < tokens(s, sep).len(),
    ensures
        is_token(tokens(s, sep)[j], sep),
{
    let n = s.len() as int;
    let a = token_start(s, sep, n);
    if j < closed_tokens(s, sep, n).len() {
        lemma_closed_tokens_are_tokens(s, sep, n, j);
    } else {
        lemma_token_start_bounds(s, sep, n);
        let piece = s.subrange(a, n);
        assert forall|k: int| 0 <= k < piece.len() implies !sep.separates(#[trigger] piece[k]) by {
            lemma_run_has_no_separator(s, sep, n, a + k);
        }
    }
}

/// A copy of a text that may be absent.
pub(crate) fn clone_text(text: &Option<String>) -> (r: Option<String>)
    ensures
        r.deep_view() == text.deep_view(),
{
    match text {
        Some(t) => Some(t.clone()),
        None => None,
    }
}

/// Splits a text into its tokens.
pub fn split(text: &str, sep: Separator) -> (parts: Vec<String>)
    ensures
        parts.deep_view() == tokens(text@, sep),
{
    let n: usize = text.unicode_len();
    let mut parts: Vec<String> = Vec::new();
    assert(parts.deep_view() =~= closed_tokens(text@, sep, 0));
    let mut start: usize = 0;
    let mut i: usize = 0;
    while i < n
        invariant
            n == text@.len(),
            0 <= start <= i <= n,
            start == token_start(text@, sep, i as int),
            parts.deep_view() == closed_tokens(text@, sep, i as int),
        decreases n - i,
    {
        let c: char = text.get_char(i);
        let ghost before = parts.deep_view();
        if sep.is_separator(c) {
            if start < i {
                let piece: &str = text.substring_char(start, i);
                parts.push(piece.to_owned());
                assert(parts.deep_view() =~= before.push(text@.subrange(start as int, i as int)));
            }
            start = i + 1;
        }
        i = i + 1;
        assert(parts.deep_view() =~= closed_tokens(text@, sep, i as int));
    }
    let ghost before = parts.deep_view();
    if start < n {
        let piece: &str = text.substring_char(start, n);
        parts.push(piece.to_owned());
        assert(parts.deep_view() =~= before.push(text@.subrange(start as int, n as int)));
    }
    parts
}

} // verus!
