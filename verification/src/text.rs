//! Whitespace tokenization of chat text.
//!
//! Commands arrive as free text and are classified by their first few
//! whitespace-separated tokens.  The spec functions here define what those
//! tokens are; the exec functions locate and compare tokens and are proved
//! against the spec functions.

use vstd::prelude::*;

verus! {

/// A whitespace character for tokenization purposes: the characters with the
/// Unicode White_Space property.
pub open spec fn is_ws_char(c: char) -> bool {
    ||| c == '\t'
    ||| c == '\n'
    ||| c == '\u{b}'
    ||| c == '\u{c}'
    ||| c == '\r'
    ||| c == ' '
    ||| c == '\u{85}'
    ||| c == '\u{a0}'
    ||| c == '\u{1680}'
    ||| c == '\u{2000}'
    ||| c == '\u{2001}'
    ||| c == '\u{2002}'
    ||| c == '\u{2003}'
    ||| c == '\u{2004}'
    ||| c == '\u{2005}'
    ||| c == '\u{2006}'
    ||| c == '\u{2007}'
    ||| c == '\u{2008}'
    ||| c == '\u{2009}'
    ||| c == '\u{200a}'
    ||| c == '\u{2028}'
    ||| c == '\u{2029}'
    ||| c == '\u{202f}'
    ||| c == '\u{205f}'
    ||| c == '\u{3000}'
}

/// Exec counterpart of `is_ws_char`.
pub fn is_ws(c: char) -> (b: bool)
    ensures
        b == is_ws_char(c),
{
    c == '\t' || c == '\n' || c == '\u{b}' || c == '\u{c}' || c == '\r' || c == ' '
        || c == '\u{85}' || c == '\u{a0}' || c == '\u{1680}'
        || (c >= '\u{2000}' && c <= '\u{200a}') || c == '\u{2028}' || c == '\u{2029}'
        || c == '\u{202f}' || c == '\u{205f}' || c == '\u{3000}'
}

/// `s` with its leading whitespace removed.
pub open spec fn skip_ws(s: Seq<char>) -> Seq<char>
    decreases s.len(),
{
    if s.len() > 0 && is_ws_char(s[0]) {
        skip_ws(s.drop_first())
    } else {
        s
    }
}

/// The longest whitespace-free prefix of `s`.
pub open spec fn head_token(s: Seq<char>) -> Seq<char>
    decreases s.len(),
{
    if s.len() > 0 && !is_ws_char(s[0]) {
        seq![s[0]] + head_token(s.drop_first())
    } else {
        Seq::empty()
    }
}

/// What remains of `s` after its longest whitespace-free prefix.
pub open spec fn after_token(s: Seq<char>) -> Seq<char>
    decreases s.len(),
{
    if s.len() > 0 && !is_ws_char(s[0]) {
        after_token(s.drop_first())
    } else {
        s
    }
}

/// The first whitespace-separated token of `s`; empty iff `s` holds no token.
pub open spec fn first_token(s: Seq<char>) -> Seq<char> {
    head_token(skip_ws(s))
}

/// What remains of `s` after its first token.
pub open spec fn rest_after_token(s: Seq<char>) -> Seq<char> {
    after_token(skip_ws(s))
}

/// The second whitespace-separated token of `s`.
pub open spec fn second_token(s: Seq<char>) -> Seq<char> {
    first_token(rest_after_token(s))
}

/// The third whitespace-separated token of `s`.
pub open spec fn third_token(s: Seq<char>) -> Seq<char> {
    first_token(rest_after_token(rest_after_token(s)))
}

/// The fourth whitespace-separated token of `s`.
pub open spec fn fourth_token(s: Seq<char>) -> Seq<char> {
    first_token(rest_after_token(rest_after_token(rest_after_token(s))))
}

/// If the first `i` characters of `s` are whitespace and character `i` (when
/// present) is not, then skipping the leading whitespace is skipping `i`
/// characters.
proof fn lemma_skip_ws_at(s: Seq<char>, i: int)
    requires
        0 <= i <= s.len(),
        forall|m: int| 0 <= m < i ==> is_ws_char(s[m]),
        i < s.len() ==> !is_ws_char(s[i]),
    ensures
        skip_ws(s) =~= s.skip(i),
    decreases i,
{
    if i == 0 {
        assert(s.skip(0) =~= s);
    } else {
        assert(is_ws_char(s[0]));
        assert(s.drop_first() =~= s.skip(1));
        lemma_skip_ws_at(s.skip(1), i - 1);
        assert(s.skip(1).skip(i - 1) =~= s.skip(i));
    }
}

/// If the first `j` characters of `s` are not whitespace and character `j`
/// (when present) is, then the head token is exactly those `j` characters.
proof fn lemma_head_token_at(s: Seq<char>, j: int)
    requires
        0 <= j <= s.len(),
        forall|m: int| 0 <= m < j ==> !is_ws_char(s[m]),
        j < s.len() ==> is_ws_char(s[j]),
    ensures
        head_token(s) =~= s.subrange(0, j),
        after_token(s) =~= s.skip(j),
    decreases j,
{
    if j == 0 {
        assert(s.subrange(0, 0) =~= Seq::<char>::empty());
        assert(s.skip(0) =~= s);
    } else {
        assert(!is_ws_char(s[0]));
        assert(s.drop_first() =~= s.skip(1));
        lemma_head_token_at(s.skip(1), j - 1);
        assert(seq![s[0]] + s.skip(1).subrange(0, j - 1) =~= s.subrange(0, j));
        assert(s.skip(1).skip(j - 1) =~= s.skip(j));
    }
}

/// Locates the first token of `s` at or after character position `from`:
/// returns `(a, b)` such that the token occupies character positions
/// `[a, b)`.  `a == b` iff no token remains.
pub fn next_token_bounds(s: &str, from: usize) -> (r: (usize, usize))
    requires
        from <= s@.len(),
    ensures
        ({
            let (a, b) = r;
            &&& from <= a
            &&& a <= b
            &&& b <= s@.len()
            &&& s@.subrange(a as int, b as int) == first_token(s@.skip(from as int))
            &&& s@.skip(b as int) == rest_after_token(s@.skip(from as int))
        }),
{
    let n = s.unicode_len();
    let mut a = from;
    while a < n && is_ws(s.get_char(a))
        invariant
            from <= a <= n,
            n == s@.len(),
            forall|m: int| from <= m < a ==> is_ws_char(s@[m]),
        decreases n - a,
    {
        a += 1;
    }
    proof {
        let t = s@.skip(from as int);
        lemma_skip_ws_at(t, a - from);
        assert(t.skip(a - from) =~= s@.skip(a as int));
        assert(skip_ws(t) == s@.skip(a as int));
    }
    let mut b = a;
    while b < n && !is_ws(s.get_char(b))
        invariant
            a <= b <= n,
            n == s@.len(),
            forall|m: int| a <= m < b ==> !is_ws_char(s@[m]),
        decreases n - b,
    {
        b += 1;
    }
    proof {
        let u = s@.skip(a as int);
        lemma_head_token_at(u, b - a);
        assert(u.subrange(0, b - a) =~= s@.subrange(a as int, b as int));
        assert(u.skip(b - a) =~= s@.skip(b as int));
        assert(first_token(s@.skip(from as int)) == head_token(u));
        assert(rest_after_token(s@.skip(from as int)) == after_token(u));
    }
    (a, b)
}

/// Compares the characters of `s` in `[a, b)` with the literal `lit`.
pub fn span_eq(s: &str, a: usize, b: usize, lit: &str) -> (r: bool)
    requires
        a <= b,
        b <= s@.len(),
    ensures
        r == (s@.subrange(a as int, b as int) == lit@),
{
    let m = lit.unicode_len();
    if b - a != m {
        proof {
            assert(s@.subrange(a as int, b as int).len() != lit@.len());
        }
        return false;
    }
    let mut i: usize = 0;
    while i < m
        invariant
            i <= m,
            a <= b <= s@.len(),
            m == lit@.len(),
            b - a == m,
            forall|k: int| 0 <= k < i ==> s@[a + k] == lit@[k],
        decreases m - i,
    {
        if s.get_char(a + i) != lit.get_char(i) {
            proof {
                assert(s@.subrange(a as int, b as int)[i as int] == s@[a + i]);
            }
            return false;
        }
        i += 1;
    }
    proof {
        assert(s@.subrange(a as int, b as int) =~= lit@);
    }
    true
}

} // verus!
