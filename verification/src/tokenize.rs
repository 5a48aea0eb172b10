//! Whitespace tokenization of a command line.
//!
//! A command string is split on runs of white space into tokens; the first
//! token names the program and the remaining tokens are its arguments. There
//! is no quoting or escaping: a token can never contain white space.

use vstd::prelude::*;

verus! {

/// Whether `c` separates tokens: the Unicode white-space characters,
/// the same set that a whitespace split of a string divides on.
pub open spec fn is_command_space(c: char) -> bool {
    c == '\u{0009}' || c == '\u{000a}' || c == '\u{000b}' || c == '\u{000c}'
        || c == '\u{000d}' || c == '\u{0020}' || c == '\u{0085}' || c == '\u{00a0}'
        || c == '\u{1680}' || c == '\u{2000}' || c == '\u{2001}' || c == '\u{2002}'
        || c == '\u{2003}' || c == '\u{2004}' || c == '\u{2005}' || c == '\u{2006}'
        || c == '\u{2007}' || c == '\u{2008}' || c == '\u{2009}' || c == '\u{200a}'
        || c == '\u{2028}' || c == '\u{2029}' || c == '\u{202f}' || c == '\u{205f}'
        || c == '\u{3000}'
}

/// Executable check for [`is_command_space`].
pub fn is_space(c: char) -> (r: bool)
    ensures
        r == is_command_space(c),
{
    c == '\u{0009}' || c == '\u{000a}' || c == '\u{000b}' || c == '\u{000c}'
        || c == '\u{000d}' || c == '\u{0020}' || c == '\u{0085}' || c == '\u{00a0}'
        || c == '\u{1680}' || c == '\u{2000}' || c == '\u{2001}' || c == '\u{2002}'
        || c == '\u{2003}' || c == '\u{2004}' || c == '\u{2005}' || c == '\u{2006}'
        || c == '\u{2007}' || c == '\u{2008}' || c == '\u{2009}' || c == '\u{200a}'
        || c == '\u{2028}' || c == '\u{2029}' || c == '\u{202f}' || c == '\u{205f}'
        || c == '\u{3000}'
}

/// The whitespace tokens of `s`, in order: the maximal runs of characters
/// that are not white space. Defined by how one more character extends the
/// token list of a prefix: white space closes the current token, while any
/// other character either extends the still-open last token or opens a new
/// one.
pub open spec fn tokens_of(s: Seq<char>) -> Seq<Seq<char>>
    decreases s.len(),
{
    if s.len() == 0 {
        Seq::empty()
    } else {
        let prefix = s.drop_last();
        let c = s.last();
        let rest = tokens_of(prefix);
        if is_command_space(c) {
            rest
        } else if prefix.len() > 0 && !is_command_space(prefix.last()) {
            rest.update(rest.len() - 1, rest.last().push(c))
        } else {
            rest.push(seq![c])
        }
    }
}

/// A string that ends in a character that is not white space has an open
/// token, so its token list is not empty.
pub proof fn lemma_tokens_nonempty(s: Seq<char>)
    requires
        s.len() > 0,
        !is_command_space(s.last()),
    ensures
        tokens_of(s).len() > 0,
    decreases s.len(),
{
    let prefix = s.drop_last();
    if prefix.len() > 0 && !is_command_space(prefix.last()) {
        lemma_tokens_nonempty(prefix);
    }
}

/// Appending a white-space character leaves the token list unchanged.
pub proof fn lemma_tokens_push_space(s: Seq<char>, c: char)
    requires
        is_command_space(c),
    ensures
        tokens_of(s.push(c)) == tokens_of(s),
{
    assert(s.push(c).drop_last() =~= s);
}

/// Appending a character that is not white space to a string that is empty
/// or ends in white space opens a new token holding that character alone.
pub proof fn lemma_tokens_push_new(s: Seq<char>, c: char)
    requires
        !is_command_space(c),
        s.len() == 0 || is_command_space(s.last()),
    ensures
        tokens_of(s.push(c)) == tokens_of(s).push(seq![c]),
{
    assert(s.push(c).drop_last() =~= s);
}

/// Appending a character that is not white space to a string that ends in a
/// character that is not white space extends the last token by it.
pub proof fn lemma_tokens_push_extend(s: Seq<char>, c: char)
    requires
        !is_command_space(c),
        s.len() > 0,
        !is_command_space(s.last()),
    ensures
        tokens_of(s).len() > 0,
        tokens_of(s.push(c)) == tokens_of(s).update(
            tokens_of(s).len() - 1,
            tokens_of(s).last().push(c),
        ),
{
    lemma_tokens_nonempty(s);
    assert(s.push(c).drop_last() =~= s);
}

/// The token list really is a whitespace split: every token is non-empty,
/// and no token contains a white-space character.
pub proof fn lemma_tokens_have_no_space(s: Seq<char>)
    ensures
        forall|k: int| 0 <= k < tokens_of(s).len() ==> tokens_of(s)[k].len() > 0,
        forall|k: int, j: int|
            0 <= k < tokens_of(s).len() && 0 <= j < tokens_of(s)[k].len()
                ==> !is_command_space(tokens_of(s)[k][j]),
    decreases s.len(),
{
    if s.len() > 0 {
        let prefix = s.drop_last();
        let c = s.last();
        lemma_tokens_have_no_space(prefix);
        if !is_command_space(c) && prefix.len() > 0 && !is_command_space(prefix.last()) {
            lemma_tokens_nonempty(prefix);
            let rest = tokens_of(prefix);
            let extended = rest.last().push(c);
            assert(forall|j: int| 0 <= j < extended.len() ==> !is_command_space(extended[j]));
        }
    }
}

/// Splits `s` into its whitespace tokens, each as an owned string, in the
/// order they stand in `s`.
pub fn split_tokens(s: &str) -> (tokens: Vec<String>)
    ensures
        tokens.deep_view() == tokens_of(s@),
{
    let n: usize = s.unicode_len();
    let mut tokens: Vec<String> = Vec::new();
    proof {
        assert(s@.subrange(0, 0) =~= Seq::<char>::empty());
        assert(tokens.deep_view() =~= tokens_of(s@.subrange(0, 0)));
    }
    let mut i: usize = 0;
    while i < n
        invariant
            n == s@.len(),
            i <= n,
            tokens.deep_view() == tokens_of(s@.subrange(0, i as int)),
            (i < n && !is_command_space(s@[i as int])) ==> (i == 0 || is_command_space(
                s@[i as int - 1],
            )),
        decreases n - i,
    {
        let c = s.get_char(i);
        if is_space(c) {
            proof {
                lemma_tokens_push_space(s@.subrange(0, i as int), c);
                assert(s@.subrange(0, i as int).push(c) =~= s@.subrange(0, i as int + 1));
            }
            i = i + 1;
        } else {
            let start: usize = i;
            proof {
                let prefix = s@.subrange(0, start as int);
                if start > 0 {
                    assert(prefix.last() == s@[start as int - 1]);
                }
                lemma_tokens_push_new(prefix, c);
                assert(prefix.push(c) =~= s@.subrange(0, start as int + 1));
                assert(seq![c] =~= s@.subrange(start as int, start as int + 1));
            }
            i = i + 1;
            while i < n && !is_space(s.get_char(i))
                invariant
                    n == s@.len(),
                    start < i <= n,
                    forall|j: int| start <= j < i ==> !is_command_space(s@[j]),
                    tokens_of(s@.subrange(0, i as int)) == tokens.deep_view().push(
                        s@.subrange(start as int, i as int),
                    ),
                decreases n - i,
            {
                proof {
                    let prefix = s@.subrange(0, i as int);
                    let cur = s@.subrange(start as int, i as int);
                    let ch = s@[i as int];
                    assert(prefix.last() == s@[i as int - 1]);
                    lemma_tokens_push_extend(prefix, ch);
                    assert(prefix.push(ch) =~= s@.subrange(0, i as int + 1));
                    let d = tokens.deep_view();
                    assert(tokens_of(prefix).last() == cur);
                    assert(tokens_of(prefix).update(
                        tokens_of(prefix).len() - 1,
                        tokens_of(prefix).last().push(ch),
                    ) =~= d.push(cur.push(ch)));
                    assert(cur.push(ch) =~= s@.subrange(start as int, i as int + 1));
                }
                i = i + 1;
            }
            let tok = String::from_str(s.substring_char(start, i));
            proof {
                let d = tokens.deep_view();
                assert(tok.deep_view() == s@.subrange(start as int, i as int));
                let pushed = tokens@.push(tok);
                assert(Seq::new(pushed.len(), |k: int| pushed[k].deep_view()) =~= d.push(
                    tok.deep_view(),
                ));
            }
            tokens.push(tok);
        }
    }
    proof {
        assert(s@.subrange(0, n as int) =~= s@);
    }
    tokens
}

} // verus!
