//! Token trees, as plain values: the input that the code generator reads.
use vstd::prelude::*;

use crate::text::char_str;
use crate::text::str_eq;

verus! {

/// The delimiter of a group of tokens.
#[derive(Clone, Copy, Debug, PartialEq, Eq, Structural)]
pub enum Delim {
    Paren,
    Bracket,
    Brace,
    Invisible,
}

/// One token tree.
#[derive(Debug)]
pub enum Tok {
    Ident(String),
    /// A punctuation character; `joint` when the next character belongs to
    /// the same operator (the first `:` of `::`).
    Punct { ch: char, joint: bool },
    Literal(String),
    /// A delimited group: its delimiter, the tokens inside, and its source
    /// text, delimiters included.
    Group { delim: Delim, inner: Vec<Tok>, text: String },
}

/// The source text of one token.
pub open spec fn tok_text(t: Tok) -> Seq<char> {
    match t {
        Tok::Ident(s) => s@,
        Tok::Punct { ch, joint } => seq![ch],
        Tok::Literal(s) => s@,
        Tok::Group { delim, inner, text } => text@,
    }
}

/// What follows a token in rendered text: nothing after a joint punctuation
/// character, a space otherwise.
pub open spec fn tok_sep(t: Tok) -> Seq<char> {
    match t {
        Tok::Punct { ch, joint } => if joint { Seq::empty() } else { seq![' '] },
        _ => seq![' '],
    }
}

/// The source text of a run of tokens, each but the last followed by its
/// separator.
pub open spec fn tokens_text(s: Seq<Tok>) -> Seq<char>
    decreases s.len(),
{
    if s.len() == 0 {
        Seq::empty()
    } else if s.len() == 1 {
        tok_text(s[0])
    } else {
        tokens_text(s.drop_last()) + tok_sep(s[s.len() - 2]) + tok_text(s.last())
    }
}

/// Whether a token is the identifier `name`.
pub open spec fn is_ident(t: Tok, name: Seq<char>) -> bool {
    t matches Tok::Ident(s) && s@ == name
}

/// Whether a token is the punctuation character `c`.
pub open spec fn is_punct(t: Tok, c: char) -> bool {
    t matches Tok::Punct { ch, joint } && ch == c
}

/// Whether a token is a group with delimiter `d`.
pub open spec fn is_group(t: Tok, d: Delim) -> bool {
    t matches Tok::Group { delim, inner, text } && delim == d
}

/// Whether `t` is the identifier `name`.
pub fn tok_is_ident(t: &Tok, name: &str) -> (r: bool)
    ensures
        r == is_ident(*t, name@),
{
    match t {
        Tok::Ident(s) => str_eq(s.as_str(), name),
        _ => false,
    }
}

/// The text of `toks[start..end]`.
pub fn render_tokens(toks: &Vec<Tok>, start: usize, end: usize) -> (r: String)
    requires
        start <= end <= toks@.len(),
    ensures
        r@ == tokens_text(toks@.subrange(start as int, end as int)),
{
    let mut out = String::new();
    let mut i: usize = start;
    while i < end
        invariant
            start <= i <= end <= toks@.len(),
            out@ == tokens_text(toks@.subrange(start as int, i as int)),
        decreases end - i,
    {
        let t = &toks[i];
        let ghost before = out@;
        if i > start {
            let sep_needed = match &toks[i - 1] {
                Tok::Punct { ch, joint } => !*joint,
                _ => true,
            };
            proof {
                reveal_strlit(" ");
            }
            if sep_needed {
                out.append(" ");
            }
            assert(out@ == before + tok_sep(toks@[i - 1]));
        }
        let ghost mid = out@;
        match t {
            Tok::Ident(s) => out.append(s.as_str()),
            Tok::Punct { ch, joint } => out.append(char_str(*ch).as_str()),
            Tok::Literal(s) => out.append(s.as_str()),
            Tok::Group { delim, inner, text } => out.append(text.as_str()),
        }
        assert(out@ == mid + tok_text(*t));
        let ghost sub = toks@.subrange(start as int, i + 1);
        assert(sub.drop_last() == toks@.subrange(start as int, i as int));
        assert(sub.last() == toks@[i as int]);
        if i > start {
            assert(sub[sub.len() - 2] == toks@[i - 1]);
        } else {
            assert(sub.len() == 1);
            assert(toks@.subrange(start as int, i as int).len() == 0);
        }
        i += 1;
    }
    out
}

/// Whether `t` is the punctuation character `c`.
pub fn tok_is_punct(t: &Tok, c: char) -> (r: bool)
    ensures
        r == is_punct(*t, c),
{
    match t {
        Tok::Punct { ch, joint } => *ch == c,
        _ => false,
    }
}

/// Whether `t` is a group with delimiter `d`.
pub fn tok_is_group(t: &Tok, d: Delim) -> (r: bool)
    ensures
        r == is_group(*t, d),
{
    match t {
        Tok::Group { delim, inner, text } => *delim == d,
        _ => false,
    }
}

} // verus!
