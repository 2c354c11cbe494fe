//! Parses the generator's arguments into its configuration.
//!
//! The arguments are: attributes for the enum (`#[...]`), a visibility, the
//! word `enum` (optional), and the enum's name; then clauses after commas:
//! `enum_attr[...]`, `returnval = Type`, `proxy(trait A; trait B)`,
//! `trait A`, and `context(name: Type)`. A trailing comma is allowed.
use vstd::prelude::*;

use crate::model::ContextParam;
use crate::model::Params;
use crate::model::ParamsView;
use crate::text::strs;
use crate::tokens::is_group;
use crate::tokens::is_ident;
use crate::tokens::is_punct;
use crate::tokens::render_tokens;
use crate::tokens::tok_is_group;
use crate::tokens::tok_is_ident;
use crate::tokens::tok_is_punct;
use crate::tokens::tok_text;
use crate::tokens::tokens_text;
use crate::tokens::Delim;
use crate::tokens::Tok;

verus! {

/// What is wrong with the arguments.
#[derive(Clone, Copy, Debug, PartialEq, Eq, Structural)]
pub enum ArgErrorKind {
    ExpectedEnumName,
    ExpectedComma,
    UnknownArgument,
    ExpectedGroup,
    ExpectedEquals,
    MissingType,
    DuplicateReturnval,
    DuplicateContext,
    MalformedProxy,
    MalformedContext,
}

/// An error in the arguments, at the index of the offending top-level token.
#[derive(Clone, Copy, Debug, PartialEq, Eq, Structural)]
pub struct ArgError {
    pub kind: ArgErrorKind,
    pub at: usize,
}

impl ArgErrorKind {
    /// A description of the error, for a diagnostic.
    pub fn message(&self) -> &'static str {
        match self {
            ArgErrorKind::ExpectedEnumName => "Expected the name of the enum",
            ArgErrorKind::ExpectedComma => "Expected `,`",
            ArgErrorKind::UnknownArgument => "Unknown argument to ctrlgen",
            ArgErrorKind::ExpectedGroup => "Expected a delimited group",
            ArgErrorKind::ExpectedEquals => "Expected `=`",
            ArgErrorKind::MissingType => "Expected a type",
            ArgErrorKind::DuplicateReturnval => "Argument `returnval` specified twice",
            ArgErrorKind::DuplicateContext => "Argument `context` specified twice",
            ArgErrorKind::MalformedProxy => "Expected `trait` and a name",
            ArgErrorKind::MalformedContext => "Expected `name: Type`",
        }
    }
}

pub open spec fn err(kind: ArgErrorKind, at: int) -> ArgError {
    ArgError { kind, at: at as usize }
}

/// The attribute that a bracket group stands for.
pub open spec fn attr_of_group(t: Tok) -> Seq<char> {
    seq!['#'] + tok_text(t)
}

pub open spec fn ident_of(t: Tok) -> Seq<char> {
    t->Ident_0@
}

pub open spec fn inner_of(t: Tok) -> Seq<Tok> {
    t->Group_inner@
}

/// The attributes that lead the arguments from `i` on, and where they end.
pub open spec fn lead_attrs(toks: Seq<Tok>, i: int) -> (Seq<Seq<char>>, int)
    decreases toks.len() - i,
{
    if 0 <= i && i + 1 < toks.len() && is_punct(toks[i], '#') && is_group(toks[i + 1], Delim::Bracket) {
        let r = lead_attrs(toks, i + 2);
        (seq![attr_of_group(toks[i + 1])] + r.0, r.1)
    } else {
        (Seq::empty(), i)
    }
}

/// The configuration that the head of the arguments gives, and where the
/// clauses start.
pub open spec fn parse_head(toks: Seq<Tok>) -> Result<(ParamsView, int), ArgError> {
    let (attrs, i) = lead_attrs(toks, 0);
    let (vis, j) = if i < toks.len() && is_ident(toks[i], "pub"@) {
        if i + 1 < toks.len() && is_group(toks[i + 1], Delim::Paren) {
            ("pub"@ + tok_text(toks[i + 1]), i + 2)
        } else {
            ("pub"@, i + 1)
        }
    } else {
        (Seq::empty(), i)
    };
    let k = if j < toks.len() && is_ident(toks[j], "enum"@) {
        j + 1
    } else {
        j
    };
    if k < toks.len() && toks[k] is Ident {
        Ok(
            (
                ParamsView {
                    enum_attrs: attrs,
                    visibility: vis,
                    enum_name: ident_of(toks[k]),
                    returnval: None,
                    proxies: Seq::empty(),
                    context: None,
                },
                k + 1,
            ),
        )
    } else {
        Err(err(ArgErrorKind::ExpectedEnumName, k))
    }
}

/// A `-` that is joined to the next character.
pub open spec fn ends_arrow(t: Tok) -> bool {
    t matches Tok::Punct { ch, joint } && ch == '-' && joint
}

/// How a token changes the nesting of angle brackets: `<` opens, `>` closes
/// unless it ends an arrow `->`.
pub open spec fn angle_delta(toks: Seq<Tok>, j: int) -> int {
    if is_punct(toks[j], '<') {
        1
    } else if is_punct(toks[j], '>') && !(j > 0 && ends_arrow(toks[j - 1])) {
        -1
    } else {
        0
    }
}

/// Where a type that starts before `j` at angle nesting `depth` ends: at the
/// first comma outside angle brackets, or at the end.
pub open spec fn type_end(toks: Seq<Tok>, j: int, depth: int) -> int
    decreases toks.len() - j,
{
    if j < 0 || j >= toks.len() {
        toks.len() as int
    } else if is_punct(toks[j], ',') && depth == 0 {
        j
    } else {
        type_end(toks, j + 1, depth + angle_delta(toks, j))
    }
}

/// The names of a list `trait A; trait B` from `i` on, with an optional
/// trailing `;`; none when it is malformed.
pub open spec fn proxy_list(s: Seq<Tok>, i: int) -> Option<Seq<Seq<char>>>
    decreases s.len() - i,
{
    if i < 0 || i >= s.len() {
        Some(Seq::empty())
    } else if i + 1 < s.len() && is_ident(s[i], "trait"@) && s[i + 1] is Ident {
        let n = ident_of(s[i + 1]);
        if i + 2 >= s.len() {
            Some(seq![n])
        } else if is_punct(s[i + 2], ';') {
            match proxy_list(s, i + 3) {
                Some(r) => Some(seq![n] + r),
                None => None,
            }
        } else {
            None
        }
    } else {
        None
    }
}

/// One clause, with the comma before it, at `i`: the configuration after it
/// and where the next one starts.
pub open spec fn parse_clause(toks: Seq<Tok>, i: int, acc: ParamsView) -> Result<(ParamsView, int), ArgError> {
    let c = i + 1;
    let n = toks.len();
    if !is_punct(toks[i], ',') {
        Err(err(ArgErrorKind::ExpectedComma, i))
    } else if c >= n {
        Ok((acc, n as int))
    } else if is_ident(toks[c], "trait"@) {
        if c + 1 < n && toks[c + 1] is Ident {
            Ok((ParamsView { proxies: acc.proxies.push(ident_of(toks[c + 1])), ..acc }, c + 2))
        } else {
            Err(err(ArgErrorKind::MalformedProxy, c))
        }
    } else if is_ident(toks[c], "enum_attr"@) {
        if c + 1 < n && is_group(toks[c + 1], Delim::Bracket) {
            Ok((ParamsView { enum_attrs: acc.enum_attrs.push(attr_of_group(toks[c + 1])), ..acc }, c + 2))
        } else {
            Err(err(ArgErrorKind::ExpectedGroup, c))
        }
    } else if is_ident(toks[c], "returnval"@) {
        if acc.returnval is Some {
            Err(err(ArgErrorKind::DuplicateReturnval, c))
        } else if !(c + 1 < n && is_punct(toks[c + 1], '=')) {
            Err(err(ArgErrorKind::ExpectedEquals, c))
        } else {
            let e = type_end(toks, c + 2, 0);
            if e <= c + 2 {
                Err(err(ArgErrorKind::MissingType, c))
            } else {
                Ok((ParamsView { returnval: Some(tokens_text(toks.subrange(c + 2, e))), ..acc }, e))
            }
        }
    } else if is_ident(toks[c], "proxy"@) {
        if c + 1 < n && (is_group(toks[c + 1], Delim::Paren) || is_group(toks[c + 1], Delim::Brace)) {
            match proxy_list(inner_of(toks[c + 1]), 0) {
                Some(names) => Ok((ParamsView { proxies: acc.proxies + names, ..acc }, c + 2)),
                None => Err(err(ArgErrorKind::MalformedProxy, c + 1)),
            }
        } else {
            Err(err(ArgErrorKind::ExpectedGroup, c))
        }
    } else if is_ident(toks[c], "context"@) {
        if acc.context is Some {
            Err(err(ArgErrorKind::DuplicateContext, c))
        } else if c + 1 < n && is_group(toks[c + 1], Delim::Paren) {
            let s = inner_of(toks[c + 1]);
            if s.len() >= 3 && s[0] is Ident && is_punct(s[1], ':') {
                Ok(
                    (
                        ParamsView {
                            context: Some((ident_of(s[0]), tokens_text(s.subrange(2, s.len() as int)))),
                            ..acc
                        },
                        c + 2,
                    ),
                )
            } else {
                Err(err(ArgErrorKind::MalformedContext, c + 1))
            }
        } else {
            Err(err(ArgErrorKind::ExpectedGroup, c))
        }
    } else {
        Err(err(ArgErrorKind::UnknownArgument, c))
    }
}

/// The clauses from `i` on, applied to `acc` in order.
pub open spec fn parse_clauses(toks: Seq<Tok>, i: int, acc: ParamsView) -> Result<ParamsView, ArgError>
    decreases toks.len() - i,
{
    if i < 0 || i >= toks.len() {
        Ok(acc)
    } else {
        match parse_clause(toks, i, acc) {
            Err(e) => Err(e),
            Ok((a, j)) => if j <= i || j > toks.len() {
                Ok(a)
            } else {
                parse_clauses(toks, j, a)
            },
        }
    }
}

/// The configuration that the arguments give.
pub open spec fn args_config(toks: Seq<Tok>) -> Result<ParamsView, ArgError> {
    match parse_head(toks) {
        Err(e) => Err(e),
        Ok((acc, i)) => parse_clauses(toks, i, acc),
    }
}

fn group_attr(t: &Tok) -> (r: String)
    requires
        t is Group,
    ensures
        r@ == attr_of_group(*t),
{
    let mut s = String::from_str("#");
    proof {
        reveal_strlit("#");
    }
    match t {
        Tok::Group { delim, inner, text } => s.append(text.as_str()),
        _ => {},
    }
    s
}

fn ident_string(t: &Tok) -> (r: String)
    requires
        t is Ident,
    ensures
        r@ == ident_of(*t),
{
    match t {
        Tok::Ident(s) => s.clone(),
        _ => String::new(),
    }
}

fn leading_attrs(toks: &Vec<Tok>) -> (r: (Vec<String>, usize))
    requires
        toks@.len() < usize::MAX,
    ensures
        (strs(r.0@), r.1 as int) == lead_attrs(toks@, 0),
{
    let mut attrs: Vec<String> = Vec::new();
    let mut i: usize = 0;
    while i + 1 < toks.len() && tok_is_punct(&toks[i], '#') && tok_is_group(&toks[i + 1], Delim::Bracket)
        invariant
            i <= toks@.len(),
            toks@.len() < usize::MAX,
            lead_attrs(toks@, 0) == (strs(attrs@) + lead_attrs(toks@, i as int).0, lead_attrs(
                toks@,
                i as int,
            ).1),
        decreases toks@.len() - i,
    {
        let ghost before = attrs@;
        attrs.push(group_attr(&toks[i + 1]));
        assert(strs(attrs@) =~= strs(before) + seq![attr_of_group(toks@[i + 1])]);
        assert(strs(before) + lead_attrs(toks@, i as int).0 =~= strs(attrs@) + lead_attrs(
            toks@,
            i + 2,
        ).0);
        i += 2;
    }
    assert(strs(attrs@) + Seq::<Seq<char>>::empty() =~= strs(attrs@));
    (attrs, i)
}

fn find_type_end(toks: &Vec<Tok>, start: usize) -> (r: usize)
    requires
        start <= toks@.len(),
        toks@.len() <= i64::MAX,
    ensures
        r as int == type_end(toks@, start as int, 0),
        start <= r <= toks@.len(),
{
    let mut j: usize = start;
    let mut depth: i64 = 0;
    while j < toks.len()
        invariant
            start <= j <= toks@.len(),
            toks@.len() <= i64::MAX,
            -(j as int) <= depth <= j as int,
            type_end(toks@, j as int, depth as int) == type_end(toks@, start as int, 0),
        decreases toks@.len() - j,
    {
        let t = &toks[j];
        if tok_is_punct(t, ',') && depth == 0 {
            return j;
        }
        if tok_is_punct(t, '<') {
            depth = depth + 1;
        } else if tok_is_punct(t, '>') {
            let arrow = j > 0 && match &toks[j - 1] {
                Tok::Punct { ch, joint } => *ch == '-' && *joint,
                _ => false,
            };
            if !arrow {
                depth = depth - 1;
            }
        }
        j += 1;
    }
    j
}

fn parse_proxy_list(s: &Vec<Tok>) -> (r: Option<Vec<String>>)
    ensures
        match proxy_list(s@, 0) {
            Some(names) => r matches Some(v) && strs(v@) == names,
            None => r is None,
        },
{
    let mut names: Vec<String> = Vec::new();
    let mut i: usize = 0;
    while i < s.len()
        invariant
            i <= s@.len() + 1,
            match proxy_list(s@, 0) {
                Some(all) => proxy_list(s@, i as int) matches Some(rest) && all == strs(names@) + rest,
                None => proxy_list(s@, i as int) is None,
            },
        decreases s@.len() + 1 - i,
    {
        if !(i + 1 < s.len() && tok_is_ident(&s[i], "trait")) {
            return None;
        }
        if !matches!(s[i + 1], Tok::Ident(_)) {
            return None;
        }
        let ghost before = names@;
        let ghost rest = proxy_list(s@, i as int);
        names.push(ident_string(&s[i + 1]));
        if i + 2 >= s.len() {
            assert(strs(names@) =~= strs(before) + seq![ident_of(s@[i + 1])]);
            assert(strs(names@) + Seq::<Seq<char>>::empty() =~= strs(names@));
            return Some(names);
        }
        if !tok_is_punct(&s[i + 2], ';') {
            return None;
        }
        assert(strs(names@) =~= strs(before) + seq![ident_of(s@[i + 1])]);
        proof {
            if proxy_list(s@, 0) is Some {
                let r2 = proxy_list(s@, i + 3)->Some_0;
                assert(strs(before) + (seq![ident_of(s@[i + 1])] + r2) =~= strs(names@) + r2);
            }
        }
        i += 3;
    }
    proof {
        if proxy_list(s@, 0) is Some {
            assert(strs(names@) + Seq::<Seq<char>>::empty() =~= strs(names@));
        }
    }
    Some(names)
}

/// Applies the clause at `i` to the configuration; the index of the next one.
fn parse_clause_at(toks: &Vec<Tok>, i: usize, acc: &mut Params) -> (r: Result<usize, ArgError>)
    requires
        i < toks@.len(),
        toks@.len() < usize::MAX,
        toks@.len() <= i64::MAX,
    ensures
        match parse_clause(toks@, i as int, old(acc)@) {
            Ok((a, j)) => r == Ok::<usize, ArgError>(j as usize) && final(acc)@ == a && i < j <= toks@.len(),
            Err(e) => r == Err::<usize, ArgError>(e),
        },
{
    let n = toks.len();
    let c = i + 1;
    if !tok_is_punct(&toks[i], ',') {
        return Err(ArgError { kind: ArgErrorKind::ExpectedComma, at: i });
    }
    if c >= n {
        return Ok(n);
    }
    let t = &toks[c];
    if tok_is_ident(t, "trait") {
        if c + 1 < n && matches!(toks[c + 1], Tok::Ident(_)) {
            let ghost p0 = acc.proxies@;
            acc.proxies.push(ident_string(&toks[c + 1]));
            assert(strs(acc.proxies@) =~= strs(p0).push(ident_of(toks@[c + 1])));
            Ok(c + 2)
        } else {
            Err(ArgError { kind: ArgErrorKind::MalformedProxy, at: c })
        }
    } else if tok_is_ident(t, "enum_attr") {
        if c + 1 < n && tok_is_group(&toks[c + 1], Delim::Bracket) {
            let ghost p0 = acc.enum_attrs@;
            acc.enum_attrs.push(group_attr(&toks[c + 1]));
            assert(strs(acc.enum_attrs@) =~= strs(p0).push(attr_of_group(toks@[c + 1])));
            Ok(c + 2)
        } else {
            Err(ArgError { kind: ArgErrorKind::ExpectedGroup, at: c })
        }
    } else if tok_is_ident(t, "returnval") {
        if acc.returnval.is_some() {
            Err(ArgError { kind: ArgErrorKind::DuplicateReturnval, at: c })
        } else if !(c + 1 < n && tok_is_punct(&toks[c + 1], '=')) {
            Err(ArgError { kind: ArgErrorKind::ExpectedEquals, at: c })
        } else {
            let e = find_type_end(toks, c + 2);
            if e <= c + 2 {
                Err(ArgError { kind: ArgErrorKind::MissingType, at: c })
            } else {
                acc.returnval = Some(render_tokens(toks, c + 2, e));
                Ok(e)
            }
        }
    } else if tok_is_ident(t, "proxy") {
        if c + 1 < n && (tok_is_group(&toks[c + 1], Delim::Paren) || tok_is_group(&toks[c + 1], Delim::Brace)) {
            match &toks[c + 1] {
                Tok::Group { delim, inner, text } => {
                    match parse_proxy_list(inner) {
                        Some(mut names) => {
                            let ghost p0 = acc.proxies@;
                            let ghost n0 = names@;
                            acc.proxies.append(&mut names);
                            assert(strs(acc.proxies@) =~= strs(p0) + strs(n0));
                            Ok(c + 2)
                        },
                        None => Err(ArgError { kind: ArgErrorKind::MalformedProxy, at: c + 1 }),
                    }
                },
                _ => Err(ArgError { kind: ArgErrorKind::ExpectedGroup, at: c }),
            }
        } else {
            Err(ArgError { kind: ArgErrorKind::ExpectedGroup, at: c })
        }
    } else if tok_is_ident(t, "context") {
        if acc.context.is_some() {
            Err(ArgError { kind: ArgErrorKind::DuplicateContext, at: c })
        } else if c + 1 < n && tok_is_group(&toks[c + 1], Delim::Paren) {
            match &toks[c + 1] {
                Tok::Group { delim, inner, text } => {
                    if inner.len() >= 3 && matches!(inner[0], Tok::Ident(_)) && tok_is_punct(&inner[1], ':') {
                        let name = ident_string(&inner[0]);
                        let ty = render_tokens(inner, 2, inner.len());
                        acc.context = Some(ContextParam { name, ty });
                        Ok(c + 2)
                    } else {
                        Err(ArgError { kind: ArgErrorKind::MalformedContext, at: c + 1 })
                    }
                },
                _ => Err(ArgError { kind: ArgErrorKind::ExpectedGroup, at: c }),
            }
        } else {
            Err(ArgError { kind: ArgErrorKind::ExpectedGroup, at: c })
        }
    } else {
        Err(ArgError { kind: ArgErrorKind::UnknownArgument, at: c })
    }
}

/// Parses the generator's arguments into its configuration.
pub fn parse_args(toks: &Vec<Tok>) -> (r: Result<Params, ArgError>)
    requires
        toks@.len() < usize::MAX,
        toks@.len() <= i64::MAX,
    ensures
        match args_config(toks@) {
            Ok(p) => r matches Ok(x) && x@ == p,
            Err(e) => r == Err::<Params, ArgError>(e),
        },
{
    let n = toks.len();
    let (enum_attrs, i) = leading_attrs(toks);
    let (visibility, j) = if i < n && tok_is_ident(&toks[i], "pub") {
        if i + 1 < n && tok_is_group(&toks[i + 1], Delim::Paren) {
            let mut v = String::from_str("pub");
            match &toks[i + 1] {
                Tok::Group { delim, inner, text } => v.append(text.as_str()),
                _ => {},
            }
            (v, i + 2)
        } else {
            (String::from_str("pub"), i + 1)
        }
    } else {
        (String::new(), i)
    };
    let k = if j < n && tok_is_ident(&toks[j], "enum") {
        j + 1
    } else {
        j
    };
    if !(k < n && matches!(toks[k], Tok::Ident(_))) {
        return Err(ArgError { kind: ArgErrorKind::ExpectedEnumName, at: k });
    }
    let mut acc = Params {
        enum_attrs,
        visibility,
        enum_name: ident_string(&toks[k]),
        returnval: None,
        proxies: Vec::new(),
        context: None,
    };
    assert(strs(acc.proxies@) =~= Seq::<Seq<char>>::empty());
    let mut pos: usize = k + 1;
    while pos < n
        invariant
            n == toks@.len(),
            n < usize::MAX,
            n <= i64::MAX,
            k < pos <= n,
            args_config(toks@) == parse_clauses(toks@, pos as int, acc@),
        decreases n - pos,
    {
        match parse_clause_at(toks, pos, &mut acc) {
            Ok(next) => {
                pos = next;
            },
            Err(e) => return Err(e),
        }
    }
    Ok(acc)
}

} // verus!
