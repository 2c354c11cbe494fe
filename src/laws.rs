//! Properties that hold of every expansion.
use vstd::prelude::*;

use crate::analyze::impl_accepted;
use crate::analyze::input_error;
use crate::analyze::inputs_error;
use crate::analyze::method_error;
use crate::analyze::owned_marker;
use crate::analyze::attr_is;
use crate::config::args_config;
use crate::config::err;
use crate::config::parse_head;
use crate::config::parse_clause;
use crate::config::parse_clauses;
use crate::config::ArgErrorKind;
use crate::generate::arg_names;
use crate::generate::channel_path;
use crate::generate::dispatch_of;
use crate::generate::enum_of;
use crate::generate::proxy_of;
use crate::generate::replies;
use crate::generate::upper_camel_of;
use crate::model::InputDataView;
use crate::model::ParamsView;
use crate::source::ArgPattern;
use crate::source::SourceImpl;
use crate::source::SourceInput;
use crate::source::SourceMethod;
use crate::tokens::is_ident;
use crate::tokens::is_punct;
use crate::tokens::Tok;

verus! {

/// The field holds the argument: same name, and the declared type or, for an
/// argument stored owned, the owned counterpart of the type it refers to.
pub open spec fn field_matches(f: crate::generate::FieldView, a: crate::model::ArgumentView) -> bool {
    &&& f.name == a.name
    &&& f.ty == if a.to_owned {
        "<"@ + a.referent.unwrap() + " as ::std::borrow::ToOwned>::Owned"@
    } else {
        a.ty
    }
}

/// The message enum has exactly one variant per method, named after it in
/// upper camel case. Its fields are the method's arguments in order (an
/// argument stored owned holds the owned counterpart of the type it refers
/// to), followed by the sender of the return channel exactly when the method
/// returns a value and a return channel is configured.
pub proof fn lemma_one_variant_per_method(d: InputDataView, i: int)
    requires
        0 <= i < d.methods.len(),
    ensures
        enum_of(d).variants.len() == d.methods.len(),
        enum_of(d).variants[i].name == upper_camel_of(d.methods[i].name),
        enum_of(d).variants[i].fields.len() == d.methods[i].args.len() + if replies(d.methods[i], d.params) {
            1int
        } else {
            0int
        },
        forall|j: int| 0 <= j < d.methods[i].args.len() ==> field_matches(
            #[trigger] enum_of(d).variants[i].fields[j],
            d.methods[i].args[j],
        ),
        replies(d.methods[i], d.params) ==> {
            let f = enum_of(d).variants[i].fields.last();
            &&& f.name == "ret"@
            &&& f.ty == channel_path(d.params.returnval.unwrap(), d.methods[i].ret.unwrap()) + "::SendHalf"@
        },
{
}

/// Dispatching a variant calls the method it stands for, with the values the
/// variant carries: the arm binds exactly the variant's fields, and calls the
/// method with the context first, when there is one, then each argument in
/// declaration order.
pub proof fn lemma_dispatch_calls_method(d: InputDataView, i: int)
    requires
        0 <= i < d.methods.len(),
    ensures
        dispatch_of(d).cases.len() == enum_of(d).variants.len(),
        dispatch_of(d).cases[i].variant == enum_of(d).variants[i].name,
        dispatch_of(d).cases[i].method == d.methods[i].name,
        dispatch_of(d).cases[i].bindings == enum_of(d).variants[i].fields.map_values(
            |f: crate::generate::FieldView| f.name,
        ),
        dispatch_of(d).cases[i].call_args == match d.params.context {
            Some(c) => seq![c.0] + arg_names(d.methods[i]),
            None => arg_names(d.methods[i]),
        },
{
    let v = enum_of(d).variants[i];
    let c = dispatch_of(d).cases[i];
    assert(c.bindings =~= v.fields.map_values(|f: crate::generate::FieldView| f.name));
}

/// When a method returns a value and a return channel is configured, the
/// result travels through one channel: the proxy creates it, puts the sender
/// into the variant's `ret` field and receives from the other end, and the
/// dispatcher sends the method's result through that same field.
pub proof fn lemma_result_goes_back(d: InputDataView, name: Seq<char>, i: int)
    requires
        0 <= i < d.methods.len(),
        replies(d.methods[i], d.params),
    ensures
        dispatch_of(d).cases[i].reply == Some(
            channel_path(d.params.returnval.unwrap(), d.methods[i].ret.unwrap()),
        ),
        proxy_of(d, name).methods[i].reply == dispatch_of(d).cases[i].reply,
        dispatch_of(d).cases[i].bindings.last() == "ret"@,
        enum_of(d).variants[i].fields.last().name == "ret"@,
{
}

/// A method that does not return a value, or any method when no return
/// channel is configured, has neither a sender field nor a reply.
pub proof fn lemma_no_reply_without_channel(d: InputDataView, name: Seq<char>, i: int)
    requires
        0 <= i < d.methods.len(),
        !replies(d.methods[i], d.params),
    ensures
        enum_of(d).variants[i].fields.len() == d.methods[i].args.len(),
        dispatch_of(d).cases[i].reply is None,
        proxy_of(d, name).methods[i].reply is None,
{
}

/// The dispatcher is asynchronous exactly when some method is, and then
/// awaits exactly the calls of the asynchronous methods.
pub proof fn lemma_async_dispatch(d: InputDataView)
    ensures
        dispatch_of(d).is_async <==> exists|i: int| 0 <= i < d.methods.len() && (#[trigger] d.methods[i]).is_async,
        forall|i: int| 0 <= i < d.methods.len() ==> (#[trigger] dispatch_of(d).cases[i]).awaited == d.methods[i].is_async,
{
}

/// Documentation of a method stands, verbatim and in order, on its variant
/// and on the method of every proxy trait.
pub proof fn lemma_docs_preserved(d: InputDataView, name: Seq<char>, i: int)
    requires
        0 <= i < d.methods.len(),
    ensures
        enum_of(d).variants[i].docs == d.methods[i].docs,
        proxy_of(d, name).methods[i].docs == d.methods[i].docs,
{
}

/// The first input at which `s` has a fault.
proof fn lemma_input_fault(s: Seq<SourceInput>, rv: bool, k: int)
    requires
        0 <= k < s.len(),
        input_error(s[k], rv) is Some,
    ensures
        inputs_error(s, rv) is Some,
    decreases s.len(),
{
    if k < s.len() - 1 {
        lemma_input_fault(s.drop_last(), rv, k);
        assert(s.drop_last()[k] == s[k]);
    }
}

/// An argument marked to be stored owned whose type is no reference.
pub open spec fn owned_non_reference(inp: SourceInput) -> bool {
    inp matches SourceInput::Typed { attrs, pattern, ty } && (exists|q: int|
        0 <= q < attrs@.len() && attr_is(#[trigger] attrs@[q], owned_marker())) && ty.referent is None
}

/// An argument named `ret`.
pub open spec fn named_ret(inp: SourceInput) -> bool {
    inp matches SourceInput::Typed { attrs, pattern, ty } && pattern matches ArgPattern::Ident {
        name,
        by_ref,
    } && name@ == "ret"@
}

/// A method is rejected when it returns a value without a return channel,
/// when it stores owned an argument whose type is no reference, and when it
/// names an argument `ret` while a return channel is configured.
pub proof fn lemma_misuse_rejected(m: SourceMethod, rv: bool, ctx: bool)
    ensures
        !rv && m.sig.output is Some ==> method_error(m, rv, ctx) is Some,
        (exists|k: int| 0 <= k < m.sig.inputs@.len() && owned_non_reference(#[trigger] m.sig.inputs@[k]))
            ==> method_error(m, rv, ctx) is Some,
        (rv && exists|k: int| 0 <= k < m.sig.inputs@.len() && named_ret(#[trigger] m.sig.inputs@[k]))
            ==> method_error(m, rv, ctx) is Some,
{
    let s = m.sig.inputs@;
    if exists|k: int| 0 <= k < s.len() && owned_non_reference(#[trigger] s[k]) {
        let k = choose|k: int| 0 <= k < s.len() && owned_non_reference(#[trigger] s[k]);
        lemma_input_fault(s, rv, k);
    }
    if rv && exists|k: int| 0 <= k < s.len() && named_ret(#[trigger] s[k]) {
        let k = choose|k: int| 0 <= k < s.len() && named_ret(#[trigger] s[k]);
        lemma_input_fault(s, rv, k);
    }
}

/// A block with a rejected method is rejected.
pub proof fn lemma_rejected_method_rejects_block(item: SourceImpl, p: ParamsView, i: int)
    requires
        0 <= i < item.methods@.len(),
        method_error(item.methods@[i], p.returnval is Some, p.context is Some) is Some,
    ensures
        !impl_accepted(item, p),
{
}

/// Once a return channel is configured, a second `returnval` clause is
/// rejected where it stands.
pub proof fn lemma_second_returnval_rejected(toks: Seq<Tok>, i: int, acc: ParamsView)
    requires
        0 <= i,
        i + 1 < toks.len(),
        is_punct(toks[i], ','),
        is_ident(toks[i + 1], "returnval"@),
        acc.returnval is Some,
    ensures
        parse_clauses(toks, i, acc) == Err::<ParamsView, crate::config::ArgError>(
            err(ArgErrorKind::DuplicateReturnval, i + 1),
        ),
{
    reveal_strlit("returnval");
    reveal_strlit("trait");
    reveal_strlit("enum_attr");
    assert("returnval"@.len() != "trait"@.len());
    assert("returnval"@[0] != "enum_attr"@[0]);
    assert(!is_ident(toks[i + 1], "trait"@));
    assert(!is_ident(toks[i + 1], "enum_attr"@));
}

/// A clause other than `returnval` keeps the configured return channel.
pub proof fn lemma_returnval_kept(toks: Seq<Tok>, i: int, acc: ParamsView)
    requires
        0 <= i < toks.len(),
        parse_clause(toks, i, acc) is Ok,
        acc.returnval is Some,
    ensures
        parse_clause(toks, i, acc)->Ok_0.0.returnval == acc.returnval,
{
}

/// Parsing the clauses from `i` with configuration `acc` reaches the clause
/// at `j` with configuration `a`.
pub open spec fn reaches(toks: Seq<Tok>, i: int, acc: ParamsView, j: int, a: ParamsView) -> bool
    decreases toks.len() - i,
{
    if i == j && acc == a {
        true
    } else if i < 0 || i >= toks.len() {
        false
    } else {
        match parse_clause(toks, i, acc) {
            Ok((b, k)) => if k <= i || k > toks.len() {
                false
            } else {
                reaches(toks, k, b, j, a)
            },
            Err(_) => false,
        }
    }
}

/// A `returnval` clause stands at `j`.
pub open spec fn returnval_clause_at(toks: Seq<Tok>, j: int) -> bool {
    0 <= j && j + 1 < toks.len() && is_punct(toks[j], ',') && is_ident(toks[j + 1], "returnval"@)
}

/// Once reached, a clause decides the outcome of the whole parse.
proof fn lemma_reaches_same_outcome(toks: Seq<Tok>, i: int, acc: ParamsView, j: int, a: ParamsView)
    requires
        reaches(toks, i, acc, j, a),
    ensures
        parse_clauses(toks, i, acc) == parse_clauses(toks, j, a),
    decreases toks.len() - i,
{
    if i == j && acc == a {
    } else {
        let (b, k) = parse_clause(toks, i, acc)->Ok_0;
        lemma_reaches_same_outcome(toks, k, b, j, a);
    }
}

/// A configured return channel stays configured along the parse.
proof fn lemma_reaches_keeps_returnval(toks: Seq<Tok>, i: int, acc: ParamsView, j: int, a: ParamsView)
    requires
        reaches(toks, i, acc, j, a),
        acc.returnval is Some,
    ensures
        a.returnval is Some,
    decreases toks.len() - i,
{
    if i == j && acc == a {
    } else {
        let (b, k) = parse_clause(toks, i, acc)->Ok_0;
        lemma_returnval_kept(toks, i, acc);
        lemma_reaches_keeps_returnval(toks, k, b, j, a);
    }
}

/// A `returnval` clause that parses configures a return channel.
proof fn lemma_returnval_clause_sets(toks: Seq<Tok>, j: int, a: ParamsView)
    requires
        returnval_clause_at(toks, j),
        parse_clause(toks, j, a) is Ok,
    ensures
        parse_clause(toks, j, a)->Ok_0.0.returnval is Some,
{
    reveal_strlit("returnval");
    reveal_strlit("trait");
    reveal_strlit("enum_attr");
    assert("returnval"@.len() != "trait"@.len());
    assert("returnval"@[0] != "enum_attr"@[0]);
    assert(!is_ident(toks[j + 1], "trait"@));
    assert(!is_ident(toks[j + 1], "enum_attr"@));
}

/// Arguments with two `returnval` clauses are rejected: when parsing from the
/// clauses' start reaches one `returnval` clause and, after it, another, the
/// whole parse fails.
pub proof fn lemma_two_returnvals_rejected(
    toks: Seq<Tok>,
    i: int,
    acc: ParamsView,
    j1: int,
    a1: ParamsView,
    j2: int,
    a2: ParamsView,
)
    requires
        reaches(toks, i, acc, j1, a1),
        returnval_clause_at(toks, j1),
        reaches(toks, j1, a1, j2, a2),
        j1 < j2,
        returnval_clause_at(toks, j2),
    ensures
        parse_clauses(toks, i, acc) is Err,
        parse_head(toks) == Ok::<(ParamsView, int), crate::config::ArgError>((acc, i)) ==> args_config(
            toks,
        ) is Err,
{
    lemma_reaches_same_outcome(toks, i, acc, j1, a1);
    if parse_clause(toks, j1, a1) is Err {
        assert(parse_clauses(toks, j1, a1) is Err);
    } else {
        let (b, k) = parse_clause(toks, j1, a1)->Ok_0;
        lemma_returnval_clause_sets(toks, j1, a1);
        assert(reaches(toks, k, b, j2, a2));
        lemma_reaches_keeps_returnval(toks, k, b, j2, a2);
        lemma_reaches_same_outcome(toks, j1, a1, j2, a2);
        lemma_second_returnval_rejected(toks, j2, a2);
    }
}

/// The enum and the dispatcher carry the bound `R: ::ctrlgen::Returnval`
/// exactly when a return channel `R` is configured, whatever the methods
/// return.
pub proof fn lemma_returnval_bound(d: InputDataView)
    ensures
        enum_of(d).where_predicates == match d.params.returnval {
            Some(rv) => seq![rv + ": ::ctrlgen::Returnval"@],
            None => Seq::<Seq<char>>::empty(),
        },
        dispatch_of(d).where_predicates == d.where_predicates + enum_of(d).where_predicates,
{
}

} // verus!
